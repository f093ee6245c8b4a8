//! Properties that hold across the operations of the application.
use vstd::prelude::*;
use crate::app::{AppView, toggled_mark, first_index, first_named, lemma_first_named, remapped_marks};
use crate::checkout::{CheckoutStep, CheckoutView};
use crate::events::{Action, Event, Key, KeyCode};
use crate::filter::{contains_seq, filtered_indexes, filtered_prefix, name_matches};
use crate::foreign::lowercase;
use crate::structs::{BranchKind, BranchView, DisplayMode};

verus! {

proof fn lemma_filtered_prefix(entries: Seq<BranchView>, filter: Option<Seq<char>>, n: nat)
    requires
        n <= entries.len(),
        entries.len() <= usize::MAX,
    ensures
        forall|i: int, j: int| 0 <= i < j < filtered_prefix(entries, filter, n).len()
            ==> filtered_prefix(entries, filter, n)[i] < filtered_prefix(entries, filter, n)[j],
        forall|i: int| 0 <= i < filtered_prefix(entries, filter, n).len()
            ==> filtered_prefix(entries, filter, n)[i] < n,
        forall|k: usize| filtered_prefix(entries, filter, n).contains(k)
            <==> (k < n && name_matches(entries[k as int].name, filter)),
    decreases n,
{
    if n > 0 {
        let m = (n - 1) as nat;
        lemma_filtered_prefix(entries, filter, m);
        let rest = filtered_prefix(entries, filter, m);
        assert forall|k: usize| filtered_prefix(entries, filter, n).contains(k)
            <==> (k < n && name_matches(entries[k as int].name, filter)) by {
            if name_matches(entries[m as int].name, filter) {
                let s = rest.push(m as usize);
                if s.contains(k) {
                    let t = choose|t: int| 0 <= t < s.len() && s[t] == k;
                    if t < rest.len() {
                        assert(rest[t] == k);
                        assert(rest.contains(k));
                    }
                }
                if k < n && name_matches(entries[k as int].name, filter) {
                    if k < m {
                        assert(rest.contains(k));
                        let t = choose|t: int| 0 <= t < rest.len() && rest[t] == k;
                        assert(s[t] == k);
                    } else {
                        assert(s[rest.len() as int] == k);
                    }
                }
            }
        }
    }
}

/// The listed branches, once the filter is applied, are exactly the entries
/// whose names pass the filter, in the order of the entries, each once.
pub proof fn law_filter_lists_exactly_the_matches(entries: Seq<BranchView>, filter: Option<Seq<char>>)
    requires
        entries.len() <= usize::MAX,
    ensures
        forall|k: usize| #[trigger] filtered_indexes(entries, filter).contains(k)
            <==> (k < entries.len() && name_matches(entries[k as int].name, filter)),
        forall|i: int, j: int| 0 <= i < j < filtered_indexes(entries, filter).len()
            ==> filtered_indexes(entries, filter)[i] < filtered_indexes(entries, filter)[j],
        forall|i: int| 0 <= i < filtered_indexes(entries, filter).len()
            ==> #[trigger] filtered_indexes(entries, filter)[i] < entries.len(),
{
    lemma_filtered_prefix(entries, filter, entries.len());
}

/// Without a filter every branch is listed, in order.
pub proof fn law_no_filter_lists_everything(entries: Seq<BranchView>)
    requires
        entries.len() <= usize::MAX,
    ensures
        filtered_indexes(entries, None).len() == entries.len(),
        forall|i: int| 0 <= i < entries.len() ==> #[trigger] filtered_indexes(entries, None)[i] == i,
{
    lemma_all_listed(entries, entries.len());
}

proof fn lemma_all_listed(entries: Seq<BranchView>, n: nat)
    requires
        n <= entries.len(),
        entries.len() <= usize::MAX,
    ensures
        filtered_prefix(entries, None, n).len() == n,
        forall|i: int| 0 <= i < n ==> #[trigger] filtered_prefix(entries, None, n)[i] == i,
    decreases n,
{
    if n > 0 {
        lemma_all_listed(entries, (n - 1) as nat);
    }
}

/// Moving the cursor down goes to the next listed branch, from the last one
/// to the first: from `c` to `(c + 1) mod len`; from no cursor to the first.
pub proof fn law_down_is_next_modulo_length(v: AppView)
    requires
        v.lengths_fit(),
        v.included.len() > 0,
        v.cursor_index matches Some(c) ==> c < v.included.len(),
    ensures
        v.moved_to_next().cursor_index == Some(
            match v.cursor_index {
                Some(c) => ((c + 1) % (v.included.len() as int)) as usize,
                None => 0usize,
            },
        ),
{
    let len = v.included.len() as int;
    if let Some(c) = v.cursor_index {
        if c + 1 < len {
            assert((c + 1) % len == c + 1) by (nonlinear_arith)
                requires 0 <= c + 1 < len;
        } else {
            assert((c + 1) % len == 0) by (nonlinear_arith)
                requires c + 1 == len, len > 0;
        }
    }
}

/// Moving the cursor up goes to the previous listed branch, from the first
/// one to the last: from `c` to `(c + len - 1) mod len`; from no cursor to
/// the first.
pub proof fn law_up_is_previous_modulo_length(v: AppView)
    requires
        v.lengths_fit(),
        v.included.len() > 0,
        v.cursor_index matches Some(c) ==> c < v.included.len(),
    ensures
        v.moved_to_previous().cursor_index == Some(
            match v.cursor_index {
                Some(c) => ((c + v.included.len() - 1) % (v.included.len() as int)) as usize,
                None => 0usize,
            },
        ),
{
    let len = v.included.len() as int;
    if let Some(c) = v.cursor_index {
        if c >= 1 {
            assert((c + len - 1) % len == c - 1) by (nonlinear_arith)
                requires 1 <= c < len;
        } else {
            assert((len - 1) % len == len - 1) by (nonlinear_arith)
                requires len > 0;
        }
    }
}

/// Whether the cursor is on one of the rows of the list that are shown, as
/// the step down counts them: at most `height` rows below the first one shown,
/// and only on the last of them when it is the last branch.
pub open spec fn cursor_shown(v: AppView) -> bool {
    let height = v.list_height();
    match v.cursor_index {
        Some(c) => v.offset <= c <= v.offset + height && (c < v.offset + height || c + 1
            == v.included.len()),
        None => true,
    }
}

/// A step down keeps a shown cursor shown on a terminal of at least three
/// rows, a step up on one of at least four. (On three rows a step up can
/// leave the cursor on the second of the two rows the list has, which the
/// step down does not count as shown.)
pub proof fn law_steps_keep_the_cursor_shown(v: AppView)
    requires
        v.lengths_fit(),
        v.viewport_height >= 3,
        v.cursor_index matches Some(c) ==> c < v.included.len(),
        cursor_shown(v),
    ensures
        cursor_shown(v.moved_to_next()),
        v.viewport_height >= 4 ==> cursor_shown(v.moved_to_previous()),
{
}

/// Moving the cursor down and then up brings it back to where it was, also
/// across the wrap from the last branch to the first.
pub proof fn law_next_then_previous_restores_cursor(v: AppView)
    requires
        v.lengths_fit(),
        v.cursor_index matches Some(c) && c < v.included.len(),
    ensures
        v.moved_to_next().moved_to_previous().cursor_index == v.cursor_index,
{
    let c = v.cursor_index.unwrap();
    let w = v.moved_to_next();
    if c + 1 < v.included.len() {
        assert(w.cursor_index == Some((c + 1) as usize));
    } else {
        assert(w.cursor_index == Some(0usize));
    }
    assert(w.included == v.included);
}

/// Moving the cursor up and then down brings it back to where it was, also
/// across the wrap from the first branch to the last.
pub proof fn law_previous_then_next_restores_cursor(v: AppView)
    requires
        v.lengths_fit(),
        v.cursor_index matches Some(c) && c < v.included.len(),
    ensures
        v.moved_to_previous().moved_to_next().cursor_index == v.cursor_index,
{
}

proof fn lemma_first_index_finds(s: Seq<usize>, x: usize)
    ensures
        first_index(s, x) == -1 <==> !s.contains(x),
        s.contains(x) ==> 0 <= first_index(s, x) < s.len() && s[first_index(s, x)] == x,
    decreases s.len(),
{
    if s.len() > 0 {
        lemma_first_index_finds(s.drop_first(), x);
        if s[0] != x {
            if s.contains(x) {
                let t = choose|t: int| 0 <= t < s.len() && s[t] == x;
                assert(s.drop_first()[t - 1] == x);
            }
            if s.drop_first().contains(x) {
                let t = choose|t: int| 0 <= t < s.len() - 1 && s.drop_first()[t] == x;
                assert(s[t + 1] == x);
            }
        } else {
            assert(s[0] == x);
        }
    }
}

/// Toggling a mark twice leaves the same set of marks when no branch was
/// marked twice, and the very same marks when the branch was not marked;
/// toggling never marks a branch twice.
pub proof fn law_toggling_a_mark_twice(marked: Seq<usize>, bi: usize)
    requires
        marked.no_duplicates(),
    ensures
        toggled_mark(marked, bi).no_duplicates(),
        toggled_mark(toggled_mark(marked, bi), bi).to_set() == marked.to_set(),
        !marked.contains(bi) ==> toggled_mark(toggled_mark(marked, bi), bi) == marked,
{
    lemma_first_index_finds(marked, bi);
    if marked.contains(bi) {
        let p = first_index(marked, bi);
        let once = marked.remove(p);
        assert(!once.contains(bi)) by {
            if once.contains(bi) {
                let t = choose|t: int| 0 <= t < once.len() && once[t] == bi;
                if t < p {
                    assert(marked[t] == bi);
                } else {
                    assert(marked[t + 1] == bi);
                }
            }
        }
        assert(once.no_duplicates()) by {
            assert forall|i: int, j: int| 0 <= i < j < once.len() implies once[i] != once[j] by {
                let a = if i < p { i } else { i + 1 };
                let b = if j < p { j } else { j + 1 };
                assert(once[i] == marked[a] && once[j] == marked[b]);
            }
        }
        lemma_first_index_finds(once, bi);
        let twice = once.push(bi);
        assert(twice.to_set() =~= marked.to_set()) by {
            assert forall|x: usize| twice.to_set().contains(x) <==> marked.to_set().contains(x) by {
                if twice.contains(x) {
                    let t = choose|t: int| 0 <= t < twice.len() && twice[t] == x;
                    if t < once.len() {
                        let a = if t < p { t } else { t + 1 };
                        assert(marked[a] == x);
                    } else {
                        assert(marked[p] == x);
                    }
                }
                if marked.contains(x) {
                    let t = choose|t: int| 0 <= t < marked.len() && marked[t] == x;
                    if t < p {
                        assert(twice[t] == x);
                    } else if t == p {
                        assert(twice[once.len() as int] == x);
                    } else {
                        assert(twice[t - 1] == x);
                    }
                }
            }
        }
    } else {
        let once = marked.push(bi);
        assert(once.no_duplicates());
        lemma_first_index_finds(once, bi);
        assert(once[marked.len() as int] == bi);
        assert(first_index(once, bi) == marked.len()) by {
            let q = first_index(once, bi);
            if q < marked.len() {
                assert(once[q] == marked[q]);
                assert(marked.contains(bi));
            }
        }
        assert(once.remove(marked.len() as int) =~= marked);
    }
}

/// Marking the branch under the cursor twice leaves the same branches marked,
/// and the very same marks when it was not marked before.
pub proof fn law_marking_twice(v: AppView)
    requires
        v.cursor_in_range(),
        v.marked.no_duplicates(),
    ensures
        v.marked_current().cursor_in_range(),
        v.marked_current().marked.no_duplicates(),
        v.marked_current().marked_current().marked.to_set() == v.marked.to_set(),
        (v.cursor_branch() matches Some(bi) && !v.marked.contains(bi)) ==> v.marked_current().marked_current().marked
            == v.marked,
{
    if let Some(bi) = v.cursor_branch() {
        law_toggling_a_mark_twice(v.marked, bi);
    }
}

/// The key Q quits from every state but the editing of the filter, and
/// changes nothing; while the filter is edited, Q is typed into it.
pub proof fn law_q_quits_outside_the_filter(v: AppView, key: Key)
    requires
        key.code == KeyCode::Char('Q'),
    ensures
        !(v.display_mode == DisplayMode::Filter && v.alert is None) ==> v.after_event(Event::Press(key))
            == (v, Action::Quit),
        (v.display_mode == DisplayMode::Filter && v.alert is None) ==> v.after_event(Event::Press(key))
            == (v.after_filter_key(KeyCode::Char('Q')), Action::Continue),
{
}

/// While an alert is shown, every key but Q only dismisses it (Esc, Enter or
/// q) or does nothing.
pub proof fn law_alert_takes_every_key(v: AppView, key: Key)
    requires
        v.alert is Some,
        key.code != KeyCode::Char('Q'),
    ensures
        v.after_event(Event::Press(key)).1 == Action::Continue,
        v.after_event(Event::Press(key)).0 == (AppView { alert: v.after_event(Event::Press(key)).0.alert, ..v }),
        (v.after_event(Event::Press(key)).0.alert is None) == (key.code == KeyCode::Esc || key.code
            == KeyCode::Enter || key.code == KeyCode::Char('q')),
{
}

/// A plain key press of this character.
pub open spec fn typed(c: char) -> Event {
    Event::Press(Key { code: KeyCode::Char(c), ctrl: false, shift: false })
}

/// A plain press of this key.
pub open spec fn pressed(code: KeyCode) -> Event {
    Event::Press(Key { code, ctrl: false, shift: false })
}

/// In the filter, typing a character and then Backspace gives back the
/// filter and the list of before.
pub proof fn law_typing_then_backspace(v: AppView, c: char)
    requires
        v.display_mode == DisplayMode::Filter,
        v.alert is None,
        v.active_filter matches Some(f) ==> f.len() > 0,
        v.included == filtered_indexes(v.entries, v.active_filter),
    ensures
        v.after_event(typed(c)).0.after_event(pressed(KeyCode::Backspace)).0 == v,
{
    let w = v.after_event(typed(c)).0;
    let g = match v.active_filter { Some(f) => f.push(c), None => seq![c] };
    assert(w.active_filter == Some(g));
    assert(g.drop_last() =~= match v.active_filter { Some(f) => f, None => Seq::empty() });
}

/// Pressing t twice reads the kind of branches that was read before.
pub proof fn law_toggle_twice(v: AppView)
    requires
        v.display_mode == DisplayMode::Normal,
        v.alert is None,
        v.branch_type == Some(BranchKind::Local) || v.branch_type is None,
    ensures
        v.after_event(typed('t')).0.after_event(typed('t')).0.branch_type == v.branch_type,
        v.after_event(typed('t')).1 == Action::Load(crate::events::LoadReason::Toggle),
        v.after_event(typed('t')).0.branch_type != v.branch_type,
{
}

/// With nothing marked, asking to delete the branch under the cursor and
/// answering no gives back the state of before.
pub proof fn law_delete_then_cancel(v: AppView)
    requires
        v.display_mode == DisplayMode::Normal,
        v.alert is None,
        v.marked.len() == 0,
        v.cursor_in_range(),
        v.cursor_branch() matches Some(bi) && !v.entries[bi as int].current,
    ensures
        v.after_event(typed('d')).0.display_mode == DisplayMode::ConfirmDeletion(false),
        v.after_event(typed('d')).0.marked == seq![v.cursor_branch().unwrap()],
        v.after_event(typed('d')).0.after_event(pressed(KeyCode::Esc)).0 == v,
{
}

/// Cancelling the deletion of branches marked by hand keeps their marks.
pub proof fn law_cancel_keeps_hand_marks(v: AppView)
    requires
        v.display_mode == DisplayMode::ConfirmDeletion(true),
        v.alert is None,
    ensures
        v.after_event(pressed(KeyCode::Esc)).0 == (AppView { display_mode: DisplayMode::Normal, ..v }),
{
}

/// Opening the help and leaving it gives back the state of before.
pub proof fn law_help_round_trip(v: AppView)
    requires
        v.display_mode == DisplayMode::Normal,
        v.alert is None,
    ensures
        v.after_event(typed('h')).0.after_event(typed('q')).0 == v,
{
}

/// Freshly read branches are kept newest first, all of them and no others.
pub proof fn law_loaded_branches_newest_first(v: AppView, reason: crate::events::LoadReason, read: Seq<BranchView>)
    ensures
        crate::order::is_newest_first(v.after_load(reason, read).entries),
        v.after_load(reason, read).entries.to_multiset() == read.to_multiset(),
{
    crate::order::lemma_newest_first(read);
}

/// Checking out a local branch never creates a branch or sets an upstream.
pub proof fn law_local_checkout_creates_nothing(c: CheckoutView, failed: bool, text: Seq<char>)
    requires
        c.branch_type == BranchKind::Local,
        c.step != CheckoutStep::FindLocalBranch,
        c.step != CheckoutStep::CreateLocalBranch,
        c.step != CheckoutStep::SetUpstream,
    ensures
        c.after(failed, text).step != CheckoutStep::FindLocalBranch,
        c.after(failed, text).step != CheckoutStep::CreateLocalBranch,
        c.after(failed, text).step != CheckoutStep::SetUpstream,
{
}

/// A failed step ends the checkout with an alert, except that a local branch
/// that cannot be found is created instead.
pub proof fn law_failed_step_ends_checkout(c: CheckoutView, text: Seq<char>)
    requires
        c.step != CheckoutStep::FindLocalBranch,
        c.step != CheckoutStep::ReadReferenceName,
        c.step != CheckoutStep::Finished,
    ensures
        c.after(true, text).step == CheckoutStep::Finished,
        c.after(true, text).alert is Some,
{
}

/// A checkout that goes through every step ends without an alert, and the
/// branch it started from is what is looked up first.
pub proof fn law_successful_steps_end_cleanly(c: CheckoutView, text: Seq<char>)
    requires
        c.alert is None,
        c.step != CheckoutStep::PeelToCommit || c.branch_type == BranchKind::Local
            || crate::checkout::local_name_for_remote(c.branch_name) is Some,
    ensures
        c.after(false, text).alert is None,
{
}

/// R drops the filter and asks for the branches to be read again; once they
/// arrive every branch is listed, newest first, and the cursor is on a
/// listed branch.
pub proof fn law_r_resets_the_filter_and_reloads(v: AppView, read: Seq<BranchView>)
    requires
        v.lengths_fit(),
        read.len() <= usize::MAX,
        v.display_mode == DisplayMode::Normal,
        v.alert is None,
    ensures
        v.after_event(typed('R')).1 == Action::Load(crate::events::LoadReason::Refresh),
        v.after_event(typed('R')).0.active_filter is None,
        ({
            let w = v.after_event(typed('R')).0.after_load(crate::events::LoadReason::Refresh, read);
            &&& w.included.len() == read.len()
            &&& forall|i: int| 0 <= i < read.len() ==> #[trigger] w.included[i] == i
            &&& (w.cursor_index matches Some(c) ==> read.len() == 0 || c < read.len())
        }),
{
    crate::order::lemma_newest_first(read);
    law_no_filter_lists_everything(crate::order::newest_first(read));
}

/// No event changes the branches that were read, nor which kind of branches
/// is read, except t, which switches between local and all branches.
pub proof fn law_events_keep_the_branches(v: AppView, event: Event)
    ensures
        v.after_event(event).0.entries == v.entries,
        !(event matches Event::Press(k) && k.code == KeyCode::Char('t')) ==> v.after_event(event).0.branch_type
            == v.branch_type,
{
}

/// The sequences of every application state have lengths that fit a vector,
/// so the laws that ask for it hold of every state.
pub proof fn law_states_fit_in_memory(app: &crate::app::App)
    ensures
        app@.lengths_fit(),
{
    assert(app.branches.entries@.len() == app.branches.entries.len());
    assert(app.branches.included_indexes@.len() == app.branches.included_indexes.len());
    assert(app.branches.marked_indexes@.len() == app.branches.marked_indexes.len());
    assert(crate::structs::branch_views(app.branches.entries@).len() == app.branches.entries@.len());
}

/// Whether no mark points at the branch that is checked out.
pub open spec fn marks_avoid_current(v: AppView) -> bool {
    forall|i: int| 0 <= i < v.marked.len() && #[trigger] v.marked[i] < v.entries.len()
        ==> !v.entries[v.marked[i] as int].current
}

/// The branch that is checked out is never marked for deletion by a key.
pub proof fn law_current_branch_is_never_marked(v: AppView, event: Event)
    requires
        marks_avoid_current(v),
    ensures
        marks_avoid_current(v.after_event(event).0),
{
    let w = v.after_event(event).0;
    assert(w.entries == v.entries);
    if let Some(bi) = v.cursor_branch() {
        assert forall|i: int| 0 <= i < v.marked_current().marked.len() && #[trigger] v.marked_current().marked[i]
            < v.entries.len() implies !v.entries[v.marked_current().marked[i] as int].current by {
            if !v.entries[bi as int].current {
                let p = first_index(v.marked, bi);
                lemma_first_index_finds(v.marked, bi);
                if p >= 0 {
                    let m = v.marked.remove(p);
                    if i < p {
                        assert(m[i] == v.marked[i]);
                    } else {
                        assert(m[i] == v.marked[i + 1]);
                    }
                } else {
                    if i < v.marked.len() {
                        assert(v.marked.push(bi)[i] == v.marked[i]);
                    }
                }
            }
        }
    }
}

/// Every mark that an event leaves was there before or is the branch that
/// was under the cursor: marks are only ever made on the branch the cursor
/// shows.
pub proof fn law_marks_are_made_under_the_cursor(v: AppView, event: Event)
    ensures
        forall|i: int| 0 <= i < v.after_event(event).0.marked.len() ==> v.marked.contains(
            #[trigger] v.after_event(event).0.marked[i],
        ) || v.cursor_branch() == Some(v.after_event(event).0.marked[i]),
{
    let w = v.after_event(event).0;
    assert forall|i: int| 0 <= i < w.marked.len() implies v.marked.contains(#[trigger] w.marked[i])
        || v.cursor_branch() == Some(w.marked[i]) by {
        if w.marked != v.marked {
            if let Some(bi) = v.cursor_branch() {
                if w.marked == toggled_mark(v.marked, bi) {
                    let p = first_index(v.marked, bi);
                    lemma_first_index_finds(v.marked, bi);
                    if p >= 0 {
                        let k = if i < p { i } else { i + 1 };
                        assert(v.marked.remove(p)[i] == v.marked[k]);
                    } else if i < v.marked.len() {
                        assert(v.marked.push(bi)[i] == v.marked[i]);
                    }
                }
            }
        }
    }
}

proof fn lemma_first_named_finds(entries: Seq<BranchView>, name: Seq<char>)
    ensures
        first_named(entries, name) >= 0 ==> first_named(entries, name) < entries.len()
            && entries[first_named(entries, name)].name == name,
        first_named(entries, name) >= -1,
    decreases entries.len(),
{
    if entries.len() > 0 {
        lemma_first_named_finds(entries.drop_first(), name);
    }
}

proof fn lemma_remapped_marks(old: Seq<BranchView>, marks: Seq<usize>, new: Seq<BranchView>)
    requires
        new.len() <= usize::MAX,
    ensures
        remapped_marks(old, marks, new).len() <= marks.len(),
        forall|i: int| 0 <= i < remapped_marks(old, marks, new).len() ==> {
            let j = #[trigger] remapped_marks(old, marks, new)[i];
            &&& j < new.len()
            &&& exists|k: int| 0 <= k < marks.len() && marks[k] < old.len() && new[j as int].name
                == old[marks[k] as int].name
        },
    decreases marks.len(),
{
    if marks.len() > 0 {
        let rest = marks.drop_last();
        lemma_remapped_marks(old, rest, new);
        let r = remapped_marks(old, marks, new);
        let m = marks.last();
        if m < old.len() {
            lemma_first_named_finds(new, old[m as int].name);
        }
        assert forall|i: int| 0 <= i < r.len() implies ({
            let j = #[trigger] r[i];
            &&& j < new.len()
            &&& exists|k: int| 0 <= k < marks.len() && marks[k] < old.len() && new[j as int].name
                == old[marks[k] as int].name
        }) by {
            let rr = remapped_marks(old, rest, new);
            if i < rr.len() {
                assert(r[i] == rr[i]);
                let k = choose|k: int| 0 <= k < rest.len() && rest[k] < old.len() && new[rr[i] as int].name
                    == old[rest[k] as int].name;
                assert(marks[k] == rest[k]);
            } else {
                let k = marks.len() - 1;
                assert(marks[k] == m);
                assert(m < old.len() && first_named(new, old[m as int].name) >= 0);
                assert(r[i] == first_named(new, old[m as int].name) as usize);
                assert(new[r[i] as int].name == old[marks[k] as int].name);
            }
        }
    }
}

/// Reading the branches again keeps the marks on the branches that carry
/// the marked names: every mark afterwards points at a branch that was read
/// and whose name was marked before, so no unmarked branch becomes marked.
pub proof fn law_marks_follow_their_branches(v: AppView, reason: crate::events::LoadReason, read: Seq<BranchView>)
    requires
        read.len() <= usize::MAX,
    ensures
        ({
            let w = v.after_load(reason, read);
            forall|i: int| 0 <= i < w.marked.len() ==> {
                &&& #[trigger] w.marked[i] < w.entries.len()
                &&& exists|k: int| 0 <= k < v.marked.len() && v.marked[k] < v.entries.len()
                    && w.entries[w.marked[i] as int].name == v.entries[v.marked[k] as int].name
            }
        }),
{
    crate::order::lemma_newest_first(read);
    lemma_remapped_marks(v.entries, v.marked, crate::order::newest_first(read));
}

/// Whether no two entries have the same name, as no two branches of a
/// repository do.
pub open spec fn names_unique(entries: Seq<BranchView>) -> bool {
    forall|i: int, j: int| 0 <= i < j < entries.len() ==> entries[i].name != entries[j].name
}

proof fn lemma_remap_onto_itself(entries: Seq<BranchView>, marks: Seq<usize>)
    requires
        names_unique(entries),
        forall|k: int| 0 <= k < marks.len() ==> #[trigger] marks[k] < entries.len(),
    ensures
        remapped_marks(entries, marks, entries) == marks,
    decreases marks.len(),
{
    if marks.len() > 0 {
        let rest = marks.drop_last();
        assert forall|k: int| 0 <= k < rest.len() implies #[trigger] rest[k] < entries.len() by {
            assert(rest[k] == marks[k]);
        }
        lemma_remap_onto_itself(entries, rest);
        let m = marks.last();
        assert(marks[marks.len() - 1] < entries.len());
        lemma_first_named(entries, entries[m as int].name, m as int);
        assert(remapped_marks(entries, marks, entries) =~= marks);
    }
}

proof fn lemma_sorted_stays(s: Seq<BranchView>)
    requires
        crate::order::is_newest_first(s),
    ensures
        crate::order::newest_first(s) == s,
    decreases s.len(),
{
    if s.len() > 0 {
        let rest = s.drop_first();
        lemma_sorted_stays(rest);
        if rest.len() > 0 {
            assert(rest[0].last_commit_at <= s[0].last_commit_at);
        }
        assert(crate::order::newer_prefix_len(rest, s[0].last_commit_at) == 0);
        assert(rest.insert(0, s[0]) =~= s);
    }
}

/// Reading the same branches again changes nothing: the marks stay on their
/// branches and the list stays as it was (for a refresh, with the cursor on a
/// branch).
pub proof fn law_unchanged_reload_changes_nothing(v: AppView, reason: crate::events::LoadReason)
    requires
        crate::order::is_newest_first(v.entries),
        names_unique(v.entries),
        v.marks_in_range(),
        v.included == filtered_indexes(v.entries, v.active_filter),
        reason == crate::events::LoadReason::Refresh ==> (v.cursor_index matches Some(c) ==> c
            < v.entries.len()),
    ensures
        v.after_load(reason, v.entries) == v,
{
    lemma_sorted_stays(v.entries);
    lemma_remap_onto_itself(v.entries, v.marked);
}

/// Only an answer y or Y to the deletion question asks for the marked
/// branches to be deleted; d and Delete only ask the question.
pub proof fn law_only_yes_deletes(v: AppView, event: Event)
    ensures
        v.after_event(event).1 == Action::DeleteMarked <==> (v.display_mode is ConfirmDeletion
            && v.alert is None && event is Press && (event->Press_0.code == KeyCode::Char('y')
            || event->Press_0.code == KeyCode::Char('Y'))),
{
}

/// The state before any branch is read is well formed, and every event and
/// every outcome of reading, deleting or checking out keeps the list and the
/// marks pointing at branches that exist.
pub proof fn law_operations_keep_the_state_well_formed(
    v: AppView,
    event: Event,
    reason: crate::events::LoadReason,
    read: Seq<BranchView>,
    message: Seq<char>,
    alert: crate::structs::AlertView,
    vh: u16,
)
    requires
        v.well_formed(),
        v.lengths_fit(),
        read.len() <= usize::MAX,
    ensures
        crate::app::initial_view(vh).well_formed(),
        v.after_event(event).0.well_formed(),
        v.after_load(reason, read).well_formed(),
        v.after_load_failure(reason, message).well_formed(),
        v.after_deletion().well_formed(),
        (AppView { alert: Some(alert), ..v }).well_formed(),
{
    law_filter_lists_exactly_the_matches(v.entries, None);
    law_filter_lists_exactly_the_matches(v.entries, v.active_filter);
    crate::order::lemma_newest_first(read);
    law_filter_lists_exactly_the_matches(crate::order::newest_first(read), v.active_filter);
    let w = v.after_event(event).0;
    assert(w.entries == v.entries);
    assert forall|i: int| 0 <= i < w.marked.len() implies #[trigger] w.marked[i] < w.entries.len() by {
        law_marks_are_made_under_the_cursor(v, event);
        if v.marked.contains(w.marked[i]) {
            let t = choose|t: int| 0 <= t < v.marked.len() && v.marked[t] == w.marked[i];
            assert(v.marked[t] < v.entries.len());
        }
    }
    assert forall|i: int| 0 <= i < w.included.len() implies #[trigger] w.included[i] < w.entries.len() by {
        if w.included != v.included {
            let f = w.active_filter;
            law_filter_lists_exactly_the_matches(v.entries, f);
            assert(filtered_indexes(v.entries, f).contains(w.included[i]));
        }
    }
    let l = v.after_load(reason, read);
    law_marks_follow_their_branches(v, reason, read);
    assert forall|i: int| 0 <= i < l.included.len() implies #[trigger] l.included[i] < l.entries.len() by {
        assert(filtered_indexes(crate::order::newest_first(read), v.active_filter).contains(l.included[i]));
    }
}

/// Enter in the normal view asks to check out the branch shown on the
/// cursor's row: the entry that the list holds at the cursor's position,
/// whatever the filter hides; Shift+Enter asks to leave afterwards. Nothing
/// else changes.
pub proof fn law_enter_checks_out_the_listed_branch(v: AppView, c: usize, shift: bool)
    requires
        v.display_mode == DisplayMode::Normal,
        v.alert is None,
        v.cursor_index == Some(c),
        c < v.included.len(),
    ensures
        v.after_event(Event::Press(Key { code: KeyCode::Enter, ctrl: false, shift })).0 == v,
        v.after_event(Event::Press(Key { code: KeyCode::Enter, ctrl: false, shift })).1
            == (Action::Checkout { branch_index: v.included[c as int], quit_after: shift }),
{
}

/// Enter in the normal view with no branch under the cursor checks out
/// nothing.
pub proof fn law_enter_off_the_list_does_nothing(v: AppView, shift: bool)
    requires
        v.display_mode == DisplayMode::Normal,
        v.alert is None,
        v.cursor_index matches Some(c) ==> c >= v.included.len(),
    ensures
        v.after_event(Event::Press(Key { code: KeyCode::Enter, ctrl: false, shift })) == (v, Action::Continue),
{
}

/// x marks the branch shown on the cursor's row, the entry that the list
/// holds at the cursor's position, unless it is the current branch.
pub proof fn law_x_marks_the_listed_branch(v: AppView, c: usize)
    requires
        v.display_mode == DisplayMode::Normal,
        v.alert is None,
        v.cursor_index == Some(c),
        c < v.included.len(),
        v.included[c as int] < v.entries.len(),
        !v.entries[v.included[c as int] as int].current,
        !v.marked.contains(v.included[c as int]),
    ensures
        v.after_event(typed('x')).0 == (AppView { marked: v.marked.push(v.included[c as int]), ..v }),
        v.after_event(typed('x')).1 == Action::Continue,
{
    lemma_first_index_finds(v.marked, v.included[c as int]);
}

/// The names handed over for deletion are those of the entries that the
/// marks point at, one for each mark and in the order of the marks; which
/// branches the filter lists plays no part.
pub proof fn law_deletion_names_the_marked_entries(v: AppView)
    requires
        v.marks_in_range(),
    ensures
        v.marked_names().len() == v.marked.len(),
        forall|i: int| 0 <= i < v.marked.len() ==> #[trigger] v.marked_names()[i]
            == v.entries[v.marked[i] as int].name,
{
    crate::app::lemma_names_of_marks_in_range(v.entries, v.marked);
}

/// Whether `needle` stands in `haystack` character by character from
/// position `i` on.
pub open spec fn occurs_at(haystack: Seq<char>, needle: Seq<char>, i: int) -> bool {
    &&& 0 <= i
    &&& i + needle.len() <= haystack.len()
    &&& forall|k: int| 0 <= k < needle.len() ==> haystack[i + k] == #[trigger] needle[k]
}

/// A name contains the filter text exactly when the text stands in it as an
/// unbroken run of characters at some position; in particular the text is
/// never longer than a name that contains it.
pub proof fn law_containing_is_an_unbroken_run(haystack: Seq<char>, needle: Seq<char>)
    ensures
        contains_seq(haystack, needle) <==> exists|i: int| #[trigger] occurs_at(haystack, needle, i),
        contains_seq(haystack, needle) ==> needle.len() <= haystack.len(),
{
    if contains_seq(haystack, needle) {
        let i = choose|i: int| 0 <= i && i + needle.len() <= haystack.len()
            && #[trigger] haystack.subrange(i, i + needle.len()) == needle;
        assert forall|k: int| 0 <= k < needle.len() implies haystack[i + k] == #[trigger] needle[k] by {
            assert(haystack.subrange(i, i + needle.len())[k] == haystack[i + k]);
        }
        assert(occurs_at(haystack, needle, i));
    }
    if exists|i: int| #[trigger] occurs_at(haystack, needle, i) {
        let i = choose|i: int| #[trigger] occurs_at(haystack, needle, i);
        assert(haystack.subrange(i, i + needle.len()) =~= needle);
    }
}

/// Text put between any two pieces is contained in the result.
pub proof fn law_text_is_contained_where_it_stands(before: Seq<char>, needle: Seq<char>, after: Seq<char>)
    ensures
        contains_seq(before + needle + after, needle),
{
    let h = before + needle + after;
    let i = before.len() as int;
    assert(h.subrange(i, i + needle.len()) =~= needle);
}

/// With a filter, the listed branches are the entries whose lowercase name
/// holds the lowercase filter as an unbroken run of characters.
pub proof fn law_filter_lists_names_holding_the_text(entries: Seq<BranchView>, f: Seq<char>)
    requires
        entries.len() <= usize::MAX,
    ensures
        forall|k: usize| #[trigger] filtered_indexes(entries, Some(f)).contains(k)
            <==> (k < entries.len() && exists|i: int| #[trigger] occurs_at(
                lowercase(entries[k as int].name),
                lowercase(f),
                i,
            )),
{
    law_filter_lists_exactly_the_matches(entries, Some(f));
    assert forall|k: usize| #[trigger] filtered_indexes(entries, Some(f)).contains(k)
        <==> (k < entries.len() && exists|i: int| #[trigger] occurs_at(
            lowercase(entries[k as int].name),
            lowercase(f),
            i,
        )) by {
        law_containing_is_an_unbroken_run(lowercase(entries[k as int].name), lowercase(f));
    }
}

/// Ctrl+u moves the cursor half a screen up: from `c` to `c - half + 1`
/// when the cursor is at least half a screen down, else to the first
/// branch; the list scrolls up so that the cursor stays shown, and nothing
/// else changes.
pub proof fn law_ctrl_u_jumps_half_a_screen_up(v: AppView, c: usize, shift: bool)
    requires
        v.lengths_fit(),
        v.display_mode == DisplayMode::Normal,
        v.alert is None,
        v.cursor_index == Some(c),
        c < v.included.len(),
    ensures
        ({
            let half = v.viewport_height / 2;
            let w = v.after_event(Event::Press(Key { code: KeyCode::Char('u'), ctrl: true, shift })).0;
            &&& v.after_event(Event::Press(Key { code: KeyCode::Char('u'), ctrl: true, shift })).1
                == Action::Continue
            &&& w == (AppView { cursor_index: w.cursor_index, offset: w.offset, ..v })
            &&& c >= half ==> w.cursor_index == Some((c - half + 1) as usize)
            &&& c >= half ==> w.offset == (if c - half <= v.offset { (c - half) as usize } else { v.offset })
            &&& c >= half ==> w.offset <= c - half + 1
            &&& c < half ==> w.cursor_index == Some(0usize) && w.offset == 0
        }),
{
}

/// Ctrl+d moves the cursor half a screen down: from `c` to `c + half - 1`
/// when that stays on the list, else to the last branch.
pub proof fn law_ctrl_d_jumps_half_a_screen_down(v: AppView, c: usize, shift: bool)
    requires
        v.lengths_fit(),
        v.display_mode == DisplayMode::Normal,
        v.alert is None,
        v.cursor_index == Some(c),
        c < v.included.len(),
        v.viewport_height >= 2,
    ensures
        ({
            let half = v.viewport_height / 2;
            let w = v.after_event(Event::Press(Key { code: KeyCode::Char('d'), ctrl: true, shift })).0;
            &&& v.after_event(Event::Press(Key { code: KeyCode::Char('d'), ctrl: true, shift })).1
                == Action::Continue
            &&& w == (AppView { cursor_index: w.cursor_index, offset: w.offset, ..v })
            &&& c + half < v.included.len() ==> w.cursor_index == Some((c + half - 1) as usize)
            &&& c + half >= v.included.len() ==> w.cursor_index == Some((v.included.len() - 1) as usize)
        }),
{
}

/// In the help view, Esc, q and h lead back to the branch list and change
/// nothing else.
pub proof fn law_help_closes_on_esc_q_or_h(v: AppView, code: KeyCode)
    requires
        v.display_mode == DisplayMode::Help,
        v.alert is None,
        code == KeyCode::Esc || code == KeyCode::Char('q') || code == KeyCode::Char('h'),
    ensures
        v.after_event(pressed(code)) == (AppView { display_mode: DisplayMode::Normal, ..v }, Action::Continue),
{
}


} // verus!
