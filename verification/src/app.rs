//! The application state and everything that a key press does to it.
use vstd::prelude::*;
use crate::events::{Action, Event, Key, KeyCode, LoadReason};
use crate::filter::{filtered_indexes, filtered_prefix, lowercase_filter, matches_lowercase_filter};
use crate::foreign::{char_of_key, key_char, next_selection, pop_char, previous_selection, push_char, table_select_next, table_select_previous};
use crate::order::{newest_first, sort_newest_first};
use crate::structs::{Alert, AlertView, Branch, BranchKind, BranchView, Branches, DisplayMode, TableView, branch_views};

verus! {

/// Rows at the top of the screen that the branch list does not use.
pub const UI_HEIGHT: u16 = 1;

/// The whole state of the application.
pub struct App {
    /// Rows of the terminal.
    pub viewport_height: u16,
    pub display_mode: DisplayMode,
    /// A message that covers the screen until it is dismissed.
    pub alert: Option<Alert>,
    /// The text that branch names are filtered on, if any.
    pub active_filter: Option<String>,
    /// Position of the cursor in the listed branches, if it is shown.
    pub cursor_index: Option<usize>,
    pub branches: Branches,
    /// Scroll state of the help table.
    pub help_state: TableView,
    /// Extra text for the status line; nothing sets it.
    pub debug_text: Option<String>,
}

/// The mathematical value of an [`App`].
#[verifier::ext_equal]
pub struct AppView {
    pub viewport_height: u16,
    pub display_mode: DisplayMode,
    pub alert: Option<AlertView>,
    pub active_filter: Option<Seq<char>>,
    pub cursor_index: Option<usize>,
    /// All branches that were read.
    pub entries: Seq<BranchView>,
    /// Indexes into `entries` of the listed branches.
    pub included: Seq<usize>,
    /// Indexes into `entries` of the marked branches.
    pub marked: Seq<usize>,
    pub branch_type: Option<BranchKind>,
    /// Index of the first listed branch shown on screen.
    pub offset: usize,
    pub help: TableView,
    pub debug_text: Option<Seq<char>>,
}

/// The characters of an optional string.
pub open spec fn opt_text(o: Option<String>) -> Option<Seq<char>> {
    match o {
        Some(s) => Some(s@),
        None => None,
    }
}

/// The value of an optional alert.
pub open spec fn opt_alert(o: Option<Alert>) -> Option<AlertView> {
    match o {
        Some(a) => Some(a@),
        None => None,
    }
}

impl View for App {
    type V = AppView;

    open spec fn view(&self) -> AppView {
        AppView {
            viewport_height: self.viewport_height,
            display_mode: self.display_mode,
            alert: opt_alert(self.alert),
            active_filter: opt_text(self.active_filter),
            cursor_index: self.cursor_index,
            entries: branch_views(self.branches.entries@),
            included: self.branches.included_indexes@,
            marked: self.branches.marked_indexes@,
            branch_type: self.branches.branch_type,
            offset: self.branches.state.offset,
            help: self.help_state,
            debug_text: opt_text(self.debug_text),
        }
    }
}

/// Index of the first occurrence of `x` in `s`, or -1 when there is none.
pub open spec fn first_index(s: Seq<usize>, x: usize) -> int
    decreases s.len(),
{
    if s.len() == 0 {
        -1
    } else if s[0] == x {
        0
    } else {
        let r = first_index(s.drop_first(), x);
        if r < 0 { -1 } else { r + 1 }
    }
}

proof fn lemma_first_index(s: Seq<usize>, x: usize, j: int)
    requires
        0 <= j <= s.len(),
        forall|t: int| 0 <= t < j ==> s[t] != x,
        j == s.len() || s[j] == x,
    ensures
        first_index(s, x) == if j == s.len() { -1 } else { j },
    decreases s.len(),
{
    if s.len() > 0 && j > 0 {
        lemma_first_index(s.drop_first(), x, j - 1);
    }
}

/// Where the marks point after a toggle of `bi`: the first mark of it goes,
/// or a mark of it is added at the end.
pub open spec fn toggled_mark(marked: Seq<usize>, bi: usize) -> Seq<usize> {
    let p = first_index(marked, bi);
    if p >= 0 { marked.remove(p) } else { marked.push(bi) }
}

impl AppView {
    /// Whether the sequences have lengths that a vector can have, as those of
    /// every [`App`] do.
    pub open spec fn lengths_fit(self) -> bool {
        &&& self.entries.len() <= usize::MAX
        &&& self.included.len() <= usize::MAX
        &&& self.marked.len() <= usize::MAX
    }

    /// `a - b`, or 0 when `b` is larger.
    pub open spec fn saturating_sub(a: int, b: int) -> int {
        if a >= b { a - b } else { 0 }
    }

    /// `a + b`, or `usize::MAX` when the sum is larger.
    pub open spec fn saturating_add(a: int, b: int) -> int {
        if a + b <= usize::MAX { a + b } else { usize::MAX as int }
    }

    /// Rows of the branch list as the step down and the jumps count them: the
    /// terminal less the status line and one row more.
    pub open spec fn list_height(self) -> int {
        Self::saturating_sub(self.viewport_height as int, 1 + UI_HEIGHT)
    }

    /// Rows of the branch list as the wrap to the bottom counts them: the
    /// terminal less the status line.
    pub open spec fn full_list_height(self) -> int {
        Self::saturating_sub(self.viewport_height as int, UI_HEIGHT as int)
    }

    /// Half the terminal's rows, the length of a jump.
    pub open spec fn half_screen(self) -> int {
        (self.viewport_height / 2) as int
    }

    /// Whether the cursor, when shown, points at a listed branch that exists.
    pub open spec fn cursor_in_range(self) -> bool {
        match self.cursor_index {
            Some(c) => c < self.included.len() && self.included[c as int] < self.entries.len(),
            None => true,
        }
    }

    /// The index into the entries of the branch under the cursor, when the
    /// cursor is on a listed branch.
    pub open spec fn cursor_branch(self) -> Option<usize> {
        match self.cursor_index {
            Some(c) => if c < self.included.len() { Some(self.included[c as int]) } else { None },
            None => None,
        }
    }

    /// Whether the cursor, when shown, is on a listed branch.
    pub open spec fn cursor_on_list(self) -> bool {
        self.cursor_index matches Some(c) ==> c < self.included.len()
    }

    /// Whether every mark points at an entry.
    pub open spec fn marks_in_range(self) -> bool {
        forall|i: int| 0 <= i < self.marked.len() ==> #[trigger] self.marked[i] < self.entries.len()
    }

    /// Whether every listed index points at an entry.
    pub open spec fn list_in_range(self) -> bool {
        forall|i: int| 0 <= i < self.included.len() ==> #[trigger] self.included[i] < self.entries.len()
    }

    /// Whether the list and the marks point at entries that exist; every
    /// operation keeps this.
    pub open spec fn well_formed(self) -> bool {
        self.list_in_range() && self.marks_in_range()
    }

    /// The state with the listed branches recomputed from the filter.
    pub open spec fn with_filter_applied(self) -> AppView {
        AppView { included: filtered_indexes(self.entries, self.active_filter), ..self }
    }

    /// The cursor one branch up, wrapping from the top to the last branch; the
    /// list scrolls up one row when the cursor reaches its first shown row, and
    /// to its end on the wrap.
    pub open spec fn moved_to_previous(self) -> AppView {
        if self.included.len() == 0 {
            self
        } else {
            match self.cursor_index {
                Some(c) => if c >= 1 {
                    let n = (c - 1) as usize;
                    AppView {
                        cursor_index: Some(n),
                        offset: if n <= self.offset {
                            Self::saturating_sub(self.offset as int, 1) as usize
                        } else {
                            self.offset
                        },
                        ..self
                    }
                } else {
                    let height = self.full_list_height();
                    let len = self.included.len();
                    AppView {
                        cursor_index: Some((len - 1) as usize),
                        offset: if len >= height { (len - height) as usize } else { self.offset },
                        ..self
                    }
                },
                None => AppView { cursor_index: Some(0), offset: 0, ..self },
            }
        }
    }

    /// The cursor one branch down, wrapping from the bottom to the first
    /// branch; the list scrolls down one row when the cursor passes its last
    /// shown row, unless the cursor is on the last branch.
    pub open spec fn moved_to_next(self) -> AppView {
        if self.included.len() == 0 {
            self
        } else {
            match self.cursor_index {
                Some(c) => {
                    let n = c + 1;
                    let len = self.included.len();
                    if n < len {
                        AppView {
                            cursor_index: Some(n as usize),
                            offset: if n >= Self::saturating_add(self.offset as int, self.list_height()) {
                                if n == len - 1 { self.offset } else { (self.offset + 1) as usize }
                            } else {
                                self.offset
                            },
                            ..self
                        }
                    } else {
                        AppView { cursor_index: Some(0), offset: 0, ..self }
                    }
                },
                None => AppView { cursor_index: Some(0), offset: 0, ..self },
            }
        }
    }

    /// The cursor half a screen up, to the top when that is nearer.
    pub open spec fn jumped_up(self) -> AppView {
        if self.included.len() == 0 {
            self
        } else {
            match self.cursor_index {
                Some(c) => if c >= self.half_screen() {
                    let n = c - self.half_screen();
                    AppView {
                        cursor_index: Some(Self::saturating_add(n, 1) as usize),
                        offset: if n <= self.offset { n as usize } else { self.offset },
                        ..self
                    }
                } else {
                    AppView { cursor_index: Some(0), offset: 0, ..self }
                },
                None => self,
            }
        }
    }

    /// The cursor half a screen down, or to the last branch when that is
    /// nearer; the list scrolls so that the cursor stays shown, and never
    /// above its first branch.
    pub open spec fn jumped_down(self) -> AppView {
        if self.included.len() == 0 {
            self
        } else {
            match self.cursor_index {
                Some(c) => {
                    let n = Self::saturating_add(c as int, self.half_screen());
                    let len = self.included.len();
                    let height = self.list_height();
                    if n < len {
                        AppView {
                            cursor_index: Some(Self::saturating_sub(n, 1) as usize),
                            offset: if n >= Self::saturating_add(self.offset as int, height) {
                                (n - height) as usize
                            } else {
                                self.offset
                            },
                            ..self
                        }
                    } else {
                        AppView {
                            cursor_index: Some((len - 1) as usize),
                            offset: Self::saturating_sub(len - 1, height) as usize,
                            ..self
                        }
                    }
                },
                None => self,
            }
        }
    }

    /// Asking to delete the branch under the cursor, unless it is the current
    /// branch: it becomes the only mark.
    pub open spec fn confirming_cursor_branch(self) -> AppView {
        match self.cursor_branch() {
            Some(bi) => if self.entries[bi as int].current {
                self
            } else {
                AppView { marked: seq![bi], display_mode: DisplayMode::ConfirmDeletion(false), ..self }
            },
            None => self,
        }
    }

    /// The mark of the branch under the cursor toggled, unless it is the
    /// current branch.
    pub open spec fn marked_current(self) -> AppView {
        match self.cursor_branch() {
            Some(bi) => if self.entries[bi as int].current {
                self
            } else {
                AppView { marked: toggled_mark(self.marked, bi), ..self }
            },
            None => self,
        }
    }
}

} // verus!

verus! {

impl App {
    /// Whether the filter is being edited.
    pub fn is_filter_mode(&self) -> (b: bool)
        ensures
            b == (self.display_mode == DisplayMode::Filter),
    {
        self.display_mode == DisplayMode::Filter
    }

    /// Whether deletion is being confirmed.
    pub fn is_confirm_deletion_mode(&self) -> (b: bool)
        ensures
            b == (self.display_mode is ConfirmDeletion),
    {
        match self.display_mode {
            DisplayMode::ConfirmDeletion(_) => true,
            _ => false,
        }
    }

    /// Whether the help is shown.
    pub fn is_help_mode(&self) -> (b: bool)
        ensures
            b == (self.display_mode == DisplayMode::Help),
    {
        self.display_mode == DisplayMode::Help
    }

    fn switch_to_normal_mode(&mut self)
        ensures
            final(self)@ == (AppView { display_mode: DisplayMode::Normal, ..old(self)@ }),
    {
        self.display_mode = DisplayMode::Normal;
    }

    fn switch_to_filter_mode(&mut self)
        ensures
            final(self)@ == (AppView { display_mode: DisplayMode::Filter, cursor_index: None, ..old(self)@ }),
    {
        self.display_mode = DisplayMode::Filter;
        self.cursor_index = None;
    }

    fn switch_to_confirm_deletion_mode(&mut self)
        ensures
            final(self)@ == (AppView { display_mode: DisplayMode::ConfirmDeletion(true), ..old(self)@ }),
    {
        self.display_mode = DisplayMode::ConfirmDeletion(true);
    }

    fn switch_to_help_mode(&mut self)
        ensures
            final(self)@ == (AppView { display_mode: DisplayMode::Help, ..old(self)@ }),
    {
        self.display_mode = DisplayMode::Help;
    }

    /// The index into the entries of the branch under the cursor.
    pub fn get_branch_index_for_cursor(&self) -> (index: Option<usize>)
        requires
            self@.cursor_on_list(),
        ensures
            index == match self@.cursor_index {
                Some(c) => Some(self@.included[c as int]),
                None => None,
            },
            index == self@.cursor_branch(),
    {
        match self.cursor_index {
            Some(cursor_index) => Some(self.branches.included_indexes[cursor_index]),
            None => None,
        }
    }

    /// Whether the cursor, when shown, is on a listed branch.
    pub fn is_cursor_on_list(&self) -> (on: bool)
        ensures
            on == self@.cursor_on_list(),
    {
        match self.cursor_index {
            Some(c) => c < self.branches.included_indexes.len(),
            None => true,
        }
    }

    /// The branch under the cursor, or none when the cursor is hidden or past
    /// the list.
    fn branch_under_cursor(&self) -> (index: Option<usize>)
        ensures
            index == self@.cursor_branch(),
    {
        if self.is_cursor_on_list() { self.get_branch_index_for_cursor() } else { None }
    }

    /// Asks to delete the branch under the cursor alone, unless it is the
    /// branch that is checked out.
    pub fn switch_to_confirm_deletion_mode_with_cursor_branch(&mut self)
        requires
            old(self)@.list_in_range(),
        ensures
            final(self)@ == old(self)@.confirming_cursor_branch(),
    {
        if let Some(branch_index) = self.branch_under_cursor() {
            if self.branches.entries[branch_index].current {
                return;
            }
            let mut marks: Vec<usize> = Vec::new();
            marks.push(branch_index);
            self.branches.marked_indexes = marks;
            self.display_mode = DisplayMode::ConfirmDeletion(false);
        }
    }

    /// Moves the cursor one branch up, scrolling when it reaches the top of
    /// the screen, and wraps from the first branch to the last.
    pub fn move_to_previous_item(&mut self)
        ensures
            final(self)@ == old(self)@.moved_to_previous(),
    {
        if self.branches.included_indexes.len() == 0 {
            return;
        }
        if let Some(cursor_index) = self.cursor_index {
            let current_offset = self.branches.state.offset;
            if cursor_index >= 1 {
                let new_cursor_index = cursor_index - 1;
                if new_cursor_index <= current_offset {
                    self.branches.state.offset = current_offset.saturating_sub(1);
                }
                self.cursor_index = Some(new_cursor_index);
            } else {
                let list_height = self.viewport_height.saturating_sub(UI_HEIGHT) as usize;
                let branches_len = self.branches.included_indexes.len();
                let new_cursor_index = branches_len - 1;
                if branches_len >= list_height {
                    self.branches.state.offset = branches_len - list_height;
                }
                self.cursor_index = Some(new_cursor_index);
            }
        } else {
            self.cursor_index = Some(0);
            self.branches.state.offset = 0;
        }
    }

    /// Moves the cursor one branch down, scrolling when it reaches the bottom
    /// of the screen, and wraps from the last branch to the first.
    pub fn move_to_next_item(&mut self)
        ensures
            final(self)@ == old(self)@.moved_to_next(),
    {
        if self.branches.included_indexes.len() == 0 {
            return;
        }
        if let Some(cursor_index) = self.cursor_index {
            let branch_length = self.branches.included_indexes.len();
            if cursor_index < branch_length - 1 {
                let new_cursor_index = cursor_index + 1;
                let current_offset = self.branches.state.offset;
                let list_height = self.viewport_height.saturating_sub(1 + UI_HEIGHT) as usize;
                let viewport_end = current_offset.saturating_add(list_height);
                if new_cursor_index >= viewport_end {
                    self.branches.state.offset = if new_cursor_index == branch_length - 1 {
                        current_offset
                    } else {
                        current_offset + 1
                    };
                }
                self.cursor_index = Some(new_cursor_index);
            } else {
                self.cursor_index = Some(0);
                self.branches.state.offset = 0;
            }
        } else {
            self.cursor_index = Some(0);
            self.branches.state.offset = 0;
        }
    }

    fn half_screen_height(&self) -> (half: usize)
        ensures
            half as int == self@.half_screen(),
    {
        (self.viewport_height / 2) as usize
    }

    /// Moves the cursor half a screen up, or to the first branch when that is
    /// nearer.
    pub fn jump_up_section(&mut self)
        ensures
            final(self)@ == old(self)@.jumped_up(),
    {
        if self.branches.included_indexes.len() == 0 {
            return;
        }
        if let Some(cursor_index) = self.cursor_index {
            let half_screen_height = self.half_screen_height();
            let current_offset = self.branches.state.offset;
            if cursor_index >= half_screen_height {
                let new_cursor_index = cursor_index - half_screen_height;
                if new_cursor_index <= current_offset {
                    self.branches.state.offset = new_cursor_index;
                }
                self.cursor_index = Some(new_cursor_index.saturating_add(1));
            } else {
                self.cursor_index = Some(0);
                self.branches.state.offset = 0;
            }
        }
    }

    /// Moves the cursor half a screen down, or to the last branch when that is
    /// nearer.
    pub fn jump_down_section(&mut self)
        ensures
            final(self)@ == old(self)@.jumped_down(),
    {
        if self.branches.included_indexes.len() == 0 {
            return;
        }
        if let Some(cursor_index) = self.cursor_index {
            let new_cursor_index = cursor_index.saturating_add(self.half_screen_height());
            let included_branch_len = self.branches.included_indexes.len();
            let list_height = self.viewport_height.saturating_sub(1 + UI_HEIGHT) as usize;
            if new_cursor_index < included_branch_len {
                let current_offset = self.branches.state.offset;
                if new_cursor_index >= current_offset.saturating_add(list_height) {
                    self.branches.state.offset = new_cursor_index - list_height;
                }
                self.cursor_index = Some(new_cursor_index.saturating_sub(1));
            } else {
                let new_cursor_index = included_branch_len - 1;
                self.cursor_index = Some(new_cursor_index);
                self.branches.state.offset = new_cursor_index.saturating_sub(list_height);
            }
        }
    }

    /// Marks the branch under the cursor for deletion, or takes its mark away;
    /// the checked-out branch cannot be marked.
    pub fn mark_current_item(&mut self)
        requires
            old(self)@.list_in_range(),
        ensures
            final(self)@ == old(self)@.marked_current(),
    {
        if let Some(branch_index) = self.branch_under_cursor() {
            if self.branches.entries[branch_index].current {
                return;
            }
            let n = self.branches.marked_indexes.len();
            let mut j: usize = 0;
            while j < n && self.branches.marked_indexes[j] != branch_index
                invariant
                    n == self.branches.marked_indexes@.len(),
                    j <= n,
                    forall|t: int| 0 <= t < j ==> self.branches.marked_indexes@[t] != branch_index,
                decreases n - j,
            {
                j = j + 1;
            }
            proof {
                lemma_first_index(self.branches.marked_indexes@, branch_index, j as int);
            }
            if j < n {
                self.branches.marked_indexes.remove(j);
            } else {
                self.branches.marked_indexes.push(branch_index);
            }
        }
    }

    /// Lists the branches whose names contain the filter text, ignoring case;
    /// all branches when there is no filter.
    pub fn apply_filter(&mut self)
        ensures
            final(self)@ == old(self)@.with_filter_applied(),
    {
        let lower = lowercase_filter(&self.active_filter);
        let n = self.branches.entries.len();
        let mut included: Vec<usize> = Vec::new();
        let mut i: usize = 0;
        while i < n
            invariant
                n == self.branches.entries@.len(),
                i <= n,
                match opt_text(self.active_filter) {
                    Some(f) => lower matches Some(lf) && lf@ == crate::foreign::lowercase(f),
                    None => lower is None,
                },
                included@ == filtered_prefix(branch_views(self.branches.entries@), opt_text(self.active_filter), i as nat),
            decreases n - i,
        {
            let pass = matches_lowercase_filter(
                self.branches.entries[i].name.as_str(),
                &lower,
                Ghost(opt_text(self.active_filter)),
            );
            assert(branch_views(self.branches.entries@)[i as int] == self.branches.entries@[i as int]@);
            if pass {
                included.push(i);
            }
            i = i + 1;
        }
        self.branches.included_indexes = included;
    }
}

} // verus!

verus! {

impl AppView {
    /// The state with the given filter and the branches that it lets through.
    pub open spec fn with_filter(self, filter: Option<Seq<char>>) -> AppView {
        AppView { active_filter: filter, included: filtered_indexes(self.entries, filter), ..self }
    }

    /// A key in the normal mode: help, toggling remote branches, the filter
    /// (Z resets it; R resets it and reads the branches again), quitting,
    /// checking out, moving, marking and deleting.
    pub open spec fn after_normal_key(self, k: Key) -> (AppView, Action) {
        let c = k.code;
        if c == KeyCode::Char('h') {
            (AppView { display_mode: DisplayMode::Help, ..self }, Action::Continue)
        } else if c == KeyCode::Char('t') {
            let kind = if self.branch_type == Some(BranchKind::Local) { None } else { Some(BranchKind::Local) };
            (
                AppView { branch_type: kind, cursor_index: Some(0), offset: 0, ..self },
                Action::Load(LoadReason::Toggle),
            )
        } else if c == KeyCode::Char('/') || c == KeyCode::Char('f') {
            (AppView { display_mode: DisplayMode::Filter, cursor_index: None, ..self }, Action::Continue)
        } else if c == KeyCode::Esc || c == KeyCode::Char('q') {
            (self, Action::Quit)
        } else if c == KeyCode::Enter {
            match self.cursor_branch() {
                Some(bi) => (self, Action::Checkout { branch_index: bi, quit_after: k.shift }),
                None => (self, Action::Continue),
            }
        } else if c == KeyCode::Char('d') && k.ctrl {
            (self.jumped_down(), Action::Continue)
        } else if c == KeyCode::Char('u') && k.ctrl {
            (self.jumped_up(), Action::Continue)
        } else if c == KeyCode::Delete || c == KeyCode::Char('d') {
            if self.marked.len() == 0 {
                (self.confirming_cursor_branch(), Action::Continue)
            } else {
                (AppView { display_mode: DisplayMode::ConfirmDeletion(true), ..self }, Action::Continue)
            }
        } else if c == KeyCode::Char('x') {
            (self.marked_current(), Action::Continue)
        } else if c == KeyCode::Char('X') {
            (AppView { marked: Seq::empty(), ..self }, Action::Continue)
        } else if c == KeyCode::Up || c == KeyCode::Char('k') {
            (self.moved_to_previous(), Action::Continue)
        } else if c == KeyCode::Down || c == KeyCode::Char('j') {
            (self.moved_to_next(), Action::Continue)
        } else if c == KeyCode::Char('Z') {
            (self.with_filter(None), Action::Continue)
        } else if c == KeyCode::Char('R') {
            (self.with_filter(None), Action::Load(LoadReason::Refresh))
        } else {
            (self, Action::Continue)
        }
    }

    /// The filter with its last character taken away; no filter when nothing
    /// is left.
    pub open spec fn shortened_filter(f: Seq<char>) -> Option<Seq<char>> {
        let g = if f.len() > 0 { f.drop_last() } else { f };
        if g.len() == 0 { None } else { Some(g) }
    }

    /// A key while the filter is edited: Enter keeps it, Esc drops it,
    /// Backspace shortens it and a character key extends it.
    pub open spec fn after_filter_key(self, code: KeyCode) -> AppView {
        if code == KeyCode::Enter {
            let v = AppView { display_mode: DisplayMode::Normal, ..self };
            if self.included.len() > 0 { AppView { cursor_index: Some(0), ..v } } else { v }
        } else if code == KeyCode::Esc {
            AppView { display_mode: DisplayMode::Normal, cursor_index: Some(0), ..self.with_filter(None) }
        } else if code == KeyCode::Backspace {
            match self.active_filter {
                Some(f) => self.with_filter(Self::shortened_filter(f)),
                None => self,
            }
        } else {
            match key_char(code) {
                Some(ch) => self.with_filter(
                    Some(
                        match self.active_filter {
                            Some(f) => f.push(ch),
                            None => seq![ch],
                        },
                    ),
                ),
                None => self,
            }
        }
    }

    /// A key while deletion is being confirmed: y deletes, Esc, n or q cancel;
    /// cancelling drops the mark that was made for the question alone.
    pub open spec fn after_confirm_key(self, by_hand: bool, code: KeyCode) -> (AppView, Action) {
        if code == KeyCode::Char('y') || code == KeyCode::Char('Y') {
            (self, Action::DeleteMarked)
        } else if code == KeyCode::Esc || code == KeyCode::Char('n') || code == KeyCode::Char('N')
            || code == KeyCode::Char('q') {
            (
                AppView {
                    marked: if by_hand { self.marked } else { Seq::empty() },
                    display_mode: DisplayMode::Normal,
                    ..self
                },
                Action::Continue,
            )
        } else {
            (self, Action::Continue)
        }
    }

    /// A key in the help view: leave it, or move its highlighted row.
    pub open spec fn after_help_key(self, code: KeyCode) -> AppView {
        if code == KeyCode::Esc || code == KeyCode::Char('q') || code == KeyCode::Char('h') {
            AppView { display_mode: DisplayMode::Normal, ..self }
        } else if code == KeyCode::Up || code == KeyCode::Char('k') {
            AppView { help: TableView { selected: previous_selection(self.help.selected), ..self.help }, ..self }
        } else if code == KeyCode::Down || code == KeyCode::Char('j') {
            AppView { help: TableView { selected: next_selection(self.help.selected), ..self.help }, ..self }
        } else {
            self
        }
    }

    /// The state after an event, and what the runner does next. Q quits,
    /// except while the filter is edited, where it is typed like any other
    /// character; an alert takes every other key, and Esc, Enter or q dismiss
    /// it; Ctrl+c quits; the other keys depend on the mode.
    pub open spec fn after_event(self, event: Event) -> (AppView, Action) {
        match event {
            Event::Resize(rows) => (AppView { viewport_height: rows, ..self }, Action::Continue),
            Event::Other => (self, Action::Continue),
            Event::Press(k) => if k.code == KeyCode::Char('Q') && !(self.display_mode == DisplayMode::Filter
                && self.alert is None) {
                (self, Action::Quit)
            } else if self.alert is Some {
                if k.code == KeyCode::Esc || k.code == KeyCode::Enter || k.code == KeyCode::Char('q') {
                    (AppView { alert: None, ..self }, Action::Continue)
                } else {
                    (self, Action::Continue)
                }
            } else if k.code == KeyCode::Char('c') && k.ctrl {
                (self, Action::Quit)
            } else {
                match self.display_mode {
                    DisplayMode::Normal => self.after_normal_key(k),
                    DisplayMode::Filter => (self.after_filter_key(k.code), Action::Continue),
                    DisplayMode::ConfirmDeletion(by_hand) => self.after_confirm_key(by_hand, k.code),
                    DisplayMode::Help => (self.after_help_key(k.code), Action::Continue),
                }
            },
        }
    }
}

} // verus!

verus! {

impl App {
    fn handle_normal_key(&mut self, key: Key) -> (action: Action)
        requires
            old(self).display_mode == DisplayMode::Normal,
            old(self)@.list_in_range(),
        ensures
            final(self)@ == old(self)@.after_normal_key(key).0,
            action == old(self)@.after_normal_key(key).1,
    {
        let code = key.code;
        if code == KeyCode::Char('h') {
            self.switch_to_help_mode();
            Action::Continue
        } else if code == KeyCode::Char('t') {
            if self.branches.branch_type == Some(BranchKind::Local) {
                self.branches.branch_type = None;
            } else {
                self.branches.branch_type = Some(BranchKind::Local);
            }
            self.cursor_index = Some(0);
            self.branches.state.offset = 0;
            Action::Load(LoadReason::Toggle)
        } else if code == KeyCode::Char('/') || code == KeyCode::Char('f') {
            self.switch_to_filter_mode();
            Action::Continue
        } else if code == KeyCode::Esc || code == KeyCode::Char('q') {
            Action::Quit
        } else if code == KeyCode::Enter {
            match self.branch_under_cursor() {
                Some(branch_index) => Action::Checkout { branch_index, quit_after: key.shift },
                None => Action::Continue,
            }
        } else if code == KeyCode::Char('d') && key.ctrl {
            self.jump_down_section();
            Action::Continue
        } else if code == KeyCode::Char('u') && key.ctrl {
            self.jump_up_section();
            Action::Continue
        } else if code == KeyCode::Delete || code == KeyCode::Char('d') {
            if self.branches.marked_indexes.len() == 0 {
                self.switch_to_confirm_deletion_mode_with_cursor_branch();
            } else {
                self.switch_to_confirm_deletion_mode();
            }
            Action::Continue
        } else if code == KeyCode::Char('x') {
            self.mark_current_item();
            Action::Continue
        } else if code == KeyCode::Char('X') {
            self.branches.marked_indexes.clear();
            Action::Continue
        } else if code == KeyCode::Up || code == KeyCode::Char('k') {
            self.move_to_previous_item();
            Action::Continue
        } else if code == KeyCode::Down || code == KeyCode::Char('j') {
            self.move_to_next_item();
            Action::Continue
        } else if code == KeyCode::Char('Z') {
            self.active_filter = None;
            self.apply_filter();
            Action::Continue
        } else if code == KeyCode::Char('R') {
            self.active_filter = None;
            self.apply_filter();
            Action::Load(LoadReason::Refresh)
        } else {
            Action::Continue
        }
    }

    fn handle_filter_key(&mut self, code: KeyCode)
        ensures
            final(self)@ == old(self)@.after_filter_key(code),
    {
        if code == KeyCode::Enter {
            self.switch_to_normal_mode();
            if self.branches.included_indexes.len() > 0 {
                self.cursor_index = Some(0);
            }
        } else if code == KeyCode::Esc {
            self.active_filter = None;
            self.apply_filter();
            self.switch_to_normal_mode();
            self.cursor_index = Some(0);
        } else if code == KeyCode::Backspace {
            if let Some(filter) = &self.active_filter {
                let mut filter = filter.clone();
                pop_char(&mut filter);
                self.active_filter = if filter.as_str().is_empty() {
                    None
                } else {
                    Some(filter)
                };
                self.apply_filter();
            }
        } else {
            if let Some(c) = char_of_key(code) {
                let mut filter = match &self.active_filter {
                    Some(filter) => filter.clone(),
                    None => String::new(),
                };
                push_char(&mut filter, c);
                self.active_filter = Some(filter);
                self.apply_filter();
            }
        }
    }

    fn handle_confirm_key(&mut self, by_hand: bool, code: KeyCode) -> (action: Action)
        requires
            old(self).display_mode == DisplayMode::ConfirmDeletion(by_hand),
        ensures
            final(self)@ == old(self)@.after_confirm_key(by_hand, code).0,
            action == old(self)@.after_confirm_key(by_hand, code).1,
    {
        if code == KeyCode::Char('y') || code == KeyCode::Char('Y') {
            Action::DeleteMarked
        } else if code == KeyCode::Esc || code == KeyCode::Char('n') || code == KeyCode::Char('N')
            || code == KeyCode::Char('q') {
            if !by_hand {
                self.branches.marked_indexes.clear();
            }
            self.switch_to_normal_mode();
            Action::Continue
        } else {
            Action::Continue
        }
    }

    fn handle_help_key(&mut self, code: KeyCode)
        ensures
            final(self)@ == old(self)@.after_help_key(code),
    {
        if code == KeyCode::Esc || code == KeyCode::Char('q') || code == KeyCode::Char('h') {
            self.switch_to_normal_mode();
        } else if code == KeyCode::Up || code == KeyCode::Char('k') {
            let (offset, selected) = table_select_previous(self.help_state.offset, self.help_state.selected);
            self.help_state = TableView { offset, selected };
        } else if code == KeyCode::Down || code == KeyCode::Char('j') {
            let (offset, selected) = table_select_next(self.help_state.offset, self.help_state.selected);
            self.help_state = TableView { offset, selected };
        }
    }

    /// Handles one event from the terminal and says what to do next.
    pub fn handle_event(&mut self, event: Event) -> (action: Action)
        requires
            old(self)@.list_in_range(),
        ensures
            final(self)@ == old(self)@.after_event(event).0,
            action == old(self)@.after_event(event).1,
    {
        match event {
            Event::Resize(rows) => {
                self.viewport_height = rows;
                Action::Continue
            },
            Event::Other => Action::Continue,
            Event::Press(key) => {
                if key.code == KeyCode::Char('Q') && !(self.display_mode == DisplayMode::Filter
                    && self.alert.is_none()) {
                    return Action::Quit;
                }
                if self.alert.is_some() {
                    if key.code == KeyCode::Esc || key.code == KeyCode::Enter || key.code == KeyCode::Char('q') {
                        self.alert = None;
                    }
                    return Action::Continue;
                }
                if key.code == KeyCode::Char('c') && key.ctrl {
                    return Action::Quit;
                }
                match self.display_mode {
                    DisplayMode::Normal => self.handle_normal_key(key),
                    DisplayMode::Filter => {
                        self.handle_filter_key(key.code);
                        Action::Continue
                    },
                    DisplayMode::ConfirmDeletion(by_hand) => self.handle_confirm_key(by_hand, key.code),
                    DisplayMode::Help => {
                        self.handle_help_key(key.code);
                        Action::Continue
                    },
                }
            },
        }
    }
}

} // verus!

verus! {

/// The names of the entries that the marks point at, in the order of the
/// marks, skipping marks that point past the entries.
pub open spec fn names_of_marks(entries: Seq<BranchView>, marks: Seq<usize>) -> Seq<Seq<char>>
    decreases marks.len(),
{
    if marks.len() == 0 {
        Seq::empty()
    } else {
        let rest = names_of_marks(entries, marks.drop_last());
        if marks.last() < entries.len() {
            rest.push(entries[marks.last() as int].name)
        } else {
            rest
        }
    }
}

/// When every mark points at an entry, the names are those of the entries
/// that the marks point at, one for each mark, in the order of the marks.
pub proof fn lemma_names_of_marks_in_range(entries: Seq<BranchView>, marks: Seq<usize>)
    requires
        forall|i: int| 0 <= i < marks.len() ==> #[trigger] marks[i] < entries.len(),
    ensures
        names_of_marks(entries, marks).len() == marks.len(),
        forall|i: int| 0 <= i < marks.len() ==> #[trigger] names_of_marks(entries, marks)[i]
            == entries[marks[i] as int].name,
    decreases marks.len(),
{
    if marks.len() > 0 {
        let rest = marks.drop_last();
        assert forall|i: int| 0 <= i < rest.len() implies #[trigger] rest[i] < entries.len() by {
            assert(rest[i] == marks[i]);
        }
        lemma_names_of_marks_in_range(entries, rest);
        assert(marks.last() < entries.len()) by {
            assert(marks[marks.len() - 1] < entries.len());
        }
        assert forall|i: int| 0 <= i < marks.len() implies #[trigger] names_of_marks(entries, marks)[i]
            == entries[marks[i] as int].name by {
            if i < rest.len() {
                assert(rest[i] == marks[i]);
            }
        }
    }
}

/// Index of the first entry named `name`, or -1 when there is none.
pub open spec fn first_named(entries: Seq<BranchView>, name: Seq<char>) -> int
    decreases entries.len(),
{
    if entries.len() == 0 {
        -1
    } else if entries[0].name == name {
        0
    } else {
        let r = first_named(entries.drop_first(), name);
        if r < 0 { -1 } else { r + 1 }
    }
}

pub proof fn lemma_first_named(entries: Seq<BranchView>, name: Seq<char>, j: int)
    requires
        0 <= j <= entries.len(),
        forall|t: int| 0 <= t < j ==> entries[t].name != name,
        j == entries.len() || entries[j].name == name,
    ensures
        first_named(entries, name) == if j == entries.len() { -1 } else { j },
    decreases entries.len(),
{
    if entries.len() > 0 && j > 0 {
        lemma_first_named(entries.drop_first(), name, j - 1);
    }
}

/// The marks of `old` carried over to `new`: each mark that points at an
/// entry of `old` goes to the first entry of `new` with the same name, in the
/// order of the marks; a mark whose branch is not in `new` goes.
pub open spec fn remapped_marks(old: Seq<BranchView>, marks: Seq<usize>, new: Seq<BranchView>) -> Seq<usize>
    decreases marks.len(),
{
    if marks.len() == 0 {
        Seq::empty()
    } else {
        let rest = remapped_marks(old, marks.drop_last(), new);
        let m = marks.last();
        if m < old.len() && first_named(new, old[m as int].name) >= 0 {
            rest.push(first_named(new, old[m as int].name) as usize)
        } else {
            rest
        }
    }
}

/// The state before any branch has been read.
pub open spec fn initial_view(viewport_height: u16) -> AppView {
    AppView {
        viewport_height,
        display_mode: DisplayMode::Normal,
        alert: None,
        active_filter: None,
        cursor_index: Some(0),
        entries: Seq::empty(),
        included: Seq::empty(),
        marked: Seq::empty(),
        branch_type: Some(BranchKind::Local),
        offset: 0,
        help: TableView { offset: 0, selected: None },
        debug_text: None,
    }
}

impl AppView {
    /// The state once freshly read branches arrive: they are ordered newest
    /// first and listed through the filter; each mark follows its branch, by
    /// name, to where it now sits, and goes when the branch is gone; a
    /// refresh brings a cursor at or past the number of branches back to the
    /// top.
    pub open spec fn after_load(self, reason: LoadReason, read: Seq<BranchView>) -> AppView {
        let entries = newest_first(read);
        let v = AppView {
            entries,
            marked: remapped_marks(self.entries, self.marked, entries),
            ..self
        }.with_filter(self.active_filter);
        if reason == LoadReason::Refresh {
            match v.cursor_index {
                Some(c) => if c >= v.entries.len() { AppView { cursor_index: Some(0), ..v } } else { v },
                None => v,
            }
        } else {
            v
        }
    }

    /// Whether a failure to read the branches ends the application: only a
    /// refresh survives it.
    pub open spec fn load_failure_is_fatal(reason: LoadReason) -> bool {
        reason != LoadReason::Refresh
    }

    /// The state after the branches could not be read: a refresh shows the
    /// error in an alert.
    pub open spec fn after_load_failure(self, reason: LoadReason, message: Seq<char>) -> AppView {
        if reason == LoadReason::Refresh {
            AppView {
                alert: Some(AlertView { title: "Error fetching branches"@, message: "An error occurred: "@ + message }),
                ..self
            }
        } else {
            self
        }
    }

    /// The state once the marked branches are deleted: no marks, the list
    /// scrolled and the cursor moved one row up, the normal mode.
    pub open spec fn after_deletion(self) -> AppView {
        AppView {
            marked: Seq::empty(),
            offset: if self.offset > 0 { (self.offset - 1) as usize } else { 0 },
            cursor_index: match self.cursor_index {
                Some(c) => Some(if c >= 1 { (c - 1) as usize } else { 0 }),
                None => None,
            },
            display_mode: DisplayMode::Normal,
            ..self
        }
    }

    /// The names of the marked branches, in the order of the marks; a mark
    /// that points past the entries names nothing.
    pub open spec fn marked_names(self) -> Seq<Seq<char>> {
        names_of_marks(self.entries, self.marked)
    }
}

/// Index of the first entry named `name`, if any.
fn find_named(entries: &Vec<Branch>, name: &String) -> (found: Option<usize>)
    ensures
        match found {
            Some(j) => first_named(branch_views(entries@), name@) == j,
            None => first_named(branch_views(entries@), name@) == -1,
        },
{
    let n = entries.len();
    let mut j: usize = 0;
    while j < n
        invariant
            n == entries@.len(),
            j <= n,
            forall|t: int| 0 <= t < j ==> branch_views(entries@)[t].name != name@,
        decreases n - j,
    {
        assert(branch_views(entries@)[j as int] == entries@[j as int]@);
        if entries[j].name == *name {
            proof {
                lemma_first_named(branch_views(entries@), name@, j as int);
            }
            return Some(j);
        }
        j = j + 1;
    }
    proof {
        lemma_first_named(branch_views(entries@), name@, n as int);
    }
    None
}

/// The marks of `old` carried over to `new` by name.
fn remap_marks(old: &Vec<Branch>, marks: &Vec<usize>, new: &Vec<Branch>) -> (moved: Vec<usize>)
    ensures
        moved@ == remapped_marks(branch_views(old@), marks@, branch_views(new@)),
{
    let n = marks.len();
    let mut moved: Vec<usize> = Vec::new();
    let mut i: usize = 0;
    while i < n
        invariant
            n == marks@.len(),
            i <= n,
            moved@ == remapped_marks(branch_views(old@), marks@.subrange(0, i as int), branch_views(new@)),
        decreases n - i,
    {
        let m = marks[i];
        assert(marks@.subrange(0, i + 1).drop_last() =~= marks@.subrange(0, i as int));
        if m < old.len() {
            assert(branch_views(old@)[m as int] == old@[m as int]@);
            if let Some(j) = find_named(new, &old[m].name) {
                moved.push(j);
            }
        }
        i = i + 1;
    }
    assert(marks@.subrange(0, n as int) =~= marks@);
    moved
}

impl App {
    /// The application before any branch is read, and the reading it needs.
    pub fn new(viewport_height: u16) -> (started: (App, Action))
        ensures
            started.0@ == initial_view(viewport_height),
            started.1 == Action::Load(LoadReason::Startup),
    {
        let app = App {
            viewport_height,
            display_mode: DisplayMode::Normal,
            alert: None,
            active_filter: None,
            cursor_index: Some(0),
            branches: Branches {
                entries: Vec::new(),
                included_indexes: Vec::new(),
                marked_indexes: Vec::new(),
                branch_type: Some(BranchKind::Local),
                state: TableView { offset: 0, selected: None },
            },
            help_state: TableView { offset: 0, selected: None },
            debug_text: None,
        };
        assert(app@.entries =~= Seq::<BranchView>::empty());
        (app, Action::Load(LoadReason::Startup))
    }

    /// Takes the branches that were read.
    pub fn finish_load(&mut self, reason: LoadReason, entries: Vec<Branch>)
        ensures
            final(self)@ == old(self)@.after_load(reason, branch_views(entries@)),
    {
        let mut fresh = sort_newest_first(entries);
        std::mem::swap(&mut self.branches.entries, &mut fresh);
        let marks = remap_marks(&fresh, &self.branches.marked_indexes, &self.branches.entries);
        self.branches.marked_indexes = marks;
        self.apply_filter();
        if reason == LoadReason::Refresh {
            if let Some(cursor_index) = self.cursor_index {
                if cursor_index >= self.branches.entries.len() {
                    self.cursor_index = Some(0);
                }
            }
        }
    }

    /// Takes the failure to read the branches, and says whether it ends the
    /// application.
    pub fn fail_load(&mut self, reason: LoadReason, message: String) -> (fatal: bool)
        ensures
            fatal == AppView::load_failure_is_fatal(reason),
            final(self)@ == old(self)@.after_load_failure(reason, message@),
    {
        if reason == LoadReason::Refresh {
            let mut text = String::from_str("An error occurred: ");
            text.append(message.as_str());
            self.alert = Some(Alert { title: String::from_str("Error fetching branches"), message: text });
            false
        } else {
            true
        }
    }

    /// The names of the marked branches, which are deleted as local branches.
    pub fn deletion_targets(&self) -> (names: Vec<String>)
        ensures
            names@.map_values(|n: String| n@) == self@.marked_names(),
            self@.marks_in_range() ==> names@.len() == self@.marked.len(),
            self@.marks_in_range() ==> forall|i: int| 0 <= i < names@.len() ==> #[trigger] names@[i]@
                == self@.entries[self@.marked[i] as int].name,
    {
        let n = self.branches.marked_indexes.len();
        let mut names: Vec<String> = Vec::new();
        let mut i: usize = 0;
        while i < n
            invariant
                n == self@.marked.len(),
                i <= n,
                names@.map_values(|s: String| s@) == names_of_marks(self@.entries, self@.marked.subrange(0, i as int)),
            decreases n - i,
        {
            let index = self.branches.marked_indexes[i];
            let ghost before = names@;
            assert(self@.marked.subrange(0, i + 1).drop_last() =~= self@.marked.subrange(0, i as int));
            if index < self.branches.entries.len() {
                assert(self@.entries[index as int] == self.branches.entries@[index as int]@);
                names.push(self.branches.entries[index].name.clone());
                assert(names@.map_values(|s: String| s@) =~= before.map_values(|s: String| s@).push(
                    self@.entries[index as int].name,
                ));
            }
            i = i + 1;
        }
        assert(self@.marked.subrange(0, n as int) =~= self@.marked);
        proof {
            if self@.marks_in_range() {
                lemma_names_of_marks_in_range(self@.entries, self@.marked);
                assert forall|i: int| 0 <= i < names@.len() implies #[trigger] names@[i]@
                    == self@.entries[self@.marked[i] as int].name by {
                    assert(names@.map_values(|s: String| s@)[i] == names@[i]@);
                }
            }
        }
        names
    }

    /// Takes the end of the deletion of the marked branches and asks for the
    /// branches to be read again.
    pub fn finish_deletion(&mut self) -> (action: Action)
        ensures
            final(self)@ == old(self)@.after_deletion(),
            action == Action::Load(LoadReason::AfterDeletion),
    {
        self.branches.marked_indexes.clear();
        let offset = self.branches.state.offset;
        self.branches.state.offset = if offset > 0 { offset - 1 } else { 0 };
        if let Some(cursor_index) = self.cursor_index {
            self.cursor_index = if cursor_index >= 1 { Some(cursor_index - 1) } else { Some(0) };
        }
        self.switch_to_normal_mode();
        Action::Load(LoadReason::AfterDeletion)
    }

    /// Takes the end of a checkout: a failure shows its alert, a success quits
    /// when asked to and otherwise reads the branches again.
    pub fn finish_checkout(&mut self, outcome: Result<(), Alert>, quit_after: bool) -> (action: Action)
        ensures
            match outcome {
                Ok(()) => final(self)@ == old(self)@ && action == if quit_after {
                    Action::Quit
                } else {
                    Action::Load(LoadReason::Refresh)
                },
                Err(alert) => final(self)@ == (AppView { alert: Some(alert@), ..old(self)@ })
                    && action == Action::Continue,
            },
    {
        match outcome {
            Ok(()) => if quit_after {
                Action::Quit
            } else {
                Action::Load(LoadReason::Refresh)
            },
            Err(alert) => {
                self.alert = Some(alert);
                Action::Continue
            },
        }
    }
}

} // verus!
