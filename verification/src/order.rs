//! Ordering branches by the time of their last commit, newest first.
use vstd::prelude::*;
use crate::structs::{Branch, BranchView, branch_views};

verus! {

/// How many leading entries of `s` are strictly newer than `time`.
pub open spec fn newer_prefix_len(s: Seq<BranchView>, time: i64) -> nat
    decreases s.len(),
{
    if s.len() == 0 {
        0
    } else if s[0].last_commit_at <= time {
        0
    } else {
        1 + newer_prefix_len(s.drop_first(), time)
    }
}

/// `b` placed before the first entry of `s` that is not newer than it.
pub open spec fn insert_by_time(b: BranchView, s: Seq<BranchView>) -> Seq<BranchView> {
    s.insert(newer_prefix_len(s, b.last_commit_at) as int, b)
}

/// The entries of `s` ordered newest last commit first; entries with the same
/// time keep their order. This is what a stable sort by the reversed time
/// gives.
pub open spec fn newest_first(s: Seq<BranchView>) -> Seq<BranchView>
    decreases s.len(),
{
    if s.len() == 0 {
        s
    } else {
        insert_by_time(s[0], newest_first(s.drop_first()))
    }
}

/// Whether no entry of `s` is older than an entry after it.
pub open spec fn is_newest_first(s: Seq<BranchView>) -> bool {
    forall|i: int, j: int| 0 <= i < j < s.len() ==> s[i].last_commit_at >= s[j].last_commit_at
}

proof fn lemma_newer_prefix_len(s: Seq<BranchView>, time: i64, j: int)
    requires
        0 <= j <= s.len(),
        forall|t: int| 0 <= t < j ==> s[t].last_commit_at > time,
        j == s.len() || s[j].last_commit_at <= time,
    ensures
        newer_prefix_len(s, time) == j,
    decreases s.len(),
{
    if s.len() > 0 && j > 0 {
        lemma_newer_prefix_len(s.drop_first(), time, j - 1);
    }
}

proof fn lemma_newer_prefix_bounds(s: Seq<BranchView>, time: i64)
    ensures
        newer_prefix_len(s, time) <= s.len(),
        forall|t: int| 0 <= t < newer_prefix_len(s, time) ==> s[t].last_commit_at > time,
        newer_prefix_len(s, time) < s.len() ==> s[newer_prefix_len(s, time) as int].last_commit_at <= time,
    decreases s.len(),
{
    if s.len() > 0 && s[0].last_commit_at > time {
        lemma_newer_prefix_bounds(s.drop_first(), time);
        assert forall|t: int| 0 <= t < newer_prefix_len(s, time) implies s[t].last_commit_at > time by {
            if t > 0 {
                assert(s[t] == s.drop_first()[t - 1]);
            }
        }
    }
}

proof fn lemma_insert_keeps_order(b: BranchView, s: Seq<BranchView>)
    requires
        is_newest_first(s),
    ensures
        is_newest_first(insert_by_time(b, s)),
        insert_by_time(b, s).to_multiset() == s.to_multiset().insert(b),
        insert_by_time(b, s).len() == s.len() + 1,
{
    lemma_newer_prefix_bounds(s, b.last_commit_at);
    let p = newer_prefix_len(s, b.last_commit_at) as int;
    let r = insert_by_time(b, s);
    assert forall|i: int, j: int| 0 <= i < j < r.len() implies r[i].last_commit_at >= r[j].last_commit_at by {
        if j < p {
        } else if j == p {
        } else if i < p {
        } else if i == p {
            assert(r[j] == s[j - 1]);
            assert(s[p].last_commit_at >= s[j - 1].last_commit_at);
        } else {
        }
    }
    vstd::seq_lib::to_multiset_insert(s, p, b);
}

/// The entries that [`newest_first`] gives are ordered newest first and are
/// the same entries as before, as many times each.
pub proof fn lemma_newest_first(s: Seq<BranchView>)
    ensures
        is_newest_first(newest_first(s)),
        newest_first(s).to_multiset() == s.to_multiset(),
        newest_first(s).len() == s.len(),
    decreases s.len(),
{
    if s.len() > 0 {
        lemma_newest_first(s.drop_first());
        lemma_insert_keeps_order(s[0], newest_first(s.drop_first()));
        assert(s =~= s.drop_first().insert(0, s[0]));
        vstd::seq_lib::to_multiset_insert(s.drop_first(), 0, s[0]);
    }
}

/// Orders branches newest last commit first, keeping the order of branches
/// whose last commits have the same time.
pub fn sort_newest_first(entries: Vec<Branch>) -> (sorted: Vec<Branch>)
    ensures
        branch_views(sorted@) == newest_first(branch_views(entries@)),
        is_newest_first(branch_views(sorted@)),
        branch_views(sorted@).to_multiset() == branch_views(entries@).to_multiset(),
{
    let ghost all = branch_views(entries@);
    let mut input = entries;
    let mut out: Vec<Branch> = Vec::new();
    assert(all.subrange(all.len() as int, all.len() as int) =~= Seq::<BranchView>::empty());
    while input.len() > 0
        invariant
            input.len() <= all.len(),
            branch_views(input@) == all.subrange(0, input.len() as int),
            branch_views(out@) == newest_first(all.subrange(input.len() as int, all.len() as int)),
        decreases input.len(),
    {
        let ghost before = out@;
        let ghost i = input.len();
        let ghost input_before = input@;
        let b = input.pop().unwrap();
        assert(b@ == all[i - 1]) by {
            assert(input_before[i - 1] == b);
            assert(branch_views(input_before)[i - 1] == b@);
        }
        let mut j: usize = 0;
        while j < out.len() && out[j].last_commit_at > b.last_commit_at
            invariant
                j <= out.len(),
                out@ == before,
                forall|t: int| 0 <= t < j ==> branch_views(out@)[t].last_commit_at > b.last_commit_at,
            decreases out.len() - j,
        {
            j = j + 1;
        }
        proof {
            lemma_newer_prefix_len(branch_views(out@), b.last_commit_at, j as int);
        }
        let ghost b_view = b@;
        out.insert(j, b);
        proof {
            let rest = all.subrange(i as int, all.len() as int);
            let now = all.subrange(i - 1, all.len() as int);
            assert(now.drop_first() =~= rest);
            assert(now[0] == b_view);
            assert(branch_views(out@) =~= branch_views(before).insert(j as int, b_view));
            assert(branch_views(input@) =~= all.subrange(0, input.len() as int));
        }
    }
    assert(all.subrange(0, all.len() as int) =~= all);
    proof {
        lemma_newest_first(all);
    }
    out
}

} // verus!
