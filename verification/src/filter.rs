//! Matching branch names against the filter text.
use vstd::prelude::*;
use vstd::string::*;
use crate::foreign::{lowercase, to_lowercase};
use crate::structs::BranchView;

verus! {

/// Whether `needle` occurs in `haystack` as a contiguous run of characters.
/// The empty needle occurs in every haystack.
pub open spec fn contains_seq(haystack: Seq<char>, needle: Seq<char>) -> bool {
    exists|i: int|
        0 <= i && i + needle.len() <= haystack.len()
            && #[trigger] haystack.subrange(i, i + needle.len()) == needle
}

/// Whether a branch name passes the filter: always without a filter, else when
/// the lowercase name contains the lowercase filter.
pub open spec fn name_matches(name: Seq<char>, filter: Option<Seq<char>>) -> bool {
    match filter {
        Some(f) => contains_seq(lowercase(name), lowercase(f)),
        None => true,
    }
}

/// The indexes, in increasing order, of the first `n` entries whose names pass
/// the filter.
pub open spec fn filtered_prefix(entries: Seq<BranchView>, filter: Option<Seq<char>>, n: nat) -> Seq<usize>
    decreases n,
{
    if n == 0 {
        Seq::empty()
    } else {
        let rest = filtered_prefix(entries, filter, (n - 1) as nat);
        if name_matches(entries[n - 1].name, filter) {
            rest.push((n - 1) as usize)
        } else {
            rest
        }
    }
}

/// The indexes, in increasing order, of all entries whose names pass the filter.
pub open spec fn filtered_indexes(entries: Seq<BranchView>, filter: Option<Seq<char>>) -> Seq<usize> {
    filtered_prefix(entries, filter, entries.len())
}

/// The characters of a string, one by one.
pub(crate) fn chars_of(s: &str) -> (chars: Vec<char>)
    ensures
        chars@ == s@,
{
    let n = s.unicode_len();
    let mut chars: Vec<char> = Vec::new();
    let mut i: usize = 0;
    while i < n
        invariant
            n == s@.len(),
            i <= n,
            chars@ == s@.subrange(0, i as int),
        decreases n - i,
    {
        chars.push(s.get_char(i));
        i = i + 1;
        assert(chars@ =~= s@.subrange(0, i as int));
    }
    assert(chars@ =~= s@);
    chars
}

/// Whether `needle` occurs in `haystack`, found by trying each start.
fn contains_chars(haystack: &Vec<char>, needle: &Vec<char>) -> (found: bool)
    ensures
        found == contains_seq(haystack@, needle@),
{
    let h = haystack.len();
    let m = needle.len();
    if m > h {
        return false;
    }
    let mut i: usize = 0;
    while i <= h - m
        invariant
            h == haystack@.len(),
            m == needle@.len(),
            m <= h,
            i <= h - m + 1,
            forall|k: int| 0 <= k < i ==> #[trigger] haystack@.subrange(k, k + m) != needle@,
        decreases h - m + 1 - i,
    {
        let mut j: usize = 0;
        let mut same = true;
        while j < m
            invariant
                h == haystack@.len(),
                m == needle@.len(),
                i + m <= h,
                j <= m,
                same == (forall|t: int| 0 <= t < j ==> haystack@[i + t] == needle@[t]),
            decreases m - j,
        {
            if haystack[i + j] != needle[j] {
                same = false;
            }
            j = j + 1;
        }
        if same {
            assert(haystack@.subrange(i as int, i + m) =~= needle@);
            return true;
        }
        assert(haystack@.subrange(i as int, i + m) != needle@) by {
            let t = choose|t: int| 0 <= t < m && haystack@[i + t] != needle@[t];
            assert(haystack@.subrange(i as int, i + m)[t] == haystack@[i + t]);
        }
        i = i + 1;
    }
    proof {
        assert forall|k: int| 0 <= k && k + m <= h implies #[trigger] haystack@.subrange(k, k + m) != needle@ by {
            assert(k < i);
        }
    }
    false
}

/// Decides [`name_matches`] for a branch name, given the filter already in
/// lowercase.
pub(crate) fn matches_lowercase_filter(name: &str, lowercase_filter: &Option<Vec<char>>, filter: Ghost<Option<Seq<char>>>) -> (pass: bool)
    requires
        match filter@ {
            Some(f) => lowercase_filter matches Some(lf) && lf@ == lowercase(f),
            None => lowercase_filter is None,
        },
    ensures
        pass == name_matches(name@, filter@),
{
    match lowercase_filter {
        Some(lf) => {
            let lower = to_lowercase(name);
            let hay = chars_of(lower.as_str());
            contains_chars(&hay, lf)
        },
        None => true,
    }
}

/// The filter text in lowercase, as characters, when there is a filter.
pub(crate) fn lowercase_filter(filter: &Option<String>) -> (lf: Option<Vec<char>>)
    ensures
        match filter {
            Some(f) => lf matches Some(l) && l@ == lowercase(f@),
            None => lf is None,
        },
{
    match filter {
        Some(f) => {
            let lower = to_lowercase(f.as_str());
            Some(chars_of(lower.as_str()))
        },
        None => None,
    }
}

} // verus!
