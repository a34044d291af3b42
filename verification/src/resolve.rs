//! The compute half of local-address discovery.
//!
//! The interface query itself is outside work; what it hands back is a raw
//! text that may carry surrounding whitespace. This module trims it and
//! decides whether a usable candidate remains, mirroring the discovery
//! contract: an empty result means no qualifying address was found.

use vstd::prelude::*;
use vstd::string::*;

verus! {

/// The whitespace characters that may surround a discovered address.
pub open spec fn is_space_char(c: char) -> bool {
    c == ' ' || c == '\n' || c == '\t' || c == '\r'
}

/// `s` without its leading whitespace.
pub open spec fn spec_trim_start(s: Seq<char>) -> Seq<char>
    decreases s.len(),
{
    if s.len() == 0 {
        s
    } else if is_space_char(s[0]) {
        spec_trim_start(s.drop_first())
    } else {
        s
    }
}

/// `s` without its trailing whitespace.
pub open spec fn spec_trim_end(s: Seq<char>) -> Seq<char>
    decreases s.len(),
{
    if s.len() == 0 {
        s
    } else if is_space_char(s[s.len() - 1]) {
        spec_trim_end(s.drop_last())
    } else {
        s
    }
}

/// `s` without leading and trailing whitespace.
pub open spec fn spec_trim(s: Seq<char>) -> Seq<char> {
    spec_trim_end(spec_trim_start(s))
}

fn is_space(c: char) -> (r: bool)
    ensures
        r == is_space_char(c),
{
    c == ' ' || c == '\n' || c == '\t' || c == '\r'
}

proof fn lemma_trim_start_subrange(s: Seq<char>, lo: int)
    requires
        0 <= lo <= s.len(),
        forall|j: int| 0 <= j < lo ==> is_space_char(s[j]),
        lo == s.len() || !is_space_char(s[lo]),
    ensures
        spec_trim_start(s) == s.subrange(lo, s.len() as int),
    decreases s.len(),
{
    if s.len() == 0 {
        assert(spec_trim_start(s) =~= s.subrange(lo, s.len() as int));
    } else if is_space_char(s[0]) {
        assert(lo >= 1);
        lemma_trim_start_subrange(s.drop_first(), lo - 1);
        assert(s.drop_first().subrange(lo - 1, s.len() - 1) =~= s.subrange(lo, s.len() as int));
    } else {
        assert(lo == 0);
        assert(spec_trim_start(s) =~= s.subrange(lo, s.len() as int));
    }
}

proof fn lemma_trim_end_subrange(s: Seq<char>, hi: int)
    requires
        0 <= hi <= s.len(),
        forall|j: int| hi <= j < s.len() ==> is_space_char(s[j]),
        hi == 0 || !is_space_char(s[hi - 1]),
    ensures
        spec_trim_end(s) == s.subrange(0, hi),
    decreases s.len(),
{
    if s.len() == 0 {
        assert(spec_trim_end(s) =~= s.subrange(0, hi));
    } else if is_space_char(s[s.len() - 1]) {
        assert(hi <= s.len() - 1);
        lemma_trim_end_subrange(s.drop_last(), hi);
        assert(s.drop_last().subrange(0, hi) =~= s.subrange(0, hi));
    } else {
        assert(hi == s.len());
        assert(spec_trim_end(s) =~= s.subrange(0, hi));
    }
}

/// Trims the raw text of an address query and keeps a non-empty remainder
/// as the resolved candidate; an empty remainder means no address was
/// found and the caller must fall back.
pub fn resolve_candidate(raw: &str) -> (r: Option<String>)
    ensures
        r matches Some(a) ==> a@ == spec_trim(raw@) && spec_trim(raw@).len() > 0,
        r is None ==> spec_trim(raw@).len() == 0,
{
    let n = raw.unicode_len();
    let mut lo: usize = 0;
    while lo < n && is_space(raw.get_char(lo))
        invariant
            n == raw@.len(),
            lo <= n,
            forall|j: int| 0 <= j < lo ==> is_space_char(raw@[j]),
        decreases n - lo,
    {
        lo += 1;
    }
    let mut hi: usize = n;
    while hi > lo && is_space(raw.get_char(hi - 1))
        invariant
            n == raw@.len(),
            lo <= hi <= n,
            forall|j: int| 0 <= j < lo ==> is_space_char(raw@[j]),
            lo == n || !is_space_char(raw@[lo as int]),
            forall|j: int| hi <= j < n ==> is_space_char(raw@[j]),
        decreases hi,
    {
        hi -= 1;
    }
    proof {
        lemma_trim_start_subrange(raw@, lo as int);
        if hi == lo {
            assert(forall|j: int| lo <= j < n ==> is_space_char(raw@[j]));
            lemma_trim_end_subrange(raw@.subrange(lo as int, n as int), 0);
        } else {
            assert(!is_space_char(raw@[hi - 1]));
            lemma_trim_end_subrange(raw@.subrange(lo as int, n as int), hi - lo);
        }
        assert(spec_trim(raw@) =~= raw@.subrange(lo as int, hi as int));
    }
    if hi == lo {
        None
    } else {
        let t = raw.substring_char(lo, hi);
        Some(t.to_owned())
    }
}

} // verus!
