//! Character-level helpers on strings: searching, splitting, integer parsing
//! and decimal printing.

use vstd::prelude::*;

verus! {

/// Index of the first occurrence of `c` in `s`, or `s.len()` when absent.
pub open spec fn first_index(s: Seq<char>, c: char) -> int
    decreases s.len(),
{
    if s.len() == 0 {
        0
    } else if s[0] == c {
        0
    } else {
        1 + first_index(s.drop_first(), c)
    }
}

/// The text before the first `c` (the whole text when there is none).
pub open spec fn before_first(s: Seq<char>, c: char) -> Seq<char> {
    s.take(first_index(s, c))
}

/// The text after the first `c` (empty when there is none).
pub open spec fn after_first(s: Seq<char>, c: char) -> Seq<char> {
    if first_index(s, c) < s.len() {
        s.skip(first_index(s, c) + 1)
    } else {
        Seq::empty()
    }
}

pub open spec fn contains_char(s: Seq<char>, c: char) -> bool {
    exists|i: int| 0 <= i < s.len() && s[i] == c
}

/// Empty text stands for an absent value.
pub open spec fn non_empty(s: Seq<char>) -> Option<Seq<char>> {
    if s.len() == 0 {
        None
    } else {
        Some(s)
    }
}

pub open spec fn opt_text(o: Option<String>) -> Option<Seq<char>> {
    match o {
        Some(s) => Some(s@),
        None => None,
    }
}

proof fn lemma_first_index(s: Seq<char>, c: char, i: int)
    requires
        0 <= i <= s.len(),
        forall|j: int| 0 <= j < i ==> s[j] != c,
        i == s.len() || s[i] == c,
    ensures
        first_index(s, c) == i,
    decreases i,
{
    if i > 0 {
        lemma_first_index(s.drop_first(), c, i - 1);
    }
}

proof fn lemma_first_index_bounds(s: Seq<char>, c: char)
    ensures
        0 <= first_index(s, c) <= s.len(),
        first_index(s, c) < s.len() ==> s[first_index(s, c)] == c,
        forall|j: int| 0 <= j < first_index(s, c) ==> s[j] != c,
        contains_char(s, c) <==> first_index(s, c) < s.len(),
    decreases s.len(),
{
    if s.len() > 0 && s[0] != c {
        lemma_first_index_bounds(s.drop_first(), c);
        assert forall|j: int| 0 <= j < first_index(s, c) implies s[j] != c by {
            if j > 0 {
                assert(s[j] == s.drop_first()[j - 1]);
            }
        }
        if contains_char(s, c) {
            let i = choose|i: int| 0 <= i < s.len() && s[i] == c;
            assert(s.drop_first()[i - 1] == c);
        }
        if first_index(s, c) < s.len() {
            assert(s[first_index(s, c)] == s.drop_first()[first_index(s, c) - 1]);
        }
    }
}

/// Position of the first `c` in `s`, or its length when there is none.
pub fn find_char(s: &str, c: char) -> (r: usize)
    ensures
        r as int == first_index(s@, c),
{
    let n = s.unicode_len();
    let mut i: usize = 0;
    while i < n
        invariant
            n == s@.len(),
            i <= n,
            forall|j: int| 0 <= j < i ==> s@[j] != c,
        decreases n - i,
    {
        if s.get_char(i) == c {
            proof {
                lemma_first_index(s@, c, i as int);
            }
            return i;
        }
        i = i + 1;
    }
    proof {
        lemma_first_index(s@, c, i as int);
    }
    i
}

/// Splits `s` at its first `c`: `Some((before, after))`, or `None` when `c`
/// does not occur.
pub fn split_once_char(s: &str, c: char) -> (r: Option<(String, String)>)
    ensures
        r is Some <==> contains_char(s@, c),
        r matches Some(p) ==> p.0@ == before_first(s@, c) && p.1@ == after_first(s@, c),
{
    proof {
        lemma_first_index_bounds(s@, c);
    }
    let k = find_char(s, c);
    let n = s.unicode_len();
    if k < n {
        let a = s.substring_char(0, k).to_owned();
        let b = s.substring_char(k + 1, n).to_owned();
        assert(b@ =~= after_first(s@, c));
        assert(a@ =~= before_first(s@, c));
        Some((a, b))
    } else {
        None
    }
}

/// The part of `s` before its first `c` (all of `s` when `c` is absent).
pub fn prefix_before(s: &str, c: char) -> (r: String)
    ensures
        r@ == before_first(s@, c),
{
    proof {
        lemma_first_index_bounds(s@, c);
    }
    let k = find_char(s, c);
    let r = s.substring_char(0, k).to_owned();
    assert(r@ =~= before_first(s@, c));
    r
}

/// Empty text becomes `None`; anything else is kept.
pub fn to_option(value: &str) -> (r: Option<String>)
    ensures
        opt_text(r) == non_empty(value@),
{
    if value.unicode_len() == 0 {
        None
    } else {
        Some(value.to_owned())
    }
}

} // verus!
