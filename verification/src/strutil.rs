//! Character-level helpers on strings: prefix tests, first/last occurrence
//! of a character, and the line before the first newline.  Everything is
//! stated over the character sequence a string views to.

use vstd::prelude::*;

verus! {

/// True exactly when `prefix` is a prefix of `s`.
pub fn str_starts_with(s: &str, prefix: &str) -> (r: bool)
    ensures
        r == prefix@.is_prefix_of(s@),
{
    let n: usize = prefix.unicode_len();
    let m: usize = s.unicode_len();
    if n > m {
        return false;
    }
    let mut i: usize = 0;
    while i < n
        invariant
            i <= n,
            n <= m,
            n == prefix@.len(),
            m == s@.len(),
            forall|j: int| 0 <= j < i ==> s@[j] == prefix@[j],
        decreases n - i,
    {
        if s.get_char(i) != prefix.get_char(i) {
            proof {
                if prefix@.is_prefix_of(s@) {
                    assert(prefix@[i as int] == s@.subrange(0, n as int)[i as int]);
                    assert(false);
                }
            }
            return false;
        }
        i += 1;
    }
    proof {
        assert(prefix@ =~= s@.subrange(0, n as int));
    }
    true
}

/// The position of the first occurrence of `c` in `s`, if any.
pub fn first_index_of_char(s: &str, c: char) -> (r: Option<usize>)
    ensures
        match r {
            Some(i) => i < s@.len() && s@[i as int] == c && (forall|j: int|
                0 <= j < i ==> s@[j] != c),
            None => forall|j: int| 0 <= j < s@.len() ==> s@[j] != c,
        },
{
    let n: usize = s.unicode_len();
    let mut i: usize = 0;
    while i < n
        invariant
            i <= n,
            n == s@.len(),
            forall|j: int| 0 <= j < i ==> s@[j] != c,
        decreases n - i,
    {
        if s.get_char(i) == c {
            return Some(i);
        }
        i += 1;
    }
    None
}

/// The position of the last occurrence of `c` in `s`, if any.
pub fn last_index_of_char(s: &str, c: char) -> (r: Option<usize>)
    ensures
        match r {
            Some(i) => i < s@.len() && s@[i as int] == c && (forall|j: int|
                i < j < s@.len() ==> s@[j] != c),
            None => forall|j: int| 0 <= j < s@.len() ==> s@[j] != c,
        },
{
    let n: usize = s.unicode_len();
    let mut i: usize = n;
    while i > 0
        invariant
            i <= n,
            n == s@.len(),
            forall|j: int| i <= j < n ==> s@[j] != c,
        decreases i,
    {
        i -= 1;
        if s.get_char(i) == c {
            return Some(i);
        }
    }
    None
}

/// True exactly when `s` holds the character `c`.
pub fn str_contains_char(s: &str, c: char) -> (r: bool)
    ensures
        r == s@.contains(c),
{
    match last_index_of_char(s, c) {
        Some(i) => {
            proof {
                assert(0 <= i < s@.len() && s@[i as int] == c);
            }
            true
        },
        None => {
            proof {
                assert(!s@.contains(c));
            }
            false
        },
    }
}

/// A first occurrence found by a scan is the sequence's `index_of_first`.
pub proof fn lemma_index_of_first_agrees(s: Seq<char>, c: char, i: int)
    requires
        0 <= i < s.len(),
        s[i] == c,
        forall|j: int| 0 <= j < i ==> s[j] != c,
    ensures
        s.index_of_first(c) == Some(i),
{
    s.index_of_first_ensures(c);
    assert(s.contains(c));
    let k = s.index_of_first(c).unwrap();
    if k < i {
        assert(s[k] != c);
        assert(false);
    }
    if i < k {
        assert(s[i] != c);
        assert(false);
    }
}

/// A last occurrence found by a scan is the sequence's `index_of_last`.
pub proof fn lemma_index_of_last_agrees(s: Seq<char>, c: char, i: int)
    requires
        0 <= i < s.len(),
        s[i] == c,
        forall|j: int| i < j < s.len() ==> s[j] != c,
    ensures
        s.index_of_last(c) == Some(i),
{
    s.index_of_last_ensures(c);
    assert(s.contains(c));
    let k = s.index_of_last(c).unwrap();
    if k < i {
        assert(s[i] != c);
        assert(false);
    }
    if i < k {
        assert(s[k] != c);
        assert(false);
    }
}

/// Everything before the first newline; the whole string when it has none.
pub open spec fn first_line_spec(s: Seq<char>) -> Seq<char> {
    match s.index_of_first('\n') {
        Some(i) => s.subrange(0, i),
        None => s,
    }
}

/// Extracts the first line of a report, the part a terse summary shows.
pub fn first_line(s: &str) -> (r: String)
    ensures
        r@ == first_line_spec(s@),
{
    match first_index_of_char(s, '\n') {
        Some(i) => {
            proof {
                lemma_index_of_first_agrees(s@, '\n', i as int);
            }
            s.substring_char(0, i).to_owned()
        },
        None => {
            proof {
                s@.index_of_first_ensures('\n');
                if s@.contains('\n') {
                    assert(false);
                }
            }
            s.to_owned()
        },
    }
}

} // verus!
