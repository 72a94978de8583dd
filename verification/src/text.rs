//! Conversions between strings and character vectors.
//!
//! The player's text logic (glyph strings, suffix tests, extension and
//! rational parsing) is written over `Vec<char>`; these two trusted
//! conversions are the only bridge to `String` and `&str`.
use vstd::prelude::*;

verus! {

/// Relies on `String: FromIterator<char>`: collecting characters yields the
/// string of exactly those characters, in order.
#[verifier::external_body]
pub fn chars_to_string(v: &Vec<char>) -> (r: String)
    ensures
        r@ == v@,
{
    v.iter().collect()
}

/// Relies on `str::chars`: the characters of the string, in order.
#[verifier::external_body]
pub fn chars_of(s: &str) -> (r: Vec<char>)
    ensures
        r@ == s@,
{
    s.chars().collect()
}


/// The last position of `c` in `s`, or `-1` when `s` does not hold it.
pub open spec fn last_index_of(s: Seq<char>, c: char) -> int
    decreases s.len(),
{
    if s.len() == 0 {
        -1
    } else if s.last() == c {
        s.len() - 1
    } else {
        last_index_of(s.drop_last(), c)
    }
}

/// The last position of `c` lies below `s`'s length, and at or above `-1`.
pub proof fn lemma_last_index_bounds(s: Seq<char>, c: char)
    ensures
        -1 <= last_index_of(s, c) < s.len(),
        last_index_of(s, c) >= 0 ==> s[last_index_of(s, c)] == c,
    decreases s.len(),
{
    if s.len() > 0 && s.last() != c {
        lemma_last_index_bounds(s.drop_last(), c);
    }
}

/// When everything from `j` on differs from `c`, the last position of `c`
/// is found in the prefix before `j`.
pub proof fn lemma_last_index_prefix(s: Seq<char>, c: char, j: int)
    requires
        0 <= j <= s.len(),
        forall|k: int| j <= k < s.len() ==> s[k] != c,
    ensures
        last_index_of(s, c) == last_index_of(s.take(j), c),
    decreases s.len() - j,
{
    if j == s.len() {
        assert(s.take(j) =~= s);
    } else {
        assert(s.drop_last() =~= s.take(s.len() - 1));
        lemma_last_index_prefix(s.take(s.len() - 1), c, j);
        assert(s.take(s.len() - 1).take(j) =~= s.take(j));
    }
}

/// One sequence ends in the other.
pub open spec fn ends_with(h: Seq<char>, n: Seq<char>) -> bool {
    h.len() >= n.len() && h.skip(h.len() - n.len()) == n
}

/// Finds the last occurrence of `c` in the characters, if any.
pub fn find_last(chars: &Vec<char>, c: char) -> (r: Option<usize>)
    ensures
        match r {
            Some(i) => i == last_index_of(chars@, c),
            None => last_index_of(chars@, c) == -1,
        },
{
    let mut i: usize = chars.len();
    while i > 0
        invariant
            i <= chars@.len(),
            forall|k: int| i <= k < chars@.len() ==> chars@[k] != c,
        decreases i,
    {
        i = i - 1;
        if chars[i] == c {
            proof {
                lemma_last_index_prefix(chars@, c, i + 1);
                assert(chars@.take(i as int + 1).last() == chars@[i as int]);
            }
            return Some(i);
        }
    }
    proof {
        lemma_last_index_prefix(chars@, c, 0);
        assert(chars@.take(0) =~= Seq::<char>::empty());
    }
    None
}

/// Whether two character vectors hold the same characters.
pub fn chars_eq(a: &Vec<char>, b: &Vec<char>) -> (r: bool)
    ensures
        r == (a@ == b@),
{
    if a.len() != b.len() {
        proof {
            assert(a@.len() != b@.len());
        }
        return false;
    }
    let n: usize = a.len();
    let mut i: usize = 0;
    while i < n
        invariant
            n == a@.len(),
            n == b@.len(),
            i <= n,
            forall|k: int| 0 <= k < i ==> a@[k] == b@[k],
        decreases n - i,
    {
        if a[i] != b[i] {
            return false;
        }
        i = i + 1;
    }
    proof {
        assert(a@ =~= b@);
    }
    true
}

/// Whether the characters end in the given suffix.
pub fn chars_end_with(h: &Vec<char>, n: &Vec<char>) -> (r: bool)
    ensures
        r == ends_with(h@, n@),
{
    if h.len() < n.len() {
        return false;
    }
    let off: usize = h.len() - n.len();
    let m: usize = n.len();
    let mut i: usize = 0;
    while i < m
        invariant
            m == n@.len(),
            off + m == h@.len(),
            off + m <= usize::MAX,
            i <= m,
            forall|k: int| 0 <= k < i ==> h@[off + k] == n@[k],
        decreases m - i,
    {
        if h[off + i] != n[i] {
            proof {
                assert(h@.skip(off as int)[i as int] != n@[i as int]);
            }
            return false;
        }
        i = i + 1;
    }
    proof {
        assert(h@.skip(off as int) =~= n@);
    }
    true
}

} // verus!
