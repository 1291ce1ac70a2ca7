//! Verified text utilities: whitespace trimming, string equality and
//! first-occurrence substring search over `&str` / `String` values.

use vstd::prelude::*;
use vstd::string::*;

verus! {

/// The Unicode `White_Space` characters, the set that `str::trim` removes.
pub open spec fn is_whitespace_char(c: char) -> bool {
    let u = c as u32;
    u == 0x20 || (0x09 <= u && u <= 0x0D) || u == 0x85 || u == 0xA0 || u == 0x1680 || (0x2000
        <= u && u <= 0x200A) || u == 0x2028 || u == 0x2029 || u == 0x202F || u == 0x205F || u
        == 0x3000
}

/// Executable test for a whitespace character.
pub fn char_is_whitespace(c: char) -> (r: bool)
    ensures
        r == is_whitespace_char(c),
{
    let u = c as u32;
    u == 0x20 || (0x09 <= u && u <= 0x0D) || u == 0x85 || u == 0xA0 || u == 0x1680 || (0x2000
        <= u && u <= 0x200A) || u == 0x2028 || u == 0x2029 || u == 0x202F || u == 0x205F || u
        == 0x3000
}

/// The sequence with all leading whitespace characters removed.
pub open spec fn drop_leading_ws(s: Seq<char>) -> Seq<char>
    decreases s.len(),
{
    if s.len() > 0 && is_whitespace_char(s[0]) {
        drop_leading_ws(s.drop_first())
    } else {
        s
    }
}

/// The sequence with all trailing whitespace characters removed.
pub open spec fn drop_trailing_ws(s: Seq<char>) -> Seq<char>
    decreases s.len(),
{
    if s.len() > 0 && is_whitespace_char(s.last()) {
        drop_trailing_ws(s.drop_last())
    } else {
        s
    }
}

/// What trimming a string yields: the contents with leading and trailing
/// whitespace removed.
pub open spec fn trim_of(s: Seq<char>) -> Seq<char> {
    drop_trailing_ws(drop_leading_ws(s))
}

proof fn lemma_drop_leading_ws(s: Seq<char>, i: int)
    requires
        0 <= i <= s.len(),
        forall|k: int| 0 <= k < i ==> is_whitespace_char(s[k]),
        i < s.len() ==> !is_whitespace_char(s[i]),
    ensures
        drop_leading_ws(s) == s.skip(i),
    decreases i,
{
    if i == 0 {
        assert(s.skip(0) =~= s);
    } else {
        lemma_drop_leading_ws(s.drop_first(), i - 1);
        assert(s.drop_first().skip(i - 1) =~= s.skip(i));
    }
}

proof fn lemma_drop_trailing_ws(s: Seq<char>, j: int)
    requires
        0 <= j <= s.len(),
        forall|k: int| j <= k < s.len() ==> is_whitespace_char(s[k]),
        j > 0 ==> !is_whitespace_char(s[j - 1]),
    ensures
        drop_trailing_ws(s) == s.take(j),
    decreases s.len() - j,
{
    if j == s.len() {
        assert(s.take(j) =~= s);
    } else {
        lemma_drop_trailing_ws(s.drop_last(), j);
        assert(s.drop_last().take(j) =~= s.take(j));
    }
}

/// Trimming: the result is the input with leading and trailing whitespace
/// removed, as `trim_of` describes.
pub fn trimmed(s: &str) -> (r: String)
    ensures
        r@ == trim_of(s@),
{
    let n = s.unicode_len();
    let mut start: usize = 0;
    while start < n && char_is_whitespace(s.get_char(start))
        invariant
            n == s@.len(),
            0 <= start <= n,
            forall|k: int| 0 <= k < start ==> is_whitespace_char(s@[k]),
        decreases n - start,
    {
        start = start + 1;
    }
    if start == n {
        proof {
            lemma_drop_leading_ws(s@, n as int);
            assert(s@.skip(n as int) =~= Seq::<char>::empty());
        }
        return String::new();
    }
    let mut end: usize = n;
    while end > start + 1 && char_is_whitespace(s.get_char(end - 1))
        invariant
            n == s@.len(),
            0 <= start < n,
            start + 1 <= end <= n,
            !is_whitespace_char(s@[start as int]),
            forall|k: int| end <= k < n ==> is_whitespace_char(s@[k]),
        decreases end,
    {
        end = end - 1;
    }
    let piece = s.substring_char(start, end);
    let r = piece.to_owned();
    proof {
        lemma_drop_leading_ws(s@, start as int);
        let t = s@.skip(start as int);
        let j = end - start;
        assert(forall|k: int| j <= k < t.len() ==> is_whitespace_char(#[trigger] t[k]));
        if is_whitespace_char(s@[end - 1]) {
            // then the second loop stopped with end == start + 1, and
            // s@[start] is not whitespace, a contradiction
            assert(end == start + 1);
            assert(false);
        }
        assert(!is_whitespace_char(t[j - 1]));
        lemma_drop_trailing_ws(t, j as int);
        assert(t.take(j as int) =~= s@.subrange(start as int, end as int));
    }
    r
}

/// String equality decided character by character.
pub fn str_eq(a: &str, b: &str) -> (r: bool)
    ensures
        r == (a@ == b@),
{
    let na = a.unicode_len();
    let nb = b.unicode_len();
    if na != nb {
        return false;
    }
    let mut i: usize = 0;
    while i < na
        invariant
            na == a@.len(),
            na == b@.len(),
            0 <= i <= na,
            forall|k: int| 0 <= k < i ==> a@[k] == b@[k],
        decreases na - i,
    {
        if a.get_char(i) != b.get_char(i) {
            return false;
        }
        i = i + 1;
    }
    proof {
        assert(a@ =~= b@);
    }
    true
}

/// The pattern `t` occurs in `s` at position `i`.
pub open spec fn occurs_at(s: Seq<char>, t: Seq<char>, i: int) -> bool {
    0 <= i && i + t.len() <= s.len() && s.subrange(i, i + t.len() as int) == t
}

/// The pattern `t` occurs somewhere in `s`.
pub open spec fn contains_seq(s: Seq<char>, t: Seq<char>) -> bool {
    exists|i: int| occurs_at(s, t, i)
}

/// Whether `t` occurs in `s` at exactly position `i`, decided character by
/// character.
fn match_at(s: &str, t: &str, i: usize, n: usize, m: usize) -> (r: bool)
    requires
        n == s@.len(),
        m == t@.len(),
        i + m <= n,
    ensures
        r == occurs_at(s@, t@, i as int),
{
    let mut j: usize = 0;
    while j < m
        invariant
            n == s@.len(),
            m == t@.len(),
            i + m <= n,
            0 <= j <= m,
            forall|l: int| 0 <= l < j ==> s@[i + l] == t@[l],
        decreases m - j,
    {
        if s.get_char(i + j) != t.get_char(j) {
            proof {
                if occurs_at(s@, t@, i as int) {
                    assert(s@.subrange(i as int, i + m as int)[j as int] == s@[i + j]);
                }
            }
            return false;
        }
        j = j + 1;
    }
    proof {
        assert(s@.subrange(i as int, i + m as int) =~= t@);
    }
    true
}

/// First-occurrence substring search: `Some(i)` exactly when `t` occurs in
/// `s`, and then `i` is the least position at which it occurs.
pub fn find_first(s: &str, t: &str) -> (r: Option<usize>)
    ensures
        match r {
            Some(i) => occurs_at(s@, t@, i as int) && forall|j: int|
                0 <= j < i ==> !occurs_at(s@, t@, j),
            None => !contains_seq(s@, t@),
        },
{
    let n = s.unicode_len();
    let m = t.unicode_len();
    if m > n {
        proof {
            assert(forall|i: int| !occurs_at(s@, t@, i));
        }
        return None;
    }
    if m == 0 {
        proof {
            assert(s@.subrange(0, 0) =~= t@);
        }
        return Some(0);
    }
    let mut i: usize = 0;
    while i <= n - m
        invariant
            n == s@.len(),
            m == t@.len(),
            0 < m <= n,
            0 <= i <= n - m + 1,
            forall|j: int| 0 <= j < i ==> !occurs_at(s@, t@, j),
        decreases n - i,
    {
        if match_at(s, t, i, n, m) {
            return Some(i);
        }
        i = i + 1;
    }
    proof {
        assert(forall|j: int| occurs_at(s@, t@, j) ==> 0 <= j <= n - m);
    }
    None
}

} // verus!
