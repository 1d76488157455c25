//! Character-level text predicates used by validation and search.

use vstd::prelude::*;
use vstd::string::StrSliceExecFns;

verus! {

/// The Unicode white-space code points, the same set that trimming removes.
pub open spec fn is_space_char(c: char) -> bool {
    let n = c as u32;
    n == 0x0009 || n == 0x000A || n == 0x000B || n == 0x000C || n == 0x000D || n == 0x0020
        || n == 0x0085 || n == 0x00A0 || n == 0x1680 || (0x2000 <= n && n <= 0x200A)
        || n == 0x2028 || n == 0x2029 || n == 0x202F || n == 0x205F || n == 0x3000
}

/// A string is blank when every character is white space; the empty string
/// is blank.  Exactly the strings whose trimmed form is empty.
pub open spec fn is_blank(s: Seq<char>) -> bool {
    forall|i: int| 0 <= i < s.len() ==> is_space_char(#[trigger] s[i])
}

/// `q` occurs in `t` starting at character position `i`.
pub open spec fn substring_at(t: Seq<char>, q: Seq<char>, i: int) -> bool {
    t.subrange(i, i + q.len()) == q
}

/// `q` occurs somewhere in `t` as a contiguous run of characters.  The
/// empty needle occurs in every string.
pub open spec fn has_substring(t: Seq<char>, q: Seq<char>) -> bool {
    exists|i: int| 0 <= i && i + q.len() <= t.len() && #[trigger] substring_at(t, q, i)
}

/// Whether `c` is white space.
pub fn is_space(c: char) -> (r: bool)
    ensures
        r == is_space_char(c),
{
    let n = c as u32;
    n == 0x0009 || n == 0x000A || n == 0x000B || n == 0x000C || n == 0x000D || n == 0x0020
        || n == 0x0085 || n == 0x00A0 || n == 0x1680 || (0x2000 <= n && n <= 0x200A)
        || n == 0x2028 || n == 0x2029 || n == 0x202F || n == 0x205F || n == 0x3000
}

/// Whether `s` is empty or consists of white space only.
pub fn str_is_blank(s: &str) -> (r: bool)
    ensures
        r == is_blank(s@),
{
    let len = s.unicode_len();
    let mut i: usize = 0;
    while i < len
        invariant
            len == s@.len(),
            0 <= i <= len,
            forall|j: int| 0 <= j < i ==> is_space_char(#[trigger] s@[j]),
        decreases len - i,
    {
        let c = s.get_char(i);
        if !is_space(c) {
            proof {
                assert(!is_space_char(s@[i as int]));
            }
            return false;
        }
        i += 1;
    }
    true
}

/// Whether `q` occurs in `t` starting at character position `i`.
fn matches_at(t: &str, q: &str, i: usize) -> (r: bool)
    requires
        i + q@.len() <= t@.len(),
        t@.len() <= usize::MAX,
    ensures
        r == substring_at(t@, q@, i as int),
{
    let ql = q.unicode_len();
    let mut j: usize = 0;
    while j < ql
        invariant
            ql == q@.len(),
            i + ql <= t@.len() <= usize::MAX,
            0 <= j <= ql,
            forall|k: int| 0 <= k < j ==> t@[i + k] == #[trigger] q@[k],
        decreases ql - j,
    {
        if t.get_char(i + j) != q.get_char(j) {
            proof {
                let sub = t@.subrange(i as int, i + q@.len());
                if sub == q@ {
                    assert(sub[j as int] == t@[i + j]);
                }
            }
            return false;
        }
        j += 1;
    }
    proof {
        assert(t@.subrange(i as int, i + q@.len()) =~= q@);
    }
    true
}

/// Whether `q` occurs somewhere in `t` as a contiguous run of characters.
/// The match is exact: no case folding and no pattern syntax.
pub fn str_contains(t: &str, q: &str) -> (r: bool)
    ensures
        r == has_substring(t@, q@),
{
    let tl = t.unicode_len();
    let ql = q.unicode_len();
    if ql > tl {
        proof {
            if has_substring(t@, q@) {
                let k = choose|k: int|
                    0 <= k && k + q@.len() <= t@.len() && #[trigger] substring_at(t@, q@, k);
                assert(false);
            }
        }
        return false;
    }
    if ql == 0 {
        proof {
            assert(t@.subrange(0, 0) =~= q@);
            assert(substring_at(t@, q@, 0));
        }
        return true;
    }
    let last = tl - ql;
    let mut i: usize = 0;
    while i <= last
        invariant
            tl == t@.len(),
            ql == q@.len(),
            1 <= ql <= tl,
            last == tl - ql,
            0 <= i <= last + 1,
            forall|k: int| 0 <= k < i ==> !(#[trigger] substring_at(t@, q@, k)),
        decreases last + 1 - i,
    {
        if matches_at(t, q, i) {
            proof {
                assert(substring_at(t@, q@, i as int));
            }
            return true;
        }
        i += 1;
    }
    proof {
        if has_substring(t@, q@) {
            let k = choose|k: int|
                0 <= k && k + q@.len() <= t@.len() && #[trigger] substring_at(t@, q@, k);
            assert(k < i);
        }
    }
    false
}

} // verus!
