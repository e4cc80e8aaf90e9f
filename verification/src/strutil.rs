//! Case-insensitive (ASCII folding) substring search over `&str`,
//! the primitive behind miner-vendor classification.

use vstd::prelude::*;

verus! {

/// Code point of `c` after ASCII lower-case folding: upper-case ASCII
/// letters are shifted into their lower-case range, everything else is
/// left as it is.
pub open spec fn lower_code(c: char) -> int {
    if 65 <= c as u32 && c as u32 <= 90 {
        c as u32 + 32
    } else {
        c as u32 as int
    }
}

/// Case-insensitive character equality under ASCII folding.
pub open spec fn char_eq_ci(a: char, b: char) -> bool {
    lower_code(a) == lower_code(b)
}

/// `needle` occurs in `hay` at offset `i`, comparing case-insensitively.
pub open spec fn matches_at(hay: Seq<char>, needle: Seq<char>, i: int) -> bool {
    &&& 0 <= i
    &&& i + needle.len() <= hay.len()
    &&& forall|j: int| 0 <= j < needle.len() ==> char_eq_ci(hay[i + j], needle[j])
}

/// `needle` occurs somewhere in `hay`, comparing case-insensitively.
pub open spec fn seq_contains_ci(hay: Seq<char>, needle: Seq<char>) -> bool {
    exists|i: int| matches_at(hay, needle, i)
}

/// Case-insensitive character comparison.
fn char_eq_ci_exec(a: char, b: char) -> (r: bool)
    ensures
        r == char_eq_ci(a, b),
{
    let ca: u32 = a as u32;
    let cb: u32 = b as u32;
    let la: u32 = if 65 <= ca && ca <= 90 {
        ca + 32
    } else {
        ca
    };
    let lb: u32 = if 65 <= cb && cb <= 90 {
        cb + 32
    } else {
        cb
    };
    la == lb
}

/// `needle` occurs at offset `i` of `hay`, comparing case-insensitively.
fn matches_at_exec(hay: &str, needle: &str, i: usize) -> (r: bool)
    requires
        i + needle@.len() <= hay@.len(),
        hay@.len() <= usize::MAX,
    ensures
        r == matches_at(hay@, needle@, i as int),
{
    let nlen = needle.unicode_len();
    let mut j: usize = 0;
    while j < nlen
        invariant
            nlen == needle@.len(),
            i + nlen <= hay@.len() <= usize::MAX,
            j <= nlen,
            forall|t: int| 0 <= t < j ==> char_eq_ci(hay@[i + t], needle@[t]),
        decreases nlen - j,
    {
        if !char_eq_ci_exec(hay.get_char(i + j), needle.get_char(j)) {
            assert(!char_eq_ci(hay@[i + j], needle@[j as int]));
            return false;
        }
        j = j + 1;
    }
    true
}

/// Whether `needle` occurs anywhere in `hay`, under case-insensitive
/// ASCII comparison. This is the one string primitive the vendor
/// classifier is built on.
pub fn str_contains_ci(hay: &str, needle: &str) -> (r: bool)
    ensures
        r == seq_contains_ci(hay@, needle@),
{
    let hlen = hay.unicode_len();
    let nlen = needle.unicode_len();
    if nlen > hlen {
        assert(forall|i: int| !matches_at(hay@, needle@, i));
        return false;
    }
    let mut i: usize = 0;
    while i <= hlen - nlen
        invariant
            hlen == hay@.len(),
            nlen == needle@.len(),
            nlen <= hlen,
            i <= hlen - nlen + 1,
            forall|k: int| 0 <= k < i ==> !matches_at(hay@, needle@, k),
        decreases hlen - nlen - i + 1,
    {
        if matches_at_exec(hay, needle, i) {
            assert(seq_contains_ci(hay@, needle@));
            return true;
        }
        i = i + 1;
    }
    assert(forall|k: int| !matches_at(hay@, needle@, k));
    false
}

} // verus!
