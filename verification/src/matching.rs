//! Substring tests over field names and type path segments.
//!
//! Role binding works by two kinds of containment test: a case-sensitive one
//! on field names (does the name contain `"id"`, `"events"`, `"timestamp"`?)
//! and a case-folded one on the outermost segment of a declared type's path
//! (does the segment, lowercased, contain `"uuid"` or `"datetime"`?).
//! Case folding is ASCII folding: an uppercase ASCII letter counts as equal
//! to its lowercase form, and every other character only to itself.

use vstd::prelude::*;
use vstd::string::StrSliceExecFns;

verus! {

/// The code point a character contributes to a case-folded comparison:
/// its own code point, except that uppercase ASCII letters fold onto their
/// lowercase forms 32 code points higher.
pub open spec fn fold_code(c: char) -> int {
    if 65 <= c as u32 && c as u32 <= 90 {
        (c as u32) as int + 32
    } else {
        (c as u32) as int
    }
}

/// Character equality, exact or under ASCII case folding.
pub open spec fn char_role_eq(a: char, b: char, folded: bool) -> bool {
    if folded {
        fold_code(a) == fold_code(b)
    } else {
        a == b
    }
}

/// The needle `n` occurs in `h` starting at position `i`, character by
/// character, exactly or under ASCII case folding.
pub open spec fn occurs_at(h: Seq<char>, n: Seq<char>, i: int, folded: bool) -> bool {
    &&& 0 <= i
    &&& i + n.len() <= h.len()
    &&& forall|k: int| 0 <= k < n.len() ==> char_role_eq(#[trigger] h[i + k], n[k], folded)
}

/// The needle `n` occurs somewhere in `h`. With `folded` set, this says that
/// the lowercased `h` contains the lowercased `n`.
pub open spec fn contains_needle(h: Seq<char>, n: Seq<char>, folded: bool) -> bool {
    exists|i: int| occurs_at(h, n, i, folded)
}

/// Executable ASCII case folding of one character's code point.
pub fn fold_code_exec(c: char) -> (r: u32)
    ensures
        r as int == fold_code(c),
{
    let u = c as u32;
    if 65 <= u && u <= 90 {
        u + 32
    } else {
        u
    }
}

/// Does `n` occur in `h` at position `i`?
fn matches_at(h: &str, n: &str, i: usize, folded: bool) -> (r: bool)
    requires
        i + n@.len() <= h@.len(),
    ensures
        r == occurs_at(h@, n@, i as int, folded),
{
    let hlen = h.unicode_len();
    let nlen = n.unicode_len();
    let mut k: usize = 0;
    while k < nlen
        invariant
            hlen == h@.len(),
            i + nlen <= hlen,
            nlen == n@.len(),
            k <= nlen,
            forall|m: int| 0 <= m < k ==> char_role_eq(#[trigger] h@[i + m], n@[m], folded),
        decreases nlen - k,
    {
        let hc = h.get_char(i + k);
        let nc = n.get_char(k);
        let same = if folded {
            fold_code_exec(hc) == fold_code_exec(nc)
        } else {
            hc == nc
        };
        if !same {
            assert(!char_role_eq(h@[i + k], n@[k as int], folded));
            return false;
        }
        k = k + 1;
    }
    true
}

/// The containment test behind every role predicate: does `h` contain `n`,
/// exactly (`folded == false`) or under ASCII case folding (`folded == true`)?
pub fn contains_needle_exec(h: &str, n: &str, folded: bool) -> (r: bool)
    ensures
        r == contains_needle(h@, n@, folded),
{
    let hlen = h.unicode_len();
    let nlen = n.unicode_len();
    if nlen > hlen {
        assert(forall|i: int| !occurs_at(h@, n@, i, folded));
        return false;
    }
    let mut i: usize = 0;
    while i <= hlen - nlen
        invariant
            nlen <= hlen,
            hlen == h@.len(),
            nlen == n@.len(),
            i <= hlen - nlen + 1,
            forall|j: int| 0 <= j < i ==> !occurs_at(h@, n@, j, folded),
        decreases hlen - nlen + 1 - i,
    {
        if matches_at(h, n, i, folded) {
            return true;
        }
        i = i + 1;
    }
    assert(forall|j: int| !occurs_at(h@, n@, j, folded));
    false
}

} // verus!
