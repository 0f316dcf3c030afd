//! Character and string utilities: ASCII case folding, case-insensitive
//! comparison and substring search.
//!
//! Account handles are compared after folding ASCII upper-case letters to
//! lower case; this is the one normalization rule of the crate and every
//! lookup goes through it.

use vstd::prelude::*;
use vstd::string::StrSliceExecFns;

verus! {

/// Case-folded image of one character: ASCII upper-case letters are mapped
/// to the corresponding lower-case letter, every other character is kept.
pub open spec fn lower_char(c: char) -> char {
    if 65 <= c as u32 && c as u32 <= 90 {
        (((c as u32) + 32) as u8) as char
    } else {
        c
    }
}

/// Case-folded image of a character sequence.
pub open spec fn fold(s: Seq<char>) -> Seq<char> {
    s.map_values(|c: char| lower_char(c))
}

/// Whether `needle` occurs as a contiguous subsequence of `hay`.
pub open spec fn contains_seq(hay: Seq<char>, needle: Seq<char>) -> bool {
    exists|i: int|
        0 <= i && i + needle.len() <= hay.len() && #[trigger] hay.subrange(
            i,
            i + needle.len(),
        ) == needle
}

fn lower_char_exec(c: char) -> (r: char)
    ensures
        r == lower_char(c),
{
    let n = c as u32;
    if 65 <= n && n <= 90 {
        ((n as u8) + 32) as char
    } else {
        c
    }
}

/// Exact (case-sensitive) string equality.
pub fn str_eq(a: &str, b: &str) -> (r: bool)
    ensures
        r == (a@ == b@),
{
    let alen = a.unicode_len();
    let blen = b.unicode_len();
    if alen != blen {
        return false;
    }
    let mut i: usize = 0;
    while i < alen
        invariant
            0 <= i <= alen,
            alen == a@.len(),
            alen == b@.len(),
            forall|j: int| 0 <= j < i ==> a@[j] == b@[j],
        decreases alen - i,
    {
        if a.get_char(i) != b.get_char(i) {
            return false;
        }
        i += 1;
    }
    proof {
        assert(a@ =~= b@);
    }
    true
}

/// Case-insensitive string equality under the crate's folding rule.
pub fn eq_ignore_case(a: &str, b: &str) -> (r: bool)
    ensures
        r == (fold(a@) == fold(b@)),
{
    let alen = a.unicode_len();
    let blen = b.unicode_len();
    if alen != blen {
        assert(fold(a@).len() != fold(b@).len());
        return false;
    }
    let mut i: usize = 0;
    while i < alen
        invariant
            0 <= i <= alen,
            alen == a@.len(),
            alen == b@.len(),
            forall|j: int| 0 <= j < i ==> fold(a@)[j] == fold(b@)[j],
        decreases alen - i,
    {
        let ca = a.get_char(i);
        let cb = b.get_char(i);
        if lower_char_exec(ca) != lower_char_exec(cb) {
            assert(fold(a@)[i as int] != fold(b@)[i as int]);
            return false;
        }
        i += 1;
    }
    proof {
        assert(fold(a@) =~= fold(b@));
    }
    true
}

/// Whether the characters of `needle` stand in `hay` starting at `at`,
/// compared case-sensitively or after folding.
fn match_at(hay: &str, needle: &str, at: usize, folded: bool) -> (r: bool)
    requires
        at + needle@.len() <= hay@.len(),
        hay@.len() as int <= usize::MAX as int,
    ensures
        folded ==> r == (fold(hay@).subrange(at as int, at + fold(needle@).len()) == fold(
            needle@,
        )),
        !folded ==> r == (hay@.subrange(at as int, at + needle@.len()) == needle@),
{
    let nlen = needle.unicode_len();
    let mut j: usize = 0;
    while j < nlen
        invariant
            0 <= j <= nlen,
            nlen == needle@.len(),
            at + nlen <= hay@.len(),
            hay@.len() as int <= usize::MAX as int,
            folded ==> forall|k: int|
                0 <= k < j ==> fold(hay@)[at + k] == fold(needle@)[k],
            !folded ==> forall|k: int| 0 <= k < j ==> hay@[at + k] == needle@[k],
        decreases nlen - j,
    {
        let ch = hay.get_char(at + j);
        let cn = needle.get_char(j);
        let same = if folded {
            lower_char_exec(ch) == lower_char_exec(cn)
        } else {
            ch == cn
        };
        if !same {
            proof {
                if folded {
                    assert(fold(hay@).subrange(at as int, at + fold(needle@).len())[j as int]
                        == fold(hay@)[at + j]);
                } else {
                    assert(hay@.subrange(at as int, at + nlen)[j as int] == hay@[at + j]);
                }
            }
            return false;
        }
        j += 1;
    }
    proof {
        if folded {
            assert(fold(hay@).subrange(at as int, at + fold(needle@).len()) =~= fold(needle@));
        } else {
            assert(hay@.subrange(at as int, at + nlen) =~= needle@);
        }
    }
    true
}

/// Case-sensitive substring search.
pub fn contains_str(hay: &str, needle: &str) -> (r: bool)
    ensures
        r == contains_seq(hay@, needle@),
{
    let hlen = hay.unicode_len();
    let nlen = needle.unicode_len();
    if nlen > hlen {
        return false;
    }
    if nlen == 0 {
        proof {
            assert(hay@.subrange(0int, 0int + needle@.len()) =~= needle@);
        }
        return true;
    }
    let mut i: usize = 0;
    while i <= hlen - nlen
        invariant
            0 <= i <= hlen - nlen + 1,
            0 < nlen <= hlen,
            hlen == hay@.len(),
            nlen == needle@.len(),
            forall|j: int|
                0 <= j < i ==> #[trigger] hay@.subrange(j, j + needle@.len()) != needle@,
        decreases hlen - nlen - i + 1,
    {
        if match_at(hay, needle, i, false) {
            return true;
        }
        i += 1;
    }
    false
}

/// Case-insensitive substring search under the crate's folding rule.
pub fn contains_ignore_case(hay: &str, needle: &str) -> (r: bool)
    ensures
        r == contains_seq(fold(hay@), fold(needle@)),
{
    let hlen = hay.unicode_len();
    let nlen = needle.unicode_len();
    if nlen > hlen {
        return false;
    }
    if nlen == 0 {
        proof {
            assert(fold(hay@).subrange(0int, 0int + fold(needle@).len()) =~= fold(needle@));
        }
        return true;
    }
    let mut i: usize = 0;
    while i <= hlen - nlen
        invariant
            0 <= i <= hlen - nlen + 1,
            0 < nlen <= hlen,
            hlen == hay@.len(),
            nlen == needle@.len(),
            forall|j: int|
                0 <= j < i ==> #[trigger] fold(hay@).subrange(j, j + fold(needle@).len()) != fold(
                    needle@,
                ),
        decreases hlen - nlen - i + 1,
    {
        if match_at(hay, needle, i, true) {
            proof {
                assert(0 <= i as int && i as int + fold(needle@).len() <= fold(hay@).len()
                    && fold(hay@).subrange(i as int, i as int + fold(needle@).len()) == fold(
                    needle@,
                ));
            }
            return true;
        }
        i += 1;
    }
    false
}

} // verus!
