//! Locale-stable case-insensitive comparison.
//!
//! Under the "C" locale, case-insensitive comparison of byte strings
//! folds only the ASCII letters `A`..`Z` and compares byte by byte,
//! stopping at a terminating zero byte or after `n` bytes.  That rule
//! is small enough to state exactly, so the comparison is implemented
//! and verified here rather than forwarded to the platform.  A slice
//! stands for a C string: its content ends at the first zero byte, or
//! at the end of the slice if no zero byte occurs.

use vstd::prelude::*;

verus! {

/// "C"-locale case folding: the ASCII capitals map to their
/// lowercase forms, every other byte maps to itself.
pub open spec fn ascii_fold(b: u8) -> u8 {
    if 65 <= b <= 90 {
        (b + 32) as u8
    } else {
        b
    }
}

/// The byte of a C string at position `i`: the slice byte where one
/// exists, and the terminating zero once the slice is exhausted.
pub open spec fn cstr_byte(s: Seq<u8>, i: int) -> u8 {
    if 0 <= i < s.len() {
        s[i]
    } else {
        0
    }
}

/// Three-way case-insensitive comparison of positions `i..n` of two
/// C strings: the fold difference at the first position where the
/// folded bytes differ, and zero when both strings end, or `n` is
/// reached, before any difference.
pub open spec fn compare_folded_from(a: Seq<u8>, b: Seq<u8>, i: int, n: int) -> int
    decreases n - i,
{
    if i >= n {
        0
    } else {
        let ca = ascii_fold(cstr_byte(a, i));
        let cb = ascii_fold(cstr_byte(b, i));
        if ca != cb {
            ca - cb
        } else if ca == 0 {
            0
        } else {
            compare_folded_from(a, b, i + 1, n)
        }
    }
}

/// Three-way case-insensitive comparison of the first `n` bytes of
/// two C strings under "C"-locale folding.
pub open spec fn compare_folded(a: Seq<u8>, b: Seq<u8>, n: int) -> int {
    compare_folded_from(a, b, 0, n)
}

/// Case-insensitive three-way comparison of the first `n` bytes of
/// two byte strings under "C"-locale folding rules, independent of
/// any ambient locale.  Negative, zero or positive as the first
/// string orders before, equal to or after the second.
pub fn compare_c_locale(s1: &[u8], s2: &[u8], n: usize) -> (ord: i32)
    ensures
        ord == compare_folded(s1@, s2@, n as int),
        -255 <= ord <= 255,
{
    let mut i: usize = 0;
    loop
        invariant
            0 <= i <= n,
            compare_folded(s1@, s2@, n as int) == compare_folded_from(s1@, s2@, i as int, n as int),
        ensures
            compare_folded_from(s1@, s2@, i as int, n as int) == compare_folded(s1@, s2@, n as int),
            i >= n || ({
                let ca = ascii_fold(cstr_byte(s1@, i as int));
                let cb = ascii_fold(cstr_byte(s2@, i as int));
                ca != cb || ca == 0
            }),
        decreases n - i,
    {
        if i >= n {
            break;
        }
        let ca = fold_byte(read_cstr_byte(s1, i));
        let cb = fold_byte(read_cstr_byte(s2, i));
        if ca != cb || ca == 0 {
            break;
        }
        i = i + 1;
    }
    if i >= n {
        0
    } else {
        let ca = fold_byte(read_cstr_byte(s1, i));
        let cb = fold_byte(read_cstr_byte(s2, i));
        ca as i32 - cb as i32
    }
}

/// The byte of the C string held by `s` at position `i`.
fn read_cstr_byte(s: &[u8], i: usize) -> (b: u8)
    ensures
        b == cstr_byte(s@, i as int),
{
    if i < s.len() {
        s[i]
    } else {
        0
    }
}

/// "C"-locale case folding of one byte.
fn fold_byte(b: u8) -> (f: u8)
    ensures
        f == ascii_fold(b),
{
    if 65 <= b && b <= 90 {
        b + 32
    } else {
        b
    }
}

/// Comparing a C string against itself yields zero, for every
/// length bound.
pub proof fn lemma_compare_reflexive(a: Seq<u8>, n: int)
    ensures
        compare_folded(a, a, n) == 0,
{
    lemma_compare_reflexive_from(a, 0, n);
}

proof fn lemma_compare_reflexive_from(a: Seq<u8>, i: int, n: int)
    ensures
        compare_folded_from(a, a, i, n) == 0,
    decreases n - i,
{
    if i < n {
        lemma_compare_reflexive_from(a, i + 1, n);
    }
}

/// Swapping the two strings negates the comparison, for every pair
/// of C strings and every length bound.
pub proof fn lemma_compare_antisymmetric(a: Seq<u8>, b: Seq<u8>, n: int)
    ensures
        compare_folded(a, b, n) == -compare_folded(b, a, n),
{
    lemma_compare_antisymmetric_from(a, b, 0, n);
}

proof fn lemma_compare_antisymmetric_from(a: Seq<u8>, b: Seq<u8>, i: int, n: int)
    ensures
        compare_folded_from(a, b, i, n) == -compare_folded_from(b, a, i, n),
    decreases n - i,
{
    if i < n {
        lemma_compare_antisymmetric_from(a, b, i + 1, n);
    }
}

} // verus!
