//! The legacy character-set decoding table.
//!
//! The upper half of the legacy single-byte character set maps each
//! code point `0x80 + i` to one Unicode scalar, rendered as a two- or
//! three-byte UTF-8 sequence padded with zero bytes to a fixed width
//! of three.  The code-point mapping is data; the UTF-8 rendering is
//! computed and proved correct here, so a transcription error in the
//! rendered bytes is impossible by construction.

use vstd::prelude::*;

verus! {

broadcast use vstd::array::group_array_axioms;

/// A Unicode scalar value: any code point outside the surrogate range.
pub open spec fn is_scalar_value(cp: int) -> bool {
    0 <= cp < 0xD800 || 0xE000 <= cp < 0x110000
}

/// The UTF-8 encoding of a scalar in `0x80..0x10000`: the two- and
/// three-byte forms.
pub open spec fn utf8_bytes(cp: int) -> Seq<u8>
    recommends
        0x80 <= cp < 0x10000,
{
    if cp < 0x800 {
        seq![(0xC0 + cp / 0x40) as u8, (0x80 + cp % 0x40) as u8]
    } else {
        seq![
            (0xE0 + cp / 0x1000) as u8,
            (0x80 + (cp / 0x40) % 0x40) as u8,
            (0x80 + cp % 0x40) as u8,
        ]
    }
}

/// Whether `s` is the well-formed UTF-8 encoding of one scalar in
/// `0x80..0x10000`: correct lead and continuation ranges, no overlong
/// form, no surrogate.
pub open spec fn is_utf8_encoding(s: Seq<u8>) -> bool {
    if s.len() == 2 {
        0xC2 <= s[0] <= 0xDF && 0x80 <= s[1] <= 0xBF
    } else if s.len() == 3 {
        &&& 0xE0 <= s[0] <= 0xEF
        &&& 0x80 <= s[1] <= 0xBF
        &&& 0x80 <= s[2] <= 0xBF
        &&& (s[0] == 0xE0 ==> s[1] >= 0xA0)
        &&& (s[0] == 0xED ==> s[1] <= 0x9F)
    } else {
        false
    }
}

/// The scalar a two- or three-byte UTF-8 sequence encodes.
pub open spec fn utf8_decode(s: Seq<u8>) -> int
    recommends
        is_utf8_encoding(s),
{
    if s.len() == 2 {
        (s[0] - 0xC0) * 0x40 + (s[1] - 0x80)
    } else {
        (s[0] - 0xE0) * 0x1000 + (s[1] - 0x80) * 0x40 + (s[2] - 0x80)
    }
}

/// `s` padded with zero bytes to the table's fixed width of three.
pub open spec fn padded3(s: Seq<u8>) -> Seq<u8>
    recommends
        2 <= s.len() <= 3,
{
    if s.len() < 3 {
        s.push(0)
    } else {
        s
    }
}

/// The prefix of `s` before its first zero byte.
pub open spec fn trimmed_at_zero(s: Seq<u8>) -> Seq<u8>
    decreases s.len(),
{
    if s.len() == 0 || s[0] == 0 {
        Seq::empty()
    } else {
        seq![s[0]] + trimmed_at_zero(s.skip(1))
    }
}

/// Encoding then decoding is the identity on the scalars the table
/// holds, the encoding is well formed, and none of its bytes is zero.
pub proof fn lemma_utf8_round_trip(cp: int)
    requires
        0x80 <= cp < 0x10000,
        is_scalar_value(cp),
    ensures
        is_utf8_encoding(utf8_bytes(cp)),
        utf8_decode(utf8_bytes(cp)) == cp,
        forall|k: int| 0 <= k < utf8_bytes(cp).len() ==> utf8_bytes(cp)[k] != 0,
{
    vstd::arithmetic::div_mod::lemma_fundamental_div_mod(cp, 0x40);
    if cp < 0x800 {
        assert(2 <= cp / 0x40 <= 0x1F);
        assert(0 <= cp % 0x40 < 0x40);
    } else {
        let q = cp / 0x40;
        vstd::arithmetic::div_mod::lemma_fundamental_div_mod(q, 0x40);
        vstd::arithmetic::div_mod::lemma_div_denominator(cp, 0x40, 0x40);
        assert(q / 0x40 == cp / 0x1000);
        assert(0x20 <= q <= 0x3FF);
        assert(0 <= cp / 0x1000 <= 0xF);
        assert(cp == 0x1000 * (cp / 0x1000) + 0x40 * (q % 0x40) + cp % 0x40);
        if cp / 0x1000 == 0 {
            assert(q % 0x40 == q) by {
                vstd::arithmetic::div_mod::lemma_small_mod(q as nat, 0x40);
            }
            assert(q >= 0x20);
        }
        if cp / 0x1000 == 0xD {
            assert(cp < 0xD800);
            assert(q < 0x360);
            assert(q >= 0x340);
            assert(q % 0x40 < 0x20) by {
                vstd::arithmetic::div_mod::lemma_fundamental_div_mod_converse_mod(
                    q,
                    0x40,
                    0xD,
                    q - 0x340,
                );
            }
        }
    }
}

/// Trimming a padded well-formed encoding at the first zero byte
/// gives back exactly the encoding.
pub proof fn lemma_trim_padded(s: Seq<u8>)
    requires
        2 <= s.len() <= 3,
        forall|k: int| 0 <= k < s.len() ==> s[k] != 0,
    ensures
        trimmed_at_zero(padded3(s)) == s,
{
    let p = padded3(s);
    let p1 = p.skip(1);
    let p2 = p1.skip(1);
    assert(p.len() == 3 && p1.len() == 2 && p2.len() == 1);
    if s.len() == 2 {
        assert(p2[0] == 0);
        assert(trimmed_at_zero(p2) =~= Seq::<u8>::empty());
    } else {
        assert(p2[0] == s[2] && s[2] != 0);
        assert(p2.skip(1).len() == 0);
        assert(trimmed_at_zero(p2.skip(1)) =~= Seq::<u8>::empty());
        assert(trimmed_at_zero(p2) =~= seq![s[2]] + trimmed_at_zero(p2.skip(1)));
        assert(trimmed_at_zero(p2) =~= seq![s[2]]);
    }
    assert(p1[0] == s[1] && s[1] != 0);
    assert(trimmed_at_zero(p1) =~= seq![s[1]] + trimmed_at_zero(p2));
    assert(p[0] == s[0] && s[0] != 0);
    assert(trimmed_at_zero(p) =~= seq![s[0]] + trimmed_at_zero(p1));
    assert(trimmed_at_zero(p) =~= s);
}

/// The UTF-8 rendering of one scalar, padded to the table's width.
pub fn encode_scalar(cp: u16) -> (enc: [u8; 3])
    requires
        0x80 <= cp,
        is_scalar_value(cp as int),
    ensures
        enc@ == padded3(utf8_bytes(cp as int)),
{
    proof {
        lemma_utf8_round_trip(cp as int);
    }
    if cp < 0x800 {
        let enc = [(0xC0 + cp / 0x40) as u8, (0x80 + cp % 0x40) as u8, 0u8];
        proof {
            assert(enc@ =~= padded3(utf8_bytes(cp as int)));
        }
        enc
    } else {
        let enc = [
            (0xE0 + cp / 0x1000) as u8,
            (0x80 + (cp / 0x40) % 0x40) as u8,
            (0x80 + cp % 0x40) as u8,
        ];
        proof {
            assert(enc@ =~= padded3(utf8_bytes(cp as int)));
        }
        enc
    }
}

/// The Unicode scalar for legacy code point `0x80 + i`, first half
/// of the table.
pub open spec fn code_point_low(i: int) -> u16
    recommends
        0 <= i < 64,
{
    if i == 0 {
        0xC4
    } else if i == 1 {
        0xC5
    } else if i == 2 {
        0xC7
    } else if i == 3 {
        0xC9
    } else if i == 4 {
        0xD1
    } else if i == 5 {
        0xD6
    } else if i == 6 {
        0xDC
    } else if i == 7 {
        0xE1
    } else if i == 8 {
        0xE0
    } else if i == 9 {
        0xE2
    } else if i == 10 {
        0xE4
    } else if i == 11 {
        0xE3
    } else if i == 12 {
        0xE5
    } else if i == 13 {
        0xE7
    } else if i == 14 {
        0xE9
    } else if i == 15 {
        0xE8
    } else if i == 16 {
        0xEA
    } else if i == 17 {
        0xEB
    } else if i == 18 {
        0xED
    } else if i == 19 {
        0xEC
    } else if i == 20 {
        0xEE
    } else if i == 21 {
        0xEF
    } else if i == 22 {
        0xF1
    } else if i == 23 {
        0xF3
    } else if i == 24 {
        0xF2
    } else if i == 25 {
        0xF4
    } else if i == 26 {
        0xF6
    } else if i == 27 {
        0xF5
    } else if i == 28 {
        0xFA
    } else if i == 29 {
        0xF9
    } else if i == 30 {
        0xFB
    } else if i == 31 {
        0xFC
    } else if i == 32 {
        0x2020
    } else if i == 33 {
        0xB0
    } else if i == 34 {
        0xA2
    } else if i == 35 {
        0xA3
    } else if i == 36 {
        0xA7
    } else if i == 37 {
        0x2022
    } else if i == 38 {
        0xB6
    } else if i == 39 {
        0xDF
    } else if i == 40 {
        0xAE
    } else if i == 41 {
        0xA9
    } else if i == 42 {
        0x2122
    } else if i == 43 {
        0xB4
    } else if i == 44 {
        0xA8
    } else if i == 45 {
        0x2260
    } else if i == 46 {
        0xC6
    } else if i == 47 {
        0xD8
    } else if i == 48 {
        0x221E
    } else if i == 49 {
        0xB1
    } else if i == 50 {
        0x2264
    } else if i == 51 {
        0x2265
    } else if i == 52 {
        0xA5
    } else if i == 53 {
        0xB5
    } else if i == 54 {
        0x2202
    } else if i == 55 {
        0x2211
    } else if i == 56 {
        0x220F
    } else if i == 57 {
        0x3C0
    } else if i == 58 {
        0x222B
    } else if i == 59 {
        0xAA
    } else if i == 60 {
        0xBA
    } else if i == 61 {
        0x3A9
    } else if i == 62 {
        0xE6
    } else {
        0xF8
    }
}

/// The Unicode scalar for legacy code point `0xC0 + i`, second half
/// of the table.
pub open spec fn code_point_high(i: int) -> u16
    recommends
        0 <= i < 64,
{
    if i == 0 {
        0xBF
    } else if i == 1 {
        0xA1
    } else if i == 2 {
        0xAC
    } else if i == 3 {
        0x221A
    } else if i == 4 {
        0x192
    } else if i == 5 {
        0x2248
    } else if i == 6 {
        0x2206
    } else if i == 7 {
        0xAB
    } else if i == 8 {
        0xBB
    } else if i == 9 {
        0x2026
    } else if i == 10 {
        0xA0
    } else if i == 11 {
        0xC0
    } else if i == 12 {
        0xC3
    } else if i == 13 {
        0xD5
    } else if i == 14 {
        0x152
    } else if i == 15 {
        0x153
    } else if i == 16 {
        0x2013
    } else if i == 17 {
        0x2014
    } else if i == 18 {
        0x201C
    } else if i == 19 {
        0x201D
    } else if i == 20 {
        0x2018
    } else if i == 21 {
        0x2019
    } else if i == 22 {
        0xF7
    } else if i == 23 {
        0x25CA
    } else if i == 24 {
        0xFF
    } else if i == 25 {
        0x178
    } else if i == 26 {
        0x2044
    } else if i == 27 {
        0x20AC
    } else if i == 28 {
        0x2039
    } else if i == 29 {
        0x203A
    } else if i == 30 {
        0xFB01
    } else if i == 31 {
        0xFB02
    } else if i == 32 {
        0x2021
    } else if i == 33 {
        0xB7
    } else if i == 34 {
        0x201A
    } else if i == 35 {
        0x201E
    } else if i == 36 {
        0x2030
    } else if i == 37 {
        0xC2
    } else if i == 38 {
        0xCA
    } else if i == 39 {
        0xC1
    } else if i == 40 {
        0xCB
    } else if i == 41 {
        0xC8
    } else if i == 42 {
        0xCD
    } else if i == 43 {
        0xCE
    } else if i == 44 {
        0xCF
    } else if i == 45 {
        0xCC
    } else if i == 46 {
        0xD3
    } else if i == 47 {
        0xD4
    } else if i == 48 {
        0xF8FF
    } else if i == 49 {
        0xD2
    } else if i == 50 {
        0xDA
    } else if i == 51 {
        0xDB
    } else if i == 52 {
        0xD9
    } else if i == 53 {
        0x131
    } else if i == 54 {
        0x2C6
    } else if i == 55 {
        0x2DC
    } else if i == 56 {
        0xAF
    } else if i == 57 {
        0x2D8
    } else if i == 58 {
        0x2D9
    } else if i == 59 {
        0x2DA
    } else if i == 60 {
        0xB8
    } else if i == 61 {
        0x2DD
    } else if i == 62 {
        0x2DB
    } else {
        0x2C7
    }
}

/// The Unicode scalar the legacy character set assigns to code point
/// `0x80 + i`.
pub open spec fn macroman_code_point(i: int) -> u16
    recommends
        0 <= i < 128,
{
    if i < 64 {
        code_point_low(i)
    } else {
        code_point_high(i - 64)
    }
}

fn code_point_low_at(i: usize) -> (cp: u16)
    requires
        i < 64,
    ensures
        cp == code_point_low(i as int),
{
    if i == 0 {
        0xC4
    } else if i == 1 {
        0xC5
    } else if i == 2 {
        0xC7
    } else if i == 3 {
        0xC9
    } else if i == 4 {
        0xD1
    } else if i == 5 {
        0xD6
    } else if i == 6 {
        0xDC
    } else if i == 7 {
        0xE1
    } else if i == 8 {
        0xE0
    } else if i == 9 {
        0xE2
    } else if i == 10 {
        0xE4
    } else if i == 11 {
        0xE3
    } else if i == 12 {
        0xE5
    } else if i == 13 {
        0xE7
    } else if i == 14 {
        0xE9
    } else if i == 15 {
        0xE8
    } else if i == 16 {
        0xEA
    } else if i == 17 {
        0xEB
    } else if i == 18 {
        0xED
    } else if i == 19 {
        0xEC
    } else if i == 20 {
        0xEE
    } else if i == 21 {
        0xEF
    } else if i == 22 {
        0xF1
    } else if i == 23 {
        0xF3
    } else if i == 24 {
        0xF2
    } else if i == 25 {
        0xF4
    } else if i == 26 {
        0xF6
    } else if i == 27 {
        0xF5
    } else if i == 28 {
        0xFA
    } else if i == 29 {
        0xF9
    } else if i == 30 {
        0xFB
    } else if i == 31 {
        0xFC
    } else if i == 32 {
        0x2020
    } else if i == 33 {
        0xB0
    } else if i == 34 {
        0xA2
    } else if i == 35 {
        0xA3
    } else if i == 36 {
        0xA7
    } else if i == 37 {
        0x2022
    } else if i == 38 {
        0xB6
    } else if i == 39 {
        0xDF
    } else if i == 40 {
        0xAE
    } else if i == 41 {
        0xA9
    } else if i == 42 {
        0x2122
    } else if i == 43 {
        0xB4
    } else if i == 44 {
        0xA8
    } else if i == 45 {
        0x2260
    } else if i == 46 {
        0xC6
    } else if i == 47 {
        0xD8
    } else if i == 48 {
        0x221E
    } else if i == 49 {
        0xB1
    } else if i == 50 {
        0x2264
    } else if i == 51 {
        0x2265
    } else if i == 52 {
        0xA5
    } else if i == 53 {
        0xB5
    } else if i == 54 {
        0x2202
    } else if i == 55 {
        0x2211
    } else if i == 56 {
        0x220F
    } else if i == 57 {
        0x3C0
    } else if i == 58 {
        0x222B
    } else if i == 59 {
        0xAA
    } else if i == 60 {
        0xBA
    } else if i == 61 {
        0x3A9
    } else if i == 62 {
        0xE6
    } else {
        0xF8
    }
}

fn code_point_high_at(i: usize) -> (cp: u16)
    requires
        i < 64,
    ensures
        cp == code_point_high(i as int),
{
    if i == 0 {
        0xBF
    } else if i == 1 {
        0xA1
    } else if i == 2 {
        0xAC
    } else if i == 3 {
        0x221A
    } else if i == 4 {
        0x192
    } else if i == 5 {
        0x2248
    } else if i == 6 {
        0x2206
    } else if i == 7 {
        0xAB
    } else if i == 8 {
        0xBB
    } else if i == 9 {
        0x2026
    } else if i == 10 {
        0xA0
    } else if i == 11 {
        0xC0
    } else if i == 12 {
        0xC3
    } else if i == 13 {
        0xD5
    } else if i == 14 {
        0x152
    } else if i == 15 {
        0x153
    } else if i == 16 {
        0x2013
    } else if i == 17 {
        0x2014
    } else if i == 18 {
        0x201C
    } else if i == 19 {
        0x201D
    } else if i == 20 {
        0x2018
    } else if i == 21 {
        0x2019
    } else if i == 22 {
        0xF7
    } else if i == 23 {
        0x25CA
    } else if i == 24 {
        0xFF
    } else if i == 25 {
        0x178
    } else if i == 26 {
        0x2044
    } else if i == 27 {
        0x20AC
    } else if i == 28 {
        0x2039
    } else if i == 29 {
        0x203A
    } else if i == 30 {
        0xFB01
    } else if i == 31 {
        0xFB02
    } else if i == 32 {
        0x2021
    } else if i == 33 {
        0xB7
    } else if i == 34 {
        0x201A
    } else if i == 35 {
        0x201E
    } else if i == 36 {
        0x2030
    } else if i == 37 {
        0xC2
    } else if i == 38 {
        0xCA
    } else if i == 39 {
        0xC1
    } else if i == 40 {
        0xCB
    } else if i == 41 {
        0xC8
    } else if i == 42 {
        0xCD
    } else if i == 43 {
        0xCE
    } else if i == 44 {
        0xCF
    } else if i == 45 {
        0xCC
    } else if i == 46 {
        0xD3
    } else if i == 47 {
        0xD4
    } else if i == 48 {
        0xF8FF
    } else if i == 49 {
        0xD2
    } else if i == 50 {
        0xDA
    } else if i == 51 {
        0xDB
    } else if i == 52 {
        0xD9
    } else if i == 53 {
        0x131
    } else if i == 54 {
        0x2C6
    } else if i == 55 {
        0x2DC
    } else if i == 56 {
        0xAF
    } else if i == 57 {
        0x2D8
    } else if i == 58 {
        0x2D9
    } else if i == 59 {
        0x2DA
    } else if i == 60 {
        0xB8
    } else if i == 61 {
        0x2DD
    } else if i == 62 {
        0x2DB
    } else {
        0x2C7
    }
}

/// The Unicode scalar for legacy code point `0x80 + i`.
pub fn macroman_code_point_at(i: usize) -> (cp: u16)
    requires
        i < 128,
    ensures
        cp == macroman_code_point(i as int),
{
    if i < 64 {
        code_point_low_at(i)
    } else {
        code_point_high_at(i - 64)
    }
}

/// Every scalar in the table lies above the ASCII range, below
/// `0x10000`, and outside the surrogate range, so each has a
/// zero-free two- or three-byte UTF-8 encoding.
#[verifier::rlimit(60)]
pub proof fn lemma_code_points_in_range()
    ensures
        forall|i: int| 0 <= i < 128 ==> {
            let cp = #[trigger] macroman_code_point(i);
            0xA0 <= cp < 0x10000 && is_scalar_value(cp as int)
        },
{
    assert forall|i: int| 0 <= i < 128 implies {
        let cp = #[trigger] macroman_code_point(i);
        0xA0 <= cp < 0x10000 && is_scalar_value(cp as int)
    } by {
        if i < 64 {
            let cp = code_point_low(i);
            assert(0xA0 <= cp < 0x10000 && is_scalar_value(cp as int));
        } else {
            let cp = code_point_high(i - 64);
            assert(0xA0 <= cp < 0x10000 && is_scalar_value(cp as int));
        }
    }
}

/// Entry `i` of the table: the padded UTF-8 rendering of the scalar
/// for legacy code point `0x80 + i`.
pub open spec fn macroman_entry(i: int) -> Seq<u8>
    recommends
        0 <= i < 128,
{
    padded3(utf8_bytes(macroman_code_point(i) as int))
}

/// The legacy character-set decoding table: for each legacy code
/// point `0x80 + i`, entry `i` holds the UTF-8 rendering of its
/// Unicode scalar, zero-padded to three bytes.
pub fn macroman_mapping() -> (table: Vec<[u8; 3]>)
    ensures
        table@.len() == 128,
        forall|i: int| 0 <= i < 128 ==> (#[trigger] table@[i])@ == macroman_entry(i),
{
    let mut table: Vec<[u8; 3]> = Vec::new();
    let mut i: usize = 0;
    while i < 128
        invariant
            i <= 128,
            table@.len() == i,
            forall|j: int| 0 <= j < i ==> (#[trigger] table@[j])@ == macroman_entry(j),
        decreases 128 - i,
    {
        let cp = macroman_code_point_at(i);
        proof {
            lemma_code_points_in_range();
        }
        let enc = encode_scalar(cp);
        table.push(enc);
        i = i + 1;
    }
    table
}

/// The table entry for one code point of the legacy set's upper half,
/// by the table's `code_point - 0x80` indexing rule.
pub fn macroman_entry_for(code_point: u8) -> (enc: [u8; 3])
    requires
        0x80 <= code_point,
    ensures
        enc@ == macroman_entry(code_point - 0x80),
{
    proof {
        lemma_code_points_in_range();
    }
    let cp = macroman_code_point_at((code_point - 128) as usize);
    encode_scalar(cp)
}

/// Table soundness: every entry, trimmed at its first zero byte, is a
/// well-formed UTF-8 encoding and decodes back to exactly the Unicode
/// scalar the table assigns to its legacy code point.
pub proof fn lemma_macroman_entries_decode()
    ensures
        forall|i: int| 0 <= i < 128 ==> {
            let enc = trimmed_at_zero(#[trigger] macroman_entry(i));
            is_utf8_encoding(enc) && utf8_decode(enc) == macroman_code_point(i)
        },
{
    lemma_code_points_in_range();
    assert forall|i: int| 0 <= i < 128 implies {
        let enc = trimmed_at_zero(#[trigger] macroman_entry(i));
        is_utf8_encoding(enc) && utf8_decode(enc) == macroman_code_point(i)
    } by {
        let cp = macroman_code_point(i) as int;
        lemma_utf8_round_trip(cp);
        lemma_trim_padded(utf8_bytes(cp));
    }
}

} // verus!
