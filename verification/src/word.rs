//! Machine words that encode IEEE-754 numbers.
//!
//! The filter's arithmetic is carried out by its caller; this library stores
//! and routes the numbers as the words that encode them, and decides from a
//! word alone whether it is finite and how large it is. A binary64 word is
//! one sign bit, eleven exponent bits and 52 fraction bits; a binary32 word
//! is one sign bit, eight exponent bits and 23 fraction bits.

use vstd::arithmetic::power2::*;
use vstd::prelude::*;

verus! {

/// Every bit of a binary64 word but its sign.
pub const MAGNITUDE_MASK64: u64 = 0x7fff_ffff_ffff_ffff;

/// The binary64 word of positive infinity; magnitudes above it are NaN.
pub const INFINITY64: u64 = 0x7ff0_0000_0000_0000;

/// Two to the 52nd power: the weight of the lowest exponent bit.
pub const FRACTION_SPAN64: u64 = 0x0010_0000_0000_0000;

/// The binary64 word of 0.0.
pub const ZERO64: u64 = 0;

/// The binary64 word of 1.0.
pub const ONE64: u64 = 0x3ff0_0000_0000_0000;

/// The binary64 word of -1.0.
pub const MINUS_ONE64: u64 = 0xbff0_0000_0000_0000;

/// The binary64 word nearest to 0.00001, under which a residue counts as
/// converged.
pub const TOLERANCE64: u64 = 0x3ee4_f8b5_88e3_68f1;

/// The binary64 word nearest to 0.1, the resonance coefficient that a filter
/// is built with.
pub const TENTH64: u64 = 0x3fb9_9999_9999_999a;

/// Every bit of a binary32 word but its sign.
pub const MAGNITUDE_MASK32: u32 = 0x7fff_ffff;

/// The binary32 word of positive infinity; magnitudes above it are NaN.
pub const INFINITY32: u32 = 0x7f80_0000;

/// The binary32 word of 0.0.
pub const ZERO32: u32 = 0;

/// The binary32 word of 1.0.
pub const ONE32: u32 = 0x3f80_0000;

/// The binary32 word of -1.0.
pub const MINUS_ONE32: u32 = 0xbf80_0000;

/// The word of the absolute value: the word with its sign bit cleared.
pub open spec fn magnitude64(word: u64) -> u64 {
    word & MAGNITUDE_MASK64
}

/// Neither an infinity nor a NaN.
pub open spec fn finite64(word: u64) -> bool {
    magnitude64(word) < INFINITY64
}

/// The exponent field of a binary64 word.
pub open spec fn exponent64(word: u64) -> nat {
    (magnitude64(word) / FRACTION_SPAN64) as nat
}

/// The fraction field of a binary64 word.
pub open spec fn fraction64(word: u64) -> nat {
    (magnitude64(word) % FRACTION_SPAN64) as nat
}

/// The absolute value that a finite binary64 word encodes, counted in units
/// of two to the power -1074 (the smallest positive binary64 number), so that
/// it is a natural number: the fraction alone for a subnormal word, and the
/// fraction under an implicit leading one, shifted by the exponent, for a
/// normal word.
pub open spec fn size64(word: u64) -> nat {
    if exponent64(word) == 0 {
        fraction64(word)
    } else {
        ((FRACTION_SPAN64 + fraction64(word)) * pow2((exponent64(word) - 1) as nat)) as nat
    }
}

/// The word of the absolute value: the word with its sign bit cleared.
pub open spec fn magnitude32(word: u32) -> u32 {
    word & MAGNITUDE_MASK32
}

/// Neither an infinity nor a NaN.
pub open spec fn finite32(word: u32) -> bool {
    magnitude32(word) < INFINITY32
}

/// Clears the sign bit of a binary64 word.
pub fn magnitude(word: u64) -> (m: u64)
    ensures
        m == magnitude64(word),
        m <= MAGNITUDE_MASK64,
{
    assert(word & 0x7fff_ffff_ffff_ffff <= 0x7fff_ffff_ffff_ffff) by (bit_vector);
    word & MAGNITUDE_MASK64
}

/// Tells whether a binary64 word encodes a finite number.
pub fn is_finite(word: u64) -> (yes: bool)
    ensures
        yes == finite64(word),
{
    (word & MAGNITUDE_MASK64) < INFINITY64
}

/// Tells whether a binary32 word encodes a finite number.
pub fn is_finite_single(word: u32) -> (yes: bool)
    ensures
        yes == finite32(word),
{
    (word & MAGNITUDE_MASK32) < INFINITY32
}

/// Tells whether the number that `word` encodes is finite and smaller in
/// absolute value than the number that the finite word `bound` encodes.
pub fn is_within(word: u64, bound: u64) -> (yes: bool)
    ensures
        yes == (finite64(word) && magnitude64(word) < magnitude64(bound)),
        yes == (finite64(word) && size64(word) < size64(bound)),
{
    let m: u64 = magnitude(word);
    let b: u64 = magnitude(bound);
    proof {
        lemma_size_follows_magnitude(word, bound);
    }
    m < INFINITY64 && m < b
}

/// A word's size lies in the binade of its exponent: under the span times two
/// to the exponent, and from the exponent one on at least half of that.
proof fn lemma_size_below_next_binade(word: u64)
    ensures
        size64(word) < FRACTION_SPAN64 * pow2(exponent64(word)),
        exponent64(word) > 0 ==> size64(word) >= FRACTION_SPAN64 * pow2(
            (exponent64(word) - 1) as nat,
        ),
{
    let e: nat = exponent64(word);
    let f: nat = fraction64(word);
    let span: nat = FRACTION_SPAN64 as nat;
    assert(f < span);
    if e == 0 {
        lemma2_to64();
    } else {
        let p: nat = pow2((e - 1) as nat);
        lemma_pow2_pos((e - 1) as nat);
        lemma_pow2_unfold(e);
        assert((span + f) * p < (2 * span) * p) by (nonlinear_arith)
            requires
                f < span,
                p > 0,
        ;
        assert((2 * span) * p == span * (2 * p)) by (nonlinear_arith);
        assert((span + f) * p >= span * p) by (nonlinear_arith)
            requires
                p > 0,
        ;
    }
}

/// The order of finite binary64 numbers by absolute value is the order of
/// their words with the sign bit cleared: comparing magnitudes as integers
/// compares the encoded sizes.
pub proof fn lemma_size_follows_magnitude(a: u64, b: u64)
    ensures
        magnitude64(a) < magnitude64(b) <==> size64(a) < size64(b),
        magnitude64(a) == magnitude64(b) <==> size64(a) == size64(b),
{
    lemma_size_strictly_grows(a, b);
    lemma_size_strictly_grows(b, a);
}

proof fn lemma_size_strictly_grows(a: u64, b: u64)
    ensures
        magnitude64(a) < magnitude64(b) ==> size64(a) < size64(b),
{
    if magnitude64(a) < magnitude64(b) {
        let span: nat = FRACTION_SPAN64 as nat;
        let ea: nat = exponent64(a);
        let eb: nat = exponent64(b);
        let fa: nat = fraction64(a);
        let fb: nat = fraction64(b);
        assert(magnitude64(a) == ea * span + fa && fa < span);
        assert(magnitude64(b) == eb * span + fb && fb < span);
        assert(ea <= eb) by (nonlinear_arith)
            requires
                ea * span + fa < eb * span + fb,
                fa < span,
                fb < span,
        ;
        if ea == eb {
            assert(fa < fb);
            if ea > 0 {
                let p: nat = pow2((ea - 1) as nat);
                lemma_pow2_pos((ea - 1) as nat);
                assert((span + fa) * p < (span + fb) * p) by (nonlinear_arith)
                    requires
                        fa < fb,
                        p > 0,
                ;
            }
        } else {
            lemma_size_below_next_binade(a);
            lemma_size_below_next_binade(b);
            let low: nat = pow2(ea);
            let high: nat = pow2((eb - 1) as nat);
            if ea < eb - 1 {
                lemma_pow2_strictly_increases(ea, (eb - 1) as nat);
            }
            assert(span * low <= span * high) by (nonlinear_arith)
                requires
                    low <= high,
            ;
        }
    }
}

/// The word `ONE64` encodes exactly one: its size is two to the power 1074.
pub proof fn lemma_one_is_one()
    ensures
        finite64(ONE64),
        size64(ONE64) == pow2(1074),
        magnitude64(MINUS_ONE64) == ONE64,
        finite64(ZERO64),
        size64(ZERO64) == 0,
{
    assert(0x3ff0_0000_0000_0000u64 & 0x7fff_ffff_ffff_ffff == 0x3ff0_0000_0000_0000u64)
        by (bit_vector);
    assert(0xbff0_0000_0000_0000u64 & 0x7fff_ffff_ffff_ffff == 0x3ff0_0000_0000_0000u64)
        by (bit_vector);
    assert(0u64 & 0x7fff_ffff_ffff_ffff == 0u64) by (bit_vector);
    assert(exponent64(ONE64) == 1023);
    assert(fraction64(ONE64) == 0);
    lemma2_to64_rest();
    lemma_pow2_adds(52, 1022);
}

/// The word `TOLERANCE64` encodes the binary64 number nearest to one part in
/// a hundred thousand: a hundred thousand times its size misses one by no
/// more than half the spacing of binary64 numbers of its exponent, a hundred
/// thousand times.
pub proof fn lemma_tolerance_is_nearest()
    ensures
        finite64(TOLERANCE64),
        size64((TOLERANCE64 + 1) as u64) - size64(TOLERANCE64) == pow2(1005),
        -(100000 * pow2(1005)) <= 2 * (100000 * size64(TOLERANCE64) - pow2(1074)) <= 100000
            * pow2(1005),
{
    assert(0x3ee4_f8b5_88e3_68f1u64 & 0x7fff_ffff_ffff_ffff == 0x3ee4_f8b5_88e3_68f1u64)
        by (bit_vector);
    assert(0x3ee4_f8b5_88e3_68f2u64 & 0x7fff_ffff_ffff_ffff == 0x3ee4_f8b5_88e3_68f2u64)
        by (bit_vector);
    assert(exponent64(TOLERANCE64) == 1006);
    assert(fraction64(TOLERANCE64) == 0x4_f8b5_88e3_68f1);
    assert(exponent64((TOLERANCE64 + 1) as u64) == 1006);
    assert(fraction64((TOLERANCE64 + 1) as u64) == 0x4_f8b5_88e3_68f2);
    lemma2_to64();
    lemma_pow2_adds(64, 5);
    assert(pow2(69) == 0x20_0000_0000_0000_0000);
    lemma_nearest(0x14_f8b5_88e3_68f1, 1005, 69, 100000, 48288);
    let unit: int = pow2(1005) as int;
    assert((0x14_f8b5_88e3_68f1 + 1) * unit - 0x14_f8b5_88e3_68f1 * unit == unit)
        by (nonlinear_arith);
}

/// The word `TENTH64` encodes the binary64 number nearest to one tenth: ten
/// times its size misses one by no more than half the spacing of binary64
/// numbers of its exponent, ten times.
pub proof fn lemma_tenth_is_nearest()
    ensures
        finite64(TENTH64),
        size64((TENTH64 + 1) as u64) - size64(TENTH64) == pow2(1018),
        -(10 * pow2(1018)) <= 2 * (10 * size64(TENTH64) - pow2(1074)) <= 10 * pow2(1018),
{
    assert(0x3fb9_9999_9999_999au64 & 0x7fff_ffff_ffff_ffff == 0x3fb9_9999_9999_999au64)
        by (bit_vector);
    assert(0x3fb9_9999_9999_999bu64 & 0x7fff_ffff_ffff_ffff == 0x3fb9_9999_9999_999bu64)
        by (bit_vector);
    assert(exponent64(TENTH64) == 1019);
    assert(fraction64(TENTH64) == 0x9_9999_9999_999a);
    assert(exponent64((TENTH64 + 1) as u64) == 1019);
    assert(fraction64((TENTH64 + 1) as u64) == 0x9_9999_9999_999b);
    lemma2_to64();
    lemma_pow2_adds(32, 24);
    assert(pow2(56) == 0x100_0000_0000_0000);
    lemma_nearest(0x19_9999_9999_999a, 1018, 56, 10, 4);
    let unit: int = pow2(1018) as int;
    assert((0x19_9999_9999_999a + 1) * unit - 0x19_9999_9999_999a * unit == unit)
        by (nonlinear_arith);
}

/// Where `scale` times a significand misses two to the power `shift` by
/// `miss`, `scale` times the size of the number with that significand and the
/// unit two to the power `low` misses two to the power 1074 by `miss` units.
proof fn lemma_nearest(significand: int, low: nat, shift: nat, scale: int, miss: int)
    requires
        low + shift == 1074,
        shift <= 69,
        scale * significand - pow2(shift) == miss,
    ensures
        scale * (significand * pow2(low)) - pow2(1074) == miss * pow2(low),
{
    lemma_pow2_adds(shift, low);
    let unit: int = pow2(low) as int;
    let top: int = pow2(shift) as int;
    assert(scale * (significand * unit) - top * unit == (scale * significand - top) * unit)
        by (nonlinear_arith);
}

} // verus!
