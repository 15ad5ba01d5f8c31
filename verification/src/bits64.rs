//! Bit-pattern model of IEEE-754 double-precision values.
//!
//! A `u64` is read as sign bit, 11-bit exponent and 52-bit fraction. The
//! functions here classify bit patterns (NaN, signed zero), rank them in the
//! crate's total order, and canonicalize them for hashing. Everything is
//! plain bit and integer logic; no floating-point value is ever formed.

use vstd::prelude::*;

verus! {

use vstd::arithmetic::power2::lemma2_to64;
use vstd::arithmetic::power2::lemma_pow2_adds;
use vstd::arithmetic::power2::lemma_pow2_pos;
use vstd::arithmetic::power2::lemma_pow2_strictly_increases;
use vstd::arithmetic::power2::pow2;

/// Mask of the sign bit.
pub const SIGN_MASK: u64 = 0x8000_0000_0000_0000;

/// Mask of the 11 exponent bits.
pub const EXP_MASK: u64 = 0x7ff0_0000_0000_0000;

/// Mask of the 52 fraction bits.
pub const FRAC_MASK: u64 = 0x000f_ffff_ffff_ffff;

/// Mask of everything but the sign bit: the magnitude of the value.
pub const MAG_MASK: u64 = 0x7fff_ffff_ffff_ffff;

/// The single NaN encoding all NaN bit patterns are collapsed to for
/// hashing: the canonical quiet NaN.
pub const CANONICAL_NAN_BITS: u64 = 0x7ff8_0000_0000_0000;

/// Bit pattern of `+0.0`.
pub const ZERO_BITS: u64 = 0x0000_0000_0000_0000;

/// Bit pattern of `-0.0`.
pub const NEG_ZERO_BITS: u64 = 0x8000_0000_0000_0000;

/// Bit pattern of `1.0`.
pub const ONE_BITS: u64 = 0x3ff0_0000_0000_0000;

/// Bit pattern of positive infinity.
pub const INFINITY_BITS: u64 = 0x7ff0_0000_0000_0000;

/// Bit pattern of negative infinity.
pub const NEG_INFINITY_BITS: u64 = 0xfff0_0000_0000_0000;

/// Bit pattern of the largest finite value.
pub const MAX_BITS: u64 = 0x7fef_ffff_ffff_ffff;

/// Bit pattern of the smallest finite value (the negative of the largest).
pub const MIN_BITS: u64 = 0xffef_ffff_ffff_ffff;

/// A bit pattern encodes NaN exactly when the exponent field is all ones and
/// the fraction field is not zero.
pub open spec fn spec_is_nan(b: u64) -> bool {
    b & EXP_MASK == EXP_MASK && b & FRAC_MASK != 0
}

/// NaN test on a raw bit pattern.
#[verifier::when_used_as_spec(spec_is_nan)]
pub fn is_nan(b: u64) -> (r: bool)
    ensures
        r == spec_is_nan(b),
{
    (b & EXP_MASK == EXP_MASK) && (b & FRAC_MASK != 0)
}

/// The sign bit is set.
pub open spec fn spec_is_sign_negative(b: u64) -> bool {
    b & SIGN_MASK == SIGN_MASK
}

/// The exponent and fraction bits: the encoding of the value's magnitude.
pub open spec fn spec_magnitude(b: u64) -> u64 {
    b & MAG_MASK
}

/// The pattern encodes a zero of either sign.
pub open spec fn spec_is_zero(b: u64) -> bool {
    spec_magnitude(b) == 0
}

/// The pattern encodes a finite value: the exponent field is not all ones.
pub open spec fn spec_is_finite(b: u64) -> bool {
    b & EXP_MASK != EXP_MASK
}

/// The pattern encodes an infinity of either sign: the exponent field is
/// all ones and the fraction field is zero.
pub open spec fn spec_is_infinite(b: u64) -> bool {
    spec_magnitude(b) == EXP_MASK
}

/// The numeric value encoded by a magnitude (a bit pattern with the sign
/// bit cleared), scaled by `2^1074` so that every finite value becomes an
/// integer: a subnormal fraction `f` stands for `f * 2^-1074`, and a
/// normal pattern with exponent field `e` and fraction `f` stands for
/// `(2^52 + f) * 2^(e - 1) * 2^-1074`.
pub open spec fn spec_mag_value(m: u64) -> int {
    let e = m as int / 0x0010_0000_0000_0000;
    let f = m as int % 0x0010_0000_0000_0000;
    if e == 0 {
        f
    } else {
        (0x0010_0000_0000_0000 + f) * pow2((e - 1) as nat)
    }
}

/// The numeric value encoded by a finite bit pattern, scaled by `2^1074`.
pub open spec fn spec_scaled_value(b: u64) -> int
    recommends
        spec_is_finite(b),
{
    if spec_is_sign_negative(b) {
        -spec_mag_value(spec_magnitude(b))
    } else {
        spec_mag_value(spec_magnitude(b))
    }
}

/// IEEE-754 encodes magnitudes monotonically: a larger magnitude bit
/// pattern encodes a strictly larger value. This is the fact that makes
/// ranking by magnitude bits reproduce the numeric order.
pub proof fn lemma_mag_value_strictly_monotone(m1: u64, m2: u64)
    requires
        m1 < m2,
    ensures
        spec_mag_value(m1) < spec_mag_value(m2),
{
    let c = 0x0010_0000_0000_0000int;
    let e1 = m1 as int / c;
    let f1 = m1 as int % c;
    let e2 = m2 as int / c;
    let f2 = m2 as int % c;
    vstd::arithmetic::div_mod::lemma_fundamental_div_mod(m1 as int, c);
    vstd::arithmetic::div_mod::lemma_fundamental_div_mod(m2 as int, c);
    vstd::arithmetic::div_mod::lemma_mod_bound(m1 as int, c);
    vstd::arithmetic::div_mod::lemma_mod_bound(m2 as int, c);
    assert(m1 == c * e1 + f1 && 0 <= f1 < c);
    assert(m2 == c * e2 + f2 && 0 <= f2 < c);
    if e1 > e2 {
        assert(c * e1 >= c * (e2 + 1)) by (nonlinear_arith)
            requires
                e1 >= e2 + 1,
                c >= 1,
        ;
        assert(false);
    }
    if e1 == e2 {
        if e1 != 0 {
            lemma_pow2_pos((e1 - 1) as nat);
            assert((c + f1) * pow2((e1 - 1) as nat) < (c + f2) * pow2((e1 - 1) as nat))
                by (nonlinear_arith)
                requires
                    f1 < f2,
                    pow2((e1 - 1) as nat) >= 1,
            ;
        }
    } else {
        // e1 < e2: the largest value at exponent e1 is still below the
        // smallest value at exponent e2
        lemma_pow2_pos((e2 - 1) as nat);
        if e1 == 0 {
            assert(f1 < c * pow2((e2 - 1) as nat) + f2 * pow2((e2 - 1) as nat))
                by (nonlinear_arith)
                requires
                    0 <= f1 < c,
                    0 <= f2,
                    pow2((e2 - 1) as nat) >= 1,
            ;
            assert((c + f2) * pow2((e2 - 1) as nat) == c * pow2((e2 - 1) as nat) + f2 * pow2(
                (e2 - 1) as nat,
            )) by (nonlinear_arith);
        } else {
            lemma_pow2_pos((e1 - 1) as nat);
            lemma_pow2_adds((e1 - 1) as nat, (e2 - e1) as nat);
            lemma_pow2_strictly_increases(0, (e2 - e1) as nat);
            lemma2_to64();
            assert((c + f1) * pow2((e1 - 1) as nat) < (c + f2) * pow2((e2 - 1) as nat))
                by (nonlinear_arith)
                requires
                    0 <= f1 < c,
                    0 <= f2,
                    c == 0x0010_0000_0000_0000int,
                    pow2((e2 - 1) as nat) == pow2((e1 - 1) as nat) * pow2((e2 - e1) as nat),
                    pow2((e1 - 1) as nat) >= 1,
                    pow2((e2 - e1) as nat) >= 2,
            ;
        }
    }
}

/// Position of a bit pattern in the crate's total order.
///
/// IEEE-754 encodes non-NaN magnitudes so that, within one sign, the numeric
/// order of the values is the unsigned order of their magnitude bits
/// (subnormals below normals below infinity). Ranking a pattern at
/// `SIGN_MASK + magnitude` when positive and `SIGN_MASK - magnitude` when
/// negative therefore reproduces the IEEE numeric order on all non-NaN
/// values, with `+0.0` and `-0.0` sharing one rank, as IEEE equality demands.
/// Every NaN encoding is ranked above everything else, at one shared rank,
/// which is this crate's deliberate divergence from IEEE-754: NaN is maximal
/// and equal to itself.
pub open spec fn rank(b: u64) -> int {
    if spec_is_nan(b) {
        2 * (SIGN_MASK as int) + 1
    } else if spec_is_sign_negative(b) {
        SIGN_MASK - spec_magnitude(b)
    } else {
        SIGN_MASK + spec_magnitude(b)
    }
}

/// The total order as a three-way comparison.
pub open spec fn spec_total_cmp(a: u64, b: u64) -> core::cmp::Ordering {
    if rank(a) < rank(b) {
        core::cmp::Ordering::Less
    } else if rank(a) == rank(b) {
        core::cmp::Ordering::Equal
    } else {
        core::cmp::Ordering::Greater
    }
}

/// Two bit patterns are equivalent in the total order.
pub open spec fn spec_total_eq(a: u64, b: u64) -> bool {
    rank(a) == rank(b)
}

/// The first bit pattern is strictly below the second in the total order.
pub open spec fn spec_total_lt(a: u64, b: u64) -> bool {
    rank(a) < rank(b)
}

/// The magnitude bits never exceed their mask.
pub proof fn lemma_magnitude_bound(b: u64)
    ensures
        spec_magnitude(b) <= MAG_MASK,
{
    assert(b & 0x7fff_ffff_ffff_ffffu64 <= 0x7fff_ffff_ffff_ffffu64) by (bit_vector);
}

/// The rank of a non-NaN pattern lies strictly between 0 and the shared NaN
/// rank.
pub proof fn lemma_rank_range(b: u64)
    ensures
        0 < rank(b) <= 2 * (SIGN_MASK as int) + 1,
        !spec_is_nan(b) ==> rank(b) < 2 * (SIGN_MASK as int) + 1,
{
    lemma_magnitude_bound(b);
}

/// The ordering key of a non-NaN bit pattern, as a machine word.
pub fn order_key(b: u64) -> (k: u64)
    requires
        !spec_is_nan(b),
    ensures
        k == rank(b),
{
    let mag: u64 = b & MAG_MASK;
    proof {
        lemma_magnitude_bound(b);
        assert((b & 0x8000_0000_0000_0000u64 != 0) == (b & 0x8000_0000_0000_0000u64
            == 0x8000_0000_0000_0000u64)) by (bit_vector);
    }
    if b & SIGN_MASK != 0 {
        SIGN_MASK - mag
    } else {
        SIGN_MASK + mag
    }
}

/// Three-way comparison of two bit patterns in the total order.
pub fn total_cmp(a: u64, b: u64) -> (r: core::cmp::Ordering)
    ensures
        r == spec_total_cmp(a, b),
{
    let a_nan: bool = is_nan(a);
    let b_nan: bool = is_nan(b);
    if a_nan && b_nan {
        core::cmp::Ordering::Equal
    } else if a_nan {
        proof { lemma_rank_range(b); }
        core::cmp::Ordering::Greater
    } else if b_nan {
        proof { lemma_rank_range(a); }
        core::cmp::Ordering::Less
    } else {
        let ka: u64 = order_key(a);
        let kb: u64 = order_key(b);
        if ka < kb {
            core::cmp::Ordering::Less
        } else if ka == kb {
            core::cmp::Ordering::Equal
        } else {
            core::cmp::Ordering::Greater
        }
    }
}

/// Equivalence test in the total order.
pub fn total_eq(a: u64, b: u64) -> (r: bool)
    ensures
        r == spec_total_eq(a, b),
{
    let a_nan: bool = is_nan(a);
    let b_nan: bool = is_nan(b);
    if a_nan || b_nan {
        proof {
            lemma_rank_range(a);
            lemma_rank_range(b);
        }
        a_nan && b_nan
    } else {
        let ka: u64 = order_key(a);
        let kb: u64 = order_key(b);
        ka == kb
    }
}

/// Native IEEE-754 equality of two bit patterns: NaN is unequal to
/// everything including itself, and the two zeros are equal. On non-NaN
/// operands this agrees with the total order's equivalence.
pub open spec fn spec_ieee_eq(a: u64, b: u64) -> bool {
    !spec_is_nan(a) && !spec_is_nan(b) && rank(a) == rank(b)
}

/// Native IEEE-754 equality test.
#[verifier::when_used_as_spec(spec_ieee_eq)]
pub fn ieee_eq(a: u64, b: u64) -> (r: bool)
    ensures
        r == spec_ieee_eq(a, b),
{
    if is_nan(a) || is_nan(b) {
        false
    } else {
        let ka: u64 = order_key(a);
        let kb: u64 = order_key(b);
        ka == kb
    }
}

/// Classification of the named constants: none of them encodes NaN except
/// the canonical NaN itself.
pub proof fn lemma_constant_classification()
    ensures
        !spec_is_nan(ZERO_BITS),
        !spec_is_nan(NEG_ZERO_BITS),
        !spec_is_nan(ONE_BITS),
        !spec_is_nan(INFINITY_BITS),
        !spec_is_nan(NEG_INFINITY_BITS),
        !spec_is_nan(MAX_BITS),
        !spec_is_nan(MIN_BITS),
        spec_is_nan(CANONICAL_NAN_BITS),
        spec_is_zero(ZERO_BITS),
        spec_is_zero(NEG_ZERO_BITS),
        !spec_is_sign_negative(ZERO_BITS),
        spec_is_sign_negative(NEG_ZERO_BITS),
{
    assert(!spec_is_nan(0x0000_0000_0000_0000u64) && !spec_is_nan(0x8000_0000_0000_0000u64)
        && !spec_is_nan(0x3ff0_0000_0000_0000u64) && !spec_is_nan(0x7ff0_0000_0000_0000u64)
        && !spec_is_nan(0xfff0_0000_0000_0000u64) && !spec_is_nan(0x7fef_ffff_ffff_ffffu64)
        && !spec_is_nan(0xffef_ffff_ffff_ffffu64) && spec_is_nan(0x7ff8_0000_0000_0000u64)
        && spec_is_zero(0x0000_0000_0000_0000u64) && spec_is_zero(0x8000_0000_0000_0000u64)
        && !spec_is_sign_negative(0x0000_0000_0000_0000u64) && spec_is_sign_negative(
        0x8000_0000_0000_0000u64,
    )) by (bit_vector);
}

/// Flipping the sign bit preserves NaN-ness and reflects the rank of a
/// non-NaN pattern around the shared rank of the two zeros.
pub proof fn lemma_neg_rank(b: u64)
    ensures
        spec_is_nan(b ^ SIGN_MASK) == spec_is_nan(b),
        !spec_is_nan(b) ==> rank(b ^ SIGN_MASK) + rank(b) == 2 * (SIGN_MASK as int),
{
    assert((b ^ 0x8000_0000_0000_0000u64) & 0x7ff0_0000_0000_0000u64 == b
        & 0x7ff0_0000_0000_0000u64 && (b ^ 0x8000_0000_0000_0000u64) & 0x000f_ffff_ffff_ffffu64
        == b & 0x000f_ffff_ffff_ffffu64 && (b ^ 0x8000_0000_0000_0000u64)
        & 0x7fff_ffff_ffff_ffffu64 == b & 0x7fff_ffff_ffff_ffffu64 && ((b
        ^ 0x8000_0000_0000_0000u64) & 0x8000_0000_0000_0000u64 == 0x8000_0000_0000_0000u64) == !(b
        & 0x8000_0000_0000_0000u64 == 0x8000_0000_0000_0000u64)) by (bit_vector);
    lemma_magnitude_bound(b);
}

/// The canonical representative of a bit pattern's equivalence class: all
/// NaN encodings collapse to the canonical quiet NaN, both zeros collapse to
/// `+0.0`, and every other pattern stands for itself.
pub open spec fn spec_canonical(b: u64) -> u64 {
    if spec_is_nan(b) {
        CANONICAL_NAN_BITS
    } else if spec_is_zero(b) {
        ZERO_BITS
    } else {
        b
    }
}

/// Canonical representative of a bit pattern, the payload fed to a hasher.
#[verifier::when_used_as_spec(spec_canonical)]
pub fn canonical(b: u64) -> (r: u64)
    ensures
        r == spec_canonical(b),
{
    if is_nan(b) {
        CANONICAL_NAN_BITS
    } else if b & MAG_MASK == 0 {
        ZERO_BITS
    } else {
        b
    }
}

} // verus!
