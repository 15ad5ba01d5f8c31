//! The laws of the total order and of canonical hashing, stated once and
//! proved for every bit pattern of each width.
//!
//! The comparison and equality relations of [`crate::OrderedFloat`] and
//! [`crate::NotNan`] are specified through [`crate::bits64::rank`] and
//! [`crate::bits32::rank`]; the lemmas here are the guarantees a caller may
//! rely on when using the wrappers as keys in ordered or hashed containers.

use vstd::prelude::*;

verus! {

use crate::bits32;
use crate::bits64;
use vstd::arithmetic::power2::pow2;

/// Totality and trichotomy of the double-precision order: for any two bit
/// patterns exactly one of "less", "equivalent" and "greater" holds; no pair
/// is incomparable, NaN encodings included.
pub proof fn lemma_total_order_trichotomy_64(a: u64, b: u64)
    ensures
        bits64::spec_total_lt(a, b) || bits64::spec_total_eq(a, b) || bits64::spec_total_lt(b, a),
        bits64::spec_total_lt(a, b) ==> !bits64::spec_total_eq(a, b) && !bits64::spec_total_lt(
            b,
            a,
        ),
        bits64::spec_total_eq(a, b) ==> !bits64::spec_total_lt(a, b) && !bits64::spec_total_lt(
            b,
            a,
        ),
        bits64::spec_total_lt(b, a) ==> !bits64::spec_total_lt(a, b) && !bits64::spec_total_eq(
            a,
            b,
        ),
{
}

/// The double-precision order is a total order: equivalence is reflexive
/// and symmetric, strict comparison and equivalence are transitive and
/// compose with each other.
pub proof fn lemma_total_order_laws_64(a: u64, b: u64, c: u64)
    ensures
        bits64::spec_total_eq(a, a),
        bits64::spec_total_eq(a, b) == bits64::spec_total_eq(b, a),
        bits64::spec_total_lt(a, b) && bits64::spec_total_lt(b, c) ==> bits64::spec_total_lt(a, c),
        bits64::spec_total_eq(a, b) && bits64::spec_total_eq(b, c) ==> bits64::spec_total_eq(a, c),
        bits64::spec_total_lt(a, b) && bits64::spec_total_eq(b, c) ==> bits64::spec_total_lt(a, c),
        bits64::spec_total_eq(a, b) && bits64::spec_total_lt(b, c) ==> bits64::spec_total_lt(a, c),
{
}

/// NaN is maximal in the double-precision order: every NaN encoding sits
/// strictly above every non-NaN pattern, and any two NaN encodings are
/// equivalent.
pub proof fn lemma_nan_maximal_64(x: u64, n: u64, m: u64)
    requires
        !bits64::spec_is_nan(x),
        bits64::spec_is_nan(n),
        bits64::spec_is_nan(m),
    ensures
        bits64::spec_total_lt(x, n),
        bits64::spec_total_eq(n, m),
{
    bits64::lemma_rank_range(x);
}

/// The two zeros are equivalent in the double-precision order and share one
/// canonical bit pattern.
pub proof fn lemma_signed_zero_equal_64()
    ensures
        bits64::spec_total_eq(bits64::ZERO_BITS, bits64::NEG_ZERO_BITS),
        bits64::spec_canonical(bits64::ZERO_BITS) == bits64::spec_canonical(
            bits64::NEG_ZERO_BITS,
        ),
{
    bits64::lemma_constant_classification();
    assert(0x0000_0000_0000_0000u64 & 0x7fff_ffff_ffff_ffffu64 == 0
        && 0x8000_0000_0000_0000u64 & 0x7fff_ffff_ffff_ffffu64 == 0
        && 0x8000_0000_0000_0000u64 & 0x8000_0000_0000_0000u64 == 0x8000_0000_0000_0000u64
        && 0x0000_0000_0000_0000u64 & 0x8000_0000_0000_0000u64 == 0) by (bit_vector);
}

/// Canonicalization agrees exactly with equality in double precision: two
/// bit patterns have the same canonical representative if and only if they
/// are equivalent in the total order. A hash computed over the canonical
/// bits is therefore consistent with equality, and collides only where
/// equality demands it.
pub proof fn lemma_hash_consistent_64(a: u64, b: u64)
    ensures
        bits64::spec_total_eq(a, b) <==> bits64::spec_canonical(a) == bits64::spec_canonical(b),
{
    bits64::lemma_magnitude_bound(a);
    bits64::lemma_magnitude_bound(b);
    bits64::lemma_rank_range(a);
    bits64::lemma_rank_range(b);
    bits64::lemma_constant_classification();
    assert(((a & 0x8000_0000_0000_0000u64 == b & 0x8000_0000_0000_0000u64) && (a
        & 0x7fff_ffff_ffff_ffffu64 == b & 0x7fff_ffff_ffff_ffffu64)) ==> a == b) by (bit_vector);
    assert((a & 0x8000_0000_0000_0000u64 == 0 || a & 0x8000_0000_0000_0000u64
        == 0x8000_0000_0000_0000u64) && (b & 0x8000_0000_0000_0000u64 == 0 || b
        & 0x8000_0000_0000_0000u64 == 0x8000_0000_0000_0000u64) && 0x0000_0000_0000_0000u64
        & 0x7fff_ffff_ffff_ffffu64 == 0) by (bit_vector);
}

/// On finite bit patterns the double-precision total order is exactly the
/// numeric order of the encoded values: comparing by sign and magnitude
/// bits orders finite values as IEEE-754 arithmetic does, with the two
/// zeros numerically equal.
pub proof fn lemma_order_matches_numeric_value_64(a: u64, b: u64)
    requires
        bits64::spec_is_finite(a),
        bits64::spec_is_finite(b),
    ensures
        bits64::spec_total_lt(a, b) <==> bits64::spec_scaled_value(a)
            < bits64::spec_scaled_value(b),
        bits64::spec_total_eq(a, b) <==> bits64::spec_scaled_value(a)
            == bits64::spec_scaled_value(b),
{
    let ma = bits64::spec_magnitude(a);
    let mb = bits64::spec_magnitude(b);
    if ma < mb {
        bits64::lemma_mag_value_strictly_monotone(ma, mb);
    }
    if mb < ma {
        bits64::lemma_mag_value_strictly_monotone(mb, ma);
    }
    if 0 < ma {
        bits64::lemma_mag_value_strictly_monotone(0, ma);
    }
    if 0 < mb {
        bits64::lemma_mag_value_strictly_monotone(0, mb);
    }
    assert(bits64::spec_mag_value(0) == 0);
}

/// The infinities bound every non-NaN double-precision pattern: nothing
/// non-NaN ranks below negative infinity or above positive infinity.
pub proof fn lemma_infinities_are_extreme_64(x: u64)
    requires
        !bits64::spec_is_nan(x),
    ensures
        bits64::rank(bits64::NEG_INFINITY_BITS) <= bits64::rank(x),
        bits64::rank(x) <= bits64::rank(bits64::INFINITY_BITS),
{
    bits64::lemma_constant_classification();
    assert(!(x & 0x7ff0_0000_0000_0000u64 == 0x7ff0_0000_0000_0000u64 && x
        & 0x000f_ffff_ffff_ffffu64 != 0) ==> x & 0x7fff_ffff_ffff_ffffu64
        <= 0x7ff0_0000_0000_0000u64) by (bit_vector);
    assert(0x7ff0_0000_0000_0000u64 & 0x7fff_ffff_ffff_ffffu64 == 0x7ff0_0000_0000_0000u64
        && 0xfff0_0000_0000_0000u64 & 0x7fff_ffff_ffff_ffffu64 == 0x7ff0_0000_0000_0000u64
        && 0x7ff0_0000_0000_0000u64 & 0x8000_0000_0000_0000u64 == 0 && 0xfff0_0000_0000_0000u64
        & 0x8000_0000_0000_0000u64 == 0x8000_0000_0000_0000u64) by (bit_vector);
}

/// The canonical representative of a double-precision pattern lies in the
/// pattern's own equivalence class, and canonicalizing it again changes
/// nothing: a canonical pattern is its own representative.
pub proof fn lemma_canonical_representative_64(b: u64)
    ensures
        bits64::spec_total_eq(b, bits64::spec_canonical(b)),
        bits64::spec_canonical(bits64::spec_canonical(b)) == bits64::spec_canonical(b),
{
    bits64::lemma_constant_classification();
}

/// Totality and trichotomy of the single-precision order: for any two bit
/// patterns exactly one of "less", "equivalent" and "greater" holds; no pair
/// is incomparable, NaN encodings included.
pub proof fn lemma_total_order_trichotomy_32(a: u32, b: u32)
    ensures
        bits32::spec_total_lt(a, b) || bits32::spec_total_eq(a, b) || bits32::spec_total_lt(b, a),
        bits32::spec_total_lt(a, b) ==> !bits32::spec_total_eq(a, b) && !bits32::spec_total_lt(
            b,
            a,
        ),
        bits32::spec_total_eq(a, b) ==> !bits32::spec_total_lt(a, b) && !bits32::spec_total_lt(
            b,
            a,
        ),
        bits32::spec_total_lt(b, a) ==> !bits32::spec_total_lt(a, b) && !bits32::spec_total_eq(
            a,
            b,
        ),
{
}

/// The single-precision order is a total order: equivalence is reflexive
/// and symmetric, strict comparison and equivalence are transitive and
/// compose with each other.
pub proof fn lemma_total_order_laws_32(a: u32, b: u32, c: u32)
    ensures
        bits32::spec_total_eq(a, a),
        bits32::spec_total_eq(a, b) == bits32::spec_total_eq(b, a),
        bits32::spec_total_lt(a, b) && bits32::spec_total_lt(b, c) ==> bits32::spec_total_lt(a, c),
        bits32::spec_total_eq(a, b) && bits32::spec_total_eq(b, c) ==> bits32::spec_total_eq(a, c),
        bits32::spec_total_lt(a, b) && bits32::spec_total_eq(b, c) ==> bits32::spec_total_lt(a, c),
        bits32::spec_total_eq(a, b) && bits32::spec_total_lt(b, c) ==> bits32::spec_total_lt(a, c),
{
}

/// NaN is maximal in the single-precision order: every NaN encoding sits
/// strictly above every non-NaN pattern, and any two NaN encodings are
/// equivalent.
pub proof fn lemma_nan_maximal_32(x: u32, n: u32, m: u32)
    requires
        !bits32::spec_is_nan(x),
        bits32::spec_is_nan(n),
        bits32::spec_is_nan(m),
    ensures
        bits32::spec_total_lt(x, n),
        bits32::spec_total_eq(n, m),
{
    bits32::lemma_rank_range(x);
}

/// The two zeros are equivalent in the single-precision order and share one
/// canonical bit pattern.
pub proof fn lemma_signed_zero_equal_32()
    ensures
        bits32::spec_total_eq(bits32::ZERO_BITS, bits32::NEG_ZERO_BITS),
        bits32::spec_canonical(bits32::ZERO_BITS) == bits32::spec_canonical(
            bits32::NEG_ZERO_BITS,
        ),
{
    bits32::lemma_constant_classification();
    assert(0x0000_0000u32 & 0x7fff_ffffu32 == 0 && 0x8000_0000u32 & 0x7fff_ffffu32 == 0
        && 0x8000_0000u32 & 0x8000_0000u32 == 0x8000_0000u32 && 0x0000_0000u32 & 0x8000_0000u32
        == 0) by (bit_vector);
}

/// Canonicalization agrees exactly with equality in single precision: two
/// bit patterns have the same canonical representative if and only if they
/// are equivalent in the total order. A hash computed over the canonical
/// bits is therefore consistent with equality, and collides only where
/// equality demands it.
pub proof fn lemma_hash_consistent_32(a: u32, b: u32)
    ensures
        bits32::spec_total_eq(a, b) <==> bits32::spec_canonical(a) == bits32::spec_canonical(b),
{
    bits32::lemma_magnitude_bound(a);
    bits32::lemma_magnitude_bound(b);
    bits32::lemma_rank_range(a);
    bits32::lemma_rank_range(b);
    bits32::lemma_constant_classification();
    assert(((a & 0x8000_0000u32 == b & 0x8000_0000u32) && (a & 0x7fff_ffffu32 == b
        & 0x7fff_ffffu32)) ==> a == b) by (bit_vector);
    assert((a & 0x8000_0000u32 == 0 || a & 0x8000_0000u32 == 0x8000_0000u32) && (b
        & 0x8000_0000u32 == 0 || b & 0x8000_0000u32 == 0x8000_0000u32) && 0x0000_0000u32
        & 0x7fff_ffffu32 == 0) by (bit_vector);
}

/// On finite bit patterns the single-precision total order is exactly the
/// numeric order of the encoded values: comparing by sign and magnitude
/// bits orders finite values as IEEE-754 arithmetic does, with the two
/// zeros numerically equal.
pub proof fn lemma_order_matches_numeric_value_32(a: u32, b: u32)
    requires
        bits32::spec_is_finite(a),
        bits32::spec_is_finite(b),
    ensures
        bits32::spec_total_lt(a, b) <==> bits32::spec_scaled_value(a)
            < bits32::spec_scaled_value(b),
        bits32::spec_total_eq(a, b) <==> bits32::spec_scaled_value(a)
            == bits32::spec_scaled_value(b),
{
    let ma = bits32::spec_magnitude(a);
    let mb = bits32::spec_magnitude(b);
    if ma < mb {
        bits32::lemma_mag_value_strictly_monotone(ma, mb);
    }
    if mb < ma {
        bits32::lemma_mag_value_strictly_monotone(mb, ma);
    }
    if 0 < ma {
        bits32::lemma_mag_value_strictly_monotone(0, ma);
    }
    if 0 < mb {
        bits32::lemma_mag_value_strictly_monotone(0, mb);
    }
    assert(bits32::spec_mag_value(0) == 0);
}

/// The canonical representative of a single-precision pattern lies in the
/// pattern's own equivalence class, and canonicalizing it again changes
/// nothing: a canonical pattern is its own representative.
pub proof fn lemma_canonical_representative_32(b: u32)
    ensures
        bits32::spec_total_eq(b, bits32::spec_canonical(b)),
        bits32::spec_canonical(bits32::spec_canonical(b)) == bits32::spec_canonical(b),
{
    bits32::lemma_constant_classification();
}

/// Widening is order-preserving on finite values: two single-precision
/// patterns compare in the total order exactly as their widened
/// double-precision counterparts do, because widening preserves the
/// encoded value and both orders are the numeric order.
pub proof fn lemma_widen_preserves_order(a: u32, b: u32)
    requires
        bits32::spec_is_finite(a),
        bits32::spec_is_finite(b),
    ensures
        bits32::spec_total_lt(a, b) <==> bits64::spec_total_lt(
            crate::widen::spec_widen(a),
            crate::widen::spec_widen(b),
        ),
        bits32::spec_total_eq(a, b) <==> bits64::spec_total_eq(
            crate::widen::spec_widen(a),
            crate::widen::spec_widen(b),
        ),
{
    crate::widen::lemma_widen_preserves_value(a);
    crate::widen::lemma_widen_preserves_value(b);
    lemma_order_matches_numeric_value_32(a, b);
    lemma_order_matches_numeric_value_64(crate::widen::spec_widen(a), crate::widen::spec_widen(b));
    vstd::arithmetic::power2::lemma_pow2_pos(925);
    let va = bits32::spec_scaled_value(a);
    let vb = bits32::spec_scaled_value(b);
    assert((va < vb <==> va * pow2(925) < vb * pow2(925)) && (va == vb <==> va * pow2(925) == vb
        * pow2(925))) by (nonlinear_arith)
        requires
            pow2(925) >= 1,
    ;
}

/// The infinities bound every non-NaN single-precision pattern: nothing
/// non-NaN ranks below negative infinity or above positive infinity.
pub proof fn lemma_infinities_are_extreme_32(x: u32)
    requires
        !bits32::spec_is_nan(x),
    ensures
        bits32::rank(bits32::NEG_INFINITY_BITS) <= bits32::rank(x),
        bits32::rank(x) <= bits32::rank(bits32::INFINITY_BITS),
{
    bits32::lemma_constant_classification();
    assert(!(x & 0x7f80_0000u32 == 0x7f80_0000u32 && x & 0x007f_ffffu32 != 0) ==> x
        & 0x7fff_ffffu32 <= 0x7f80_0000u32) by (bit_vector);
    assert(0x7f80_0000u32 & 0x7fff_ffffu32 == 0x7f80_0000u32 && 0xff80_0000u32 & 0x7fff_ffffu32
        == 0x7f80_0000u32 && 0x7f80_0000u32 & 0x8000_0000u32 == 0 && 0xff80_0000u32
        & 0x8000_0000u32 == 0x8000_0000u32) by (bit_vector);
}

} // verus!
