//! The permissive wrapper: a total order over every bit pattern.

use vstd::prelude::*;

verus! {

use core::cmp::Ordering;
use crate::bits32;
use crate::bits64;

/// A wrapper around a floating-point bit pattern (`u32` for single
/// precision, `u64` for double precision) providing equality and a total
/// order.
///
/// Any bit pattern is permitted, including every NaN encoding. NaN sorts as
/// *greater* than all other values and *equal* to itself, in contradiction
/// with the IEEE standard; `+0.0` and `-0.0` are considered equal, as IEEE
/// demands.
#[derive(Clone, Copy, Debug)]
pub struct OrderedFloat<T>(pub T);

impl OrderedFloat<u64> {
    /// Get the bit pattern out.
    pub fn into_inner(self) -> (r: u64)
        ensures
            r == self.0,
    {
        self.0
    }

    /// The wrapped pattern encodes NaN.
    pub fn is_nan(&self) -> (r: bool)
        ensures
            r == bits64::spec_is_nan(self.0),
    {
        bits64::is_nan(self.0)
    }

    /// The wrapped pattern encodes a finite value.
    pub fn is_finite(&self) -> (r: bool)
        ensures
            r == bits64::spec_is_finite(self.0),
    {
        self.0 & bits64::EXP_MASK != bits64::EXP_MASK
    }

    /// The wrapped pattern encodes an infinity of either sign.
    pub fn is_infinite(&self) -> (r: bool)
        ensures
            r == bits64::spec_is_infinite(self.0),
    {
        self.0 & bits64::MAG_MASK == bits64::EXP_MASK
    }

    /// Three-way comparison in the total order: the IEEE numeric order on
    /// non-NaN values, all NaN encodings equal to each other and above
    /// everything else.
    pub fn cmp(&self, other: &Self) -> (r: Ordering)
        ensures
            r == bits64::spec_total_cmp(self.0, other.0),
    {
        bits64::total_cmp(self.0, other.0)
    }

    /// The canonical bit pattern of this value's equivalence class, the
    /// payload to feed to a hasher: equal values yield equal canonical bits.
    pub fn canonical_bits(self) -> (r: u64)
        ensures
            r == bits64::spec_canonical(self.0),
    {
        bits64::canonical(self.0)
    }

    /// Negation: flips the sign bit, which is exactly IEEE-754 negation.
    /// It never turns a NaN pattern into a non-NaN pattern or vice versa,
    /// and it reverses the order of non-NaN values.
    pub fn neg(self) -> (r: Self)
        ensures
            r.0 == self.0 ^ bits64::SIGN_MASK,
            bits64::spec_is_nan(r.0) == bits64::spec_is_nan(self.0),
            !bits64::spec_is_nan(self.0) ==> bits64::rank(r.0) + bits64::rank(self.0) == 2 * (
            bits64::SIGN_MASK as int),
    {
        proof {
            bits64::lemma_neg_rank(self.0);
        }
        OrderedFloat(self.0 ^ bits64::SIGN_MASK)
    }

    /// The value `+0.0`, the additive identity.
    pub fn zero() -> (r: Self)
        ensures
            r.0 == bits64::ZERO_BITS,
    {
        OrderedFloat(bits64::ZERO_BITS)
    }

    /// The value `1.0`, the multiplicative identity.
    pub fn one() -> (r: Self)
        ensures
            r.0 == bits64::ONE_BITS,
    {
        OrderedFloat(bits64::ONE_BITS)
    }

    /// The smallest finite value.
    pub fn min_value() -> (r: Self)
        ensures
            r.0 == bits64::MIN_BITS,
    {
        OrderedFloat(bits64::MIN_BITS)
    }

    /// The largest finite value.
    pub fn max_value() -> (r: Self)
        ensures
            r.0 == bits64::MAX_BITS,
    {
        OrderedFloat(bits64::MAX_BITS)
    }

    /// Positive infinity.
    pub fn infinity() -> (r: Self)
        ensures
            r.0 == bits64::INFINITY_BITS,
    {
        OrderedFloat(bits64::INFINITY_BITS)
    }

    /// Negative infinity.
    pub fn neg_infinity() -> (r: Self)
        ensures
            r.0 == bits64::NEG_INFINITY_BITS,
    {
        OrderedFloat(bits64::NEG_INFINITY_BITS)
    }

    /// The canonical quiet NaN, which this type admits like any other
    /// pattern.
    pub fn nan() -> (r: Self)
        ensures
            r.0 == bits64::CANONICAL_NAN_BITS,
            bits64::spec_is_nan(r.0),
    {
        proof {
            bits64::lemma_constant_classification();
        }
        OrderedFloat(bits64::CANONICAL_NAN_BITS)
    }

    /// The wrapped pattern encodes a zero of either sign.
    pub fn is_zero(&self) -> (r: bool)
        ensures
            r == bits64::spec_is_zero(self.0),
    {
        self.0 & bits64::MAG_MASK == 0
    }
}

impl PartialEq for OrderedFloat<u64> {
    fn eq(&self, other: &Self) -> (r: bool) {
        bits64::total_eq(self.0, other.0)
    }
}

impl vstd::std_specs::cmp::PartialEqSpecImpl for OrderedFloat<u64> {
    open spec fn obeys_eq_spec() -> bool {
        true
    }

    open spec fn eq_spec(&self, other: &Self) -> bool {
        bits64::spec_total_eq(self.0, other.0)
    }
}

impl Eq for OrderedFloat<u64> {

}

/// Comparison against a raw bit pattern uses native IEEE equality: a
/// wrapped NaN is *not* equal to a raw NaN pattern, though two wrapped
/// NaNs are equal to each other.
impl PartialEq<u64> for OrderedFloat<u64> {
    fn eq(&self, other: &u64) -> (r: bool) {
        bits64::ieee_eq(self.0, *other)
    }
}

impl vstd::std_specs::cmp::PartialEqSpecImpl<u64> for OrderedFloat<u64> {
    open spec fn obeys_eq_spec() -> bool {
        true
    }

    open spec fn eq_spec(&self, other: &u64) -> bool {
        bits64::spec_ieee_eq(self.0, *other)
    }
}

impl PartialOrd for OrderedFloat<u64> {
    fn partial_cmp(&self, other: &Self) -> (r: Option<Ordering>) {
        Some(bits64::total_cmp(self.0, other.0))
    }
}

impl vstd::std_specs::cmp::PartialOrdSpecImpl for OrderedFloat<u64> {
    open spec fn obeys_partial_cmp_spec() -> bool {
        true
    }

    open spec fn partial_cmp_spec(&self, other: &Self) -> Option<Ordering> {
        Some(bits64::spec_total_cmp(self.0, other.0))
    }
}

impl Default for OrderedFloat<u64> {
    /// The default value is `+0.0`.
    fn default() -> (r: Self)
        ensures
            r.0 == bits64::ZERO_BITS,
    {
        OrderedFloat(bits64::ZERO_BITS)
    }
}

impl OrderedFloat<u32> {
    /// Get the bit pattern out.
    pub fn into_inner(self) -> (r: u32)
        ensures
            r == self.0,
    {
        self.0
    }

    /// The wrapped pattern encodes NaN.
    pub fn is_nan(&self) -> (r: bool)
        ensures
            r == bits32::spec_is_nan(self.0),
    {
        bits32::is_nan(self.0)
    }

    /// The wrapped pattern encodes a finite value.
    pub fn is_finite(&self) -> (r: bool)
        ensures
            r == bits32::spec_is_finite(self.0),
    {
        self.0 & bits32::EXP_MASK != bits32::EXP_MASK
    }

    /// The wrapped pattern encodes an infinity of either sign.
    pub fn is_infinite(&self) -> (r: bool)
        ensures
            r == bits32::spec_is_infinite(self.0),
    {
        self.0 & bits32::MAG_MASK == bits32::EXP_MASK
    }

    /// Three-way comparison in the total order: the IEEE numeric order on
    /// non-NaN values, all NaN encodings equal to each other and above
    /// everything else.
    pub fn cmp(&self, other: &Self) -> (r: Ordering)
        ensures
            r == bits32::spec_total_cmp(self.0, other.0),
    {
        bits32::total_cmp(self.0, other.0)
    }

    /// The canonical bit pattern of this value's equivalence class, the
    /// payload to feed to a hasher: equal values yield equal canonical bits.
    pub fn canonical_bits(self) -> (r: u32)
        ensures
            r == bits32::spec_canonical(self.0),
    {
        bits32::canonical(self.0)
    }

    /// Negation: flips the sign bit, which is exactly IEEE-754 negation.
    /// It never turns a NaN pattern into a non-NaN pattern or vice versa,
    /// and it reverses the order of non-NaN values.
    pub fn neg(self) -> (r: Self)
        ensures
            r.0 == self.0 ^ bits32::SIGN_MASK,
            bits32::spec_is_nan(r.0) == bits32::spec_is_nan(self.0),
            !bits32::spec_is_nan(self.0) ==> bits32::rank(r.0) + bits32::rank(self.0) == 2 * (
            bits32::SIGN_MASK as int),
    {
        proof {
            bits32::lemma_neg_rank(self.0);
        }
        OrderedFloat(self.0 ^ bits32::SIGN_MASK)
    }

    /// The value `+0.0`, the additive identity.
    pub fn zero() -> (r: Self)
        ensures
            r.0 == bits32::ZERO_BITS,
    {
        OrderedFloat(bits32::ZERO_BITS)
    }

    /// The value `1.0`, the multiplicative identity.
    pub fn one() -> (r: Self)
        ensures
            r.0 == bits32::ONE_BITS,
    {
        OrderedFloat(bits32::ONE_BITS)
    }

    /// The smallest finite value.
    pub fn min_value() -> (r: Self)
        ensures
            r.0 == bits32::MIN_BITS,
    {
        OrderedFloat(bits32::MIN_BITS)
    }

    /// The largest finite value.
    pub fn max_value() -> (r: Self)
        ensures
            r.0 == bits32::MAX_BITS,
    {
        OrderedFloat(bits32::MAX_BITS)
    }

    /// Positive infinity.
    pub fn infinity() -> (r: Self)
        ensures
            r.0 == bits32::INFINITY_BITS,
    {
        OrderedFloat(bits32::INFINITY_BITS)
    }

    /// Negative infinity.
    pub fn neg_infinity() -> (r: Self)
        ensures
            r.0 == bits32::NEG_INFINITY_BITS,
    {
        OrderedFloat(bits32::NEG_INFINITY_BITS)
    }

    /// The canonical quiet NaN, which this type admits like any other
    /// pattern.
    pub fn nan() -> (r: Self)
        ensures
            r.0 == bits32::CANONICAL_NAN_BITS,
            bits32::spec_is_nan(r.0),
    {
        proof {
            bits32::lemma_constant_classification();
        }
        OrderedFloat(bits32::CANONICAL_NAN_BITS)
    }

    /// The wrapped pattern encodes a zero of either sign.
    pub fn is_zero(&self) -> (r: bool)
        ensures
            r == bits32::spec_is_zero(self.0),
    {
        self.0 & bits32::MAG_MASK == 0
    }
}

impl PartialEq for OrderedFloat<u32> {
    fn eq(&self, other: &Self) -> (r: bool) {
        bits32::total_eq(self.0, other.0)
    }
}

impl vstd::std_specs::cmp::PartialEqSpecImpl for OrderedFloat<u32> {
    open spec fn obeys_eq_spec() -> bool {
        true
    }

    open spec fn eq_spec(&self, other: &Self) -> bool {
        bits32::spec_total_eq(self.0, other.0)
    }
}

impl Eq for OrderedFloat<u32> {

}

/// Comparison against a raw bit pattern uses native IEEE equality: a
/// wrapped NaN is *not* equal to a raw NaN pattern, though two wrapped
/// NaNs are equal to each other.
impl PartialEq<u32> for OrderedFloat<u32> {
    fn eq(&self, other: &u32) -> (r: bool) {
        bits32::ieee_eq(self.0, *other)
    }
}

impl vstd::std_specs::cmp::PartialEqSpecImpl<u32> for OrderedFloat<u32> {
    open spec fn obeys_eq_spec() -> bool {
        true
    }

    open spec fn eq_spec(&self, other: &u32) -> bool {
        bits32::spec_ieee_eq(self.0, *other)
    }
}

impl PartialOrd for OrderedFloat<u32> {
    fn partial_cmp(&self, other: &Self) -> (r: Option<Ordering>) {
        Some(bits32::total_cmp(self.0, other.0))
    }
}

impl vstd::std_specs::cmp::PartialOrdSpecImpl for OrderedFloat<u32> {
    open spec fn obeys_partial_cmp_spec() -> bool {
        true
    }

    open spec fn partial_cmp_spec(&self, other: &Self) -> Option<Ordering> {
        Some(bits32::spec_total_cmp(self.0, other.0))
    }
}

impl Default for OrderedFloat<u32> {
    /// The default value is `+0.0`.
    fn default() -> (r: Self)
        ensures
            r.0 == bits32::ZERO_BITS,
    {
        OrderedFloat(bits32::ZERO_BITS)
    }
}

} // verus!
