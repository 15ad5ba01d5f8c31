//! The strict wrapper: a bit pattern that is guaranteed never to be NaN.

use vstd::prelude::*;

verus! {

use core::cmp::Ordering;
use crate::bits32;
use crate::bits64;
use crate::errors::FloatIsNan;
use crate::errors::ParseNotNanError;

/// A wrapper around a floating-point bit pattern (`u32` for single
/// precision, `u64` for double precision) that is guaranteed never to
/// encode NaN.
///
/// Validated construction through [`NotNan::new`] rejects NaN patterns with
/// a [`FloatIsNan`] error; [`NotNan::new_unchecked`] places that burden on
/// the caller instead. Because NaN is excluded, the total order of this
/// crate restricted to `NotNan` values is exactly the IEEE numeric order,
/// with `+0.0` equal to `-0.0`.
#[derive(Clone, Copy, Debug)]
pub struct NotNan<T>(T);

impl View for NotNan<u64> {
    type V = u64;

    closed spec fn view(&self) -> u64 {
        self.0
    }
}

impl NotNan<u64> {
    /// The invariant of the type: the wrapped pattern is not a NaN
    /// encoding. Every constructor establishes it and every operation
    /// preserves it.
    pub open spec fn wf(self) -> bool {
        !bits64::spec_is_nan(self@)
    }

    /// Create a `NotNan` from a raw bit pattern.
    ///
    /// Returns `Err` exactly when the pattern encodes NaN; otherwise the
    /// result wraps the given pattern bit-for-bit.
    pub fn new(bits: u64) -> (r: Result<Self, FloatIsNan>)
        ensures
            r is Ok <==> !bits64::spec_is_nan(bits),
            r matches Ok(v) ==> v@ == bits && v.wf(),
    {
        if bits64::is_nan(bits) {
            Err(FloatIsNan)
        } else {
            Ok(NotNan(bits))
        }
    }

    /// Create a `NotNan` from a bit pattern that is guaranteed not to be a
    /// NaN encoding, skipping the runtime check. The precondition places
    /// that guarantee on the caller.
    pub fn new_unchecked(bits: u64) -> (r: Self)
        requires
            !bits64::spec_is_nan(bits),
        ensures
            r@ == bits,
            r.wf(),
    {
        NotNan(bits)
    }

    /// Older name of [`NotNan::new_unchecked`], kept for callers of the
    /// historic API.
    pub fn unchecked_new(bits: u64) -> (r: Self)
        requires
            !bits64::spec_is_nan(bits),
        ensures
            r@ == bits,
            r.wf(),
    {
        Self::new_unchecked(bits)
    }

    /// Get the bit pattern out.
    pub fn into_inner(self) -> (r: u64)
        ensures
            r == self@,
    {
        self.0
    }

    /// The wrapped pattern encodes NaN. For every value built through this
    /// type's constructors this is `false`; it can only be `true` if the
    /// precondition of [`NotNan::new_unchecked`] was taken on trust from
    /// unverified code and violated there.
    pub fn is_nan(&self) -> (r: bool)
        ensures
            r == bits64::spec_is_nan(self@),
    {
        bits64::is_nan(self.0)
    }

    /// Three-way comparison in the total order. On well-formed values this
    /// is exactly the IEEE numeric order.
    pub fn cmp(&self, other: &Self) -> (r: Ordering)
        ensures
            r == bits64::spec_total_cmp(self@, other@),
    {
        bits64::total_cmp(self.0, other.0)
    }

    /// The canonical bit pattern of this value's equivalence class, the
    /// payload to feed to a hasher: equal values yield equal canonical bits.
    pub fn canonical_bits(self) -> (r: u64)
        ensures
            r == bits64::spec_canonical(self@),
    {
        bits64::canonical(self.0)
    }

    /// Negation: flips the sign bit, which is exactly IEEE-754 negation.
    /// Negating a non-NaN value can never produce NaN, so the invariant is
    /// preserved without a check.
    pub fn neg(self) -> (r: Self)
        ensures
            r@ == self@ ^ bits64::SIGN_MASK,
            self.wf() ==> r.wf(),
            self.wf() ==> bits64::rank(r@) + bits64::rank(self@) == 2 * (bits64::SIGN_MASK as int),
    {
        proof {
            bits64::lemma_neg_rank(self.0);
        }
        NotNan(self.0 ^ bits64::SIGN_MASK)
    }

    /// Finish a textual parse. The outcome of the underlying numeric
    /// parser, already converted to a bit pattern on success, is validated
    /// against the NaN-exclusion invariant: a parse error is passed through
    /// as [`ParseNotNanError::ParseFloatError`], a parsed NaN (textual
    /// `"NaN"`) is rejected as [`ParseNotNanError::IsNaN`], and anything
    /// else is wrapped bit-for-bit.
    pub fn from_parsed<E>(parsed: Result<u64, E>) -> (r: Result<Self, ParseNotNanError<E>>)
        ensures
            parsed matches Err(e) ==> r == Err::<Self, ParseNotNanError<E>>(
                ParseNotNanError::ParseFloatError(e),
            ),
            parsed matches Ok(b) ==> ((bits64::spec_is_nan(b) ==> r == Err::<
                Self,
                ParseNotNanError<E>,
            >(ParseNotNanError::IsNaN)) && (!bits64::spec_is_nan(b) ==> (r matches Ok(v)
                && v@ == b && v.wf()))),
    {
        match parsed {
            Err(e) => Err(ParseNotNanError::ParseFloatError(e)),
            Ok(b) => {
                if bits64::is_nan(b) {
                    Err(ParseNotNanError::IsNaN)
                } else {
                    Ok(NotNan(b))
                }
            },
        }
    }

    /// The value `+0.0`, the additive identity.
    pub fn zero() -> (r: Self)
        ensures
            r@ == bits64::ZERO_BITS,
            r.wf(),
    {
        proof {
            bits64::lemma_constant_classification();
        }
        NotNan(bits64::ZERO_BITS)
    }

    /// The value `1.0`, the multiplicative identity.
    pub fn one() -> (r: Self)
        ensures
            r@ == bits64::ONE_BITS,
            r.wf(),
    {
        proof {
            bits64::lemma_constant_classification();
        }
        NotNan(bits64::ONE_BITS)
    }

    /// The smallest finite value.
    pub fn min_value() -> (r: Self)
        ensures
            r@ == bits64::MIN_BITS,
            r.wf(),
    {
        proof {
            bits64::lemma_constant_classification();
        }
        NotNan(bits64::MIN_BITS)
    }

    /// The largest finite value.
    pub fn max_value() -> (r: Self)
        ensures
            r@ == bits64::MAX_BITS,
            r.wf(),
    {
        proof {
            bits64::lemma_constant_classification();
        }
        NotNan(bits64::MAX_BITS)
    }

    /// The wrapped pattern encodes a zero of either sign.
    pub fn is_zero(&self) -> (r: bool)
        ensures
            r == bits64::spec_is_zero(self@),
    {
        self.0 & bits64::MAG_MASK == 0
    }
}

impl PartialEq for NotNan<u64> {
    fn eq(&self, other: &Self) -> (r: bool) {
        bits64::total_eq(self.0, other.0)
    }
}

impl vstd::std_specs::cmp::PartialEqSpecImpl for NotNan<u64> {
    open spec fn obeys_eq_spec() -> bool {
        true
    }

    open spec fn eq_spec(&self, other: &Self) -> bool {
        bits64::spec_total_eq(self@, other@)
    }
}

impl Eq for NotNan<u64> {

}

/// Comparison against a raw bit pattern uses native IEEE equality: a raw
/// NaN pattern is equal to nothing.
impl PartialEq<u64> for NotNan<u64> {
    fn eq(&self, other: &u64) -> (r: bool) {
        bits64::ieee_eq(self.0, *other)
    }
}

impl vstd::std_specs::cmp::PartialEqSpecImpl<u64> for NotNan<u64> {
    open spec fn obeys_eq_spec() -> bool {
        true
    }

    open spec fn eq_spec(&self, other: &u64) -> bool {
        bits64::spec_ieee_eq(self@, *other)
    }
}

impl PartialOrd for NotNan<u64> {
    fn partial_cmp(&self, other: &Self) -> (r: Option<Ordering>) {
        Some(bits64::total_cmp(self.0, other.0))
    }
}

impl vstd::std_specs::cmp::PartialOrdSpecImpl for NotNan<u64> {
    open spec fn obeys_partial_cmp_spec() -> bool {
        true
    }

    open spec fn partial_cmp_spec(&self, other: &Self) -> Option<Ordering> {
        Some(bits64::spec_total_cmp(self@, other@))
    }
}

impl Default for NotNan<u64> {
    /// The default value is `+0.0`.
    fn default() -> (r: Self)
        ensures
            r@ == bits64::ZERO_BITS,
            r.wf(),
    {
        Self::zero()
    }
}

impl View for NotNan<u32> {
    type V = u32;

    closed spec fn view(&self) -> u32 {
        self.0
    }
}

impl NotNan<u32> {
    /// The invariant of the type: the wrapped pattern is not a NaN
    /// encoding. Every constructor establishes it and every operation
    /// preserves it.
    pub open spec fn wf(self) -> bool {
        !bits32::spec_is_nan(self@)
    }

    /// Create a `NotNan` from a raw bit pattern.
    ///
    /// Returns `Err` exactly when the pattern encodes NaN; otherwise the
    /// result wraps the given pattern bit-for-bit.
    pub fn new(bits: u32) -> (r: Result<Self, FloatIsNan>)
        ensures
            r is Ok <==> !bits32::spec_is_nan(bits),
            r matches Ok(v) ==> v@ == bits && v.wf(),
    {
        if bits32::is_nan(bits) {
            Err(FloatIsNan)
        } else {
            Ok(NotNan(bits))
        }
    }

    /// Create a `NotNan` from a bit pattern that is guaranteed not to be a
    /// NaN encoding, skipping the runtime check. The precondition places
    /// that guarantee on the caller.
    pub fn new_unchecked(bits: u32) -> (r: Self)
        requires
            !bits32::spec_is_nan(bits),
        ensures
            r@ == bits,
            r.wf(),
    {
        NotNan(bits)
    }

    /// Older name of [`NotNan::new_unchecked`], kept for callers of the
    /// historic API.
    pub fn unchecked_new(bits: u32) -> (r: Self)
        requires
            !bits32::spec_is_nan(bits),
        ensures
            r@ == bits,
            r.wf(),
    {
        Self::new_unchecked(bits)
    }

    /// Get the bit pattern out.
    pub fn into_inner(self) -> (r: u32)
        ensures
            r == self@,
    {
        self.0
    }

    /// The wrapped pattern encodes NaN. For every value built through this
    /// type's constructors this is `false`; it can only be `true` if the
    /// precondition of [`NotNan::new_unchecked`] was taken on trust from
    /// unverified code and violated there.
    pub fn is_nan(&self) -> (r: bool)
        ensures
            r == bits32::spec_is_nan(self@),
    {
        bits32::is_nan(self.0)
    }

    /// Three-way comparison in the total order. On well-formed values this
    /// is exactly the IEEE numeric order.
    pub fn cmp(&self, other: &Self) -> (r: Ordering)
        ensures
            r == bits32::spec_total_cmp(self@, other@),
    {
        bits32::total_cmp(self.0, other.0)
    }

    /// The canonical bit pattern of this value's equivalence class, the
    /// payload to feed to a hasher: equal values yield equal canonical bits.
    pub fn canonical_bits(self) -> (r: u32)
        ensures
            r == bits32::spec_canonical(self@),
    {
        bits32::canonical(self.0)
    }

    /// Negation: flips the sign bit, which is exactly IEEE-754 negation.
    /// Negating a non-NaN value can never produce NaN, so the invariant is
    /// preserved without a check.
    pub fn neg(self) -> (r: Self)
        ensures
            r@ == self@ ^ bits32::SIGN_MASK,
            self.wf() ==> r.wf(),
            self.wf() ==> bits32::rank(r@) + bits32::rank(self@) == 2 * (bits32::SIGN_MASK as int),
    {
        proof {
            bits32::lemma_neg_rank(self.0);
        }
        NotNan(self.0 ^ bits32::SIGN_MASK)
    }

    /// Finish a textual parse. The outcome of the underlying numeric
    /// parser, already converted to a bit pattern on success, is validated
    /// against the NaN-exclusion invariant: a parse error is passed through
    /// as [`ParseNotNanError::ParseFloatError`], a parsed NaN (textual
    /// `"NaN"`) is rejected as [`ParseNotNanError::IsNaN`], and anything
    /// else is wrapped bit-for-bit.
    pub fn from_parsed<E>(parsed: Result<u32, E>) -> (r: Result<Self, ParseNotNanError<E>>)
        ensures
            parsed matches Err(e) ==> r == Err::<Self, ParseNotNanError<E>>(
                ParseNotNanError::ParseFloatError(e),
            ),
            parsed matches Ok(b) ==> ((bits32::spec_is_nan(b) ==> r == Err::<
                Self,
                ParseNotNanError<E>,
            >(ParseNotNanError::IsNaN)) && (!bits32::spec_is_nan(b) ==> (r matches Ok(v)
                && v@ == b && v.wf()))),
    {
        match parsed {
            Err(e) => Err(ParseNotNanError::ParseFloatError(e)),
            Ok(b) => {
                if bits32::is_nan(b) {
                    Err(ParseNotNanError::IsNaN)
                } else {
                    Ok(NotNan(b))
                }
            },
        }
    }

    /// The value `+0.0`, the additive identity.
    pub fn zero() -> (r: Self)
        ensures
            r@ == bits32::ZERO_BITS,
            r.wf(),
    {
        proof {
            bits32::lemma_constant_classification();
        }
        NotNan(bits32::ZERO_BITS)
    }

    /// The value `1.0`, the multiplicative identity.
    pub fn one() -> (r: Self)
        ensures
            r@ == bits32::ONE_BITS,
            r.wf(),
    {
        proof {
            bits32::lemma_constant_classification();
        }
        NotNan(bits32::ONE_BITS)
    }

    /// The smallest finite value.
    pub fn min_value() -> (r: Self)
        ensures
            r@ == bits32::MIN_BITS,
            r.wf(),
    {
        proof {
            bits32::lemma_constant_classification();
        }
        NotNan(bits32::MIN_BITS)
    }

    /// The largest finite value.
    pub fn max_value() -> (r: Self)
        ensures
            r@ == bits32::MAX_BITS,
            r.wf(),
    {
        proof {
            bits32::lemma_constant_classification();
        }
        NotNan(bits32::MAX_BITS)
    }

    /// The wrapped pattern encodes a zero of either sign.
    pub fn is_zero(&self) -> (r: bool)
        ensures
            r == bits32::spec_is_zero(self@),
    {
        self.0 & bits32::MAG_MASK == 0
    }

    /// Widen to the double-precision strict wrapper. The conversion is a
    /// lossless re-encoding of the bit pattern, and widening a non-NaN
    /// value can never produce NaN, so no re-validation is needed.
    pub fn widen(self) -> (r: NotNan<u64>)
        ensures
            r@ == crate::widen::spec_widen(self@),
            self.wf() ==> r.wf(),
    {
        proof {
            if !bits32::spec_is_nan(self@) {
                crate::widen::lemma_widen_not_nan(self@);
            }
        }
        NotNan(crate::widen::widen(self.0))
    }
}

impl NotNan<u64> {
    /// The double-precision value that widening a single-precision value
    /// yields, at the specification level.
    pub closed spec fn spec_widened(v: NotNan<u32>) -> Self {
        NotNan(crate::widen::spec_widen(v@))
    }

    /// The widened value holds exactly the re-encoded bit pattern.
    pub proof fn lemma_spec_widened(v: NotNan<u32>)
        ensures
            Self::spec_widened(v)@ == crate::widen::spec_widen(v@),
    {
    }
}

impl From<NotNan<u32>> for NotNan<u64> {
    /// Widening conversion, as [`NotNan::widen`].
    fn from(v: NotNan<u32>) -> (r: Self) {
        v.widen()
    }
}

impl vstd::std_specs::convert::FromSpecImpl<NotNan<u32>> for NotNan<u64> {
    open spec fn obeys_from_spec() -> bool {
        true
    }

    open spec fn from_spec(v: NotNan<u32>) -> Self {
        NotNan::<u64>::spec_widened(v)
    }
}

impl PartialEq for NotNan<u32> {
    fn eq(&self, other: &Self) -> (r: bool) {
        bits32::total_eq(self.0, other.0)
    }
}

impl vstd::std_specs::cmp::PartialEqSpecImpl for NotNan<u32> {
    open spec fn obeys_eq_spec() -> bool {
        true
    }

    open spec fn eq_spec(&self, other: &Self) -> bool {
        bits32::spec_total_eq(self@, other@)
    }
}

impl Eq for NotNan<u32> {

}

/// Comparison against a raw bit pattern uses native IEEE equality: a raw
/// NaN pattern is equal to nothing.
impl PartialEq<u32> for NotNan<u32> {
    fn eq(&self, other: &u32) -> (r: bool) {
        bits32::ieee_eq(self.0, *other)
    }
}

impl vstd::std_specs::cmp::PartialEqSpecImpl<u32> for NotNan<u32> {
    open spec fn obeys_eq_spec() -> bool {
        true
    }

    open spec fn eq_spec(&self, other: &u32) -> bool {
        bits32::spec_ieee_eq(self@, *other)
    }
}

impl PartialOrd for NotNan<u32> {
    fn partial_cmp(&self, other: &Self) -> (r: Option<Ordering>) {
        Some(bits32::total_cmp(self.0, other.0))
    }
}

impl vstd::std_specs::cmp::PartialOrdSpecImpl for NotNan<u32> {
    open spec fn obeys_partial_cmp_spec() -> bool {
        true
    }

    open spec fn partial_cmp_spec(&self, other: &Self) -> Option<Ordering> {
        Some(bits32::spec_total_cmp(self@, other@))
    }
}

impl Default for NotNan<u32> {
    /// The default value is `+0.0`.
    fn default() -> (r: Self)
        ensures
            r@ == bits32::ZERO_BITS,
            r.wf(),
    {
        Self::zero()
    }
}

} // verus!
