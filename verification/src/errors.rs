//! Error types for validated construction and parsing of [`crate::NotNan`].

use vstd::prelude::*;

verus! {

/// An error indicating an attempt to construct a [`crate::NotNan`] from a
/// NaN bit pattern.
#[derive(Clone, Copy, PartialEq, Eq, Debug, Structural)]
pub struct FloatIsNan;

/// An error indicating a failed parse into [`crate::NotNan`].
///
/// The two variants are deliberately distinct: malformed numeric text is a
/// plain parse error carrying the underlying parser's error, while text that
/// parses to a NaN is rejected by the NaN-exclusion invariant.
#[derive(Clone, Copy, PartialEq, Eq, Debug)]
pub enum ParseNotNanError<E> {
    /// A plain parse error from the underlying numeric parser.
    ParseFloatError(E),
    /// The parsed value was a NaN.
    IsNaN,
}

} // verus!
