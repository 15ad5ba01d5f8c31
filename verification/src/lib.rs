//! Total-order wrappers for IEEE-754 floating-point values, verified at the
//! level of their bit patterns.
//!
//! The native floating-point comparison is only a partial order: NaN compares
//! unordered with everything, including itself. This crate provides two
//! wrapper types over the raw bit patterns (`u32` for single precision, `u64`
//! for double precision) that impose a verified strict total order:
//!
//! * [`OrderedFloat`] admits every bit pattern, orders NaN above all other
//!   values, and treats all NaN encodings as equal to each other.
//! * [`NotNan`] carries the invariant that the wrapped pattern is never a
//!   NaN encoding; validated construction rejects NaN explicitly.
//!
//! All ordering, equality, hashing-canonicalization and validation logic is
//! implemented and proved here on plain bit patterns. Producing those bit
//! patterns from floating-point values (and running the floating-point
//! arithmetic itself) is left to the callers, since the arithmetic unit is a
//! black-box numeric primitive from this crate's point of view.

pub mod bits32;
pub mod bits64;
pub mod errors;
pub mod laws;
pub mod not_nan;
pub mod ordered;
pub mod widen;

pub use errors::FloatIsNan;
pub use errors::ParseNotNanError;
pub use not_nan::NotNan;
pub use ordered::OrderedFloat;
