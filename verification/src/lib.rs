//! Totally ordered newtypes for IEEE-754 floating-point values.
//!
//! A value is held as its IEEE-754 bit pattern: a `u64` for double precision, a
//! `u32` for single precision. Callers convert with `to_bits` and `from_bits`.

/// The bit-level model of floating-point values and of their numeric order.
pub mod ieee;

/// The numeric value of a bit pattern, and the proof that keys order as values do.
pub mod value;

/// Newtypes that do not admit `NaN`.
pub mod nonnan;

/// Newtypes that explicitly set ordering for `NaN`s.
pub mod expord;
