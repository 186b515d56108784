//! Newtype wrappers for floats that are not `NaN`.

/// Error definitions.
pub mod error;

/// Newtype implementation for double precision.
pub mod double;

/// Newtype implementation for single precision.
pub mod single;
