//! Numerical inverse Laplace transform by the Concentrated Matrix-Exponential
//! (CME) method.
//!
//! Real numbers are held as IEEE 754 binary64 bit patterns (`u64`); the
//! arithmetic on them is supplied by the caller.
pub mod binary64;
pub mod parameters;
pub mod lookup;
pub mod inversion;
