//! Complex numbers whose parts are IEEE 754 binary64 values, held by their
//! encodings.
//!
//! The library owns what is exact about such a number: flipping signs
//! (conjugate, negation), telling a zero part from a nonzero one, and laying
//! the number out as text. Arithmetic that rounds belongs to whoever holds
//! the machine's floating-point unit; its results come back as encodings.

pub mod binary64;
pub mod complex;

pub use crate::complex::Complex;
