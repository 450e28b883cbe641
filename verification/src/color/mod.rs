//! Colour values.
pub mod hex;
pub mod math;
pub mod tones;
