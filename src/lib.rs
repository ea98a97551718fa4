//! Unit conversions (temperature, currency, length, mass, speed, energy,
//! power) computed exactly on rational quantities.

pub mod conversion;
pub mod laws;
pub mod ratio;

pub use conversion::Conversion;
pub use ratio::{fits_i128, Ratio, Rational};
