//! Conversions between linear distances (inches, yards) and angular
//! corrections (minutes of angle), and a half-MOA rounding policy for
//! scope adjustments.
//!
//! Every quantity is an exact rational number, so the conversion factors
//! (`0.0277` yards per inch, `1.047` inches of MOA per 100 yards) are
//! applied without rounding error.

pub mod error;
pub mod rat;
pub mod round;
pub mod units;
