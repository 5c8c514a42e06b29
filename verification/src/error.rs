//! The error surface of the library.

use vstd::prelude::*;

verus! {

/// What can go wrong while computing an adjustment.
#[derive(Clone, Copy, Debug, PartialEq, Eq, Structural)]
pub enum UnitError {
    /// The distance is zero, so the size of one minute of angle at that
    /// distance is zero and the adjustment would divide by it.
    InvalidDistance,
    /// A scalar was built from a denominator of zero, which denotes no
    /// number at all.
    InvalidMeasurement,
}

} // verus!
