//! Distance value types and the adjustment calculator.
//!
//! Two units of linear distance, inches and yards, share one capability:
//! a measurement can copy itself and can give the linear size that one
//! minute of angle (MOA) subtends at the distance it stands for. On top
//! of that, [`moa_adjustments_to_zero`] turns an observed shot offset at
//! a known distance into the raw MOA correction that zeroes the sight.

use vstd::prelude::*;

use crate::error::UnitError;
use crate::rat::{lemma_mul_magnitude, Rat};
use crate::round::{round_to_half, rounds_to_half, ROUND_LIMIT};

verus! {

/// Yards per inch: the system's fixed ratio `0.0277`. This rounded value
/// is the defined behavior of the library and is deliberately not the
/// exact `1 / 36`.
pub const INCH_YARD_RATIO_NUM: i128 = 277;

/// Denominator of the `0.0277` yards-per-inch ratio.
pub const INCH_YARD_RATIO_DEN: i128 = 10_000;

/// Inches that one minute of angle subtends per 100 yards: `1.047`.
pub const INCH_MOA_YARD_PERCENTAGE_NUM: i128 = 1_047;

/// Denominator of the `1.047` inches-per-MOA-per-100-yards factor.
pub const INCH_MOA_YARD_PERCENTAGE_DEN: i128 = 1_000;

/// Bound on a measurement handed to [`LinearDistance::moa`]: the scaled
/// numerator and denominator stay within an `i128`.
pub const MOA_LIMIT: i128 = 10_000_000_000_000_000_000_000_000_000;

/// Bound on a measurement handed to the conversions between the units.
pub const CONV_LIMIT: i128 = 1_000_000_000_000_000_000_000_000_000_000;

/// Bound on the offset and the distance handed to
/// [`moa_adjustments_to_zero`]: the division's cross products stay
/// within an `i128`, and the resulting amount within [`ROUND_LIMIT`].
pub const ADJUST_LIMIT: i128 = 1_000_000_000_000_000;

/// A measurement of linear distance in some unit.
pub trait LinearDistance: Sized {
    /// The exact scalar measured, in this type's own unit.
    spec fn value(&self) -> Rat;

    /// Numerator of the fixed factor from one unit of this distance to
    /// the inches of one MOA at that distance.
    spec fn moa_factor_num() -> int;

    /// Denominator of that same fixed factor.
    spec fn moa_factor_den() -> int;

    /// The linear size, in inches, that one minute of angle subtends at
    /// the distance `self` stands for. MOA subtension grows linearly
    /// with range, so this is the measurement scaled by a fixed ratio.
    fn moa(&self) -> (r: Inch)
        requires
            self.value().bounded(MOA_LIMIT as int),
        ensures
            r.units.wf(),
            r.units.num == self.value().num * Self::moa_factor_num(),
            r.units.den == self.value().den * Self::moa_factor_den(),
    ;

    /// A value-copy of the measurement, in the same unit.
    fn distance(&self) -> (r: Self)
        ensures
            r.value() == self.value(),
    ;
}

/// A distance in yards.
#[derive(Clone, Copy, Debug)]
pub struct Yard {
    pub units: Rat,
}

impl Yard {
    /// Wraps the scalar verbatim; no validation, negative distances
    /// denote direction.
    pub fn new(distance: Rat) -> (r: Self)
        ensures
            r.units == distance,
    {
        Yard { units: distance }
    }

    /// Converts an inch measurement to yards by the fixed `0.0277`
    /// yards-per-inch ratio.
    pub fn from(value: Inch) -> (r: Yard)
        requires
            value.units.bounded(CONV_LIMIT as int),
        ensures
            r.units.wf(),
            r.units.num == value.units.num * INCH_YARD_RATIO_NUM,
            r.units.den == value.units.den * INCH_YARD_RATIO_DEN,
    {
        Yard {
            units: Rat {
                num: value.units.num * INCH_YARD_RATIO_NUM,
                den: value.units.den * INCH_YARD_RATIO_DEN,
            },
        }
    }
}

impl LinearDistance for Yard {
    open spec fn value(&self) -> Rat {
        self.units
    }

    open spec fn moa_factor_num() -> int {
        INCH_MOA_YARD_PERCENTAGE_NUM as int
    }

    open spec fn moa_factor_den() -> int {
        INCH_MOA_YARD_PERCENTAGE_DEN * 100
    }

    fn distance(&self) -> (r: Self) {
        Yard { units: self.units }
    }

    fn moa(&self) -> (r: Inch) {
        Inch {
            units: Rat {
                num: self.units.num * INCH_MOA_YARD_PERCENTAGE_NUM,
                den: self.units.den * (INCH_MOA_YARD_PERCENTAGE_DEN * 100),
            },
        }
    }
}

/// A distance in inches.
#[derive(Clone, Copy, Debug)]
pub struct Inch {
    pub units: Rat,
}

impl Inch {
    /// Wraps the scalar verbatim; no validation, negative offsets denote
    /// direction.
    pub fn new(distance: Rat) -> (r: Self)
        ensures
            r.units == distance,
    {
        Inch { units: distance }
    }

    /// Converts a yard measurement to inches: divides by the fixed
    /// `0.0277` yards-per-inch ratio.
    pub fn from(value: Yard) -> (r: Inch)
        requires
            value.units.bounded(CONV_LIMIT as int),
        ensures
            r.units.wf(),
            r.units.num == value.units.num * INCH_YARD_RATIO_DEN,
            r.units.den == value.units.den * INCH_YARD_RATIO_NUM,
    {
        Inch {
            units: Rat {
                num: value.units.num * INCH_YARD_RATIO_DEN,
                den: value.units.den * INCH_YARD_RATIO_NUM,
            },
        }
    }
}

impl LinearDistance for Inch {
    open spec fn value(&self) -> Rat {
        self.units
    }

    open spec fn moa_factor_num() -> int {
        INCH_YARD_RATIO_NUM * INCH_MOA_YARD_PERCENTAGE_NUM
    }

    open spec fn moa_factor_den() -> int {
        INCH_YARD_RATIO_DEN * (INCH_MOA_YARD_PERCENTAGE_DEN * 100)
    }

    fn distance(&self) -> (r: Self) {
        Inch { units: self.units }
    }

    fn moa(&self) -> (r: Inch) {
        Inch {
            units: Rat {
                num: self.units.num * (INCH_YARD_RATIO_NUM * INCH_MOA_YARD_PERCENTAGE_NUM),
                den: self.units.den * (INCH_YARD_RATIO_DEN * (INCH_MOA_YARD_PERCENTAGE_DEN * 100)),
            },
        }
    }
}

/// The raw, undiscretized number of minutes of angle needed to zero the
/// sight.
#[derive(Clone, Copy, Debug)]
pub struct MOAAdjustment {
    pub amount: Rat,
}

impl MOAAdjustment {
    /// Discretizes the raw amount to the nearest adjustment the hardware
    /// can realize, a multiple of half an MOA; an exact tie goes to the
    /// click nearer zero.
    pub fn good_enough(&self) -> (r: Rat)
        requires
            self.amount.bounded(ROUND_LIMIT as int),
        ensures
            r.wf(),
            r.den == 2,
            rounds_to_half(self.amount.num as int, self.amount.den as int, r.num as int),
    {
        round_to_half(&self.amount)
    }
}

/// The raw MOA adjustment that moves the point of impact by
/// `inch_offset` at `distance`: the offset divided by the size of one
/// minute of angle at that distance. A distance of zero has no MOA size
/// to divide by; it is rejected rather than letting the division blow
/// up.
pub fn moa_adjustments_to_zero(inch_offset: &Inch, distance: &Yard) -> (r: Result<
    MOAAdjustment,
    UnitError,
>)
    requires
        inch_offset.units.bounded(ADJUST_LIMIT as int),
        distance.units.bounded(ADJUST_LIMIT as int),
    ensures
        r is Err <==> distance.units.num == 0,
        r matches Err(e) ==> e == UnitError::InvalidDistance,
        r matches Ok(a) ==> a.amount.bounded(ROUND_LIMIT as int),
        distance.units.num > 0 ==> (r matches Ok(a) && a.amount.num == inch_offset.units.num
            * distance.units.den * (INCH_MOA_YARD_PERCENTAGE_DEN * 100) && a.amount.den
            == inch_offset.units.den * distance.units.num * INCH_MOA_YARD_PERCENTAGE_NUM),
        distance.units.num < 0 ==> (r matches Ok(a) && a.amount.num == -(inch_offset.units.num
            * distance.units.den * (INCH_MOA_YARD_PERCENTAGE_DEN * 100)) && a.amount.den
            == inch_offset.units.den * (-distance.units.num) * INCH_MOA_YARD_PERCENTAGE_NUM),
{
    let m: Inch = distance.moa();
    if m.units.num == 0 {
        return Err(UnitError::InvalidDistance);
    }
    proof {
        lemma_mul_magnitude(
            inch_offset.units.num as int,
            m.units.den as int,
            ADJUST_LIMIT as int,
            ADJUST_LIMIT * (INCH_MOA_YARD_PERCENTAGE_DEN * 100),
        );
        lemma_mul_magnitude(
            inch_offset.units.den as int,
            m.units.num as int,
            ADJUST_LIMIT as int,
            ADJUST_LIMIT * INCH_MOA_YARD_PERCENTAGE_NUM,
        );
    }
    let n: i128 = inch_offset.units.num * m.units.den;
    let dd: i128 = inch_offset.units.den * m.units.num;
    proof {
        assert(n == inch_offset.units.num * distance.units.den * (INCH_MOA_YARD_PERCENTAGE_DEN
            * 100)) by (nonlinear_arith)
            requires
                n == inch_offset.units.num * m.units.den,
                m.units.den == distance.units.den * (INCH_MOA_YARD_PERCENTAGE_DEN * 100),
        ;
        assert(dd == inch_offset.units.den * distance.units.num
            * INCH_MOA_YARD_PERCENTAGE_NUM) by (nonlinear_arith)
            requires
                dd == inch_offset.units.den * m.units.num,
                m.units.num == distance.units.num * INCH_MOA_YARD_PERCENTAGE_NUM,
        ;
        assert((dd > 0 <==> m.units.num > 0) && (dd < 0 <==> m.units.num < 0)) by (
        nonlinear_arith)
            requires
                dd == inch_offset.units.den * m.units.num,
                inch_offset.units.den >= 1,
        ;
        assert(-dd == inch_offset.units.den * (-distance.units.num)
            * INCH_MOA_YARD_PERCENTAGE_NUM) by (nonlinear_arith)
            requires
                dd == inch_offset.units.den * distance.units.num * INCH_MOA_YARD_PERCENTAGE_NUM,
        ;
    }
    if dd > 0 {
        Ok(MOAAdjustment { amount: Rat { num: n, den: dd } })
    } else {
        Ok(MOAAdjustment { amount: Rat { num: -n, den: -dd } })
    }
}

/// Converting a yard measurement to inches and then back to yards yields
/// exactly the original value: both conversions use the one fixed
/// `0.0277` ratio, and the scalars are exact rationals, so the round
/// trip loses nothing — well within the small tolerance allowed of it.
pub proof fn lemma_yard_inch_round_trip(y: Rat, i: Rat, y2: Rat)
    requires
        y.wf(),
        i.num == y.num * INCH_YARD_RATIO_DEN,
        i.den == y.den * INCH_YARD_RATIO_NUM,
        y2.num == i.num * INCH_YARD_RATIO_NUM,
        y2.den == i.den * INCH_YARD_RATIO_DEN,
    ensures
        y2.eqv(y),
{
    assert(y2.num * y.den == y.num * y2.den) by (nonlinear_arith)
        requires
            i.num == y.num * INCH_YARD_RATIO_DEN,
            i.den == y.den * INCH_YARD_RATIO_NUM,
            y2.num == i.num * INCH_YARD_RATIO_NUM,
            y2.den == i.den * INCH_YARD_RATIO_DEN,
    ;
}

} // verus!

