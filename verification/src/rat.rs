//! Exact rational scalars.
//!
//! A measurement is a ratio of two machine integers. Keeping the
//! numerator and denominator separate lets every conversion factor of the
//! library be applied exactly, so contracts can pin results down to the
//! mathematical value rather than to a float approximation.

use vstd::prelude::*;

use crate::error::UnitError;

verus! {

/// Bound on the numerator and denominator accepted by [`Rat::equivalent`]:
/// the cross products of two such scalars fit in an `i128`.
pub const EQUIV_LIMIT: i128 = 1_000_000_000_000_000_000;

/// An exact rational scalar `num / den`.
///
/// A well-formed value keeps its denominator positive; the sign of the
/// scalar is the sign of the numerator.
#[derive(Clone, Copy, Debug)]
pub struct Rat {
    pub num: i128,
    pub den: i128,
}

impl Rat {
    /// A value denotes a number only when its denominator is positive.
    pub open spec fn wf(self) -> bool {
        self.den > 0
    }

    /// Both values denote the same number: `num / den == other.num / other.den`,
    /// stated by cross multiplication.
    pub open spec fn eqv(self, other: Rat) -> bool {
        self.num * other.den == other.num * self.den
    }

    /// The numerator's magnitude and the denominator stay within `b`.
    pub open spec fn bounded(self, b: int) -> bool {
        &&& -b <= self.num <= b
        &&& 0 < self.den <= b
    }

    /// Builds the scalar `num / den`, moving any sign of the denominator
    /// to the numerator. A denominator of zero denotes no number and is
    /// rejected.
    pub fn new(num: i128, den: i128) -> (r: Result<Rat, UnitError>)
        requires
            num > i128::MIN,
            den > i128::MIN,
        ensures
            r is Err <==> den == 0,
            r matches Err(e) ==> e == UnitError::InvalidMeasurement,
            den > 0 ==> (r matches Ok(v) && v.num == num && v.den == den),
            den < 0 ==> (r matches Ok(v) && v.num == -num && v.den == -den),
            r matches Ok(v) ==> v.wf(),
    {
        if den == 0 {
            Err(UnitError::InvalidMeasurement)
        } else if den < 0 {
            Ok(Rat { num: -num, den: -den })
        } else {
            Ok(Rat { num, den })
        }
    }

    /// The whole number `n`.
    pub fn from_int(n: i128) -> (r: Rat)
        ensures
            r.num == n,
            r.den == 1,
            r.wf(),
    {
        Rat { num: n, den: 1 }
    }

    /// Decides whether two scalars denote the same number.
    pub fn equivalent(&self, other: &Rat) -> (r: bool)
        requires
            self.bounded(EQUIV_LIMIT as int),
            other.bounded(EQUIV_LIMIT as int),
        ensures
            r == self.eqv(*other),
    {
        proof {
            lemma_mul_magnitude(self.num as int, other.den as int, EQUIV_LIMIT as int, EQUIV_LIMIT as int);
            lemma_mul_magnitude(other.num as int, self.den as int, EQUIV_LIMIT as int, EQUIV_LIMIT as int);
        }
        self.num * other.den == other.num * self.den
    }
}

/// The product of factors bounded by `ma` and `mb` is bounded by `ma * mb`.
pub proof fn lemma_mul_magnitude(a: int, b: int, ma: int, mb: int) by (nonlinear_arith)
    requires
        0 <= ma,
        0 <= mb,
        -ma <= a <= ma,
        -mb <= b <= mb,
    ensures
        -(ma * mb) <= a * b <= ma * mb,
{
}

} // verus!
