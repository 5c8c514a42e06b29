//! The half-MOA rounding policy.
//!
//! Adjustment knobs click in increments of half a minute of angle, so a
//! raw adjustment is discretized to the nearest multiple of `0.5`. When
//! the raw amount lies exactly midway between two clicks, the click
//! nearer zero wins. The policy is kept in its own module, behind one
//! predicate and one function, so the tie-break can be revisited without
//! touching any conversion logic.

use vstd::arithmetic::div_mod::{lemma_fundamental_div_mod, lemma_mod_bound};
use vstd::math::abs;
use vstd::prelude::*;

use crate::rat::Rat;

verus! {

/// Bound on the numerator magnitude and denominator of an amount handed
/// to [`round_to_half`]: the intermediate terms of the rounding stay
/// within the machine integers.
pub const ROUND_LIMIT: i128 = 10_000_000_000_000_000_000_000_000_000_000_000_000;

/// `k / 2` is the multiple of one half nearest to `p / q` (with `q > 0`),
/// ties going to the multiple nearer zero:
/// - `|p/q - k/2| <= 1/4`, cleared of denominators, and
/// - on an exact tie, `|k/2| <= |p/q|`, likewise cleared.
pub open spec fn rounds_to_half(p: int, q: int, k: int) -> bool {
    &&& abs(4 * p - 2 * k * q) <= q
    &&& abs(4 * p - 2 * k * q) == q ==> abs(k) * q <= abs(2 * p)
}

/// Rounds `amount` to the nearest multiple of one half, ties toward zero.
/// The result is returned over the fixed denominator `2`.
pub fn round_to_half(amount: &Rat) -> (r: Rat)
    requires
        amount.bounded(ROUND_LIMIT as int),
    ensures
        r.wf(),
        r.den == 2,
        rounds_to_half(amount.num as int, amount.den as int, r.num as int),
{
    let neg: bool = amount.num < 0;
    let pa: u128 = if neg {
        (-amount.num) as u128
    } else {
        amount.num as u128
    };
    let qa: u128 = amount.den as u128;
    let total: u128 = 4 * pa + qa - 1;
    let d: u128 = total / (2 * qa);
    proof {
        lemma_nearest_nonneg(pa as int, qa as int, d as int);
    }
    let k: i128 = if neg {
        proof {
            lemma_nearest_negated(amount.num as int, qa as int, d as int);
        }
        -(d as i128)
    } else {
        d as i128
    };
    Rat { num: k, den: 2 }
}

/// For a nonnegative numerator, the quotient `(4p + q - 1) / (2q)` is the
/// nearest-half numerator, with ties going down (toward zero).
proof fn lemma_nearest_nonneg(pa: int, qa: int, d: int)
    requires
        0 <= pa,
        0 < qa,
        d == (4 * pa + qa - 1) / (2 * qa),
    ensures
        rounds_to_half(pa, qa, d),
        0 <= d,
        2 * d <= 4 * pa + qa,
{
    let total = 4 * pa + qa - 1;
    let div = 2 * qa;
    lemma_fundamental_div_mod(total, div);
    lemma_mod_bound(total, div);
    let rem = total % div;
    let prod = d * qa;
    assert(total == 2 * prod + rem) by (nonlinear_arith)
        requires
            total == div * d + rem,
            div == 2 * qa,
            prod == d * qa,
    ;
    // total >= 0 and div > 0, so the quotient is nonnegative.
    assert(0 <= d) by (nonlinear_arith)
        requires
            total == div * d + rem,
            0 <= total,
            0 <= rem < div,
            0 < div,
    ;
    // 0 <= rem <= 2q - 1 places 4p - 2dq == rem - q + 1 in [1 - q, q].
    assert(4 * pa - 2 * prod == rem - qa + 1);
    assert(2 * d * qa == 2 * prod) by (nonlinear_arith)
        requires
            prod == d * qa,
    ;
    assert(abs(4 * pa - 2 * d * qa) <= qa);
    // On a tie, 2 * prod == 4p - q, so prod < 2p and the lower candidate
    // d is indeed the one nearer zero.
    if abs(4 * pa - 2 * d * qa) == qa {
        assert(2 * prod == 4 * pa - qa);
        assert(abs(d) * qa <= abs(2 * pa)) by (nonlinear_arith)
            requires
                prod == d * qa,
                2 * prod == 4 * pa - qa,
                0 < qa,
                0 <= d,
        ;
    }
    assert(2 * d <= 2 * prod) by (nonlinear_arith)
        requires
            prod == d * qa,
            0 <= d,
            1 <= qa,
    ;
}

/// Rounding commutes with negation of the amount, because the tie-break
/// is symmetric about zero.
proof fn lemma_nearest_negated(p: int, qa: int, d: int)
    requires
        p < 0,
        0 < qa,
        rounds_to_half(-p, qa, d),
    ensures
        rounds_to_half(p, qa, -d),
{
    assert(4 * p - 2 * (-d) * qa == -(4 * (-p) - 2 * d * qa)) by (nonlinear_arith);
    assert(abs(-d) * qa == abs(d) * qa) by (nonlinear_arith);
}

/// The rounding policy is a function of the amount alone: any two
/// numerators that both satisfy [`rounds_to_half`] for the same amount
/// are equal. Hence discretizing the same adjustment twice yields the
/// same result.
pub proof fn lemma_round_to_half_unique(p: int, q: int, k1: int, k2: int)
    requires
        0 < q,
        rounds_to_half(p, q, k1),
        rounds_to_half(p, q, k2),
    ensures
        k1 == k2,
{
    let a1 = 4 * p - 2 * k1 * q;
    let a2 = 4 * p - 2 * k2 * q;
    assert(a2 - a1 == 2 * q * (k1 - k2)) by (nonlinear_arith)
        requires
            a1 == 4 * p - 2 * k1 * q,
            a2 == 4 * p - 2 * k2 * q,
    ;
    // Both residues lie in [-q, q], so the candidates differ by at most one.
    assert(-1 <= k1 - k2 <= 1) by (nonlinear_arith)
        requires
            a2 - a1 == 2 * q * (k1 - k2),
            abs(a1) <= q,
            abs(a2) <= q,
            0 < q,
    ;
    if k1 != k2 {
        // Adjacent candidates force both residues to the rim: a tie, with
        // the larger-magnitude candidate also claiming to be nearer zero.
        if k1 - k2 == 1 {
            assert(a2 - a1 == 2 * q);
            assert(a2 == q && a1 == -q);
            lemma_tie_picks_lower(p, q, k2);
        } else {
            assert(a1 - a2 == 2 * q) by (nonlinear_arith)
                requires
                    a2 - a1 == 2 * q * (k1 - k2),
                    k1 - k2 == -1,
            ;
            assert(a1 == q && a2 == -q);
            lemma_tie_picks_lower(p, q, k1);
        }
    }
}

/// At an exact tie, where `lo / 2` sits a quarter below `p / q` and
/// `(lo + 1) / 2` a quarter above, only the lower candidate can satisfy
/// the toward-zero tie-break; the upper one is strictly farther from
/// zero than the amount itself.
proof fn lemma_tie_picks_lower(p: int, q: int, lo: int)
    requires
        0 < q,
        4 * p - 2 * lo * q == q,
        abs(lo) * q <= abs(2 * p),
    ensures
        abs(lo + 1) * q > abs(2 * p),
{
    assert(4 * p == (2 * lo + 1) * q) by (nonlinear_arith)
        requires
            4 * p - 2 * lo * q == q,
    ;
    if lo >= 0 {
        // p > 0 here, so |2p| == 2p, half a step below (lo + 1) / 2.
        assert(abs(lo + 1) * q > abs(2 * p)) by (nonlinear_arith)
            requires
                4 * p == (2 * lo + 1) * q,
                0 < q,
                0 <= lo,
        ;
    } else {
        // lo <= -1 cannot carry the toward-zero tie-break at all: |2p|
        // equals |lo| q plus half a step, against the hypothesis.
        assert(abs(lo + 1) * q > abs(2 * p)) by (nonlinear_arith)
            requires
                4 * p == (2 * lo + 1) * q,
                0 < q,
                lo <= -1,
                abs(lo) * q <= abs(2 * p),
        ;
    }
}

} // verus!
