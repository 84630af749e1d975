//! Fee and commission calculator.
//!
//! Every fee in the system is a basis-point share of a total: the platform
//! fee, the bonus-pool fee, the creator's commission, and the cancellation
//! fee are all `floor(total * bps / 10000)`, each computed from the same
//! original total, never from a running remainder.  Keeping the deductions
//! parallel makes the split independent of the order the fees are taken in.

use vstd::prelude::*;

use crate::constants::BPS_DENOMINATOR;
use vstd::arithmetic::div_mod::{
    lemma_div_is_ordered, lemma_div_multiples_vanish, lemma_div_pos_is_pos,
};
use vstd::arithmetic::mul::lemma_mul_inequality;

verus! {

/// The basis-point share of `total`: `floor(total * bps / 10000)`.
pub open spec fn spec_fee(total: int, bps: int) -> int {
    total * bps / (BPS_DENOMINATOR as int)
}

/// A fee never exceeds the total it is taken from, and is never negative,
/// as long as the rate does not exceed the whole (10000 bps).
pub proof fn lemma_fee_within_total(total: int, bps: int)
    requires
        0 <= total,
        0 <= bps <= BPS_DENOMINATOR,
    ensures
        0 <= spec_fee(total, bps) <= total,
{
    let d = BPS_DENOMINATOR as int;
    lemma_mul_inequality(bps, d, total);
    assert(bps * total == total * bps) by (nonlinear_arith);
    assert(d * total == total * d) by (nonlinear_arith);
    lemma_div_is_ordered(total * bps, total * d, d);
    lemma_div_multiples_vanish(total, d);
    assert(total * d == d * total) by (nonlinear_arith);
    assert(total * bps >= 0) by (nonlinear_arith)
        requires
            0 <= total,
            0 <= bps,
    ;
    lemma_div_pos_is_pos(total * bps, d);
}

/// The fee is monotonic non-decreasing in the total and in the rate:
/// charging a rate no smaller on a total no smaller never yields less.
pub proof fn lemma_fee_monotonic(total1: int, bps1: int, total2: int, bps2: int)
    requires
        0 <= total1 <= total2,
        0 <= bps1 <= bps2 <= BPS_DENOMINATOR,
    ensures
        spec_fee(total1, bps1) <= spec_fee(total2, bps2),
{
    let d = BPS_DENOMINATOR as int;
    lemma_mul_inequality(total1, total2, bps1);
    lemma_mul_inequality(bps1, bps2, total2);
    assert(bps1 * total2 == total2 * bps1) by (nonlinear_arith);
    assert(bps2 * total2 == total2 * bps2) by (nonlinear_arith);
    lemma_div_is_ordered(total1 * bps1, total2 * bps2, d);
}

/// Computes `floor(total * bps / 10000)` exactly, for any rate up to the
/// whole.  Widening to 128 bits keeps the product exact, so no overflow
/// check is needed; the quotient fits back into 64 bits because it never
/// exceeds `total`.
pub fn fee_amount(total: u64, bps: u16) -> (r: u64)
    requires
        bps <= BPS_DENOMINATOR,
    ensures
        r == spec_fee(total as int, bps as int),
        r <= total,
{
    proof {
        lemma_fee_within_total(total as int, bps as int);
    }
    let wide: u128 = (total as u128) * (bps as u128) / (BPS_DENOMINATOR as u128);
    wide as u64
}

} // verus!
