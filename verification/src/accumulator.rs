//! Fixed-point arithmetic of the reward accumulator.
//!
//! The accumulator counts the reward that one staked unit has earned since
//! the ledger was created, scaled by [`PRECISION`]. A position's share is the
//! product of its stake and the accumulator, divided by the scale and rounded
//! down; what it has been credited with already is its reward debt.

use vstd::prelude::*;
use crate::error::ErrorCode;

verus! {

/// Scale of the accumulator and of every reward debt: ten to the twelfth.
pub const PRECISION: u128 = 1_000_000_000_000;

/// The reward that `staked` units have earned under accumulator `acc`,
/// rounded down to whole tokens.
pub open spec fn accrued(staked: u64, acc: u128) -> int {
    (staked as int * acc as int) / (PRECISION as int)
}

/// What [`reward_debt`] returns.
pub open spec fn reward_debt_spec(staked: u64, acc: u128) -> Result<u128, ErrorCode> {
    if staked as int * acc as int > u128::MAX as int {
        Err(ErrorCode::ArithmeticOverflow)
    } else {
        Ok(accrued(staked, acc) as u128)
    }
}

/// What [`pending`] returns.
pub open spec fn pending_spec(staked: u64, acc: u128, debt: u128) -> Result<u64, ErrorCode> {
    if staked as int * acc as int > u128::MAX as int {
        Err(ErrorCode::ArithmeticOverflow)
    } else if accrued(staked, acc) < debt as int {
        Err(ErrorCode::ArithmeticUnderflow)
    } else if accrued(staked, acc) - debt as int > u64::MAX as int {
        Err(ErrorCode::ArithmeticOverflow)
    } else {
        Ok((accrued(staked, acc) - debt as int) as u64)
    }
}

/// The debt of a position of `staked` units that is settled at accumulator
/// `acc`: its whole accrued reward. The product is formed in 128 bits and
/// reported as an overflow where it does not fit.
pub fn reward_debt(staked: u64, acc: u128) -> (out: Result<u128, ErrorCode>)
    ensures
        out == reward_debt_spec(staked, acc),
{
    match (staked as u128).checked_mul(acc) {
        Some(product) => Ok(product / PRECISION),
        None => Err(ErrorCode::ArithmeticOverflow),
    }
}

/// The reward that a position has earned and not yet been credited with:
/// its accrued reward less its debt.
///
/// A debt above the accrued reward means that the ledger is inconsistent and
/// is reported as an underflow; a difference beyond 64 bits is an overflow.
pub fn pending(staked: u64, acc: u128, debt: u128) -> (out: Result<u64, ErrorCode>)
    ensures
        out == pending_spec(staked, acc, debt),
{
    match reward_debt(staked, acc) {
        Err(e) => Err(e),
        Ok(earned) => {
            if earned < debt {
                Err(ErrorCode::ArithmeticUnderflow)
            } else {
                let open: u128 = earned - debt;
                if open > u64::MAX as u128 {
                    Err(ErrorCode::ArithmeticOverflow)
                } else {
                    Ok(open as u64)
                }
            }
        },
    }
}

/// By how much the accumulator grows when `share` is distributed over
/// `total_staked` units. With nothing staked the accumulator stays as it is:
/// the share is credited to no position.
pub open spec fn accumulator_delta(share: u64, total_staked: u64) -> int {
    if total_staked == 0 {
        0
    } else {
        share as int * PRECISION as int / total_staked as int
    }
}

/// The growth of the accumulator for a reward of `share` on `total_staked`
/// staked units.
pub fn share_delta(share: u64, total_staked: u64) -> (delta: u128)
    ensures
        delta as int == accumulator_delta(share, total_staked),
{
    if total_staked > 0 {
        (share as u128) * PRECISION / (total_staked as u128)
    } else {
        0
    }
}

/// The accrued reward never shrinks when the accumulator grows.
pub proof fn lemma_accrued_monotonic(staked: u64, acc0: u128, acc1: u128)
    requires
        acc0 <= acc1,
    ensures
        accrued(staked, acc0) <= accrued(staked, acc1),
{
    assert(staked as int * acc0 as int <= staked as int * acc1 as int) by (nonlinear_arith)
        requires
            0 <= staked as int,
            acc0 as int <= acc1 as int,
    ;
    vstd::arithmetic::div_mod::lemma_div_is_ordered(
        staked as int * acc0 as int,
        staked as int * acc1 as int,
        PRECISION as int,
    );
}

} // verus!
