//! Slippage protection: the least that a swap may deliver, and the check of
//! what it did deliver. Slippage is measured in basis points.

use vstd::prelude::*;
use crate::amount::Amount;
use crate::errors::{IcpiError, TradingError};
use crate::strings::text;

verus! {

/// The least amount acceptable for an expected amount, at a given tolerance.
pub open spec fn min_receive(expected: nat, max_slippage_bps: nat) -> nat {
    if max_slippage_bps >= 10_000 {
        0
    } else {
        (expected * (10_000 - max_slippage_bps) as nat) / 10_000
    }
}

/// The least amount to accept where `expected_amount` is expected and up to
/// `max_slippage_bps` may be lost, rounded down.
pub fn calculate_min_receive(expected_amount: &Amount, max_slippage_bps: u32) -> (r: Amount)
    ensures
        r@ == min_receive(expected_amount@, max_slippage_bps as nat),
{
    if max_slippage_bps >= 10_000 {
        return Amount::zero();
    }
    let keep = Amount::from_u64((10_000 - max_slippage_bps) as u64);
    let scale = Amount::from_u64(10_000);
    match expected_amount.times(&keep).checked_div(&scale) {
        Some(min) => min,
        None => {
            proof {
                assert(false);
            }
            Amount::zero()
        },
    }
}

/// The slippage of a swap that delivered `actual` where `expected` was
/// expected, in basis points, rounded down: what is missing, as a share of
/// what was expected. Receiving more than expected is no slippage.
pub open spec fn slippage_bps(expected: nat, actual: nat) -> nat {
    if expected == 0 || actual >= expected {
        0
    } else {
        (((expected - actual) * 10_000) / expected as int) as nat
    }
}

/// The swap lost more than the tolerance allows.
pub open spec fn slippage_exceeded(expected: nat, actual: nat, max_slippage_bps: nat) -> bool {
    actual < expected && (expected - actual) * 10_000 > max_slippage_bps * expected
}

/// Check what a swap delivered against what was expected of it.
///
/// An expected amount of zero is invalid. Receiving at least the expected
/// amount is always accepted. A shortfall is accepted up to the tolerance, and
/// fails with `SlippageExceeded` beyond it.
pub fn validate_swap_result(expected: &Amount, actual: &Amount, max_slippage_bps: u32) -> (r: Result<
    (),
    IcpiError,
>)
    ensures
        expected@ == 0 ==> r matches Err(IcpiError::Trading(TradingError::InvalidSwapAmount { .. })),
        expected@ != 0 && !slippage_exceeded(expected@, actual@, max_slippage_bps as nat) ==> r is Ok,
        expected@ != 0 && slippage_exceeded(expected@, actual@, max_slippage_bps as nat) ==> {
            &&& r matches Err(
                IcpiError::Trading(
                    TradingError::SlippageExceeded {
                        expected: e,
                        actual: a,
                        max_allowed_bps,
                        actual_slippage_bps,
                    },
                ),
            )
            &&& e@ == expected@
            &&& a@ == actual@
            &&& max_allowed_bps == max_slippage_bps
            &&& actual_slippage_bps == slippage_bps(expected@, actual@)
        },
{
    if expected.is_zero() {
        return Err(
            IcpiError::Trading(
                TradingError::InvalidSwapAmount { reason: text("Expected amount cannot be zero") },
            ),
        );
    }
    let shortfall = match expected.checked_minus(actual) {
        Some(s) => s,
        None => {
            // more was received than expected
            return Ok(());
        },
    };
    let scale = Amount::from_u64(10_000);
    let tolerance = Amount::from_u64(max_slippage_bps as u64);
    let lost = shortfall.times(&scale);
    let allowed = tolerance.times(expected);
    if !allowed.lt(&lost) {
        return Ok(());
    }
    let actual_slippage_bps: u64 = match lost.checked_div(expected) {
        Some(bps) => {
            proof {
                lemma_slippage_bounded(expected@, actual@);
            }
            match bps.to_u64() {
                Some(v) => v,
                None => {
                    proof {
                        assert(false);
                    }
                    0
                },
            }
        },
        None => {
            proof {
                assert(false);
            }
            0
        },
    };
    Err(
        IcpiError::Trading(
            TradingError::SlippageExceeded {
                expected: expected.duplicate(),
                actual: actual.duplicate(),
                max_allowed_bps: max_slippage_bps as u64,
                actual_slippage_bps,
            },
        ),
    )
}

/// Slippage never exceeds the whole of what was expected.
pub proof fn lemma_slippage_bounded(expected: nat, actual: nat)
    ensures
        slippage_bps(expected, actual) <= 10_000,
{
    if expected != 0 && actual < expected {
        let lost = ((expected - actual) * 10_000) as int;
        let all = (expected * 10_000) as int;
        assert(lost <= all) by (nonlinear_arith)
            requires
                lost == (expected - actual) * 10_000,
                all == expected * 10_000,
                actual < expected,
        ;
        vstd::arithmetic::div_mod::lemma_div_is_ordered(lost, all, expected as int);
        vstd::arithmetic::div_mod::lemma_div_multiples_vanish(10_000, expected as int);
        vstd::arithmetic::mul::lemma_mul_is_commutative(expected as int, 10_000);
    }
}

} // verus!
