//! Validation of burn requests.

use vstd::prelude::*;
use crate::amount::Amount;
use crate::constants::{MIN_BURN_AMOUNT, MINT_FEE_AMOUNT, OPERATION_COOLDOWN_NANOS};
use crate::errors::{BurnError, IcpiError, QueryError, ValidationError};
use crate::math::{burn_within_cap, max_burn, within_burn_cap};
use crate::principal::{anonymous_bytes, principal_text, Principal};
use crate::rate_limit::{check_rate_limit, RateLimiter};
use crate::strings::text;

verus! {

/// The rate-limit key of a caller's burns: `burn_` and the caller's text.
pub open spec fn burn_key(caller: Seq<u8>) -> Seq<char> {
    "burn_"@ + principal_text(caller)
}

/// Check a burn request at time `now`: the caller is not anonymous, the amount
/// reaches the minimum, and the caller's last burn lies at least a second back.
/// An accepted request is recorded as the caller's last burn.
pub fn validate_burn_request(caller: &Principal, amount: &Amount, limiter: &mut RateLimiter, now: u64) -> (r:
    Result<(), IcpiError>)
    requires
        old(limiter).wf(),
    ensures
        final(limiter).wf(),
        caller@ == anonymous_bytes() ==> {
            &&& r matches Err(IcpiError::Validation(ValidationError::InvalidPrincipal { principal }))
            &&& principal@ == principal_text(caller@)
        },
        caller@ != anonymous_bytes() && amount@ < MIN_BURN_AMOUNT ==> {
            &&& r matches Err(IcpiError::Burn(BurnError::AmountBelowMinimum { amount: given, minimum }))
            &&& given@ == amount@
            &&& minimum@ == MIN_BURN_AMOUNT
        },
        caller@ != anonymous_bytes() && amount@ >= MIN_BURN_AMOUNT && old(limiter).limited(
            burn_key(caller@),
            OPERATION_COOLDOWN_NANOS,
            now,
        ) ==> (r matches Err(IcpiError::Other(msg)) && msg@ == "Rate limit exceeded"@),
        caller@ != anonymous_bytes() && amount@ >= MIN_BURN_AMOUNT && !old(limiter).limited(
            burn_key(caller@),
            OPERATION_COOLDOWN_NANOS,
            now,
        ) ==> r is Ok && final(limiter).last_seen(burn_key(caller@)) == Some(now),
        r is Err ==> forall|k: Seq<char>| final(limiter).last_seen(k) == old(limiter).last_seen(k),
        forall|k: Seq<char>|
            k != burn_key(caller@) ==> final(limiter).last_seen(k) == old(limiter).last_seen(k),
{
    if caller.is_anonymous() {
        return Err(
            IcpiError::Validation(ValidationError::InvalidPrincipal { principal: caller.to_text() }),
        );
    }
    let minimum = Amount::from_u64(MIN_BURN_AMOUNT);
    if amount.lt(&minimum) {
        return Err(
            IcpiError::Burn(BurnError::AmountBelowMinimum { amount: amount.duplicate(), minimum }),
        );
    }
    let mut key = text("burn_");
    key.append(caller.to_text().as_str());
    check_rate_limit(limiter, key.as_str(), OPERATION_COOLDOWN_NANOS, now)
}

/// Check that a burn stays within 10% of the supply. A larger burn fails with
/// `AmountExceedsMaximum`, which names the largest burn allowed.
pub fn validate_burn_limit(amount: &Amount, supply: &Amount) -> (r: Result<(), IcpiError>)
    ensures
        within_burn_cap(amount@, supply@) ==> r is Ok,
        !within_burn_cap(amount@, supply@) ==> {
            &&& r matches Err(
                IcpiError::Burn(
                    BurnError::AmountExceedsMaximum { amount: given, maximum, percentage_limit },
                ),
            )
            &&& given@ == amount@
            &&& maximum@ == max_burn(supply@)
            &&& percentage_limit@ == "10%"@
        },
{
    if burn_within_cap(amount, supply) {
        return Ok(());
    }
    let ten = Amount::from_u64(10);
    let hundred = Amount::from_u64(100);
    let scaled = supply.times(&ten);
    match scaled.checked_div(&hundred) {
        Some(maximum) => Err(
            IcpiError::Burn(
                BurnError::AmountExceedsMaximum {
                    amount: amount.duplicate(),
                    maximum,
                    percentage_limit: text("10%"),
                },
            ),
        ),
        None => {
            proof {
                assert(false);
            }
            Ok(())
        },
    }
}

/// What the reply to the fee-allowance query comes to. An allowance below the
/// fee is refused; a query that failed is passed over, since collecting the fee
/// will give the definitive answer.
pub open spec fn fee_allowance_verdict(reply: Result<Amount, String>, r: Result<(), IcpiError>) -> bool {
    match reply {
        Ok(allowance) => if allowance@ < MINT_FEE_AMOUNT {
            &&& r matches Err(
                IcpiError::Burn(BurnError::InsufficientFeeAllowance { required, approved }),
            )
            &&& required@ == MINT_FEE_AMOUNT
            &&& approved@ == allowance@
        } else {
            r is Ok
        },
        Err(_) => r is Ok,
    }
}

/// Check the caller's allowance for the fee.
pub fn check_fee_allowance(reply: Result<Amount, String>) -> (r: Result<(), IcpiError>)
    ensures
        fee_allowance_verdict(reply, r),
{
    match reply {
        Ok(allowance) => {
            let required = Amount::from_u64(MINT_FEE_AMOUNT);
            if allowance.lt(&required) {
                Err(
                    IcpiError::Burn(
                        BurnError::InsufficientFeeAllowance { required, approved: allowance },
                    ),
                )
            } else {
                Ok(())
            }
        },
        Err(_) => Ok(()),
    }
}

/// What the supply read before a burn of `amount` comes to: the supply itself,
/// `CanisterUnreachable` where it could not be read, `NoSupply` where it is
/// zero, `AmountExceedsMaximum` where the burn is over the cap.
pub open spec fn burn_supply_verdict(reply: Result<Amount, String>, amount: nat, r: Result<Amount, IcpiError>) -> bool {
    match reply {
        Err(why) => {
            &&& r matches Err(IcpiError::Query(QueryError::CanisterUnreachable { canister, reason }))
            &&& canister@ == "ICPI ledger"@
            &&& reason@ == why@
        },
        Ok(supply) => if supply@ == 0 {
            r matches Err(IcpiError::Burn(BurnError::NoSupply))
        } else if !within_burn_cap(amount, supply@) {
            &&& r matches Err(
                IcpiError::Burn(BurnError::AmountExceedsMaximum { amount: given, maximum, .. }),
            )
            &&& given@ == amount
            &&& maximum@ == max_burn(supply@)
        } else {
            r matches Ok(s) && s@ == supply@
        },
    }
}

/// Check the supply read before a burn of `amount`.
pub fn check_burn_supply(reply: Result<Amount, String>, amount: &Amount) -> (r: Result<Amount, IcpiError>)
    ensures
        burn_supply_verdict(reply, amount@, r),
{
    match reply {
        Err(why) => Err(
            IcpiError::Query(
                QueryError::CanisterUnreachable { canister: text("ICPI ledger"), reason: why },
            ),
        ),
        Ok(supply) => {
            if supply.is_zero() {
                return Err(IcpiError::Burn(BurnError::NoSupply));
            }
            match validate_burn_limit(amount, &supply) {
                Ok(()) => Ok(supply),
                Err(e) => Err(e),
            }
        },
    }
}

/// What the caller's index-token balance comes to for a burn of `amount`.
pub open spec fn burn_balance_verdict(reply: Result<Amount, String>, amount: nat, r: Result<(), IcpiError>) -> bool {
    match reply {
        Err(why) => {
            &&& r matches Err(IcpiError::Query(QueryError::CanisterUnreachable { canister, reason }))
            &&& canister@ == "ICPI ledger"@
            &&& reason@ == why@
        },
        Ok(balance) => if balance@ < amount {
            &&& r matches Err(IcpiError::Burn(BurnError::InsufficientBalance { required, available }))
            &&& required@ == amount
            &&& available@ == balance@
        } else {
            r is Ok
        },
    }
}

/// Check that the caller holds the index tokens to burn.
pub fn check_burn_balance(reply: Result<Amount, String>, amount: &Amount) -> (r: Result<(), IcpiError>)
    ensures
        burn_balance_verdict(reply, amount@, r),
{
    match reply {
        Err(why) => Err(
            IcpiError::Query(
                QueryError::CanisterUnreachable { canister: text("ICPI ledger"), reason: why },
            ),
        ),
        Ok(balance) => {
            if balance.lt(amount) {
                Err(
                    IcpiError::Burn(
                        BurnError::InsufficientBalance {
                            required: amount.duplicate(),
                            available: balance,
                        },
                    ),
                )
            } else {
                Ok(())
            }
        },
    }
}

} // verus!
