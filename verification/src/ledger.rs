//! What the system sends to the token ledgers and what comes back, as plain
//! values. Performing the calls is left to the caller of this library.

use vstd::prelude::*;
use crate::amount::Amount;
use crate::constants::APPROVAL_EXPIRY_NANOS;
use crate::errors::{BurnError, IcpiError, MintError, TradingError};
use crate::principal::Principal;
use crate::strings::text;

verus! {

/// Outcome of a ledger's `icrc1_transfer`.
#[derive(Debug)]
pub enum TransferOutcome {
    /// Done, at the given block.
    Transferred { block: Amount },
    /// The ledger refused.
    Rejected { reason: String },
    /// The ledger could not be reached.
    CallFailed { reason: String },
}

/// Outcome of a ledger's `icrc2_transfer_from`.
#[derive(Debug)]
pub enum TransferFromOutcome {
    /// Done, at the given block.
    Transferred { block: Amount },
    /// The owner has approved less than the amount.
    InsufficientAllowance { allowance: Amount },
    /// The ledger refused for another reason.
    Rejected { reason: String },
    /// The ledger could not be reached.
    CallFailed { reason: String },
}

/// Outcome of a ledger's `icrc2_approve`.
#[derive(Debug)]
pub enum ApproveOutcome {
    Approved { block: Amount },
    Rejected { reason: String },
    CallFailed { reason: String },
}

/// Request for an `icrc1_transfer` out of the system's own account.
#[derive(Debug)]
pub struct TransferArgs {
    pub to: Principal,
    pub amount: Amount,
    pub memo: String,
    pub created_at_time: u64,
}

/// Request for an `icrc2_transfer_from`.
#[derive(Debug)]
pub struct TransferFromArgs {
    pub from: Principal,
    pub to: Principal,
    pub amount: Amount,
    pub memo: String,
    pub created_at_time: u64,
}

/// Request for an `icrc2_approve`.
#[derive(Debug)]
pub struct ApproveArgs {
    pub spender: Principal,
    pub amount: Amount,
    pub expires_at: u64,
    pub memo: String,
    pub created_at_time: u64,
}

/// The transfer that issues `amount` index tokens to `recipient`. The system is
/// the index ledger's minting account, so a transfer out of it creates tokens.
pub fn mint_transfer_args(recipient: &Principal, amount: &Amount, now: u64) -> (r: TransferArgs)
    ensures
        r.to@ == recipient@,
        r.amount@ == amount@,
        r.memo@ == "ICPI minting"@,
        r.created_at_time == now,
{
    TransferArgs {
        to: recipient.duplicate(),
        amount: amount.duplicate(),
        memo: text("ICPI minting"),
        created_at_time: now,
    }
}

/// The transfer that moves `amount` index tokens from `owner` to the system.
/// The system is the index ledger's minting account, so this burns them.
pub fn burn_transfer_args(owner: &Principal, system: &Principal, amount: &Amount, now: u64) -> (r:
    TransferFromArgs)
    ensures
        r.from@ == owner@,
        r.to@ == system@,
        r.amount@ == amount@,
        r.memo@ == "ICPI burn"@,
        r.created_at_time == now,
{
    TransferFromArgs {
        from: owner.duplicate(),
        to: system.duplicate(),
        amount: amount.duplicate(),
        memo: text("ICPI burn"),
        created_at_time: now,
    }
}

/// The approval that lets `spender` take exactly `amount` within 15 minutes.
pub fn swap_approve_args(spender: &Principal, amount: &Amount, now: u64) -> (r: ApproveArgs)
    requires
        now <= u64::MAX - APPROVAL_EXPIRY_NANOS,
    ensures
        r.spender@ == spender@,
        r.amount@ == amount@,
        r.expires_at == now + APPROVAL_EXPIRY_NANOS,
        r.memo@ == "ICPI rebalancing"@,
        r.created_at_time == now,
{
    ApproveArgs {
        spender: spender.duplicate(),
        amount: amount.duplicate(),
        expires_at: now + APPROVAL_EXPIRY_NANOS,
        memo: text("ICPI rebalancing"),
        created_at_time: now,
    }
}

/// What an attempt to issue index tokens comes to: the block, or a
/// `LedgerInteractionFailed` that carries the ledger's reason.
pub open spec fn mint_verdict(outcome: TransferOutcome, r: Result<Amount, IcpiError>) -> bool {
    match outcome {
        TransferOutcome::Transferred { block } => r matches Ok(b) && b@ == block@,
        TransferOutcome::Rejected { reason } => {
            &&& r matches Err(
                IcpiError::Mint(MintError::LedgerInteractionFailed { operation, details }),
            )
            &&& operation@ == "mint"@
            &&& details@ == reason@
        },
        TransferOutcome::CallFailed { reason } => {
            &&& r matches Err(
                IcpiError::Mint(MintError::LedgerInteractionFailed { operation, details }),
            )
            &&& operation@ == "mint"@
            &&& details@ == reason@
        },
    }
}

/// The result of issuing index tokens on the ledger.
pub fn mint_icpi_on_ledger(outcome: TransferOutcome) -> (r: Result<Amount, IcpiError>)
    ensures
        mint_verdict(outcome, r),
{
    match outcome {
        TransferOutcome::Transferred { block } => Ok(block),
        TransferOutcome::Rejected { reason } => Err(
            IcpiError::Mint(
                MintError::LedgerInteractionFailed { operation: text("mint"), details: reason },
            ),
        ),
        TransferOutcome::CallFailed { reason } => Err(
            IcpiError::Mint(
                MintError::LedgerInteractionFailed { operation: text("mint"), details: reason },
            ),
        ),
    }
}

/// What pulling the fee or the deposit from a caller comes to: the block, or a
/// `LedgerInteractionFailed` under the given operation name.
pub open spec fn collection_verdict(
    outcome: TransferFromOutcome,
    name: Seq<char>,
    r: Result<Amount, IcpiError>,
) -> bool {
    match outcome {
        TransferFromOutcome::Transferred { block } => r matches Ok(b) && b@ == block@,
        TransferFromOutcome::InsufficientAllowance { allowance } => {
            &&& r matches Err(
                IcpiError::Mint(MintError::LedgerInteractionFailed { operation, details }),
            )
            &&& operation@ == name
            &&& details@ == "insufficient allowance"@
        },
        TransferFromOutcome::Rejected { reason } => {
            &&& r matches Err(
                IcpiError::Mint(MintError::LedgerInteractionFailed { operation, details }),
            )
            &&& operation@ == name
            &&& details@ == reason@
        },
        TransferFromOutcome::CallFailed { reason } => {
            &&& r matches Err(
                IcpiError::Mint(MintError::LedgerInteractionFailed { operation, details }),
            )
            &&& operation@ == name
            &&& details@ == reason@
        },
    }
}

/// The result of pulling stable tokens from a caller, `operation` naming what
/// was being collected.
pub fn collection_result(outcome: TransferFromOutcome, operation: &str) -> (r: Result<
    Amount,
    IcpiError,
>)
    ensures
        collection_verdict(outcome, operation@, r),
{
    match outcome {
        TransferFromOutcome::Transferred { block } => Ok(block),
        TransferFromOutcome::InsufficientAllowance { allowance } => Err(
            IcpiError::Mint(
                MintError::LedgerInteractionFailed {
                    operation: text(operation),
                    details: text("insufficient allowance"),
                },
            ),
        ),
        TransferFromOutcome::Rejected { reason } => Err(
            IcpiError::Mint(
                MintError::LedgerInteractionFailed { operation: text(operation), details: reason },
            ),
        ),
        TransferFromOutcome::CallFailed { reason } => Err(
            IcpiError::Mint(
                MintError::LedgerInteractionFailed { operation: text(operation), details: reason },
            ),
        ),
    }
}

/// What pulling `amount` index tokens from a burner comes to. Too small an
/// approval is told apart from every other failure.
pub open spec fn burn_pull_verdict(
    outcome: TransferFromOutcome,
    amount: nat,
    r: Result<Amount, IcpiError>,
) -> bool {
    match outcome {
        TransferFromOutcome::Transferred { block } => r matches Ok(b) && b@ == block@,
        TransferFromOutcome::InsufficientAllowance { allowance } => {
            &&& r matches Err(IcpiError::Burn(BurnError::InsufficientApproval { required, approved }))
            &&& required@ == amount
            &&& approved@ == allowance@
        },
        TransferFromOutcome::Rejected { reason } => {
            &&& r matches Err(
                IcpiError::Burn(BurnError::TokenTransferFailed { token, amount: failed, reason: why }),
            )
            &&& token@ == "ICPI"@
            &&& failed@ == amount
            &&& why@ == reason@
        },
        TransferFromOutcome::CallFailed { reason } => {
            &&& r matches Err(
                IcpiError::Burn(BurnError::TokenTransferFailed { token, amount: failed, reason: why }),
            )
            &&& token@ == "ICPI"@
            &&& failed@ == amount
            &&& why@ == reason@
        },
    }
}

/// The result of pulling `amount` index tokens from a burner.
pub fn burn_pull_result(outcome: TransferFromOutcome, amount: &Amount) -> (r: Result<Amount, IcpiError>)
    ensures
        burn_pull_verdict(outcome, amount@, r),
{
    match outcome {
        TransferFromOutcome::Transferred { block } => Ok(block),
        TransferFromOutcome::InsufficientAllowance { allowance } => Err(
            IcpiError::Burn(
                BurnError::InsufficientApproval { required: amount.duplicate(), approved: allowance },
            ),
        ),
        TransferFromOutcome::Rejected { reason } => Err(
            IcpiError::Burn(
                BurnError::TokenTransferFailed {
                    token: text("ICPI"),
                    amount: amount.duplicate(),
                    reason,
                },
            ),
        ),
        TransferFromOutcome::CallFailed { reason } => Err(
            IcpiError::Burn(
                BurnError::TokenTransferFailed {
                    token: text("ICPI"),
                    amount: amount.duplicate(),
                    reason,
                },
            ),
        ),
    }
}

/// What an approval of `amount` of the token `symbol` comes to.
pub open spec fn approval_verdict(
    outcome: ApproveOutcome,
    symbol: Seq<char>,
    amount: nat,
    r: Result<Amount, IcpiError>,
) -> bool {
    match outcome {
        ApproveOutcome::Approved { block } => r matches Ok(b) && b@ == block@,
        ApproveOutcome::Rejected { reason } => {
            &&& r matches Err(
                IcpiError::Trading(TradingError::ApprovalFailed { token, amount: failed, reason: why }),
            )
            &&& token@ == symbol
            &&& failed@ == amount
            &&& why@ == reason@
        },
        ApproveOutcome::CallFailed { reason } => {
            &&& r matches Err(
                IcpiError::Trading(TradingError::ApprovalFailed { token, amount: failed, reason: why }),
            )
            &&& token@ == symbol
            &&& failed@ == amount
            &&& why@ == reason@
        },
    }
}

/// The result of approving the exchange for `amount` of the token `symbol`.
pub fn approve_token_for_swap(outcome: ApproveOutcome, symbol: &str, amount: &Amount) -> (r: Result<
    Amount,
    IcpiError,
>)
    ensures
        approval_verdict(outcome, symbol@, amount@, r),
{
    match outcome {
        ApproveOutcome::Approved { block } => Ok(block),
        ApproveOutcome::Rejected { reason } => Err(
            IcpiError::Trading(
                TradingError::ApprovalFailed {
                    token: text(symbol),
                    amount: amount.duplicate(),
                    reason,
                },
            ),
        ),
        ApproveOutcome::CallFailed { reason } => Err(
            IcpiError::Trading(
                TradingError::ApprovalFailed {
                    token: text(symbol),
                    amount: amount.duplicate(),
                    reason,
                },
            ),
        ),
    }
}

} // verus!
