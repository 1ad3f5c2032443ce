//! The error taxonomy shared by every subsystem.
//!
//! Each variant carries the structured fields needed to diagnose it: amounts as
//! [`Amount`], principals as their text, operations by name.

use vstd::prelude::*;
use crate::amount::Amount;

verus! {

#[derive(Debug)]
pub enum ValidationError {
    InvalidPrincipal { principal: String },
    AmountBelowMinimum { amount: Amount, minimum: Amount },
    InvalidAmount { amount: Amount, reason: String },
    DataInconsistency { supply: Amount, tvl: Amount },
}

#[derive(Debug)]
pub enum MintError {
    InvalidMintId { id: String },
    Unauthorized { principal: String, mint_id: String },
    InsufficientTVL { tvl: Amount },
    ProportionalCalculationError { reason: String },
    LedgerInteractionFailed { operation: String, details: String },
}

#[derive(Debug)]
pub enum BurnError {
    AmountBelowMinimum { amount: Amount, minimum: Amount },
    AmountExceedsMaximum { amount: Amount, maximum: Amount, percentage_limit: String },
    InsufficientBalance { required: Amount, available: Amount },
    InsufficientApproval { required: Amount, approved: Amount },
    InsufficientFeeAllowance { required: Amount, approved: Amount },
    NoSupply,
    NoRedemptionsPossible { reason: String },
    TokenTransferFailed { token: String, amount: Amount, reason: String },
}

#[derive(Debug)]
pub enum CalculationError {
    DivisionByZero { operation: String },
    Overflow { operation: String },
    PrecisionLoss { operation: String, original: Amount },
}

#[derive(Debug)]
pub enum TradingError {
    InvalidSwapAmount { reason: String },
    ApprovalFailed { token: String, amount: Amount, reason: String },
    SwapFailed { pay_token: String, receive_token: String, amount: Amount, reason: String },
    /// Slippage figures are in basis points.
    SlippageExceeded { expected: Amount, actual: Amount, max_allowed_bps: u64, actual_slippage_bps: u64 },
    KongswapError { operation: String, message: String },
    InvalidTokenCanister { token: String, canister_id: String, reason: String },
}

#[derive(Debug)]
pub enum QueryError {
    CanisterUnreachable { canister: String, reason: String },
}

#[derive(Debug)]
pub enum SystemError {
    OperationInProgress { operation: String, user: String },
    RebalancingInProgress,
    CriticalOperationInProgress { operation: String },
    GracePeriodActive { wait_seconds: u64, current_operation: String },
    StateCorrupted { reason: String },
    Unauthorized { principal: String },
}

#[derive(Debug)]
pub enum RebalanceError {
    InsufficientBalance { token: String, available: Amount, required: Amount },
    RebalancingInProgress,
}

#[derive(Debug)]
pub enum IcpiError {
    Validation(ValidationError),
    Mint(MintError),
    Burn(BurnError),
    Calculation(CalculationError),
    Trading(TradingError),
    Query(QueryError),
    System(SystemError),
    Rebalance(RebalanceError),
    Other(String),
}

/// The name of an error: that of its variant.
pub open spec fn error_name(e: IcpiError) -> Seq<char> {
    match e {
        IcpiError::Validation(ValidationError::InvalidPrincipal { .. }) => "InvalidPrincipal"@,
        IcpiError::Validation(ValidationError::AmountBelowMinimum { .. }) => "AmountBelowMinimum"@,
        IcpiError::Validation(ValidationError::InvalidAmount { .. }) => "InvalidAmount"@,
        IcpiError::Validation(ValidationError::DataInconsistency { .. }) => "DataInconsistency"@,
        IcpiError::Mint(MintError::InvalidMintId { .. }) => "InvalidMintId"@,
        IcpiError::Mint(MintError::Unauthorized { .. }) => "Unauthorized"@,
        IcpiError::Mint(MintError::InsufficientTVL { .. }) => "InsufficientTVL"@,
        IcpiError::Mint(MintError::ProportionalCalculationError { .. }) => "ProportionalCalculationError"@,
        IcpiError::Mint(MintError::LedgerInteractionFailed { .. }) => "LedgerInteractionFailed"@,
        IcpiError::Burn(BurnError::AmountBelowMinimum { .. }) => "AmountBelowMinimum"@,
        IcpiError::Burn(BurnError::AmountExceedsMaximum { .. }) => "AmountExceedsMaximum"@,
        IcpiError::Burn(BurnError::InsufficientBalance { .. }) => "InsufficientBalance"@,
        IcpiError::Burn(BurnError::InsufficientApproval { .. }) => "InsufficientApproval"@,
        IcpiError::Burn(BurnError::InsufficientFeeAllowance { .. }) => "InsufficientFeeAllowance"@,
        IcpiError::Burn(BurnError::NoSupply) => "NoSupply"@,
        IcpiError::Burn(BurnError::NoRedemptionsPossible { .. }) => "NoRedemptionsPossible"@,
        IcpiError::Burn(BurnError::TokenTransferFailed { .. }) => "TokenTransferFailed"@,
        IcpiError::Calculation(CalculationError::DivisionByZero { .. }) => "DivisionByZero"@,
        IcpiError::Calculation(CalculationError::Overflow { .. }) => "Overflow"@,
        IcpiError::Calculation(CalculationError::PrecisionLoss { .. }) => "PrecisionLoss"@,
        IcpiError::Trading(TradingError::InvalidSwapAmount { .. }) => "InvalidSwapAmount"@,
        IcpiError::Trading(TradingError::ApprovalFailed { .. }) => "ApprovalFailed"@,
        IcpiError::Trading(TradingError::SwapFailed { .. }) => "SwapFailed"@,
        IcpiError::Trading(TradingError::SlippageExceeded { .. }) => "SlippageExceeded"@,
        IcpiError::Trading(TradingError::KongswapError { .. }) => "KongswapError"@,
        IcpiError::Trading(TradingError::InvalidTokenCanister { .. }) => "InvalidTokenCanister"@,
        IcpiError::Query(QueryError::CanisterUnreachable { .. }) => "CanisterUnreachable"@,
        IcpiError::System(SystemError::OperationInProgress { .. }) => "OperationInProgress"@,
        IcpiError::System(SystemError::RebalancingInProgress) => "RebalancingInProgress"@,
        IcpiError::System(SystemError::CriticalOperationInProgress { .. }) => "CriticalOperationInProgress"@,
        IcpiError::System(SystemError::GracePeriodActive { .. }) => "GracePeriodActive"@,
        IcpiError::System(SystemError::StateCorrupted { .. }) => "StateCorrupted"@,
        IcpiError::System(SystemError::Unauthorized { .. }) => "Unauthorized"@,
        IcpiError::Rebalance(RebalanceError::InsufficientBalance { .. }) => "InsufficientBalance"@,
        IcpiError::Rebalance(RebalanceError::RebalancingInProgress) => "RebalancingInProgress"@,
        IcpiError::Other(_) => "Error"@,
    }
}

/// The text that an error carries about its cause, where it carries one.
pub open spec fn error_detail(e: IcpiError) -> Option<Seq<char>> {
    match e {
        IcpiError::Validation(ValidationError::InvalidPrincipal { principal: d, .. }) => Some(d@),
        IcpiError::Validation(ValidationError::InvalidAmount { reason: d, .. }) => Some(d@),
        IcpiError::Mint(MintError::InvalidMintId { id: d, .. }) => Some(d@),
        IcpiError::Mint(MintError::Unauthorized { principal: d, .. }) => Some(d@),
        IcpiError::Mint(MintError::ProportionalCalculationError { reason: d, .. }) => Some(d@),
        IcpiError::Mint(MintError::LedgerInteractionFailed { details: d, .. }) => Some(d@),
        IcpiError::Burn(BurnError::AmountExceedsMaximum { percentage_limit: d, .. }) => Some(d@),
        IcpiError::Burn(BurnError::NoRedemptionsPossible { reason: d, .. }) => Some(d@),
        IcpiError::Burn(BurnError::TokenTransferFailed { reason: d, .. }) => Some(d@),
        IcpiError::Calculation(CalculationError::DivisionByZero { operation: d, .. }) => Some(d@),
        IcpiError::Calculation(CalculationError::Overflow { operation: d, .. }) => Some(d@),
        IcpiError::Calculation(CalculationError::PrecisionLoss { operation: d, .. }) => Some(d@),
        IcpiError::Trading(TradingError::InvalidSwapAmount { reason: d, .. }) => Some(d@),
        IcpiError::Trading(TradingError::ApprovalFailed { reason: d, .. }) => Some(d@),
        IcpiError::Trading(TradingError::SwapFailed { reason: d, .. }) => Some(d@),
        IcpiError::Trading(TradingError::KongswapError { message: d, .. }) => Some(d@),
        IcpiError::Trading(TradingError::InvalidTokenCanister { reason: d, .. }) => Some(d@),
        IcpiError::Query(QueryError::CanisterUnreachable { reason: d, .. }) => Some(d@),
        IcpiError::System(SystemError::OperationInProgress { operation: d, .. }) => Some(d@),
        IcpiError::System(SystemError::CriticalOperationInProgress { operation: d, .. }) => Some(d@),
        IcpiError::System(SystemError::GracePeriodActive { current_operation: d, .. }) => Some(d@),
        IcpiError::System(SystemError::StateCorrupted { reason: d, .. }) => Some(d@),
        IcpiError::System(SystemError::Unauthorized { principal: d, .. }) => Some(d@),
        IcpiError::Rebalance(RebalanceError::InsufficientBalance { token: d, .. }) => Some(d@),
        IcpiError::Other(d) => Some(d@),
        _ => None,
    }
}

/// An error in words: its name, and after a colon the text it carries, if any.
pub open spec fn error_text(e: IcpiError) -> Seq<char> {
    match error_detail(e) {
        Some(d) => error_name(e) + ": "@ + d,
        None => error_name(e),
    }
}

impl IcpiError {
    /// The name of this error.
    pub fn name(&self) -> (r: &'static str)
        ensures
            r@ == error_name(*self),
    {
        match self {
            IcpiError::Validation(ValidationError::InvalidPrincipal { .. }) => "InvalidPrincipal",
            IcpiError::Validation(ValidationError::AmountBelowMinimum { .. }) => "AmountBelowMinimum",
            IcpiError::Validation(ValidationError::InvalidAmount { .. }) => "InvalidAmount",
            IcpiError::Validation(ValidationError::DataInconsistency { .. }) => "DataInconsistency",
            IcpiError::Mint(MintError::InvalidMintId { .. }) => "InvalidMintId",
            IcpiError::Mint(MintError::Unauthorized { .. }) => "Unauthorized",
            IcpiError::Mint(MintError::InsufficientTVL { .. }) => "InsufficientTVL",
            IcpiError::Mint(MintError::ProportionalCalculationError { .. }) => "ProportionalCalculationError",
            IcpiError::Mint(MintError::LedgerInteractionFailed { .. }) => "LedgerInteractionFailed",
            IcpiError::Burn(BurnError::AmountBelowMinimum { .. }) => "AmountBelowMinimum",
            IcpiError::Burn(BurnError::AmountExceedsMaximum { .. }) => "AmountExceedsMaximum",
            IcpiError::Burn(BurnError::InsufficientBalance { .. }) => "InsufficientBalance",
            IcpiError::Burn(BurnError::InsufficientApproval { .. }) => "InsufficientApproval",
            IcpiError::Burn(BurnError::InsufficientFeeAllowance { .. }) => "InsufficientFeeAllowance",
            IcpiError::Burn(BurnError::NoSupply) => "NoSupply",
            IcpiError::Burn(BurnError::NoRedemptionsPossible { .. }) => "NoRedemptionsPossible",
            IcpiError::Burn(BurnError::TokenTransferFailed { .. }) => "TokenTransferFailed",
            IcpiError::Calculation(CalculationError::DivisionByZero { .. }) => "DivisionByZero",
            IcpiError::Calculation(CalculationError::Overflow { .. }) => "Overflow",
            IcpiError::Calculation(CalculationError::PrecisionLoss { .. }) => "PrecisionLoss",
            IcpiError::Trading(TradingError::InvalidSwapAmount { .. }) => "InvalidSwapAmount",
            IcpiError::Trading(TradingError::ApprovalFailed { .. }) => "ApprovalFailed",
            IcpiError::Trading(TradingError::SwapFailed { .. }) => "SwapFailed",
            IcpiError::Trading(TradingError::SlippageExceeded { .. }) => "SlippageExceeded",
            IcpiError::Trading(TradingError::KongswapError { .. }) => "KongswapError",
            IcpiError::Trading(TradingError::InvalidTokenCanister { .. }) => "InvalidTokenCanister",
            IcpiError::Query(QueryError::CanisterUnreachable { .. }) => "CanisterUnreachable",
            IcpiError::System(SystemError::OperationInProgress { .. }) => "OperationInProgress",
            IcpiError::System(SystemError::RebalancingInProgress) => "RebalancingInProgress",
            IcpiError::System(SystemError::CriticalOperationInProgress { .. }) => "CriticalOperationInProgress",
            IcpiError::System(SystemError::GracePeriodActive { .. }) => "GracePeriodActive",
            IcpiError::System(SystemError::StateCorrupted { .. }) => "StateCorrupted",
            IcpiError::System(SystemError::Unauthorized { .. }) => "Unauthorized",
            IcpiError::Rebalance(RebalanceError::InsufficientBalance { .. }) => "InsufficientBalance",
            IcpiError::Rebalance(RebalanceError::RebalancingInProgress) => "RebalancingInProgress",
            IcpiError::Other(_) => "Error",
        }
    }

    /// The text that this error carries about its cause, where it carries one.
    pub fn detail(&self) -> (r: Option<String>)
        ensures
            match r {
                Some(d) => error_detail(*self) == Some(d@),
                None => error_detail(*self) is None,
            },
    {
        match self {
            IcpiError::Validation(ValidationError::InvalidPrincipal { principal: d, .. }) => Some(d.clone()),
            IcpiError::Validation(ValidationError::InvalidAmount { reason: d, .. }) => Some(d.clone()),
            IcpiError::Mint(MintError::InvalidMintId { id: d, .. }) => Some(d.clone()),
            IcpiError::Mint(MintError::Unauthorized { principal: d, .. }) => Some(d.clone()),
            IcpiError::Mint(MintError::ProportionalCalculationError { reason: d, .. }) => Some(d.clone()),
            IcpiError::Mint(MintError::LedgerInteractionFailed { details: d, .. }) => Some(d.clone()),
            IcpiError::Burn(BurnError::AmountExceedsMaximum { percentage_limit: d, .. }) => Some(d.clone()),
            IcpiError::Burn(BurnError::NoRedemptionsPossible { reason: d, .. }) => Some(d.clone()),
            IcpiError::Burn(BurnError::TokenTransferFailed { reason: d, .. }) => Some(d.clone()),
            IcpiError::Calculation(CalculationError::DivisionByZero { operation: d, .. }) => Some(d.clone()),
            IcpiError::Calculation(CalculationError::Overflow { operation: d, .. }) => Some(d.clone()),
            IcpiError::Calculation(CalculationError::PrecisionLoss { operation: d, .. }) => Some(d.clone()),
            IcpiError::Trading(TradingError::InvalidSwapAmount { reason: d, .. }) => Some(d.clone()),
            IcpiError::Trading(TradingError::ApprovalFailed { reason: d, .. }) => Some(d.clone()),
            IcpiError::Trading(TradingError::SwapFailed { reason: d, .. }) => Some(d.clone()),
            IcpiError::Trading(TradingError::KongswapError { message: d, .. }) => Some(d.clone()),
            IcpiError::Trading(TradingError::InvalidTokenCanister { reason: d, .. }) => Some(d.clone()),
            IcpiError::Query(QueryError::CanisterUnreachable { reason: d, .. }) => Some(d.clone()),
            IcpiError::System(SystemError::OperationInProgress { operation: d, .. }) => Some(d.clone()),
            IcpiError::System(SystemError::CriticalOperationInProgress { operation: d, .. }) => Some(d.clone()),
            IcpiError::System(SystemError::GracePeriodActive { current_operation: d, .. }) => Some(d.clone()),
            IcpiError::System(SystemError::StateCorrupted { reason: d, .. }) => Some(d.clone()),
            IcpiError::System(SystemError::Unauthorized { principal: d, .. }) => Some(d.clone()),
            IcpiError::Rebalance(RebalanceError::InsufficientBalance { token: d, .. }) => Some(d.clone()),
            IcpiError::Other(d) => Some(d.clone()),
            _ => None,
        }
    }

    /// This error in words.
    pub fn describe(&self) -> (r: String)
        ensures
            r@ == error_text(*self),
    {
        let mut words = self.name().to_owned();
        match self.detail() {
            Some(d) => {
                words.append(": ");
                words.append(d.as_str());
            },
            None => {},
        }
        words
    }
}

} // verus!
