//! Swaps on the exchange.
//!
//! A swap approves the exchange for the exact amount to pay, asks for a quote,
//! has the exchange carry out the swap by drawing on the approval, and checks
//! what came back against the quote. This module decides, for each reply, what
//! the next request is; sending the requests is left to the caller.

use vstd::prelude::*;
use crate::amount::Amount;
use crate::constants::{APPROVAL_EXPIRY_NANOS, SLIPPAGE_LIMIT_BPS};
use crate::errors::{IcpiError, SystemError, TradingError};
use crate::ledger::{approval_verdict, approve_token_for_swap, ApproveOutcome};
use crate::slippage::{slippage_bps, slippage_exceeded, validate_swap_result};
use crate::strings::text;
use crate::tokens::{symbol_of, TrackedToken};

verus! {

/// What the exchange reports of a swap it carried out. The price is in
/// millionths, the slippage in basis points.
#[derive(Debug)]
pub struct SwapReply {
    pub receive_amount: Amount,
    pub slippage_bps: u64,
    pub price_e6: u64,
}

/// Outcome of the exchange's `swap`.
#[derive(Debug)]
pub enum SwapOutcome {
    Swapped(SwapReply),
    /// The exchange refused.
    Rejected { reason: String },
    /// The exchange could not be reached.
    CallFailed { reason: String },
}

/// Request for the exchange's `swap`. No transfer is named and no amount to
/// receive is asked for: the exchange draws on the approval and computes what
/// it pays out.
#[derive(Debug)]
pub struct SwapArgs {
    pub pay_token: String,
    pub pay_amount: Amount,
    /// Always `None`: the exchange is to draw on the approval.
    pub pay_tx_id: Option<Amount>,
    pub receive_token: String,
    /// Always `None`: the exchange computes it.
    pub receive_amount: Option<Amount>,
    /// Where the proceeds go: the system itself.
    pub receive_address: Option<String>,
    pub max_slippage_bps: u32,
    /// Always `None`.
    pub referred_by: Option<String>,
}

/// The parameters of a swap are acceptable: something is paid, the tolerance
/// lies between nothing and 10%, and the two tokens differ.
pub open spec fn swap_params_valid(
    pay_token: TrackedToken,
    pay_amount: nat,
    receive_token: TrackedToken,
    max_slippage_bps: i64,
) -> bool {
    pay_amount != 0 && 0 <= max_slippage_bps <= SLIPPAGE_LIMIT_BPS && pay_token != receive_token
}

/// Check the parameters of a swap before anything is sent.
pub fn validate_swap_params(
    pay_token: &TrackedToken,
    pay_amount: &Amount,
    receive_token: &TrackedToken,
    max_slippage_bps: i64,
) -> (r: Result<(), IcpiError>)
    ensures
        swap_params_valid(*pay_token, pay_amount@, *receive_token, max_slippage_bps) ==> r is Ok,
        !swap_params_valid(*pay_token, pay_amount@, *receive_token, max_slippage_bps) ==> r matches Err(
            IcpiError::Trading(TradingError::InvalidSwapAmount { .. }),
        ),
{
    if pay_amount.is_zero() {
        return Err(
            IcpiError::Trading(
                TradingError::InvalidSwapAmount {
                    reason: text("Pay amount must be greater than zero"),
                },
            ),
        );
    }
    if max_slippage_bps < 0 || max_slippage_bps > SLIPPAGE_LIMIT_BPS {
        return Err(
            IcpiError::Trading(
                TradingError::InvalidSwapAmount {
                    reason: text("Max slippage must be between 0% and 10%"),
                },
            ),
        );
    }
    if *pay_token == *receive_token {
        return Err(
            IcpiError::Trading(
                TradingError::InvalidSwapAmount {
                    reason: text("Pay and receive tokens must be different"),
                },
            ),
        );
    }
    Ok(())
}

/// Where a swap stands: the reply it waits for.
#[derive(Debug, Clone, Copy, PartialEq, Eq, Structural)]
pub enum SwapStage {
    Approving,
    Quoting,
    Swapping,
    Finished,
}

/// A reply to a swap in flight.
#[derive(Debug)]
pub enum SwapEvent {
    Approved(ApproveOutcome),
    /// The amount the exchange expects to pay out, or why it gave no quote.
    Quoted(Result<Amount, String>),
    Swapped(SwapOutcome),
}

/// The next request to send for a swap.
#[derive(Debug)]
pub enum SwapAction {
    /// Approve the exchange for exactly `amount` of `token`, until `expires_at`.
    Approve { token: TrackedToken, amount: Amount, expires_at: u64 },
    Quote { pay_symbol: String, pay_amount: Amount, receive_symbol: String },
    Swap(SwapArgs),
    /// Nothing more to send: the swap has finished.
    Finish,
}

/// A swap in flight.
#[derive(Debug)]
pub struct SwapFlow {
    pay_token: TrackedToken,
    pay_amount: Amount,
    receive_token: TrackedToken,
    max_slippage_bps: u32,
    started_at: u64,
    stage: SwapStage,
    expected: Amount,
    result: Option<Result<SwapReply, IcpiError>>,
}

impl SwapFlow {
    pub closed spec fn stage(&self) -> SwapStage {
        self.stage
    }

    pub closed spec fn pay_token(&self) -> TrackedToken {
        self.pay_token
    }

    pub closed spec fn pay_amount(&self) -> nat {
        self.pay_amount@
    }

    pub closed spec fn receive_token(&self) -> TrackedToken {
        self.receive_token
    }

    pub closed spec fn max_slippage_bps(&self) -> u32 {
        self.max_slippage_bps
    }

    pub closed spec fn started_at(&self) -> u64 {
        self.started_at
    }

    /// The amount quoted, once the exchange has given its quote.
    pub closed spec fn expected(&self) -> nat {
        self.expected@
    }

    /// What the swap came to, once finished.
    pub closed spec fn result(&self) -> Option<Result<SwapReply, IcpiError>> {
        self.result
    }

    /// The flow is as its own functions leave it: it has a result exactly when
    /// finished, and its approval expires within the range of the clock.
    pub closed spec fn wf(&self) -> bool {
        &&& (self.stage == SwapStage::Finished <==> self.result is Some)
        &&& self.started_at <= u64::MAX - APPROVAL_EXPIRY_NANOS
    }

    /// A swap has a result exactly when it has finished.
    pub proof fn lemma_result_when_finished(self)
        requires
            self.wf(),
        ensures
            self.stage() == SwapStage::Finished <==> self.result() is Some,
    {
    }

    /// `r` is the request that the swap waits to have answered: the approval of
    /// the exact amount to pay, expiring 15 minutes after the swap began; the
    /// quote for the pair; the swap itself, which names no transfer and no amount
    /// to receive and sends the proceeds to `system`; or nothing more.
    pub open spec fn asks(&self, system: Seq<char>, r: SwapAction) -> bool {
        match self.stage() {
            SwapStage::Approving => r matches SwapAction::Approve { token, amount, expires_at }
                && token == self.pay_token() && amount@ == self.pay_amount() && expires_at
                == self.started_at() + APPROVAL_EXPIRY_NANOS,
            SwapStage::Quoting => r matches SwapAction::Quote {
                pay_symbol,
                pay_amount,
                receive_symbol,
            } && pay_symbol@ == symbol_of(self.pay_token()) && pay_amount@ == self.pay_amount()
                && receive_symbol@ == symbol_of(self.receive_token()),
            SwapStage::Swapping => {
                &&& r matches SwapAction::Swap(args)
                &&& args.pay_token@ == symbol_of(self.pay_token())
                &&& args.pay_amount@ == self.pay_amount()
                &&& args.pay_tx_id is None
                &&& args.receive_token@ == symbol_of(self.receive_token())
                &&& args.receive_amount is None
                &&& args.receive_address matches Some(address)
                &&& address@ == system
                &&& args.max_slippage_bps == self.max_slippage_bps()
                &&& args.referred_by is None
            },
            SwapStage::Finished => r is Finish,
        }
    }

    /// The request that the swap waits to have answered. `system` is the text of
    /// the system's own principal, to which the proceeds go.
    pub fn next_action(&self, system: &str) -> (r: SwapAction)
        requires
            self.wf(),
        ensures
            self.asks(system@, r),
    {
        match self.stage {
            SwapStage::Approving => SwapAction::Approve {
                token: self.pay_token,
                amount: self.pay_amount.duplicate(),
                expires_at: self.started_at + APPROVAL_EXPIRY_NANOS,
            },
            SwapStage::Quoting => SwapAction::Quote {
                pay_symbol: text(self.pay_token.to_symbol()),
                pay_amount: self.pay_amount.duplicate(),
                receive_symbol: text(self.receive_token.to_symbol()),
            },
            SwapStage::Swapping => SwapAction::Swap(
                SwapArgs {
                    pay_token: text(self.pay_token.to_symbol()),
                    pay_amount: self.pay_amount.duplicate(),
                    pay_tx_id: None,
                    receive_token: text(self.receive_token.to_symbol()),
                    receive_amount: None,
                    receive_address: Some(text(system)),
                    max_slippage_bps: self.max_slippage_bps,
                    referred_by: None,
                },
            ),
            SwapStage::Finished => SwapAction::Finish,
        }
    }

    /// The amount that the swap pays.
    pub fn paid(&self) -> (r: &Amount)
        ensures
            r@ == self.pay_amount(),
    {
        &self.pay_amount
    }

    /// Whether the swap has finished.
    pub fn is_finished(&self) -> (r: bool)
        ensures
            r == (self.stage() == SwapStage::Finished),
    {
        self.stage == SwapStage::Finished
    }

    /// `after` is what the swap is once it has taken the reply `event`.
    ///
    /// A failed approval, a missing quote and a failed swap each end the swap
    /// with their error. What a swap delivered is checked against the quote: a
    /// shortfall beyond the tolerance is `SlippageExceeded`, and receiving more
    /// than quoted is always accepted. A reply that the swap was not waiting for
    /// ends it with `StateCorrupted`.
    pub open spec fn advanced(self, event: SwapEvent, after: SwapFlow) -> bool {
        &&& (after.wf())
        &&& (after.pay_token() == self.pay_token())
        &&& (after.pay_amount() == self.pay_amount())
        &&& (after.receive_token() == self.receive_token())
        &&& (after.max_slippage_bps() == self.max_slippage_bps())
        &&& (after.started_at() == self.started_at())
        &&& (self.stage() == SwapStage::Finished ==> after.result() == self.result())
        &&& (match (self.stage(), event) {
                (SwapStage::Finished, _) => true,
                (SwapStage::Approving, SwapEvent::Approved(outcome)) => match after.result() {
                    Some(Err(e)) => approval_verdict(
                        outcome,
                        symbol_of(self.pay_token()),
                        self.pay_amount(),
                        Err(e),
                    ),
                    Some(Ok(_)) => false,
                    None => outcome is Approved && after.stage() == SwapStage::Quoting,
                },
                (SwapStage::Quoting, SwapEvent::Quoted(reply)) => match reply {
                    Ok(quoted) => after.stage() == SwapStage::Swapping && after.expected() == quoted@,
                    Err(why) => {
                        &&& after.result() matches Some(
                            Err(IcpiError::Trading(TradingError::KongswapError { operation, message })),
                        )
                        &&& operation@ == "swap_amounts"@
                        &&& message@ == why@
                    },
                },
                (SwapStage::Swapping, SwapEvent::Swapped(outcome)) => match outcome {
                    SwapOutcome::Swapped(reply) => if self.expected() == 0 {
                        after.result() matches Some(
                            Err(IcpiError::Trading(TradingError::InvalidSwapAmount { .. })),
                        )
                    } else if slippage_exceeded(
                        self.expected(),
                        reply.receive_amount@,
                        self.max_slippage_bps() as nat,
                    ) {
                        &&& after.result() matches Some(
                            Err(
                                IcpiError::Trading(
                                    TradingError::SlippageExceeded { actual_slippage_bps, .. },
                                ),
                            ),
                        )
                        &&& actual_slippage_bps == slippage_bps(
                            self.expected(),
                            reply.receive_amount@,
                        )
                    } else {
                        after.result() == Some(Ok::<SwapReply, IcpiError>(reply))
                    },
                    SwapOutcome::Rejected { reason } => {
                        &&& after.result() matches Some(
                            Err(
                                IcpiError::Trading(
                                    TradingError::SwapFailed {
                                        pay_token,
                                        receive_token,
                                        amount,
                                        reason: why,
                                    },
                                ),
                            ),
                        )
                        &&& pay_token@ == symbol_of(self.pay_token())
                        &&& receive_token@ == symbol_of(self.receive_token())
                        &&& amount@ == self.pay_amount()
                        &&& why@ == reason@
                    },
                    SwapOutcome::CallFailed { reason } => {
                        &&& after.result() matches Some(
                            Err(
                                IcpiError::Trading(
                                    TradingError::SwapFailed {
                                        pay_token,
                                        receive_token,
                                        amount,
                                        reason: why,
                                    },
                                ),
                            ),
                        )
                        &&& pay_token@ == symbol_of(self.pay_token())
                        &&& receive_token@ == symbol_of(self.receive_token())
                        &&& amount@ == self.pay_amount()
                        &&& why@ == reason@
                    },
                },
                (_, _) => after.result() matches Some(
                    Err(IcpiError::System(SystemError::StateCorrupted { .. })),
                ),
            })
    }

    /// Take the reply `event` and move on.
    ///
    /// A failed approval, a missing quote and a failed swap each end the swap
    /// with their error. What a swap delivered is checked against the quote: a
    /// shortfall beyond the tolerance is `SlippageExceeded`, and receiving more
    /// than quoted is always accepted.
    pub fn advance(&mut self, event: SwapEvent)
        requires
            old(self).wf(),
        ensures
            (*old(self)).advanced(event, *final(self)),
    {
        match (self.stage, event) {
            (SwapStage::Finished, _) => {},
            (SwapStage::Approving, SwapEvent::Approved(outcome)) => {
                match approve_token_for_swap(outcome, self.pay_token.to_symbol(), &self.pay_amount) {
                    Ok(_) => {
                        self.stage = SwapStage::Quoting;
                    },
                    Err(e) => {
                        self.finish(Err(e));
                    },
                }
            },
            (SwapStage::Quoting, SwapEvent::Quoted(reply)) => {
                match reply {
                    Ok(quoted) => {
                        self.expected = quoted;
                        self.stage = SwapStage::Swapping;
                    },
                    Err(why) => {
                        self.finish(
                            Err(
                                IcpiError::Trading(
                                    TradingError::KongswapError {
                                        operation: text("swap_amounts"),
                                        message: why,
                                    },
                                ),
                            ),
                        );
                    },
                }
            },
            (SwapStage::Swapping, SwapEvent::Swapped(outcome)) => {
                match outcome {
                    SwapOutcome::Swapped(reply) => {
                        match validate_swap_result(
                            &self.expected,
                            &reply.receive_amount,
                            self.max_slippage_bps,
                        ) {
                            Ok(()) => {
                                self.finish(Ok(reply));
                            },
                            Err(e) => {
                                self.finish(Err(e));
                            },
                        }
                    },
                    SwapOutcome::Rejected { reason } => {
                        let e = self.swap_failed(reason);
                        self.finish(Err(e));
                    },
                    SwapOutcome::CallFailed { reason } => {
                        let e = self.swap_failed(reason);
                        self.finish(Err(e));
                    },
                }
            },
            (_, _) => {
                self.finish(
                    Err(
                        IcpiError::System(
                            SystemError::StateCorrupted { reason: text("Unexpected reply to a swap") },
                        ),
                    ),
                );
            },
        }
    }

    fn swap_failed(&self, reason: String) -> (e: IcpiError)
        ensures
            e matches IcpiError::Trading(
                TradingError::SwapFailed { pay_token, receive_token, amount, reason: why },
            ) && pay_token@ == symbol_of(self.pay_token()) && receive_token@ == symbol_of(
                self.receive_token(),
            ) && amount@ == self.pay_amount() && why@ == reason@,
    {
        IcpiError::Trading(
            TradingError::SwapFailed {
                pay_token: text(self.pay_token.to_symbol()),
                receive_token: text(self.receive_token.to_symbol()),
                amount: self.pay_amount.duplicate(),
                reason,
            },
        )
    }

    fn finish(&mut self, outcome: Result<SwapReply, IcpiError>)
        requires
            old(self).started_at <= u64::MAX - APPROVAL_EXPIRY_NANOS,
        ensures
            final(self).wf(),
            final(self).stage() == SwapStage::Finished,
            final(self).result() == Some(outcome),
            final(self).pay_token() == old(self).pay_token(),
            final(self).pay_amount() == old(self).pay_amount(),
            final(self).receive_token() == old(self).receive_token(),
            final(self).max_slippage_bps() == old(self).max_slippage_bps(),
            final(self).started_at() == old(self).started_at(),
            final(self).expected() == old(self).expected(),
    {
        self.stage = SwapStage::Finished;
        self.result = Some(outcome);
    }

    /// The outcome of a finished swap. An unfinished swap has no outcome yet.
    pub fn into_result(self) -> (r: Option<Result<SwapReply, IcpiError>>)
        ensures
            r == self.result(),
    {
        self.result
    }
}

/// Begin a swap of `pay_amount` of `pay_token` for `receive_token` at time
/// `now`, with at most `max_slippage_bps` of slippage. Invalid parameters are
/// refused before anything is sent.
pub fn execute_swap(
    pay_token: &TrackedToken,
    pay_amount: Amount,
    receive_token: &TrackedToken,
    max_slippage_bps: i64,
    now: u64,
) -> (r: Result<SwapFlow, IcpiError>)
    requires
        now <= u64::MAX - APPROVAL_EXPIRY_NANOS,
    ensures
        swap_params_valid(*pay_token, pay_amount@, *receive_token, max_slippage_bps) ==> {
            &&& r matches Ok(flow)
            &&& flow.wf()
            &&& flow.stage() == SwapStage::Approving
            &&& flow.pay_token() == *pay_token
            &&& flow.pay_amount() == pay_amount@
            &&& flow.receive_token() == *receive_token
            &&& flow.max_slippage_bps() == max_slippage_bps
            &&& flow.started_at() == now
        },
        !swap_params_valid(*pay_token, pay_amount@, *receive_token, max_slippage_bps) ==> r matches Err(
            IcpiError::Trading(TradingError::InvalidSwapAmount { .. }),
        ),
{
    match validate_swap_params(pay_token, &pay_amount, receive_token, max_slippage_bps) {
        Ok(()) => {},
        Err(e) => {
            return Err(e);
        },
    }
    Ok(
        SwapFlow {
            pay_token: *pay_token,
            pay_amount,
            receive_token: *receive_token,
            max_slippage_bps: max_slippage_bps as u32,
            started_at: now,
            stage: SwapStage::Approving,
            expected: Amount::zero(),
            result: None,
        },
    )
}

} // verus!
