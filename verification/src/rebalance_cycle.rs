//! One rebalancing cycle: read the state of the index, choose the action, carry
//! out at most one swap, and record the outcome.
//!
//! This module decides, for each reply, what the next request is; sending the
//! requests is left to the caller. While a cycle runs, the global operation is
//! `Rebalancing` and no second cycle may start.

use vstd::prelude::*;
use crate::admin::{check_not_paused, AdminState};
use crate::amount::Amount;
use crate::constants::{APPROVAL_EXPIRY_NANOS, MAX_SLIPPAGE_BPS};
use crate::errors::{error_text, IcpiError, RebalanceError, SystemError, TradingError};
use crate::portfolio::IndexState;
use crate::rebalancing::{
    action_called_for, atoms_for_value, begin_cycle, get_rebalancing_action, sell_amount,
    RebalanceAction, RebalanceRecordView, RebalanceState,
};
use crate::reentrancy::{
    end_outcome, refusal_matches, start_outcome, Coordinator, GlobalOperation,
};
use crate::strings::{decimal_digits, decimal_text, text};
use crate::swaps::{execute_swap, SwapAction, SwapEvent, SwapFlow, SwapReply, SwapStage};
use crate::tokens::{decimals_of, symbol_of, TrackedToken};

verus! {

/// Where a cycle stands: the reply it waits for.
#[derive(Debug, Clone, Copy, PartialEq, Eq, Structural)]
pub enum CycleStage {
    ReadingState,
    ReadingPrice,
    ReadingBalance,
    Swapping,
    Finished,
}

/// A reply to a cycle in flight.
#[derive(Debug)]
pub enum CycleEvent {
    /// The state of the index, or why it could not be had.
    State(Result<IndexState, IcpiError>),
    /// The price of the token to sell, in stable atoms a whole token.
    Price(Result<u64, IcpiError>),
    /// What the system holds of the token to sell.
    Balance(Result<Amount, IcpiError>),
    /// A reply to the swap under way.
    Swap(SwapEvent),
}

/// The next request to send for a cycle.
#[derive(Debug)]
pub enum CycleAction {
    ReadState,
    ReadPrice { token: TrackedToken },
    ReadBalance { token: TrackedToken },
    Swap(SwapAction),
    /// Nothing more to send: the cycle has finished.
    Finish,
}

/// What is recorded of a cycle that found nothing to trade.
pub open spec fn idle_note() -> Seq<char> {
    "No rebalancing needed (all tokens within tolerance)"@
}

/// What is recorded of a trade that went through: what was bought or sold, for
/// how much, and the slippage that the exchange reported. `paid` is what the
/// swap paid.
pub open spec fn trade_note(action: RebalanceAction, paid: nat, reply: SwapReply) -> Seq<char> {
    match action {
        RebalanceAction::NoAction => idle_note(),
        RebalanceAction::Buy { token, usdt_amount_e6 } => "Bought "@ + decimal_digits(
            reply.receive_amount@,
        ) + " "@ + symbol_of(token) + " with "@ + decimal_digits(usdt_amount_e6 as nat)
            + " stable atoms (slippage: "@ + decimal_digits(reply.slippage_bps as nat)
            + " basis points)"@,
        RebalanceAction::Sell { token, .. } => "Sold "@ + decimal_digits(paid) + " "@ + symbol_of(
            token,
        ) + " for "@ + decimal_digits(reply.receive_amount@) + " stable atoms (slippage: "@
            + decimal_digits(reply.slippage_bps as nat) + " basis points)"@,
    }
}

/// What is recorded of a trade that failed: which trade, and the error in words.
pub open spec fn failure_note(action: RebalanceAction, e: IcpiError) -> Seq<char> {
    match action {
        RebalanceAction::NoAction => error_text(e),
        RebalanceAction::Buy { .. } => "Buy failed: "@ + error_text(e),
        RebalanceAction::Sell { .. } => "Sell failed: "@ + error_text(e),
    }
}

/// The history `after` is the history `before` with the record of a cycle that
/// chose `action`, made at `now` with the given details.
pub open spec fn recorded(
    before: Seq<RebalanceRecordView>,
    after: Seq<RebalanceRecordView>,
    action: RebalanceAction,
    success: bool,
    details: Seq<char>,
    now: u64,
) -> bool {
    after == before.push(RebalanceRecordView { timestamp: now, action, success, details })
}

/// The words for a trade that went through.
fn trade_words(action: RebalanceAction, paid: &Amount, reply: &SwapReply) -> (r: String)
    ensures
        r@ == trade_note(action, paid@, *reply),
{
    match action {
        RebalanceAction::NoAction => text("No rebalancing needed (all tokens within tolerance)"),
        RebalanceAction::Buy { token, usdt_amount_e6 } => {
            let mut words = text("Bought ");
            words.append(reply.receive_amount.to_decimal().as_str());
            words.append(" ");
            words.append(token.to_symbol());
            words.append(" with ");
            words.append(decimal_text(usdt_amount_e6).as_str());
            words.append(" stable atoms (slippage: ");
            words.append(decimal_text(reply.slippage_bps).as_str());
            words.append(" basis points)");
            words
        },
        RebalanceAction::Sell { token, usdt_value_e6 } => {
            let mut words = text("Sold ");
            words.append(paid.to_decimal().as_str());
            words.append(" ");
            words.append(token.to_symbol());
            words.append(" for ");
            words.append(reply.receive_amount.to_decimal().as_str());
            words.append(" stable atoms (slippage: ");
            words.append(decimal_text(reply.slippage_bps).as_str());
            words.append(" basis points)");
            words
        },
    }
}

/// The words for a trade that failed.
fn failure_words(action: RebalanceAction, e: &IcpiError) -> (r: String)
    ensures
        r@ == failure_note(action, *e),
{
    match action {
        RebalanceAction::NoAction => e.describe(),
        RebalanceAction::Buy { token, usdt_amount_e6 } => {
            let mut words = text("Buy failed: ");
            words.append(e.describe().as_str());
            words
        },
        RebalanceAction::Sell { token, usdt_value_e6 } => {
            let mut words = text("Sell failed: ");
            words.append(e.describe().as_str());
            words
        },
    }
}

/// A rebalancing cycle in flight.
#[derive(Debug)]
pub struct RebalanceFlow {
    stage: CycleStage,
    action: RebalanceAction,
    price_e6: u64,
    swap: Option<SwapFlow>,
    result: Option<Result<String, IcpiError>>,
}

impl RebalanceFlow {
    pub closed spec fn stage(&self) -> CycleStage {
        self.stage
    }

    /// The action chosen, once the state of the index has been read.
    pub closed spec fn action(&self) -> RebalanceAction {
        self.action
    }

    /// The price read for the token to sell, in stable atoms a whole token.
    pub closed spec fn price_e6(&self) -> u64 {
        self.price_e6
    }

    /// The swap under way, while there is one.
    pub closed spec fn swap(&self) -> Option<SwapFlow> {
        self.swap
    }

    /// What the cycle came to, once finished.
    pub closed spec fn result(&self) -> Option<Result<String, IcpiError>> {
        self.result
    }

    /// The flow is as its own functions leave it: it has a result exactly when
    /// finished, and a swap under way exactly while swapping.
    pub closed spec fn wf(&self) -> bool {
        &&& (self.stage == CycleStage::Finished <==> self.result is Some)
        &&& (self.stage == CycleStage::Swapping <==> self.swap is Some)
        &&& self.swap matches Some(s) ==> s.wf() && s.stage() != SwapStage::Finished
        &&& (self.stage == CycleStage::ReadingPrice || self.stage == CycleStage::ReadingBalance)
            ==> self.action is Sell
        &&& self.stage == CycleStage::Swapping ==> !(self.action is NoAction)
    }

    /// The request that the cycle waits to have answered. `system` is the text
    /// of the system's own principal.
    pub fn next_action(&self, system: &str) -> (r: CycleAction)
        requires
            self.wf(),
        ensures
            match self.stage() {
                CycleStage::ReadingState => r is ReadState,
                CycleStage::ReadingPrice => r matches CycleAction::ReadPrice { token }
                    && self.action() matches RebalanceAction::Sell { token: t, .. } && token == t,
                CycleStage::ReadingBalance => r matches CycleAction::ReadBalance { token }
                    && self.action() matches RebalanceAction::Sell { token: t, .. } && token == t,
                CycleStage::Swapping => r matches CycleAction::Swap(a) && self.swap() matches Some(
                    s,
                ) && s.asks(system@, a),
                CycleStage::Finished => r is Finish,
            },
    {
        match self.stage {
            CycleStage::ReadingState => CycleAction::ReadState,
            CycleStage::ReadingPrice => match self.action {
                RebalanceAction::Sell { token, usdt_value_e6 } => CycleAction::ReadPrice { token },
                _ => CycleAction::Finish,
            },
            CycleStage::ReadingBalance => match self.action {
                RebalanceAction::Sell { token, usdt_value_e6 } => CycleAction::ReadBalance { token },
                _ => CycleAction::Finish,
            },
            CycleStage::Swapping => match &self.swap {
                Some(s) => CycleAction::Swap(s.next_action(system)),
                None => CycleAction::Finish,
            },
            CycleStage::Finished => CycleAction::Finish,
        }
    }

    /// Whether the cycle has finished.
    pub fn is_finished(&self) -> (r: bool)
        ensures
            r == (self.stage() == CycleStage::Finished),
    {
        self.stage == CycleStage::Finished
    }

    /// End the cycle with `outcome`: the rebalancer is no longer running and the
    /// global operation `Rebalancing` is ended.
    fn finish(
        &mut self,
        coordinator: &mut Coordinator,
        state: &mut RebalanceState,
        outcome: Result<String, IcpiError>,
        now: u64,
    )
        requires
            old(coordinator).wf(),
        ensures
            final(self).wf(),
            final(self).stage() == CycleStage::Finished,
            final(self).result() == Some(outcome),
            final(self).action() == old(self).action(),
            final(coordinator).wf(),
            old(coordinator).consistent() ==> final(coordinator).consistent(),
            final(coordinator).same_guards(old(coordinator)),
            final(coordinator).current() == end_outcome(
                old(coordinator).current(),
                GlobalOperation::Rebalancing,
                old(coordinator).any_guard_held(),
            ),
            !final(state).in_progress(),
            final(state).wf() == old(state).wf(),
            final(state).full() == old(state).full(),
            final(state).recent() == old(state).recent(),
            final(state).last_rebalance() == old(state).last_rebalance(),
            final(state).timer_active() == old(state).timer_active(),
    {
        self.stage = CycleStage::Finished;
        self.swap = None;
        self.result = Some(outcome);
        coordinator.leave_rebalance(now);
        state.finish_rebalance();
    }

    /// Record the outcome of the cycle's action and end the cycle with it.
    fn conclude(
        &mut self,
        coordinator: &mut Coordinator,
        state: &mut RebalanceState,
        outcome: Result<String, IcpiError>,
        details: &str,
        now: u64,
    )
        requires
            old(coordinator).wf(),
            old(state).wf(),
            old(state).full().len() < usize::MAX,
        ensures
            final(self).wf(),
            final(self).stage() == CycleStage::Finished,
            final(self).result() == Some(outcome),
            final(self).action() == old(self).action(),
            final(coordinator).wf(),
            old(coordinator).consistent() ==> final(coordinator).consistent(),
            final(coordinator).same_guards(old(coordinator)),
            final(coordinator).current() == end_outcome(
                old(coordinator).current(),
                GlobalOperation::Rebalancing,
                old(coordinator).any_guard_held(),
            ),
            !final(state).in_progress(),
            final(state).wf(),
            final(state).last_rebalance() == Some(now),
            final(state).full() == old(state).full().push(
                RebalanceRecordView {
                    timestamp: now,
                    action: old(self).action(),
                    success: outcome is Ok,
                    details: details@,
                },
            ),
            final(state).timer_active() == old(state).timer_active(),
    {
        let success = outcome.is_ok();
        state.record_rebalance(self.action, success, details, now);
        self.finish(coordinator, state, outcome, now);
    }

    /// Take the reply `event`, received at `now`, and move on.
    ///
    /// With nothing to trade the cycle is recorded as done. A buy pays stable
    /// tokens for the token chosen; a sale first reads the token's price and the
    /// system's balance, and pays the atoms that are worth the value to sell.
    /// Every swap runs with a tolerance of 2%. A swap that concluded, or could
    /// not be started, is recorded; a cycle that failed before its swap is not.
    pub fn advance(
        &mut self,
        coordinator: &mut Coordinator,
        state: &mut RebalanceState,
        event: CycleEvent,
        now: u64,
    )
        requires
            old(self).wf(),
            old(coordinator).wf(),
            old(state).wf(),
            old(state).full().len() < usize::MAX,
            now <= u64::MAX - APPROVAL_EXPIRY_NANOS,
        ensures
            final(self).wf(),
            final(coordinator).wf(),
            final(state).wf(),
            old(coordinator).consistent() ==> final(coordinator).consistent(),
            final(coordinator).same_guards(old(coordinator)),
            final(state).timer_active() == old(state).timer_active(),
            final(self).result() is Some <==> final(self).stage() == CycleStage::Finished,
            old(self).stage() != CycleStage::ReadingState ==> final(self).action() == old(self).action(),
            // while the cycle runs nothing else changes; when it ends, it is over
            final(self).stage() != CycleStage::Finished ==> {
                &&& final(coordinator).same_operation(old(coordinator))
                &&& final(state).in_progress() == old(state).in_progress()
                &&& final(state).full() == old(state).full()
                &&& final(state).last_rebalance() == old(state).last_rebalance()
            },
            old(self).stage() != CycleStage::Finished && final(self).stage()
                == CycleStage::Finished ==> {
                &&& !final(state).in_progress()
                &&& final(coordinator).current() == end_outcome(
                    old(coordinator).current(),
                    GlobalOperation::Rebalancing,
                    old(coordinator).any_guard_held(),
                )
                &&& (final(state).full() == old(state).full() || (final(state).full().len()
                    == old(state).full().len() + 1 && final(state).full().last().action == final(self).action() && final(state).full().last().success == (final(self).result().unwrap() is Ok) && final(state).full().last().timestamp == now
                    && final(state).full().drop_last() == old(state).full()))
            },
            old(self).stage() == CycleStage::Finished ==> {
                &&& final(self).result() == old(self).result()
                &&& final(coordinator).same_operation(old(coordinator))
                &&& final(state).in_progress() == old(state).in_progress()
                &&& final(state).full() == old(state).full()
            },
            match (old(self).stage(), event) {
                (CycleStage::Finished, _) => true,
                (CycleStage::ReadingState, CycleEvent::State(Err(e))) => final(self).result()
                    == Some(Err::<String, IcpiError>(e)) && final(state).full() == old(state).full(),
                (CycleStage::ReadingState, CycleEvent::State(Ok(index))) => action_called_for(
                    index.deviations@,
                    index.ckusdt_balance@,
                    final(self).action(),
                ) && match final(self).action() {
                    RebalanceAction::NoAction => {
                        &&& final(self).result() matches Some(Ok(msg))
                        &&& msg@ == idle_note()
                        &&& recorded(
                            old(state).full(),
                            final(state).full(),
                            RebalanceAction::NoAction,
                            true,
                            idle_note(),
                            now,
                        )
                    },
                    RebalanceAction::Buy { token, usdt_amount_e6 } => if usdt_amount_e6 == 0
                        || token == TrackedToken::ckUSDT {
                        &&& final(self).result() matches Some(Err(e))
                        &&& e matches IcpiError::Trading(TradingError::InvalidSwapAmount { .. })
                        &&& recorded(
                            old(state).full(),
                            final(state).full(),
                            final(self).action(),
                            false,
                            failure_note(final(self).action(), e),
                            now,
                        )
                    } else {
                        &&& final(self).stage() == CycleStage::Swapping
                        &&& final(self).swap() matches Some(s)
                        &&& s.stage() == SwapStage::Approving
                        &&& s.pay_token() == TrackedToken::ckUSDT
                        &&& s.pay_amount() == usdt_amount_e6
                        &&& s.receive_token() == token
                        &&& s.max_slippage_bps() == MAX_SLIPPAGE_BPS
                    },
                    RebalanceAction::Sell { .. } => final(self).stage() == CycleStage::ReadingPrice,
                },
                (CycleStage::ReadingPrice, CycleEvent::Price(Err(e))) => final(self).result()
                    == Some(Err::<String, IcpiError>(e)) && final(state).full() == old(state).full(),
                (CycleStage::ReadingPrice, CycleEvent::Price(Ok(price))) => final(self).stage()
                    == CycleStage::ReadingBalance && final(self).price_e6() == price,
                (CycleStage::ReadingBalance, CycleEvent::Balance(Err(e))) => final(self).result()
                    == Some(Err::<String, IcpiError>(e)) && final(state).full() == old(state).full(),
                (CycleStage::ReadingBalance, CycleEvent::Balance(Ok(balance))) => old(self).action() matches RebalanceAction::Sell { token, usdt_value_e6 } && {
                    let atoms = atoms_for_value(
                        usdt_value_e6,
                        old(self).price_e6(),
                        decimals_of(token),
                    );
                    if old(self).price_e6() == 0 {
                        final(self).result() matches Some(Err(IcpiError::Other(_))) && final(state).full() == old(state).full()
                    } else if balance@ < atoms {
                        final(self).result() matches Some(
                            Err(IcpiError::Rebalance(RebalanceError::InsufficientBalance { .. })),
                        ) && final(state).full() == old(state).full()
                    } else if atoms == 0 || token == TrackedToken::ckUSDT {
                        &&& final(self).result() matches Some(Err(e))
                        &&& e matches IcpiError::Trading(TradingError::InvalidSwapAmount { .. })
                        &&& recorded(
                            old(state).full(),
                            final(state).full(),
                            old(self).action(),
                            false,
                            failure_note(old(self).action(), e),
                            now,
                        )
                    } else {
                        &&& final(self).stage() == CycleStage::Swapping
                        &&& final(self).swap() matches Some(s)
                        &&& s.stage() == SwapStage::Approving
                        &&& s.pay_token() == token
                        &&& s.pay_amount() == atoms
                        &&& s.receive_token() == TrackedToken::ckUSDT
                        &&& s.max_slippage_bps() == MAX_SLIPPAGE_BPS
                    }
                },
                (CycleStage::Swapping, CycleEvent::Swap(reply)) => old(self).swap() matches Some(
                    before,
                ) && exists|after: SwapFlow|
                    (#[trigger] before.advanced(reply, after)) && match after.result() {
                        // the swap goes on
                        None => final(self).stage() == CycleStage::Swapping && final(self).swap()
                            == Some(after),
                        // the swap is done: the cycle is recorded as a success
                        Some(Ok(done)) => {
                            &&& final(self).result() matches Some(Ok(msg))
                            &&& msg@ == trade_note(old(self).action(), before.pay_amount(), done)
                            &&& recorded(
                                old(state).full(),
                                final(state).full(),
                                old(self).action(),
                                true,
                                trade_note(old(self).action(), before.pay_amount(), done),
                                now,
                            )
                        },
                        // the swap failed: the cycle is recorded as a failure
                        Some(Err(e)) => {
                            &&& final(self).result() == Some(Err::<String, IcpiError>(e))
                            &&& recorded(
                                old(state).full(),
                                final(state).full(),
                                old(self).action(),
                                false,
                                failure_note(old(self).action(), e),
                                now,
                            )
                        },
                    },
                (_, _) => final(self).result() matches Some(
                    Err(IcpiError::System(SystemError::StateCorrupted { .. })),
                ) && final(state).full() == old(state).full(),
            },
    {
        match (self.stage, event) {
            (CycleStage::Finished, _) => {},
            (CycleStage::ReadingState, CycleEvent::State(reply)) => {
                let index = match reply {
                    Ok(index) => index,
                    Err(e) => {
                        self.finish(coordinator, state, Err(e), now);
                        return ;
                    },
                };
                let action = match get_rebalancing_action(
                    index.deviations.as_slice(),
                    &index.ckusdt_balance,
                ) {
                    Ok(a) => a,
                    Err(e) => {
                        proof {
                            assert(false);
                        }
                        self.finish(coordinator, state, Err(e), now);
                        return ;
                    },
                };
                self.action = action;
                match action {
                    RebalanceAction::NoAction => {
                        let msg = "No rebalancing needed (all tokens within tolerance)";
                        self.conclude(coordinator, state, Ok(text(msg)), msg, now);
                    },
                    RebalanceAction::Buy { token, usdt_amount_e6 } => {
                        let pay = Amount::from_u64(usdt_amount_e6);
                        match execute_swap(
                            &TrackedToken::ckUSDT,
                            pay,
                            &token,
                            MAX_SLIPPAGE_BPS as i64,
                            now,
                        ) {
                            Ok(swap) => {
                                self.swap = Some(swap);
                                self.stage = CycleStage::Swapping;
                            },
                            Err(e) => {
                                let words = failure_words(self.action, &e);
                                self.conclude(coordinator, state, Err(e), words.as_str(), now);
                            },
                        }
                    },
                    RebalanceAction::Sell { token, usdt_value_e6 } => {
                        self.stage = CycleStage::ReadingPrice;
                    },
                }
            },
            (CycleStage::ReadingPrice, CycleEvent::Price(reply)) => {
                match reply {
                    Ok(price) => {
                        self.price_e6 = price;
                        self.stage = CycleStage::ReadingBalance;
                    },
                    Err(e) => {
                        self.finish(coordinator, state, Err(e), now);
                    },
                }
            },
            (CycleStage::ReadingBalance, CycleEvent::Balance(reply)) => {
                let balance = match reply {
                    Ok(b) => b,
                    Err(e) => {
                        self.finish(coordinator, state, Err(e), now);
                        return ;
                    },
                };
                match self.action {
                    RebalanceAction::Sell { token, usdt_value_e6 } => {
                        let token_amount = match sell_amount(
                            &token,
                            usdt_value_e6,
                            self.price_e6,
                            &balance,
                        ) {
                            Ok(a) => a,
                            Err(e) => {
                                self.finish(coordinator, state, Err(e), now);
                                return ;
                            },
                        };
                        match execute_swap(
                            &token,
                            token_amount,
                            &TrackedToken::ckUSDT,
                            MAX_SLIPPAGE_BPS as i64,
                            now,
                        ) {
                            Ok(swap) => {
                                self.swap = Some(swap);
                                self.stage = CycleStage::Swapping;
                            },
                            Err(e) => {
                                let words = failure_words(self.action, &e);
                                self.conclude(coordinator, state, Err(e), words.as_str(), now);
                            },
                        }
                    },
                    _ => {
                        proof {
                            assert(false);
                        }
                    },
                }
            },
            (CycleStage::Swapping, CycleEvent::Swap(swap_event)) => {
                let taken = self.swap.take();
                match taken {
                    Some(mut swap) => {
                        let ghost before = swap;
                        swap.advance(swap_event);
                        let ghost after = swap;
                        proof {
                            assert(before.advanced(swap_event, after));
                        }
                        if swap.is_finished() {
                            let paid = swap.paid().duplicate();
                            match swap.into_result() {
                                Some(Ok(done)) => {
                                    let words = trade_words(self.action, &paid, &done);
                                    let msg = words.clone();
                                    self.conclude(coordinator, state, Ok(msg), words.as_str(), now);
                                },
                                Some(Err(e)) => {
                                    let words = failure_words(self.action, &e);
                                    self.conclude(coordinator, state, Err(e), words.as_str(), now);
                                },
                                None => {
                                    proof {
                                        assert(false);
                                    }
                                },
                            }
                        } else {
                            self.swap = Some(swap);
                            proof {
                                after.lemma_result_when_finished();
                            }
                        }
                    },
                    None => {
                        proof {
                            assert(false);
                        }
                    },
                }
            },
            (_, _) => {
                self.finish(
                    coordinator,
                    state,
                    Err(
                        IcpiError::System(
                            SystemError::StateCorrupted {
                                reason: text("Unexpected reply to a rebalancing cycle"),
                            },
                        ),
                    ),
                    now,
                );
            },
        }
    }

    /// The outcome of a finished cycle. An unfinished cycle has no outcome yet.
    pub fn into_result(self) -> (r: Option<Result<String, IcpiError>>)
        requires
            self.wf(),
        ensures
            r == self.result(),
            self.stage() != CycleStage::Finished ==> r is None,
            self.stage() == CycleStage::Finished ==> r is Some,
    {
        self.result
    }
}

/// A cycle was asked for at `now` with the coordinator at `before` and the
/// rebalancer at `state_before`; `r`, with `after` and `state_after`, is what
/// came of it.
///
/// The cycle is refused while the system is paused, while another cycle runs,
/// and while the global state does not admit a rebalance: a mint or burn in
/// flight refuses it with `CriticalOperationInProgress`. On refusal no cycle is
/// left running and nothing has changed. An accepted cycle waits for the state
/// of the index, with the global operation at `Rebalancing`.
pub open spec fn cycle_asked_for(
    paused: bool,
    before: Coordinator,
    state_before: RebalanceState,
    now: u64,
    after: Coordinator,
    state_after: RebalanceState,
    r: Result<RebalanceFlow, IcpiError>,
) -> bool {
    &&& (after.wf())
    &&& (before.consistent() ==> after.consistent())
    &&& (after.same_guards(&before))
    &&& (after.last_end() == before.last_end())
    &&& (state_after.wf() == state_before.wf())
    &&& (state_after.full() == state_before.full())
    &&& (state_after.recent() == state_before.recent())
    &&& (state_after.last_rebalance() == state_before.last_rebalance())
    &&& (state_after.timer_active() == state_before.timer_active())
    &&& (r is Ok <==> !paused && !state_before.in_progress() && start_outcome(
            before.current(),
            GlobalOperation::Rebalancing,
            before.last_end(),
            now,
        ) is Accepted)
    &&& (r matches Ok(flow) ==> {
            &&& flow.wf()
            &&& flow.stage() == CycleStage::ReadingState
            &&& flow.result() is None
            &&& state_after.in_progress()
            &&& after.current() == GlobalOperation::Rebalancing
        })
    &&& (r is Err ==> {
            &&& state_after.in_progress() == state_before.in_progress()
            &&& after.current() == before.current()
        })
    &&& (paused ==> (r matches Err(IcpiError::Other(msg)) && msg@
            == "System is emergency paused"@))
    &&& (!paused && state_before.in_progress() ==> r matches Err(
            IcpiError::Rebalance(RebalanceError::RebalancingInProgress),
        ))
    &&& (!paused && !state_before.in_progress() ==> refusal_matches(
            start_outcome(
                before.current(),
                GlobalOperation::Rebalancing,
                before.last_end(),
                now,
            ),
            r,
        ))
}

/// Begin a rebalancing cycle at time `now`, by hand.
///
/// The cycle is refused while the system is paused, while another cycle runs,
/// and while the global state does not admit a rebalance. On refusal no cycle is
/// left running. Nothing is sent before the cycle is accepted.
pub fn perform_rebalance(
    admin: &AdminState,
    coordinator: &mut Coordinator,
    state: &mut RebalanceState,
    now: u64,
) -> (r: Result<RebalanceFlow, IcpiError>)
    requires
        old(coordinator).wf(),
    ensures
        final(coordinator).wf(),
        old(coordinator).consistent() ==> final(coordinator).consistent(),
        cycle_asked_for(
            admin.paused(),
            *old(coordinator),
            *old(state),
            now,
            *final(coordinator),
            *final(state),
            r,
        ),
{
    match check_not_paused(admin) {
        Ok(()) => {},
        Err(e) => {
            return Err(e);
        },
    }
    match begin_cycle(state) {
        Ok(()) => {},
        Err(e) => {
            return Err(e);
        },
    }
    match coordinator.enter_rebalance(now) {
        Ok(()) => {},
        Err(e) => {
            state.finish_rebalance();
            return Err(e);
        },
    }
    Ok(
        RebalanceFlow {
            stage: CycleStage::ReadingState,
            action: RebalanceAction::NoAction,
            price_e6: 0,
            swap: None,
            result: None,
        },
    )
}

/// Begin a rebalancing cycle by hand: the same as `perform_rebalance`.
pub fn trigger_manual_rebalance(
    admin: &AdminState,
    coordinator: &mut Coordinator,
    state: &mut RebalanceState,
    now: u64,
) -> (r: Result<RebalanceFlow, IcpiError>)
    requires
        old(coordinator).wf(),
    ensures
        final(coordinator).wf(),
        old(coordinator).consistent() ==> final(coordinator).consistent(),
        cycle_asked_for(
            admin.paused(),
            *old(coordinator),
            *old(state),
            now,
            *final(coordinator),
            *final(state),
            r,
        ),
{
    perform_rebalance(admin, coordinator, state, now)
}

/// Begin the rebalancing cycle that the timer asks for at time `now`: the same
/// as `perform_rebalance`.
pub fn hourly_rebalance(
    admin: &AdminState,
    coordinator: &mut Coordinator,
    state: &mut RebalanceState,
    now: u64,
) -> (r: Result<RebalanceFlow, IcpiError>)
    requires
        old(coordinator).wf(),
    ensures
        final(coordinator).wf(),
        old(coordinator).consistent() ==> final(coordinator).consistent(),
        cycle_asked_for(
            admin.paused(),
            *old(coordinator),
            *old(state),
            now,
            *final(coordinator),
            *final(state),
            r,
        ),
{
    perform_rebalance(admin, coordinator, state, now)
}

} // verus!
