//! The burn pipeline.
//!
//! A burn is a sequence of exchanges with the ledgers. This module decides, for
//! each reply, what the next request is; sending the requests is left to the
//! caller. The burn guard is held from the start of a burn until it finishes,
//! whether with a result or with an error.

use vstd::prelude::*;
use crate::admin::{check_not_paused, AdminState};
use crate::amount::Amount;
use crate::burn_validator::{
    burn_balance_verdict, burn_key, burn_supply_verdict, check_burn_balance, check_burn_supply,
    check_fee_allowance, fee_allowance_verdict, validate_burn_request,
};
use crate::constants::{MINT_FEE_AMOUNT, MIN_BURN_AMOUNT, OPERATION_COOLDOWN_NANOS};
use crate::errors::{BurnError, IcpiError, QueryError, SystemError, ValidationError};
use crate::ledger::{
    burn_pull_result, burn_pull_verdict, collection_result, collection_verdict,
    TransferFromOutcome, TransferOutcome,
};
use crate::math::{calculate_redemptions, entries_view, lemma_burn_cap, redemptions_of, within_burn_cap};
use crate::principal::{anonymous_bytes, principal_text, Principal};
use crate::rate_limit::RateLimiter;
use crate::reentrancy::{
    end_outcome, lemma_push_then_remove, refusal_matches, start_outcome, BurnGuard, Coordinator,
    GlobalOperation, StartOutcome,
};
use crate::strings::text;

verus! {

/// What a burn came to, asset by asset.
#[derive(Debug)]
pub struct BurnResult {
    /// Symbol and amount of each redemption that reached the caller.
    pub successful_transfers: Vec<(String, Amount)>,
    /// Symbol, amount and reason of each redemption that did not.
    pub failed_transfers: Vec<(String, Amount, String)>,
    pub icpi_burned: Amount,
    pub timestamp: u64,
}

/// Failed transfers as plain values.
pub open spec fn failures_view(s: Seq<(String, Amount, String)>) -> Seq<(Seq<char>, nat, Seq<char>)> {
    Seq::new(s.len(), |i: int| (s[i].0@, s[i].1@, s[i].2@))
}

/// Where a burn stands: the reply it waits for.
#[derive(Debug, Clone, Copy, PartialEq, Eq, Structural)]
pub enum BurnStage {
    CheckingAllowance,
    ReadingSupply,
    ReadingBalance,
    CollectingFee,
    PullingTokens,
    ReadingBasket,
    Distributing,
    Finished,
}

/// A reply from a ledger.
#[derive(Debug)]
pub enum BurnEvent {
    /// The caller's allowance for the fee, or why it could not be read.
    Allowance(Result<Amount, String>),
    /// The total supply of the index token, or why it could not be read.
    Supply(Result<Amount, String>),
    /// The caller's balance of index tokens, or why it could not be read.
    UserBalance(Result<Amount, String>),
    FeeCollected(TransferFromOutcome),
    TokensPulled(TransferFromOutcome),
    /// The system's balance of each basket token, or why they could not be read.
    Basket(Result<Vec<(String, Amount)>, String>),
    Transferred(TransferOutcome),
}

/// The next request to send.
#[derive(Debug)]
pub enum BurnAction {
    QueryFeeAllowance { owner: Principal },
    QuerySupply,
    QueryUserBalance { owner: Principal },
    CollectFee { from: Principal, amount: Amount },
    PullTokens { from: Principal, amount: Amount },
    QueryBasket,
    Transfer { symbol: String, to: Principal, amount: Amount },
    /// Nothing more to send: the burn has finished.
    Finish,
}

/// A burn in flight.
#[derive(Debug)]
pub struct BurnFlow {
    caller: Principal,
    amount: Amount,
    stage: BurnStage,
    guard: BurnGuard,
    supply: Amount,
    redemptions: Vec<(String, Amount)>,
    successful: Vec<(String, Amount)>,
    failed: Vec<(String, Amount, String)>,
    error: Option<IcpiError>,
    finished_at: u64,
}

impl BurnFlow {
    pub closed spec fn stage(&self) -> BurnStage {
        self.stage
    }

    pub closed spec fn caller(&self) -> Seq<u8> {
        self.caller@
    }

    /// Index atoms to burn.
    pub closed spec fn amount(&self) -> nat {
        self.amount@
    }

    /// The supply read for this burn.
    pub closed spec fn supply(&self) -> nat {
        self.supply@
    }

    /// What the caller is owed, asset by asset.
    pub closed spec fn redemptions(&self) -> Seq<(Seq<char>, nat)> {
        entries_view(self.redemptions@)
    }

    /// The redemptions transferred so far.
    pub closed spec fn successful(&self) -> Seq<(Seq<char>, nat)> {
        entries_view(self.successful@)
    }

    /// The redemptions whose transfer failed, each with the reason.
    pub closed spec fn failed(&self) -> Seq<(Seq<char>, nat, Seq<char>)> {
        failures_view(self.failed@)
    }

    /// The error the burn ended with, if it did.
    pub closed spec fn error(&self) -> Option<IcpiError> {
        self.error
    }

    /// When the burn finished.
    pub closed spec fn finished_at(&self) -> u64 {
        self.finished_at
    }

    /// The number of redemptions settled so far, one way or the other.
    pub open spec fn settled(&self) -> int {
        (self.successful().len() + self.failed().len()) as int
    }

    /// The flow is as its own functions leave it: it holds its caller's guard,
    /// the burn reaches the minimum, no more is settled than is owed, and an
    /// error stands exactly where the burn ended with one.
    pub closed spec fn wf(&self) -> bool {
        &&& self.guard.user() == self.caller@
        &&& self.amount@ >= MIN_BURN_AMOUNT
        &&& self.settled() <= self.redemptions().len()
        &&& self.stage != BurnStage::Finished ==> self.error.is_none()
        &&& self.stage == BurnStage::Distributing ==> self.settled() < self.redemptions().len()
        &&& (self.stage == BurnStage::Finished && self.error.is_none()) ==> self.settled()
            == self.redemptions().len() && self.redemptions().len() > 0
        &&& (self.stage == BurnStage::ReadingBalance || self.stage == BurnStage::CollectingFee
            || self.stage == BurnStage::PullingTokens || self.stage == BurnStage::ReadingBasket)
            ==> self.supply@ > 0 && within_burn_cap(self.amount@, self.supply@)
        &&& (self.stage == BurnStage::CheckingAllowance || self.stage == BurnStage::ReadingSupply
            || self.stage == BurnStage::ReadingBalance || self.stage == BurnStage::CollectingFee
            || self.stage == BurnStage::PullingTokens || self.stage == BurnStage::ReadingBasket)
            ==> self.redemptions().len() == 0 && self.settled() == 0
    }

    /// The request that the burn waits to have answered.
    pub fn next_action(&self) -> (r: BurnAction)
        requires
            self.wf(),
        ensures
            match self.stage() {
                BurnStage::CheckingAllowance => r matches BurnAction::QueryFeeAllowance { owner }
                    && owner@ == self.caller(),
                BurnStage::ReadingSupply => r is QuerySupply,
                BurnStage::ReadingBalance => r matches BurnAction::QueryUserBalance { owner }
                    && owner@ == self.caller(),
                BurnStage::CollectingFee => r matches BurnAction::CollectFee { from, amount }
                    && from@ == self.caller() && amount@ == MINT_FEE_AMOUNT,
                BurnStage::PullingTokens => r matches BurnAction::PullTokens { from, amount }
                    && from@ == self.caller() && amount@ == self.amount(),
                BurnStage::ReadingBasket => r is QueryBasket,
                BurnStage::Distributing => r matches BurnAction::Transfer { symbol, to, amount }
                    && to@ == self.caller() && (symbol@, amount@) == self.redemptions()[self.settled()],
                BurnStage::Finished => r is Finish,
            },
    {
        match self.stage {
            BurnStage::CheckingAllowance => BurnAction::QueryFeeAllowance {
                owner: self.caller.duplicate(),
            },
            BurnStage::ReadingSupply => BurnAction::QuerySupply,
            BurnStage::ReadingBalance => BurnAction::QueryUserBalance {
                owner: self.caller.duplicate(),
            },
            BurnStage::CollectingFee => BurnAction::CollectFee {
                from: self.caller.duplicate(),
                amount: Amount::from_u64(MINT_FEE_AMOUNT),
            },
            BurnStage::PullingTokens => BurnAction::PullTokens {
                from: self.caller.duplicate(),
                amount: self.amount.duplicate(),
            },
            BurnStage::ReadingBasket => BurnAction::QueryBasket,
            BurnStage::Distributing => {
                proof {
                    assert(self.redemptions().len() == self.redemptions@.len());
                    assert(self.successful().len() == self.successful@.len());
                    assert(self.failed().len() == self.failed@.len());
                }
                let total: usize = self.redemptions.len();
                let k: usize = self.successful.len() + self.failed.len();
                let entry = &self.redemptions[k];
                BurnAction::Transfer {
                    symbol: entry.0.clone(),
                    to: self.caller.duplicate(),
                    amount: entry.1.duplicate(),
                }
            },
            BurnStage::Finished => BurnAction::Finish,
        }
    }

    /// Whether the burn has finished.
    pub fn is_finished(&self) -> (r: bool)
        ensures
            r == (self.stage() == BurnStage::Finished),
    {
        self.stage == BurnStage::Finished
    }

    /// End the burn with `error`: the guard is given back.
    fn fail(&mut self, coordinator: &mut Coordinator, error: IcpiError, now: u64)
        requires
            old(self).wf(),
            old(coordinator).wf(),
            old(self).stage() != BurnStage::Finished,
        ensures
            final(self).wf(),
            final(coordinator).wf(),
            old(coordinator).consistent() ==> final(coordinator).consistent(),
            final(self).stage() == BurnStage::Finished,
            final(self).error() == Some(error),
            final(self).caller() == old(self).caller(),
            final(self).amount() == old(self).amount(),
            final(self).supply() == old(self).supply(),
            final(self).redemptions() == old(self).redemptions(),
            final(self).successful() == old(self).successful(),
            final(self).failed() == old(self).failed(),
            final(self).finished_at() == now,
            !final(coordinator).active_burns().contains(final(self).caller()),
            final(coordinator).active_burns() == old(coordinator).active_burns().remove_value(
                old(self).caller(),
            ),
            final(coordinator).active_mints() == old(coordinator).active_mints(),
            final(coordinator).current() == end_outcome(
                old(coordinator).current(),
                GlobalOperation::Burning,
                final(coordinator).any_guard_held(),
            ),
    {
        self.stage = BurnStage::Finished;
        self.error = Some(error);
        self.finished_at = now;
        coordinator.leave_burn(&self.guard, now);
    }

    /// Take the reply `event`, received at `now`, and move on.
    ///
    /// A reply that the burn was not waiting for ends it with `StateCorrupted`.
    /// Once the index tokens are pulled, a failed transfer of one asset does not
    /// stop the others: it is recorded and the distribution goes on.
    pub fn advance(&mut self, coordinator: &mut Coordinator, event: BurnEvent, now: u64)
        requires
            old(self).wf(),
            old(coordinator).wf(),
        ensures
            final(self).wf(),
            final(coordinator).wf(),
            old(coordinator).consistent() ==> final(coordinator).consistent(),
            final(self).caller() == old(self).caller(),
            final(self).amount() == old(self).amount(),
            final(coordinator).active_mints() == old(coordinator).active_mints(),
            // the guard is held until the burn finishes, and given back when it does
            final(self).stage() != BurnStage::Finished ==> final(coordinator).same_guards(
                old(coordinator),
            ) && final(coordinator).same_operation(old(coordinator)),
            // at the finishing step the caller's guard alone is given back, and the
            // global operation is ended
            old(self).stage() != BurnStage::Finished && final(self).stage() == BurnStage::Finished
                ==> {
                &&& !final(coordinator).active_burns().contains(final(self).caller())
                &&& final(coordinator).active_burns() == old(coordinator).active_burns().remove_value(
                    old(self).caller(),
                )
                &&& final(coordinator).current() == end_outcome(
                    old(coordinator).current(),
                    GlobalOperation::Burning,
                    final(coordinator).any_guard_held(),
                )
                &&& final(self).finished_at() == now
            },
            old(self).stage() == BurnStage::Finished ==> {
                &&& final(self).stage() == BurnStage::Finished
                &&& final(self).error() == old(self).error()
                &&& final(self).successful() == old(self).successful()
                &&& final(self).failed() == old(self).failed()
                &&& final(self).redemptions() == old(self).redemptions()
                &&& final(self).finished_at() == old(self).finished_at()
                &&& final(coordinator).same_guards(old(coordinator))
                &&& final(coordinator).same_operation(old(coordinator))
            },
            final(self).error() is Some ==> final(self).stage() == BurnStage::Finished,
            match (old(self).stage(), event) {
                (BurnStage::Finished, _) => true,
                (BurnStage::CheckingAllowance, BurnEvent::Allowance(reply)) => match final(self).error() {
                    Some(e) => fee_allowance_verdict(reply, Err(e)),
                    None => fee_allowance_verdict(reply, Ok(())) && final(self).stage()
                        == BurnStage::ReadingSupply,
                },
                (BurnStage::ReadingSupply, BurnEvent::Supply(reply)) => match final(self).error() {
                    Some(e) => burn_supply_verdict(reply, old(self).amount(), Err(e)),
                    None => reply matches Ok(s) && s@ != 0 && within_burn_cap(
                        old(self).amount(),
                        s@,
                    ) && final(self).supply() == s@ && final(self).stage()
                        == BurnStage::ReadingBalance,
                },
                (BurnStage::ReadingBalance, BurnEvent::UserBalance(reply)) => final(self).supply()
                    == old(self).supply() && match final(self).error() {
                    Some(e) => burn_balance_verdict(reply, old(self).amount(), Err(e)),
                    None => burn_balance_verdict(reply, old(self).amount(), Ok(())) && final(self).stage() == BurnStage::CollectingFee,
                },
                (BurnStage::CollectingFee, BurnEvent::FeeCollected(outcome)) => final(self).supply()
                    == old(self).supply() && match final(self).error() {
                    Some(e) => collection_verdict(outcome, "collect_fee"@, Err(e)),
                    None => outcome is Transferred && final(self).stage()
                        == BurnStage::PullingTokens,
                },
                (BurnStage::PullingTokens, BurnEvent::TokensPulled(outcome)) => final(self).supply()
                    == old(self).supply() && match final(self).error() {
                    Some(e) => burn_pull_verdict(outcome, old(self).amount(), Err(e)),
                    None => outcome is Transferred && final(self).stage()
                        == BurnStage::ReadingBasket,
                },
                (BurnStage::ReadingBasket, BurnEvent::Basket(reply)) => final(self).supply() == old(self).supply() && match reply {
                    Err(why) => {
                        &&& final(self).error() matches Some(
                            IcpiError::Query(QueryError::CanisterUnreachable { reason, .. }),
                        )
                        &&& reason@ == why@
                    },
                    Ok(balances) => {
                        let owed = redemptions_of(
                            old(self).amount(),
                            old(self).supply(),
                            entries_view(balances@),
                        );
                        if owed.len() == 0 {
                            final(self).error() matches Some(
                                IcpiError::Burn(BurnError::NoRedemptionsPossible { .. }),
                            )
                        } else {
                            &&& final(self).error() is None
                            &&& final(self).stage() == BurnStage::Distributing
                            &&& final(self).redemptions() == owed
                            &&& final(self).settled() == 0
                        }
                    },
                },
                (BurnStage::Distributing, BurnEvent::Transferred(outcome)) => {
                    let due = old(self).redemptions()[old(self).settled()];
                    &&& final(self).error() is None
                    &&& final(self).supply() == old(self).supply()
                    &&& final(self).redemptions() == old(self).redemptions()
                    &&& final(self).stage() == if old(self).settled() + 1 == old(self).redemptions().len() {
                        BurnStage::Finished
                    } else {
                        BurnStage::Distributing
                    }
                    &&& match outcome {
                        TransferOutcome::Transferred { .. } => final(self).successful() == old(self).successful().push(due) && final(self).failed() == old(self).failed(),
                        TransferOutcome::Rejected { reason } => final(self).successful() == old(self).successful() && final(self).failed() == old(self).failed().push(
                            (due.0, due.1, reason@),
                        ),
                        TransferOutcome::CallFailed { reason } => final(self).successful() == old(self).successful() && final(self).failed() == old(self).failed().push(
                            (due.0, due.1, reason@),
                        ),
                    }
                },
                (_, _) => final(self).error() matches Some(
                    IcpiError::System(SystemError::StateCorrupted { .. }),
                ),
            },
    {
        match (self.stage, event) {
            (BurnStage::Finished, _) => {},
            (BurnStage::CheckingAllowance, BurnEvent::Allowance(reply)) => {
                match check_fee_allowance(reply) {
                    Ok(()) => {
                        self.stage = BurnStage::ReadingSupply;
                    },
                    Err(e) => {
                        self.fail(coordinator, e, now);
                    },
                }
            },
            (BurnStage::ReadingSupply, BurnEvent::Supply(reply)) => {
                match check_burn_supply(reply, &self.amount) {
                    Ok(supply) => {
                        self.supply = supply;
                        self.stage = BurnStage::ReadingBalance;
                    },
                    Err(e) => {
                        self.fail(coordinator, e, now);
                    },
                }
            },
            (BurnStage::ReadingBalance, BurnEvent::UserBalance(reply)) => {
                match check_burn_balance(reply, &self.amount) {
                    Ok(()) => {
                        self.stage = BurnStage::CollectingFee;
                    },
                    Err(e) => {
                        self.fail(coordinator, e, now);
                    },
                }
            },
            (BurnStage::CollectingFee, BurnEvent::FeeCollected(outcome)) => {
                match collection_result(outcome, "collect_fee") {
                    Ok(_) => {
                        self.stage = BurnStage::PullingTokens;
                    },
                    Err(e) => {
                        self.fail(coordinator, e, now);
                    },
                }
            },
            (BurnStage::PullingTokens, BurnEvent::TokensPulled(outcome)) => {
                match burn_pull_result(outcome, &self.amount) {
                    Ok(_) => {
                        self.stage = BurnStage::ReadingBasket;
                    },
                    Err(e) => {
                        self.fail(coordinator, e, now);
                    },
                }
            },
            (BurnStage::ReadingBasket, BurnEvent::Basket(reply)) => {
                match reply {
                    Err(why) => {
                        self.fail(
                            coordinator,
                            IcpiError::Query(
                                QueryError::CanisterUnreachable {
                                    canister: text("basket ledgers"),
                                    reason: why,
                                },
                            ),
                            now,
                        );
                    },
                    Ok(balances) => {
                        proof {
                            lemma_burn_cap(self.amount@, self.supply@);
                        }
                        match calculate_redemptions(&self.amount, &self.supply, balances.as_slice()) {
                            Ok(owed) => {
                                self.redemptions = owed;
                                self.stage = BurnStage::Distributing;
                            },
                            Err(e) => {
                                self.fail(coordinator, e, now);
                            },
                        }
                    },
                }
            },
            (BurnStage::Distributing, BurnEvent::Transferred(outcome)) => {
                proof {
                    assert(self.redemptions().len() == self.redemptions@.len());
                    assert(self.successful().len() == self.successful@.len());
                    assert(self.failed().len() == self.failed@.len());
                }
                let total: usize = self.redemptions.len();
                let k: usize = self.successful.len() + self.failed.len();
                let symbol = self.redemptions[k].0.clone();
                let amount = self.redemptions[k].1.duplicate();
                let ghost successful_before = self.successful();
                let ghost failed_before = self.failed();
                let ghost due = self.redemptions()[k as int];
                match outcome {
                    TransferOutcome::Transferred { block } => {
                        self.successful.push((symbol, amount));
                        proof {
                            assert(self.successful() =~= successful_before.push(due));
                        }
                    },
                    TransferOutcome::Rejected { reason } => {
                        self.failed.push((symbol, amount, reason));
                        proof {
                            assert(self.failed() =~= failed_before.push((due.0, due.1, reason@)));
                        }
                    },
                    TransferOutcome::CallFailed { reason } => {
                        self.failed.push((symbol, amount, reason));
                        proof {
                            assert(self.failed() =~= failed_before.push((due.0, due.1, reason@)));
                        }
                    },
                }
                if k + 1 == total {
                    self.stage = BurnStage::Finished;
                    self.finished_at = now;
                    coordinator.leave_burn(&self.guard, now);
                }
            },
            (_, _) => {
                self.fail(
                    coordinator,
                    IcpiError::System(
                        SystemError::StateCorrupted { reason: text("Unexpected reply to a burn") },
                    ),
                    now,
                );
            },
        }
    }

    /// The outcome of a finished burn: the error it ended with, or the record of
    /// what was transferred. Successes and failures together cover every
    /// redemption. An unfinished burn has no outcome yet.
    pub fn into_result(self) -> (r: Option<Result<BurnResult, IcpiError>>)
        requires
            self.wf(),
        ensures
            self.stage() != BurnStage::Finished ==> r is None,
            self.stage() == BurnStage::Finished ==> match self.error() {
                Some(e) => r == Some(Err::<BurnResult, IcpiError>(e)),
                None => {
                    &&& r matches Some(Ok(result))
                    &&& entries_view(result.successful_transfers@) == self.successful()
                    &&& failures_view(result.failed_transfers@) == self.failed()
                    &&& result.icpi_burned@ == self.amount()
                    &&& result.timestamp == self.finished_at()
                    &&& result.successful_transfers@.len() + result.failed_transfers@.len()
                        == self.redemptions().len()
                },
            },
    {
        if self.stage != BurnStage::Finished {
            return None;
        }
        match self.error {
            Some(e) => Some(Err(e)),
            None => Some(
                Ok(
                    BurnResult {
                        successful_transfers: self.successful,
                        failed_transfers: self.failed,
                        icpi_burned: self.amount,
                        timestamp: self.finished_at,
                    },
                ),
            ),
        }
    }
}

/// A call to burn is admitted: the system is not paused, the caller has no burn
/// in flight, and the global state admits a burn.
pub open spec fn burn_admitted(paused: bool, coordinator: Coordinator, caller: Seq<u8>, now: u64) -> bool {
    !paused && !coordinator.active_burns().contains(caller) && start_outcome(
        coordinator.current(),
        GlobalOperation::Burning,
        coordinator.last_end(),
        now,
    ) is Accepted
}

/// Begin a burn of `amount` index atoms for `caller` at time `now`.
///
/// The burn is refused while the system is paused, while the caller has another
/// burn in flight, while the global state does not admit a burn, and where the
/// request is invalid. On refusal the caller holds no burn guard that it did not
/// hold before.
pub fn burn_icpi(
    admin: &AdminState,
    coordinator: &mut Coordinator,
    limiter: &mut RateLimiter,
    caller: Principal,
    amount: Amount,
    now: u64,
) -> (r: Result<BurnFlow, IcpiError>)
    requires
        old(coordinator).wf(),
        old(limiter).wf(),
    ensures
        final(coordinator).wf(),
        final(limiter).wf(),
        old(coordinator).consistent() ==> final(coordinator).consistent(),
        final(coordinator).active_mints() == old(coordinator).active_mints(),
        r is Ok <==> {
            &&& !admin.paused()
            &&& !old(coordinator).active_burns().contains(caller@)
            &&& start_outcome(
                old(coordinator).current(),
                GlobalOperation::Burning,
                old(coordinator).last_end(),
                now,
            ) is Accepted
            &&& caller@ != anonymous_bytes()
            &&& amount@ >= MIN_BURN_AMOUNT
            &&& !old(limiter).limited(burn_key(caller@), OPERATION_COOLDOWN_NANOS, now)
        },
        // a burn left in flight holds the guard, and the operation is under way
        r matches Ok(flow) ==> {
            &&& flow.wf()
            &&& flow.stage() == BurnStage::CheckingAllowance
            &&& flow.error() is None
            &&& flow.caller() == caller@
            &&& flow.amount() == amount@
            &&& final(coordinator).active_burns() == old(coordinator).active_burns().push(caller@)
            &&& start_outcome(
                old(coordinator).current(),
                GlobalOperation::Burning,
                old(coordinator).last_end(),
                now,
            ) == StartOutcome::Accepted(final(coordinator).current())
            &&& final(coordinator).last_end() == old(coordinator).last_end()
            &&& final(limiter).last_seen(burn_key(caller@)) == Some(now)
        },
        // a refused burn leaves every guard as it was
        r is Err ==> {
            &&& final(coordinator).active_burns() == old(coordinator).active_burns()
            &&& forall|k: Seq<char>| final(limiter).last_seen(k) == old(limiter).last_seen(k)
        },
        // a call that is not admitted changes nothing in the coordinator
        !burn_admitted(admin.paused(), *old(coordinator), caller@, now) ==> {
            &&& r is Err
            &&& final(coordinator).same_guards(old(coordinator))
            &&& final(coordinator).same_operation(old(coordinator))
        },
        // an admitted call that is refused ends the operation it began
        burn_admitted(admin.paused(), *old(coordinator), caller@, now) && r is Err ==> {
            &&& start_outcome(
                old(coordinator).current(),
                GlobalOperation::Burning,
                old(coordinator).last_end(),
                now,
            ) matches StartOutcome::Accepted(entered)
            &&& final(coordinator).current() == end_outcome(
                entered,
                GlobalOperation::Burning,
                old(coordinator).any_guard_held(),
            )
        },
        admin.paused() ==> (r matches Err(IcpiError::Other(msg)) && msg@
            == "System is emergency paused"@),
        !admin.paused() && old(coordinator).active_burns().contains(caller@) ==> {
            &&& r matches Err(
                IcpiError::System(SystemError::OperationInProgress { operation, user }),
            )
            &&& operation@ == "burn"@
            &&& user@ == principal_text(caller@)
        },
        (!admin.paused() && !old(coordinator).active_burns().contains(caller@) && !(start_outcome(
            old(coordinator).current(),
            GlobalOperation::Burning,
            old(coordinator).last_end(),
            now,
        ) is Accepted)) ==> refusal_matches(
            start_outcome(
                old(coordinator).current(),
                GlobalOperation::Burning,
                old(coordinator).last_end(),
                now,
            ),
            r,
        ),
        (!admin.paused() && !old(coordinator).active_burns().contains(caller@) && start_outcome(
            old(coordinator).current(),
            GlobalOperation::Burning,
            old(coordinator).last_end(),
            now,
        ) is Accepted) ==> {
            &&& (caller@ == anonymous_bytes() ==> (r matches Err(
                IcpiError::Validation(ValidationError::InvalidPrincipal { .. }),
            )))
            &&& (caller@ != anonymous_bytes() && amount@ < MIN_BURN_AMOUNT ==> (r matches Err(
                IcpiError::Burn(BurnError::AmountBelowMinimum { .. }),
            )))
            &&& (caller@ != anonymous_bytes() && amount@ >= MIN_BURN_AMOUNT && old(limiter).limited(
                burn_key(caller@),
                OPERATION_COOLDOWN_NANOS,
                now,
            ) ==> (r matches Err(IcpiError::Other(msg)) && msg@ == "Rate limit exceeded"@))
        },
{
    match check_not_paused(admin) {
        Ok(()) => {},
        Err(e) => {
            return Err(e);
        },
    }
    let guard = match coordinator.enter_burn(caller.duplicate(), now) {
        Ok(g) => g,
        Err(e) => {
            return Err(e);
        },
    };
    match validate_burn_request(&caller, &amount, limiter, now) {
        Ok(()) => {},
        Err(e) => {
            coordinator.leave_burn(&guard, now);
            proof {
                lemma_push_then_remove(old(coordinator).active_burns(), caller@);
            }
            return Err(e);
        },
    }
    let flow = BurnFlow {
        caller,
        amount,
        stage: BurnStage::CheckingAllowance,
        guard,
        supply: Amount::zero(),
        redemptions: Vec::new(),
        successful: Vec::new(),
        failed: Vec::new(),
        error: None,
        finished_at: 0,
    };
    proof {
        assert(flow.redemptions() =~= Seq::empty());
        assert(flow.successful() =~= Seq::empty());
        assert(flow.failed() =~= Seq::empty());
    }
    Ok(flow)
}

} // verus!
