//! The mint state machine.
//!
//! A mint is asked for with `initiate_mint` and carried out with
//! `complete_mint`, which yields a flow: a sequence of exchanges with the
//! ledgers in which this module decides, for each reply, what the next request
//! is. The snapshot of supply and value is taken before the deposit is
//! collected, so that a deposit never counts towards the value it is measured
//! against.

use vstd::prelude::*;
use crate::admin::{check_not_paused, AdminState};
use crate::amount::Amount;
use crate::critical_data::{inconsistent, validate_and_return_snapshot};
use crate::constants::{MINT_FEE_AMOUNT, MIN_MINT_AMOUNT, OPERATION_COOLDOWN_NANOS};
use crate::errors::{IcpiError, MintError, SystemError, ValidationError};
use crate::ledger::{
    collection_result, collection_verdict, mint_icpi_on_ledger, TransferFromOutcome,
    TransferOutcome,
};
use crate::math::{calculate_mint_amount, mint_amount_value};
use crate::mint_state::{
    valid_transition, MintSnapshot, MintStatus, MintStatusView, MintStore, PendingMint,
    PendingMintView,
};
use crate::principal::{anonymous_bytes, principal_text, Principal};
use crate::rate_limit::{check_rate_limit, RateLimiter};
use crate::reentrancy::{
    end_outcome, lemma_push_then_remove, refusal_matches, start_outcome, Coordinator,
    GlobalOperation, MintGuard, StartOutcome,
};
use crate::strings::{decimal_digits, decimal_text, text};

verus! {

/// The rate-limit key of a caller's mints: `mint_` and the caller's text.
pub open spec fn mint_key(caller: Seq<u8>) -> Seq<char> {
    "mint_"@ + principal_text(caller)
}

/// The id of the mint that `caller` asks for at `now`: the caller's text and the
/// time, as `mint_<caller>_<now>`.
pub open spec fn mint_id_of(caller: Seq<u8>, now: u64) -> Seq<char> {
    "mint_"@ + principal_text(caller) + "_"@ + decimal_digits(now as nat)
}

/// Check a mint request at time `now`: the caller is not anonymous, the deposit
/// reaches the minimum, and the caller's last mint lies at least a second back.
/// An accepted request is recorded as the caller's last mint.
pub fn validate_mint_request(caller: &Principal, amount: &Amount, limiter: &mut RateLimiter, now: u64) -> (r:
    Result<(), IcpiError>)
    requires
        old(limiter).wf(),
    ensures
        final(limiter).wf(),
        caller@ == anonymous_bytes() ==> {
            &&& r matches Err(IcpiError::Validation(ValidationError::InvalidPrincipal { principal }))
            &&& principal@ == principal_text(caller@)
        },
        caller@ != anonymous_bytes() && amount@ < MIN_MINT_AMOUNT ==> {
            &&& r matches Err(
                IcpiError::Validation(ValidationError::AmountBelowMinimum { amount: given, minimum }),
            )
            &&& given@ == amount@
            &&& minimum@ == MIN_MINT_AMOUNT
        },
        caller@ != anonymous_bytes() && amount@ >= MIN_MINT_AMOUNT && old(limiter).limited(
            mint_key(caller@),
            OPERATION_COOLDOWN_NANOS,
            now,
        ) ==> (r matches Err(IcpiError::Other(msg)) && msg@ == "Rate limit exceeded"@),
        caller@ != anonymous_bytes() && amount@ >= MIN_MINT_AMOUNT && !old(limiter).limited(
            mint_key(caller@),
            OPERATION_COOLDOWN_NANOS,
            now,
        ) ==> r is Ok && final(limiter).last_seen(mint_key(caller@)) == Some(now),
        r is Err ==> forall|k: Seq<char>| final(limiter).last_seen(k) == old(limiter).last_seen(k),
        forall|k: Seq<char>|
            k != mint_key(caller@) ==> final(limiter).last_seen(k) == old(limiter).last_seen(k),
{
    if caller.is_anonymous() {
        return Err(
            IcpiError::Validation(ValidationError::InvalidPrincipal { principal: caller.to_text() }),
        );
    }
    let minimum = Amount::from_u64(MIN_MINT_AMOUNT);
    if amount.lt(&minimum) {
        return Err(
            IcpiError::Validation(
                ValidationError::AmountBelowMinimum { amount: amount.duplicate(), minimum },
            ),
        );
    }
    let mut key = text("mint_");
    key.append(caller.to_text().as_str());
    check_rate_limit(limiter, key.as_str(), OPERATION_COOLDOWN_NANOS, now)
}

/// Ask for a mint against a deposit of `amount` stable atoms. On success the
/// mint is stored as `Pending` and its id is returned. Nothing is sent to any
/// ledger.
pub fn initiate_mint(
    admin: &AdminState,
    store: &mut MintStore,
    limiter: &mut RateLimiter,
    caller: Principal,
    amount: Amount,
    now: u64,
) -> (r: Result<String, IcpiError>)
    requires
        old(store).wf(),
        old(limiter).wf(),
    ensures
        final(store).wf(),
        final(limiter).wf(),
        r is Ok <==> {
            &&& !admin.paused()
            &&& caller@ != anonymous_bytes()
            &&& amount@ >= MIN_MINT_AMOUNT
            &&& !old(limiter).limited(mint_key(caller@), OPERATION_COOLDOWN_NANOS, now)
        },
        r matches Ok(id) ==> {
            &&& id@ == mint_id_of(caller@, now)
            &&& final(store).get(id@) == Some(
                PendingMintView {
                    id: id@,
                    user: caller@,
                    amount: amount@,
                    status: MintStatusView::Pending,
                    created_at: now,
                    last_updated: now,
                    snapshot: None,
                },
            )
            &&& final(store).same_elsewhere(old(store), id@)
            &&& final(limiter).last_seen(mint_key(caller@)) == Some(now)
        },
        r is Err ==> {
            &&& forall|k: Seq<char>| final(store).get(k) == old(store).get(k)
            &&& forall|k: Seq<char>| final(limiter).last_seen(k) == old(limiter).last_seen(k)
        },
        admin.paused() ==> (r matches Err(IcpiError::Other(msg)) && msg@
            == "System is emergency paused"@),
        !admin.paused() ==> {
            &&& (caller@ == anonymous_bytes() ==> (r matches Err(
                IcpiError::Validation(ValidationError::InvalidPrincipal { principal }),
            ) && principal@ == principal_text(caller@)))
            &&& (caller@ != anonymous_bytes() && amount@ < MIN_MINT_AMOUNT ==> (r matches Err(
                IcpiError::Validation(ValidationError::AmountBelowMinimum { amount: given, minimum }),
            ) && given@ == amount@ && minimum@ == MIN_MINT_AMOUNT))
            &&& (caller@ != anonymous_bytes() && amount@ >= MIN_MINT_AMOUNT && old(limiter).limited(
                mint_key(caller@),
                OPERATION_COOLDOWN_NANOS,
                now,
            ) ==> (r matches Err(IcpiError::Other(msg)) && msg@ == "Rate limit exceeded"@))
        },
{
    match check_not_paused(admin) {
        Ok(()) => {},
        Err(e) => {
            return Err(e);
        },
    }
    match validate_mint_request(&caller, &amount, limiter, now) {
        Ok(()) => {},
        Err(e) => {
            return Err(e);
        },
    }
    let mut mint_id = text("mint_");
    mint_id.append(caller.to_text().as_str());
    mint_id.append("_");
    mint_id.append(decimal_text(now).as_str());
    let pending_mint = PendingMint {
        id: mint_id.clone(),
        user: caller,
        amount,
        status: MintStatus::Pending,
        created_at: now,
        last_updated: now,
        snapshot: None,
    };
    store.store_pending_mint(pending_mint);
    Ok(mint_id)
}

/// Where a mint in flight stands: the reply it waits for.
#[derive(Debug, Clone, Copy, PartialEq, Eq, Structural)]
pub enum MintStage {
    CollectingFee,
    Snapshotting,
    CollectingDeposit,
    Minting,
    Refunding,
    Finished,
}

/// The status that a pending mint has while its flow is at `stage`; none for a
/// flow that has finished.
pub open spec fn stage_status(stage: MintStage) -> Option<MintStatusView> {
    match stage {
        MintStage::CollectingFee => Some(MintStatusView::CollectingFee),
        MintStage::Snapshotting => Some(MintStatusView::Snapshotting),
        MintStage::CollectingDeposit => Some(MintStatusView::CollectingDeposit),
        MintStage::Minting => Some(MintStatusView::Minting),
        MintStage::Refunding => Some(MintStatusView::Refunding),
        MintStage::Finished => None,
    }
}

/// A reply to a mint in flight.
#[derive(Debug)]
pub enum MintEvent {
    FeeCollected(TransferFromOutcome),
    /// Supply and value, read together, or why they could not be read.
    Snapshot(Result<(Amount, Amount), IcpiError>),
    DepositCollected(TransferFromOutcome),
    Minted(TransferOutcome),
    Refunded(TransferOutcome),
}

/// The next request to send for a mint.
#[derive(Debug)]
pub enum MintAction {
    CollectFee { from: Principal, amount: Amount },
    TakeSnapshot,
    CollectDeposit { from: Principal, amount: Amount },
    MintTokens { to: Principal, amount: Amount },
    RefundDeposit { to: Principal, amount: Amount },
    /// Nothing more to send: the mint has finished.
    Finish,
}

/// A mint in flight.
#[derive(Debug)]
pub struct MintFlow {
    caller: Principal,
    mint_id: String,
    deposit: Amount,
    stage: MintStage,
    guard: MintGuard,
    supply: Amount,
    tvl: Amount,
    has_snapshot: bool,
    to_mint: Amount,
    failure: Option<IcpiError>,
    failure_text: String,
    result: Option<Result<Amount, IcpiError>>,
}

/// What is recorded of a failed mint whose deposit went back.
pub open spec fn refunded_reason(failure: Seq<char>) -> Seq<char> {
    failure + ", deposit refunded"@
}

/// What is recorded of a failed mint whose deposit could not be returned: the
/// failure, why the refund failed, and the amount owed.
pub open spec fn unrefunded_reason(failure: Seq<char>, refund_error: Seq<char>, deposit: nat) -> Seq<char> {
    failure + ". Refund failed: "@ + refund_error + ". Amount: "@ + decimal_digits(deposit)
        + ". Contact support."@
}

/// One step of a mint's status, or the two steps that follow a collected
/// deposit: the calculation, then its outcome.
pub open spec fn status_moved(from: MintStatusView, to: MintStatusView) -> bool {
    from == to || valid_transition(from, to) || (valid_transition(
        from,
        MintStatusView::Calculating,
    ) && valid_transition(MintStatusView::Calculating, to))
}

impl MintFlow {
    pub closed spec fn stage(&self) -> MintStage {
        self.stage
    }

    pub closed spec fn caller(&self) -> Seq<u8> {
        self.caller@
    }

    pub closed spec fn mint_id(&self) -> Seq<char> {
        self.mint_id@
    }

    /// The deposit, in stable atoms.
    pub closed spec fn deposit(&self) -> nat {
        self.deposit@
    }

    /// Supply and value of the snapshot, once it has been taken.
    pub closed spec fn snapshot(&self) -> Option<(nat, nat)> {
        if self.has_snapshot {
            Some((self.supply@, self.tvl@))
        } else {
            None
        }
    }

    /// Index atoms to issue, once calculated.
    pub closed spec fn to_mint(&self) -> nat {
        self.to_mint@
    }

    /// What failed, while the deposit is on its way back.
    pub closed spec fn failure_text(&self) -> Seq<char> {
        self.failure_text@
    }

    /// What the mint came to, once finished.
    pub closed spec fn result(&self) -> Option<Result<Amount, IcpiError>> {
        self.result
    }

    /// The flow is as its own functions leave it: it holds its caller's guard,
    /// has a result exactly when finished, and has its snapshot from the
    /// collection of the deposit on.
    pub closed spec fn wf(&self) -> bool {
        &&& self.guard.user() == self.caller@
        &&& (self.stage == MintStage::Finished <==> self.result is Some)
        &&& (self.stage == MintStage::Refunding <==> self.failure is Some)
        &&& (self.stage == MintStage::CollectingDeposit || self.stage == MintStage::Minting)
            ==> self.has_snapshot
        &&& (self.stage == MintStage::CollectingFee || self.stage == MintStage::Snapshotting)
            ==> !self.has_snapshot
    }

    /// The status of this flow's mint in `store`.
    pub open spec fn status_in(&self, store: &MintStore) -> Option<MintStatusView> {
        match store.get(self.mint_id()) {
            Some(m) => Some(m.status),
            None => None,
        }
    }

    /// The request that the mint waits to have answered. The deposit is asked
    /// for only after the snapshot has been taken.
    pub fn next_action(&self) -> (r: MintAction)
        requires
            self.wf(),
        ensures
            match self.stage() {
                MintStage::CollectingFee => r matches MintAction::CollectFee { from, amount }
                    && from@ == self.caller() && amount@ == MINT_FEE_AMOUNT,
                MintStage::Snapshotting => r is TakeSnapshot,
                MintStage::CollectingDeposit => r matches MintAction::CollectDeposit { from, amount }
                    && from@ == self.caller() && amount@ == self.deposit(),
                MintStage::Minting => r matches MintAction::MintTokens { to, amount } && to@
                    == self.caller() && amount@ == self.to_mint(),
                MintStage::Refunding => r matches MintAction::RefundDeposit { to, amount } && to@
                    == self.caller() && amount@ == self.deposit(),
                MintStage::Finished => r is Finish,
            },
            r is CollectDeposit ==> self.snapshot() is Some,
            r is MintTokens ==> self.snapshot() is Some,
    {
        match self.stage {
            MintStage::CollectingFee => MintAction::CollectFee {
                from: self.caller.duplicate(),
                amount: Amount::from_u64(MINT_FEE_AMOUNT),
            },
            MintStage::Snapshotting => MintAction::TakeSnapshot,
            MintStage::CollectingDeposit => MintAction::CollectDeposit {
                from: self.caller.duplicate(),
                amount: self.deposit.duplicate(),
            },
            MintStage::Minting => MintAction::MintTokens {
                to: self.caller.duplicate(),
                amount: self.to_mint.duplicate(),
            },
            MintStage::Refunding => MintAction::RefundDeposit {
                to: self.caller.duplicate(),
                amount: self.deposit.duplicate(),
            },
            MintStage::Finished => MintAction::Finish,
        }
    }

    /// Whether the mint has finished.
    pub fn is_finished(&self) -> (r: bool)
        ensures
            r == (self.stage() == MintStage::Finished),
    {
        self.stage == MintStage::Finished
    }

    /// End the mint with `outcome`: the guard is given back.
    fn finish(&mut self, coordinator: &mut Coordinator, outcome: Result<Amount, IcpiError>, now: u64)
        requires
            old(self).guard.user() == old(self).caller@,
            old(coordinator).wf(),
        ensures
            final(self).wf(),
            final(coordinator).wf(),
            old(coordinator).consistent() ==> final(coordinator).consistent(),
            final(self).stage() == MintStage::Finished,
            final(self).result() == Some(outcome),
            final(self).caller() == old(self).caller(),
            final(self).mint_id() == old(self).mint_id(),
            final(self).deposit() == old(self).deposit(),
            final(self).snapshot() == old(self).snapshot(),
            final(self).to_mint() == old(self).to_mint(),
            !final(coordinator).active_mints().contains(final(self).caller()),
            final(coordinator).active_mints() == old(coordinator).active_mints().remove_value(
                old(self).caller(),
            ),
            final(coordinator).active_burns() == old(coordinator).active_burns(),
            final(coordinator).current() == end_outcome(
                old(coordinator).current(),
                GlobalOperation::Minting,
                final(coordinator).any_guard_held(),
            ),
    {
        self.stage = MintStage::Finished;
        self.failure = None;
        self.result = Some(outcome);
        coordinator.leave_mint(&self.guard, now);
    }

    /// What to record where the refund failed for `refund_error`.
    fn unrefunded(&self, refund_error: &String) -> (r: String)
        ensures
            r@ == unrefunded_reason(self.failure_text(), refund_error@, self.deposit()),
    {
        let mut reason = self.failure_text.clone();
        reason.append(". Refund failed: ");
        reason.append(refund_error.as_str());
        reason.append(". Amount: ");
        reason.append(self.deposit.to_decimal().as_str());
        reason.append(". Contact support.");
        reason
    }

    /// Whether the status `status` is the one a mint has at `stage`.
    fn status_fits(status: &MintStatus, stage: MintStage) -> (r: bool)
        ensures
            r == (Some(status@) == stage_status(stage)),
    {
        match (status, stage) {
            (MintStatus::CollectingFee, MintStage::CollectingFee) => true,
            (MintStatus::Snapshotting, MintStage::Snapshotting) => true,
            (MintStatus::CollectingDeposit, MintStage::CollectingDeposit) => true,
            (MintStatus::Minting, MintStage::Minting) => true,
            (MintStatus::Refunding, MintStage::Refunding) => true,
            _ => false,
        }
    }

    /// Take the reply `event`, received at `now`, and move on.
    ///
    /// Before anything else the pending mint is looked up again: a mint that is
    /// gone ends the flow with `InvalidMintId`, a mint in another status than the
    /// flow left it in with `StateCorrupted`, and so does a reply that the flow
    /// was not waiting for. A snapshot in which supply and value contradict each
    /// other is refused. A failure before the deposit is held marks the mint
    /// `Failed`; a failure after it leads to the refund.
    pub fn advance(
        &mut self,
        coordinator: &mut Coordinator,
        store: &mut MintStore,
        event: MintEvent,
        now: u64,
    )
        requires
            old(self).wf(),
            old(coordinator).wf(),
            old(store).wf(),
        ensures
            final(self).wf(),
            final(coordinator).wf(),
            final(store).wf(),
            old(coordinator).consistent() ==> final(coordinator).consistent(),
            final(self).caller() == old(self).caller(),
            final(self).mint_id() == old(self).mint_id(),
            final(self).deposit() == old(self).deposit(),
            final(self).result() is Some <==> final(self).stage() == MintStage::Finished,
            final(coordinator).active_burns() == old(coordinator).active_burns(),
            // the guard is held until the mint finishes, and given back when it does
            final(self).stage() != MintStage::Finished ==> final(coordinator).same_guards(
                old(coordinator),
            ) && final(coordinator).same_operation(old(coordinator)),
            // at the finishing step the caller's guard alone is given back, and the
            // global operation is ended
            old(self).stage() != MintStage::Finished && final(self).stage() == MintStage::Finished
                ==> {
                &&& !final(coordinator).active_mints().contains(final(self).caller())
                &&& final(coordinator).active_mints() == old(coordinator).active_mints().remove_value(
                    old(self).caller(),
                )
                &&& final(coordinator).current() == end_outcome(
                    old(coordinator).current(),
                    GlobalOperation::Minting,
                    final(coordinator).any_guard_held(),
                )
            },
            old(self).stage() == MintStage::Finished ==> {
                &&& final(self).stage() == MintStage::Finished
                &&& final(self).result() == old(self).result()
                &&& final(coordinator).same_guards(old(coordinator))
                &&& final(coordinator).same_operation(old(coordinator))
                &&& forall|k: Seq<char>| final(store).get(k) == old(store).get(k)
            },
            // only this mint is touched, and its status moves by valid steps
            final(store).same_elsewhere(old(store), old(self).mint_id()),
            final(store).count() == old(store).count(),
            match (old(store).get(old(self).mint_id()), final(store).get(old(self).mint_id())) {
                (Some(before), Some(after)) => {
                    &&& status_moved(before.status, after.status)
                    &&& after.id == before.id
                    &&& after.user == before.user
                    &&& after.amount == before.amount
                    &&& after.created_at == before.created_at
                    // the time of the last update is that of the last change of status
                    &&& if after.status == before.status {
                        after.last_updated == before.last_updated
                    } else {
                        after.last_updated == now
                    }
                    // the snapshot is recorded once, on the way to the deposit
                    &&& if old(self).stage() == MintStage::Snapshotting && final(self).stage()
                        == MintStage::CollectingDeposit {
                        after.snapshot is Some
                    } else {
                        after.snapshot == before.snapshot
                    }
                },
                (None, None) => true,
                _ => false,
            },
            final(self).stage() != MintStage::Finished ==> final(self).status_in(final(store))
                == stage_status(final(self).stage()),
            // what each reply leads to
            old(self).stage() != MintStage::Finished ==> match old(self).status_in(old(store)) {
                None => {
                    &&& final(self).result() matches Some(
                        Err(IcpiError::Mint(MintError::InvalidMintId { id })),
                    )
                    &&& id@ == old(self).mint_id()
                },
                Some(status) => if Some(status) != stage_status(old(self).stage()) {
                    final(self).result() matches Some(
                        Err(IcpiError::System(SystemError::StateCorrupted { .. })),
                    )
                } else {
                    match (old(self).stage(), event) {
                        (MintStage::CollectingFee, MintEvent::FeeCollected(outcome)) => match final(self).result() {
                            Some(Err(e)) => collection_verdict(outcome, "collect_fee"@, Err(e))
                                && final(self).status_in(final(store)) == Some(
                                MintStatusView::Failed("Fee collection failed"@),
                            ),
                            Some(Ok(_)) => false,
                            None => outcome is Transferred && final(self).stage()
                                == MintStage::Snapshotting,
                        },
                        (MintStage::Snapshotting, MintEvent::Snapshot(reply)) => match reply {
                            Err(e) => final(self).result() == Some(Err::<Amount, IcpiError>(e))
                                && final(self).status_in(final(store)) == Some(
                                MintStatusView::Failed("Atomic snapshot failed"@),
                            ),
                            Ok((supply, tvl)) => if inconsistent(supply@, tvl@) {
                                &&& final(self).result() matches Some(
                                    Err(
                                        IcpiError::Validation(
                                            ValidationError::DataInconsistency { .. },
                                        ),
                                    ),
                                )
                                &&& final(self).status_in(final(store)) == Some(
                                MintStatusView::Failed("Supply and value are inconsistent"@),
                            )
                            } else if tvl@ == 0 {
                                &&& final(self).result() matches Some(
                                    Err(IcpiError::Mint(MintError::InsufficientTVL { tvl: t })),
                                )
                                &&& t@ == 0
                                &&& final(self).status_in(final(store)) == Some(
                                MintStatusView::Failed("TVL is zero - canister has no holdings"@),
                            )
                            } else {
                                &&& final(self).stage() == MintStage::CollectingDeposit
                                &&& final(self).snapshot() == Some((supply@, tvl@))
                                &&& final(store).get(old(self).mint_id()) matches Some(m)
                                &&& m.snapshot == Some((supply@, tvl@, now))
                            },
                        },
                        (
                            MintStage::CollectingDeposit,
                            MintEvent::DepositCollected(outcome),
                        ) => final(self).snapshot() == old(self).snapshot() && match final(self).result() {
                            Some(Err(e)) => collection_verdict(outcome, "collect_deposit"@, Err(e))
                                && final(self).status_in(final(store)) == Some(
                                MintStatusView::Failed("Deposit collection failed"@),
                            ),
                            Some(Ok(_)) => false,
                            None => {
                                let share = mint_amount_value(
                                    old(self).deposit(),
                                    old(self).snapshot().unwrap().0,
                                    old(self).snapshot().unwrap().1,
                                );
&&& outcome is Transferred
                                &&& if old(self).deposit() != 0 && share != 0 {
                                    final(self).stage() == MintStage::Minting && final(self).to_mint()
                                        == share
                                } else {
                                    final(self).stage() == MintStage::Refunding && final(self).failure_text() == "Mint calculation failed"@
                                }
                            },
                        },
                        (MintStage::Minting, MintEvent::Minted(outcome)) => final(self).snapshot()
                            == old(self).snapshot() && if outcome is Transferred {
                            &&& final(self).result() matches Some(Ok(issued))
                            &&& issued@ == old(self).to_mint()
                            &&& final(self).status_in(final(store)) == Some(
                                MintStatusView::Complete(old(self).to_mint()),
                            )
                        } else {
                            final(self).stage() == MintStage::Refunding && final(self).failure_text()
                                == "Ledger minting failed"@
                        },
                        (MintStage::Refunding, MintEvent::Refunded(outcome)) => {
                            &&& final(self).result() matches Some(Err(_))
                            &&& match outcome {
                                TransferOutcome::Transferred { .. } => final(self).status_in(
                                    final(store),
                                ) == Some(
                                    MintStatusView::FailedRefunded(
                                        refunded_reason(old(self).failure_text()),
                                    ),
                                ),
                                TransferOutcome::Rejected { reason } => final(self).status_in(
                                    final(store),
                                ) == Some(
                                    MintStatusView::FailedNoRefund(
                                        unrefunded_reason(
                                            old(self).failure_text(),
                                            reason@,
                                            old(self).deposit(),
                                        ),
                                    ),
                                ),
                                TransferOutcome::CallFailed { reason } => final(self).status_in(
                                    final(store),
                                ) == Some(
                                    MintStatusView::FailedNoRefund(
                                        unrefunded_reason(
                                            old(self).failure_text(),
                                            reason@,
                                            old(self).deposit(),
                                        ),
                                    ),
                                ),
                            }
                        },
                        (_, _) => {
                            &&& final(self).result() matches Some(
                                Err(IcpiError::System(SystemError::StateCorrupted { .. })),
                            )
                            &&& forall|k: Seq<char>| final(store).get(k) == old(store).get(k)
                        },
                    }
                },
            },
    {
        if self.stage == MintStage::Finished {
            return ;
        }
        let fits = match store.get_mint_status(self.mint_id.as_str()) {
            None => {
                let id = self.mint_id.clone();
                self.finish(coordinator, Err(IcpiError::Mint(MintError::InvalidMintId { id })), now);
                return ;
            },
            Some(status) => Self::status_fits(&status, self.stage),
        };
        if !fits {
            self.finish(
                coordinator,
                Err(
                    IcpiError::System(
                        SystemError::StateCorrupted {
                            reason: text("Pending mint is not in the status the flow left it in"),
                        },
                    ),
                ),
                now,
            );
            return ;
        }
        match (self.stage, event) {
            (MintStage::CollectingFee, MintEvent::FeeCollected(outcome)) => {
                match collection_result(outcome, "collect_fee") {
                    Ok(_) => {
                        store.update_mint_status(
                            self.mint_id.as_str(),
                            MintStatus::Snapshotting,
                            now,
                        );
                        self.stage = MintStage::Snapshotting;
                    },
                    Err(e) => {
                        store.update_mint_status(
                            self.mint_id.as_str(),
                            MintStatus::Failed(text("Fee collection failed")),
                            now,
                        );
                        self.finish(coordinator, Err(e), now);
                    },
                }
            },
            (MintStage::Snapshotting, MintEvent::Snapshot(reply)) => {
                match reply {
                    Err(e) => {
                        store.update_mint_status(
                            self.mint_id.as_str(),
                            MintStatus::Failed(text("Atomic snapshot failed")),
                            now,
                        );
                        self.finish(coordinator, Err(e), now);
                    },
                    Ok((read_supply, read_tvl)) => {
                        let (supply, tvl) = match validate_and_return_snapshot(
                            read_supply,
                            read_tvl,
                        ) {
                            Ok(pair) => pair,
                            Err(e) => {
                                store.update_mint_status(
                                    self.mint_id.as_str(),
                                    MintStatus::Failed(text("Supply and value are inconsistent")),
                                    now,
                                );
                                self.finish(coordinator, Err(e), now);
                                return ;
                            },
                        };
                        if tvl.is_zero() {
                            store.update_mint_status(
                                self.mint_id.as_str(),
                                MintStatus::Failed(text("TVL is zero - canister has no holdings")),
                                now,
                            );
                            self.finish(
                                coordinator,
                                Err(IcpiError::Mint(MintError::InsufficientTVL { tvl })),
                                now,
                            );
                        } else {
                            store.record_snapshot(
                                self.mint_id.as_str(),
                                MintSnapshot {
                                    supply: supply.duplicate(),
                                    tvl: tvl.duplicate(),
                                    timestamp: now,
                                },
                            );
                            store.update_mint_status(
                                self.mint_id.as_str(),
                                MintStatus::CollectingDeposit,
                                now,
                            );
                            self.supply = supply;
                            self.tvl = tvl;
                            self.has_snapshot = true;
                            self.stage = MintStage::CollectingDeposit;
                        }
                    },
                }
            },
            (MintStage::CollectingDeposit, MintEvent::DepositCollected(outcome)) => {
                match collection_result(outcome, "collect_deposit") {
                    Err(e) => {
                        store.update_mint_status(
                            self.mint_id.as_str(),
                            MintStatus::Failed(text("Deposit collection failed")),
                            now,
                        );
                        self.finish(coordinator, Err(e), now);
                    },
                    Ok(_) => {
                        store.update_mint_status(
                            self.mint_id.as_str(),
                            MintStatus::Calculating,
                            now,
                        );
                        match calculate_mint_amount(&self.deposit, &self.supply, &self.tvl) {
                            Ok(icpi_to_mint) => {
                                store.update_mint_status(
                                    self.mint_id.as_str(),
                                    MintStatus::Minting,
                                    now,
                                );
                                self.to_mint = icpi_to_mint;
                                self.stage = MintStage::Minting;
                            },
                            Err(e) => {
                                store.update_mint_status(
                                    self.mint_id.as_str(),
                                    MintStatus::Refunding,
                                    now,
                                );
                                self.failure = Some(e);
                                self.failure_text = text("Mint calculation failed");
                                self.stage = MintStage::Refunding;
                            },
                        }
                    },
                }
            },
            (MintStage::Minting, MintEvent::Minted(outcome)) => {
                match mint_icpi_on_ledger(outcome) {
                    Ok(_) => {
                        store.update_mint_status(
                            self.mint_id.as_str(),
                            MintStatus::Complete(self.to_mint.duplicate()),
                            now,
                        );
                        let issued = self.to_mint.duplicate();
                        self.finish(coordinator, Ok(issued), now);
                    },
                    Err(e) => {
                        store.update_mint_status(self.mint_id.as_str(), MintStatus::Refunding, now);
                        self.failure = Some(e);
                        self.failure_text = text("Ledger minting failed");
                        self.stage = MintStage::Refunding;
                    },
                }
            },
            (MintStage::Refunding, MintEvent::Refunded(outcome)) => {
                match outcome {
                    TransferOutcome::Transferred { block } => {
                        let mut reason = self.failure_text.clone();
                        reason.append(", deposit refunded");
                        store.update_mint_status(
                            self.mint_id.as_str(),
                            MintStatus::FailedRefunded(reason),
                            now,
                        );
                    },
                    TransferOutcome::Rejected { reason: refund_error } => {
                        let reason = self.unrefunded(&refund_error);
                        store.update_mint_status(
                            self.mint_id.as_str(),
                            MintStatus::FailedNoRefund(reason),
                            now,
                        );
                    },
                    TransferOutcome::CallFailed { reason: refund_error } => {
                        let reason = self.unrefunded(&refund_error);
                        store.update_mint_status(
                            self.mint_id.as_str(),
                            MintStatus::FailedNoRefund(reason),
                            now,
                        );
                    },
                }
                let failure = self.failure.take();
                match failure {
                    Some(e) => {
                        self.finish(coordinator, Err(e), now);
                    },
                    None => {
                        proof {
                            assert(false);
                        }
                    },
                }
            },
            (_, _) => {
                self.finish(
                    coordinator,
                    Err(
                        IcpiError::System(
                            SystemError::StateCorrupted { reason: text("Unexpected reply to a mint") },
                        ),
                    ),
                    now,
                );
            },
        }
    }

    /// The outcome of a finished mint: the amount issued, or the error it ended
    /// with. An unfinished mint has no outcome yet.
    pub fn into_result(self) -> (r: Option<Result<Amount, IcpiError>>)
        requires
            self.wf(),
        ensures
            r == self.result(),
            self.stage() != MintStage::Finished ==> r is None,
            self.stage() == MintStage::Finished ==> r is Some,
    {
        self.result
    }
}

/// A call to carry out a mint is admitted: the system is not paused, the caller
/// has no mint in flight, and the global state admits a mint.
pub open spec fn mint_admitted(paused: bool, coordinator: Coordinator, caller: Seq<u8>, now: u64) -> bool {
    !paused && !coordinator.active_mints().contains(caller) && start_outcome(
        coordinator.current(),
        GlobalOperation::Minting,
        coordinator.last_end(),
        now,
    ) is Accepted
}

/// Carry out the mint `mint_id` for `caller`, starting at time `now`.
///
/// The mint is refused while the system is paused, while the caller has another
/// mint in flight, while the global state does not admit a mint, where there is
/// no such mint, and where it belongs to someone else. A mint that is already
/// complete yields its amount again, with nothing sent. A mint that is pending,
/// or that failed with no deposit held, starts with the fee. On refusal the
/// caller holds no mint guard that it did not hold before.
pub fn complete_mint(
    admin: &AdminState,
    coordinator: &mut Coordinator,
    store: &mut MintStore,
    caller: Principal,
    mint_id: String,
    now: u64,
) -> (r: Result<MintFlow, IcpiError>)
    requires
        old(coordinator).wf(),
        old(store).wf(),
    ensures
        final(coordinator).wf(),
        final(store).wf(),
        old(coordinator).consistent() ==> final(coordinator).consistent(),
        final(coordinator).active_burns() == old(coordinator).active_burns(),
        final(store).same_elsewhere(old(store), mint_id@),
        final(store).count() == old(store).count(),
        admin.paused() ==> (r matches Err(IcpiError::Other(msg)) && msg@
            == "System is emergency paused"@),
        !admin.paused() && old(coordinator).active_mints().contains(caller@) ==> {
            &&& r matches Err(
                IcpiError::System(SystemError::OperationInProgress { operation, user }),
            )
            &&& operation@ == "mint"@
            &&& user@ == principal_text(caller@)
        },
        // a call that is not admitted changes nothing in the coordinator
        !mint_admitted(admin.paused(), *old(coordinator), caller@, now) ==> {
            &&& r is Err
            &&& final(coordinator).same_guards(old(coordinator))
            &&& final(coordinator).same_operation(old(coordinator))
        },
        // an admitted call that does not leave a mint in flight gives the guard
        // back and ends the operation it began
        mint_admitted(admin.paused(), *old(coordinator), caller@, now) && !(r matches Ok(flow)
            && flow.stage() == MintStage::CollectingFee) ==> {
            &&& final(coordinator).active_mints() == old(coordinator).active_mints()
            &&& start_outcome(
                old(coordinator).current(),
                GlobalOperation::Minting,
                old(coordinator).last_end(),
                now,
            ) matches StartOutcome::Accepted(entered)
            &&& final(coordinator).current() == end_outcome(
                entered,
                GlobalOperation::Minting,
                old(coordinator).any_guard_held(),
            )
        },
        // a mint left in flight holds the guard, and the operation is under way
        r matches Ok(flow) && flow.stage() == MintStage::CollectingFee ==> {
            &&& final(coordinator).active_mints() == old(coordinator).active_mints().push(caller@)
            &&& start_outcome(
                old(coordinator).current(),
                GlobalOperation::Minting,
                old(coordinator).last_end(),
                now,
            ) == StartOutcome::Accepted(final(coordinator).current())
            &&& final(coordinator).last_end() == old(coordinator).last_end()
        },
        (!admin.paused() && !old(coordinator).active_mints().contains(caller@) && !(start_outcome(
            old(coordinator).current(),
            GlobalOperation::Minting,
            old(coordinator).last_end(),
            now,
        ) is Accepted)) ==> refusal_matches(
            start_outcome(
                old(coordinator).current(),
                GlobalOperation::Minting,
                old(coordinator).last_end(),
                now,
            ),
            r,
        ),
        r is Err ==> {
            &&& final(coordinator).active_mints() == old(coordinator).active_mints()
            &&& forall|k: Seq<char>| final(store).get(k) == old(store).get(k)
        },
        (!admin.paused() && !old(coordinator).active_mints().contains(caller@) && start_outcome(
            old(coordinator).current(),
            GlobalOperation::Minting,
            old(coordinator).last_end(),
            now,
        ) is Accepted) ==> match old(store).get(mint_id@) {
            None => {
                &&& r matches Err(IcpiError::Mint(MintError::InvalidMintId { id }))
                &&& id@ == mint_id@
            },
            Some(m) => if m.user != caller@ {
                &&& r matches Err(IcpiError::Mint(MintError::Unauthorized { principal, mint_id: id }))
                &&& principal@ == principal_text(caller@)
                &&& id@ == mint_id@
            } else {
                match m.status {
                    MintStatusView::Complete(issued) => {
                        &&& r matches Ok(flow)
                        &&& flow.stage() == MintStage::Finished
                        &&& flow.result() matches Some(Ok(again))
                        &&& again@ == issued
                        &&& final(coordinator).active_mints() == old(coordinator).active_mints()
                        &&& forall|k: Seq<char>| final(store).get(k) == old(store).get(k)
                    },
                    MintStatusView::Pending | MintStatusView::Failed(_) => {
                        &&& r matches Ok(flow)
                        &&& flow.stage() == MintStage::CollectingFee
                        &&& flow.deposit() == m.amount
                        &&& final(coordinator).active_mints() == old(coordinator).active_mints().push(caller@)
                        &&& final(store).get(mint_id@) == Some(
                            PendingMintView {
                                status: MintStatusView::CollectingFee,
                                last_updated: now,
                                ..m
                            },
                        )
                    },
                    _ => r matches Err(IcpiError::System(SystemError::StateCorrupted { .. })),
                }
            },
        },
        r matches Ok(flow) ==> {
            &&& flow.wf()
            &&& flow.caller() == caller@
            &&& flow.mint_id() == mint_id@
            &&& (flow.result() is Some <==> flow.stage() == MintStage::Finished)
            &&& flow.stage() == MintStage::CollectingFee || flow.stage() == MintStage::Finished
        },
{
    match check_not_paused(admin) {
        Ok(()) => {},
        Err(e) => {
            return Err(e);
        },
    }
    let guard = match coordinator.enter_mint(caller.duplicate(), now) {
        Ok(g) => g,
        Err(e) => {
            return Err(e);
        },
    };
    let pending_mint = match store.get_pending_mint(mint_id.as_str()) {
        Some(m) => m,
        None => {
            coordinator.leave_mint(&guard, now);
            proof {
                lemma_push_then_remove(old(coordinator).active_mints(), caller@);
            }
            return Err(IcpiError::Mint(MintError::InvalidMintId { id: mint_id }));
        },
    };
    if !pending_mint.user.same(&caller) {
        coordinator.leave_mint(&guard, now);
            proof {
                lemma_push_then_remove(old(coordinator).active_mints(), caller@);
            }
        return Err(
            IcpiError::Mint(MintError::Unauthorized { principal: caller.to_text(), mint_id }),
        );
    }
    match pending_mint.status {
        MintStatus::Complete(issued) => {
            coordinator.leave_mint(&guard, now);
            proof {
                lemma_push_then_remove(old(coordinator).active_mints(), caller@);
            }
            Ok(
                MintFlow {
                    caller,
                    mint_id,
                    deposit: pending_mint.amount,
                    stage: MintStage::Finished,
                    guard,
                    supply: Amount::zero(),
                    tvl: Amount::zero(),
                    has_snapshot: false,
                    to_mint: issued.duplicate(),
                    failure: None,
                    failure_text: String::new(),
                    result: Some(Ok(issued)),
                },
            )
        },
        MintStatus::Pending | MintStatus::Failed(_) => {
            store.update_mint_status(mint_id.as_str(), MintStatus::CollectingFee, now);
            Ok(
                MintFlow {
                    caller,
                    mint_id,
                    deposit: pending_mint.amount,
                    stage: MintStage::CollectingFee,
                    guard,
                    supply: Amount::zero(),
                    tvl: Amount::zero(),
                    has_snapshot: false,
                    to_mint: Amount::zero(),
                    failure: None,
                    failure_text: String::new(),
                    result: None,
                },
            )
        },
        _ => {
            coordinator.leave_mint(&guard, now);
            proof {
                lemma_push_then_remove(old(coordinator).active_mints(), caller@);
            }
            Err(
                IcpiError::System(
                    SystemError::StateCorrupted {
                        reason: text("Pending mint is neither waiting nor complete"),
                    },
                ),
            )
        },
    }
}

} // verus!
