//! The concurrency coordinator.
//!
//! Two layers protect the critical operations. Per-user guards keep one user
//! from running two mints, or two burns, at once, while different users proceed
//! side by side. The global operation state keeps rebalancing apart from
//! minting and burning, with a grace period between switches of operation type.

use vstd::prelude::*;
use crate::errors::{IcpiError, SystemError};
use crate::strings::text;
use crate::principal::{principal_text, Principal};
use crate::principal_set::PrincipalSet;

verus! {

/// What the system as a whole is doing.
#[derive(Debug, Clone, Copy, PartialEq, Eq, Structural)]
pub enum GlobalOperation {
    /// No operation is active.
    Idle,
    /// At least one mint is active.
    Minting,
    /// At least one burn is active.
    Burning,
    /// A rebalance is active.
    Rebalancing,
}

/// The name of an operation.
pub open spec fn operation_name(op: GlobalOperation) -> Seq<char> {
    match op {
        GlobalOperation::Idle => "idle"@,
        GlobalOperation::Minting => "minting"@,
        GlobalOperation::Burning => "burning"@,
        GlobalOperation::Rebalancing => "rebalancing"@,
    }
}

impl GlobalOperation {
    pub fn as_str(&self) -> (r: &'static str)
        ensures
            r@ == operation_name(*self),
    {
        match self {
            GlobalOperation::Idle => "idle",
            GlobalOperation::Minting => "minting",
            GlobalOperation::Burning => "burning",
            GlobalOperation::Rebalancing => "rebalancing",
        }
    }
}

/// Grace period between switches of operation type: 60 seconds.
pub const GRACE_PERIOD_NANOS: u64 = 60_000_000_000;

pub const NANOS_PER_SECOND: u64 = 1_000_000_000;

/// The state that the guards and the global operation state machine share.
#[derive(Debug)]
pub struct Coordinator {
    active_mints: PrincipalSet,
    active_burns: PrincipalSet,
    current: GlobalOperation,
    last_operation_end_time: u64,
}

/// What a request to start a global operation leads to.
pub enum StartOutcome {
    /// Accepted; the state afterwards is the given one.
    Accepted(GlobalOperation),
    /// Refused for the given number of seconds.
    GracePeriod(u64),
    /// Refused: `Idle` is reached only by ending an operation.
    StateCorrupted,
    /// Refused: a rebalance is running.
    RebalancingInProgress,
    /// Refused: a mint or burn is running.
    CriticalOperationInProgress,
}

/// Whether the grace period stands in the way of a switch from `current` to
/// `op` at time `now`.
pub open spec fn grace_applies(current: GlobalOperation, op: GlobalOperation, last_end: u64, now: u64) -> bool {
    current != GlobalOperation::Idle && current != op && last_end > 0 && now >= last_end && now
        - last_end < GRACE_PERIOD_NANOS
}

/// The outcome of a request for `op` in state `current`, the last operation
/// having ended at `last_end`.
pub open spec fn start_outcome(current: GlobalOperation, op: GlobalOperation, last_end: u64, now: u64) -> StartOutcome {
    if grace_applies(current, op, last_end, now) {
        StartOutcome::GracePeriod(
            ((GRACE_PERIOD_NANOS - (now - last_end)) / NANOS_PER_SECOND as int) as u64,
        )
    } else {
        match (current, op) {
            (GlobalOperation::Idle, _) => StartOutcome::Accepted(op),
            (_, GlobalOperation::Idle) => StartOutcome::StateCorrupted,
            (GlobalOperation::Rebalancing, GlobalOperation::Rebalancing) => StartOutcome::Accepted(
                current,
            ),
            (GlobalOperation::Rebalancing, _) => StartOutcome::RebalancingInProgress,
            (_, GlobalOperation::Rebalancing) => StartOutcome::CriticalOperationInProgress,
            (_, _) => StartOutcome::Accepted(current),
        }
    }
}

/// Minting or burning: the operations that hold guards and run side by side.
pub open spec fn is_critical(op: GlobalOperation) -> bool {
    op == GlobalOperation::Minting || op == GlobalOperation::Burning
}

/// The state after ending `op` in state `current`: `Idle` after the running
/// rebalance, and after a mint or burn once no guard is held, whether the state
/// carries `Minting` or `Burning`. Anything else changes nothing.
pub open spec fn end_outcome(current: GlobalOperation, op: GlobalOperation, any_active: bool) -> GlobalOperation {
    if current == GlobalOperation::Rebalancing && op == GlobalOperation::Rebalancing {
        GlobalOperation::Idle
    } else if is_critical(current) && is_critical(op) && !any_active {
        GlobalOperation::Idle
    } else {
        current
    }
}

/// The result `r` is what the outcome `outcome` of a request calls for: success
/// where it was accepted, and otherwise the error that names the refusal.
pub open spec fn refusal_matches<T>(outcome: StartOutcome, r: Result<T, IcpiError>) -> bool {
    match outcome {
        StartOutcome::Accepted(_) => r is Ok,
        StartOutcome::GracePeriod(wait) => {
            &&& r matches Err(IcpiError::System(SystemError::GracePeriodActive { wait_seconds, .. }))
            &&& wait_seconds == wait
            &&& wait_seconds <= 60
        },
        StartOutcome::StateCorrupted => r matches Err(
            IcpiError::System(SystemError::StateCorrupted { .. }),
        ),
        StartOutcome::RebalancingInProgress => r matches Err(
            IcpiError::System(SystemError::RebalancingInProgress),
        ),
        StartOutcome::CriticalOperationInProgress => r matches Err(
            IcpiError::System(SystemError::CriticalOperationInProgress { .. }),
        ),
    }
}

impl Coordinator {
    /// Principals with a mint in flight.
    pub closed spec fn active_mints(&self) -> Seq<Seq<u8>> {
        self.active_mints@
    }

    /// Principals with a burn in flight.
    pub closed spec fn active_burns(&self) -> Seq<Seq<u8>> {
        self.active_burns@
    }

    pub closed spec fn current(&self) -> GlobalOperation {
        self.current
    }

    /// When the last operation ended, in nanoseconds; zero if none has.
    pub closed spec fn last_end(&self) -> u64 {
        self.last_operation_end_time
    }

    /// No principal is listed twice in either set.
    pub closed spec fn wf(&self) -> bool {
        self.active_mints.wf() && self.active_burns.wf()
    }

    /// Some guard is held.
    pub open spec fn any_guard_held(&self) -> bool {
        self.active_mints().len() > 0 || self.active_burns().len() > 0
    }

    /// A guard is held exactly while the state is `Minting` or `Burning`: the
    /// system is idle exactly when no guard is held and no rebalance runs.
    pub open spec fn consistent(&self) -> bool {
        is_critical(self.current()) <==> self.any_guard_held()
    }

    /// The two coordinators differ at most in their global operation.
    pub open spec fn same_guards(&self, other: &Coordinator) -> bool {
        self.active_mints() == other.active_mints() && self.active_burns() == other.active_burns()
    }

    /// The two coordinators differ at most in their sets of guards.
    pub open spec fn same_operation(&self, other: &Coordinator) -> bool {
        self.current() == other.current() && self.last_end() == other.last_end()
    }

    /// An idle coordinator with no guard held.
    pub fn new() -> (r: Coordinator)
        ensures
            r.wf(),
            r.consistent(),
            r.current() == GlobalOperation::Idle,
            r.last_end() == 0,
            r.active_mints().len() == 0,
            r.active_burns().len() == 0,
    {
        Coordinator {
            active_mints: PrincipalSet::new(),
            active_burns: PrincipalSet::new(),
            current: GlobalOperation::Idle,
            last_operation_end_time: 0,
        }
    }

    /// Whether `user` holds a mint guard.
    pub fn is_minting(&self, user: &Principal) -> (r: bool)
        ensures
            r == self.active_mints().contains(user@),
    {
        self.active_mints.contains(user)
    }

    /// Whether `user` holds a burn guard.
    pub fn is_burning(&self, user: &Principal) -> (r: bool)
        ensures
            r == self.active_burns().contains(user@),
    {
        self.active_burns.contains(user)
    }

    /// The number of mint guards held.
    pub fn active_mint_count(&self) -> (r: usize)
        ensures
            r == self.active_mints().len(),
    {
        self.active_mints.count()
    }

    /// The number of burn guards held.
    pub fn active_burn_count(&self) -> (r: usize)
        ensures
            r == self.active_burns().len(),
    {
        self.active_burns.count()
    }

    /// Begin a mint for `user`: take the mint guard, then request `Minting`.
    /// Where the request is refused the guard is given back.
    pub fn enter_mint(&mut self, user: Principal, now: u64) -> (r: Result<MintGuard, IcpiError>)
        requires
            old(self).wf(),
        ensures
            final(self).wf(),
            old(self).consistent() ==> final(self).consistent(),
            final(self).active_burns() == old(self).active_burns(),
            final(self).last_end() == old(self).last_end(),
            r matches Ok(g) ==> {
                &&& g.user() == user@
                &&& !old(self).active_mints().contains(user@)
                &&& final(self).active_mints() == old(self).active_mints().push(user@)
                &&& start_outcome(
                    old(self).current(),
                    GlobalOperation::Minting,
                    old(self).last_end(),
                    now,
                ) == StartOutcome::Accepted(final(self).current())
            },
            r is Err ==> {
                &&& final(self).current() == old(self).current()
                &&& final(self).active_mints() == old(self).active_mints()
            },
            r is Ok <==> !old(self).active_mints().contains(user@) && start_outcome(
                old(self).current(),
                GlobalOperation::Minting,
                old(self).last_end(),
                now,
            ) is Accepted,
            old(self).active_mints().contains(user@) ==> {
                &&& r matches Err(
                    IcpiError::System(SystemError::OperationInProgress { operation, user: name }),
                )
                &&& operation@ == "mint"@
                &&& name@ == principal_text(user@)
            },
            !old(self).active_mints().contains(user@) ==> refusal_matches(
                start_outcome(
                    old(self).current(),
                    GlobalOperation::Minting,
                    old(self).last_end(),
                    now,
                ),
                r,
            ),
    {
        let guard = match MintGuard::acquire(self, user) {
            Ok(g) => g,
            Err(e) => {
                return Err(e);
            },
        };
        let ghost held = self.active_mints();
        match try_start_global_operation(self, GlobalOperation::Minting, now) {
            Ok(()) => Ok(guard),
            Err(e) => {
                guard.release(self);
                proof {
                    lemma_push_then_remove(old(self).active_mints(), guard.user());
                }
                Err(e)
            },
        }
    }

    /// End a mint: give the guard back, then end `Minting`.
    pub fn leave_mint(&mut self, guard: &MintGuard, now: u64)
        requires
            old(self).wf(),
        ensures
            final(self).wf(),
            old(self).consistent() ==> final(self).consistent(),
            !final(self).active_mints().contains(guard.user()),
            final(self).active_mints() == old(self).active_mints().remove_value(guard.user()),
            final(self).active_burns() == old(self).active_burns(),
            final(self).current() == end_outcome(
                old(self).current(),
                GlobalOperation::Minting,
                final(self).any_guard_held(),
            ),
    {
        guard.release(self);
        end_global_operation(self, GlobalOperation::Minting, now);
    }

    /// Begin a burn for `user`: take the burn guard, then request `Burning`.
    /// Where the request is refused the guard is given back.
    pub fn enter_burn(&mut self, user: Principal, now: u64) -> (r: Result<BurnGuard, IcpiError>)
        requires
            old(self).wf(),
        ensures
            final(self).wf(),
            old(self).consistent() ==> final(self).consistent(),
            final(self).active_mints() == old(self).active_mints(),
            final(self).last_end() == old(self).last_end(),
            r matches Ok(g) ==> {
                &&& g.user() == user@
                &&& !old(self).active_burns().contains(user@)
                &&& final(self).active_burns() == old(self).active_burns().push(user@)
                &&& start_outcome(
                    old(self).current(),
                    GlobalOperation::Burning,
                    old(self).last_end(),
                    now,
                ) == StartOutcome::Accepted(final(self).current())
            },
            r is Err ==> {
                &&& final(self).current() == old(self).current()
                &&& final(self).active_burns() == old(self).active_burns()
            },
            r is Ok <==> !old(self).active_burns().contains(user@) && start_outcome(
                old(self).current(),
                GlobalOperation::Burning,
                old(self).last_end(),
                now,
            ) is Accepted,
            old(self).active_burns().contains(user@) ==> {
                &&& r matches Err(
                    IcpiError::System(SystemError::OperationInProgress { operation, user: name }),
                )
                &&& operation@ == "burn"@
                &&& name@ == principal_text(user@)
            },
            !old(self).active_burns().contains(user@) ==> refusal_matches(
                start_outcome(
                    old(self).current(),
                    GlobalOperation::Burning,
                    old(self).last_end(),
                    now,
                ),
                r,
            ),
    {
        let guard = match BurnGuard::acquire(self, user) {
            Ok(g) => g,
            Err(e) => {
                return Err(e);
            },
        };
        match try_start_global_operation(self, GlobalOperation::Burning, now) {
            Ok(()) => Ok(guard),
            Err(e) => {
                guard.release(self);
                proof {
                    lemma_push_then_remove(old(self).active_burns(), guard.user());
                }
                Err(e)
            },
        }
    }

    /// End a burn: give the guard back, then end `Burning`.
    pub fn leave_burn(&mut self, guard: &BurnGuard, now: u64)
        requires
            old(self).wf(),
        ensures
            final(self).wf(),
            old(self).consistent() ==> final(self).consistent(),
            !final(self).active_burns().contains(guard.user()),
            final(self).active_burns() == old(self).active_burns().remove_value(guard.user()),
            final(self).active_mints() == old(self).active_mints(),
            final(self).current() == end_outcome(
                old(self).current(),
                GlobalOperation::Burning,
                final(self).any_guard_held(),
            ),
    {
        guard.release(self);
        end_global_operation(self, GlobalOperation::Burning, now);
    }

    /// Begin a rebalance: request `Rebalancing`.
    pub fn enter_rebalance(&mut self, now: u64) -> (r: Result<(), IcpiError>)
        requires
            old(self).wf(),
        ensures
            final(self).wf(),
            old(self).consistent() ==> final(self).consistent(),
            final(self).same_guards(old(self)),
            final(self).last_end() == old(self).last_end(),
            r is Ok <==> start_outcome(
                old(self).current(),
                GlobalOperation::Rebalancing,
                old(self).last_end(),
                now,
            ) is Accepted,
            r is Ok ==> final(self).current() == GlobalOperation::Rebalancing,
            r is Err ==> final(self).current() == old(self).current(),
            refusal_matches(
                start_outcome(
                    old(self).current(),
                    GlobalOperation::Rebalancing,
                    old(self).last_end(),
                    now,
                ),
                r,
            ),
    {
        try_start_global_operation(self, GlobalOperation::Rebalancing, now)
    }

    /// End a rebalance.
    pub fn leave_rebalance(&mut self, now: u64)
        requires
            old(self).wf(),
        ensures
            final(self).wf(),
            old(self).consistent() ==> final(self).consistent(),
            final(self).same_guards(old(self)),
            final(self).current() == end_outcome(
                old(self).current(),
                GlobalOperation::Rebalancing,
                old(self).any_guard_held(),
            ),
    {
        end_global_operation(self, GlobalOperation::Rebalancing, now);
    }
}

/// Removing from a duplicate-free list the value just pushed gives the list back.
pub proof fn lemma_push_then_remove(s: Seq<Seq<u8>>, v: Seq<u8>)
    requires
        !s.contains(v),
    ensures
        s.push(v).remove_value(v) == s,
{
    let t = s.push(v);
    t.index_of_first_ensures(v);
    assert(t[s.len() as int] == v);
    assert(t.contains(v));
    let i = t.index_of_first(v).unwrap();
    if i < s.len() {
        assert(s[i] == v);
        assert(s.contains(v));
    }
    assert(t.remove(i) =~= s);
}

/// Proof that a user has a mint in flight.
#[derive(Debug)]
pub struct MintGuard {
    user: Principal,
}

impl MintGuard {
    /// The principal that holds the guard.
    pub closed spec fn user(&self) -> Seq<u8> {
        self.user@
    }

    /// Take the mint guard for `user`. Fails with `OperationInProgress` exactly
    /// when the user already holds one.
    pub fn acquire(coordinator: &mut Coordinator, user: Principal) -> (r: Result<MintGuard, IcpiError>)
        requires
            old(coordinator).wf(),
        ensures
            final(coordinator).wf(),
            final(coordinator).same_operation(old(coordinator)),
            final(coordinator).active_burns() == old(coordinator).active_burns(),
            old(coordinator).active_mints().contains(user@) ==> {
                &&& r matches Err(
                    IcpiError::System(SystemError::OperationInProgress { operation, user: name }),
                )
                &&& operation@ == "mint"@
                &&& name@ == principal_text(user@)
                &&& final(coordinator).active_mints() == old(coordinator).active_mints()
            },
            !old(coordinator).active_mints().contains(user@) ==> {
                &&& r matches Ok(g)
                &&& g.user() == user@
                &&& final(coordinator).active_mints() == old(coordinator).active_mints().push(user@)
            },
    {
        if coordinator.active_mints.contains(&user) {
            Err(
                IcpiError::System(
                    SystemError::OperationInProgress {
                        operation: text("mint"),
                        user: user.to_text(),
                    },
                ),
            )
        } else {
            coordinator.active_mints.insert(user.duplicate());
            Ok(MintGuard { user })
        }
    }

    /// Give the guard back: the user no longer has a mint in flight.
    pub fn release(&self, coordinator: &mut Coordinator)
        requires
            old(coordinator).wf(),
        ensures
            final(coordinator).wf(),
            final(coordinator).same_operation(old(coordinator)),
            final(coordinator).active_burns() == old(coordinator).active_burns(),
            final(coordinator).active_mints() == old(coordinator).active_mints().remove_value(
                self.user(),
            ),
            !final(coordinator).active_mints().contains(self.user()),
            final(coordinator).active_mints().len() <= old(coordinator).active_mints().len(),
    {
        coordinator.active_mints.remove(&self.user);
    }

    /// The principal that holds the guard.
    pub fn holder(&self) -> (r: &Principal)
        ensures
            r@ == self.user(),
    {
        &self.user
    }
}

/// Proof that a user has a burn in flight.
#[derive(Debug)]
pub struct BurnGuard {
    user: Principal,
}

impl BurnGuard {
    /// The principal that holds the guard.
    pub closed spec fn user(&self) -> Seq<u8> {
        self.user@
    }

    /// Take the burn guard for `user`. Fails with `OperationInProgress` exactly
    /// when the user already holds one.
    pub fn acquire(coordinator: &mut Coordinator, user: Principal) -> (r: Result<BurnGuard, IcpiError>)
        requires
            old(coordinator).wf(),
        ensures
            final(coordinator).wf(),
            final(coordinator).same_operation(old(coordinator)),
            final(coordinator).active_mints() == old(coordinator).active_mints(),
            old(coordinator).active_burns().contains(user@) ==> {
                &&& r matches Err(
                    IcpiError::System(SystemError::OperationInProgress { operation, user: name }),
                )
                &&& operation@ == "burn"@
                &&& name@ == principal_text(user@)
                &&& final(coordinator).active_burns() == old(coordinator).active_burns()
            },
            !old(coordinator).active_burns().contains(user@) ==> {
                &&& r matches Ok(g)
                &&& g.user() == user@
                &&& final(coordinator).active_burns() == old(coordinator).active_burns().push(user@)
            },
    {
        if coordinator.active_burns.contains(&user) {
            Err(
                IcpiError::System(
                    SystemError::OperationInProgress {
                        operation: text("burn"),
                        user: user.to_text(),
                    },
                ),
            )
        } else {
            coordinator.active_burns.insert(user.duplicate());
            Ok(BurnGuard { user })
        }
    }

    /// Give the guard back: the user no longer has a burn in flight.
    pub fn release(&self, coordinator: &mut Coordinator)
        requires
            old(coordinator).wf(),
        ensures
            final(coordinator).wf(),
            final(coordinator).same_operation(old(coordinator)),
            final(coordinator).active_mints() == old(coordinator).active_mints(),
            final(coordinator).active_burns() == old(coordinator).active_burns().remove_value(
                self.user(),
            ),
            !final(coordinator).active_burns().contains(self.user()),
            final(coordinator).active_burns().len() <= old(coordinator).active_burns().len(),
    {
        coordinator.active_burns.remove(&self.user);
    }

    /// The principal that holds the guard.
    pub fn holder(&self) -> (r: &Principal)
        ensures
            r@ == self.user(),
    {
        &self.user
    }
}

/// Request the start of a global operation at time `now`.
///
/// From `Idle` any operation starts. Mints and burns coexist. A rebalance is
/// refused while a mint or burn runs, and the other way round. `Idle` itself can
/// never be requested out of another state. Within the grace period after the
/// last operation ended, a switch of operation type is refused.
pub fn try_start_global_operation(coordinator: &mut Coordinator, op: GlobalOperation, now: u64) -> (r:
    Result<(), IcpiError>)
    ensures
        final(coordinator).wf() == old(coordinator).wf(),
        final(coordinator).same_guards(old(coordinator)),
        final(coordinator).last_end() == old(coordinator).last_end(),
        match start_outcome(old(coordinator).current(), op, old(coordinator).last_end(), now) {
            StartOutcome::Accepted(next) => r is Ok && final(coordinator).current() == next,
            StartOutcome::GracePeriod(wait) => {
                &&& r matches Err(
                    IcpiError::System(
                        SystemError::GracePeriodActive { wait_seconds, current_operation },
                    ),
                )
                &&& wait_seconds == wait
                &&& wait_seconds <= 60
                &&& current_operation@ == operation_name(old(coordinator).current())
                &&& final(coordinator).current() == old(coordinator).current()
            },
            StartOutcome::StateCorrupted => {
                &&& r matches Err(IcpiError::System(SystemError::StateCorrupted { .. }))
                &&& final(coordinator).current() == old(coordinator).current()
            },
            StartOutcome::RebalancingInProgress => {
                &&& r matches Err(IcpiError::System(SystemError::RebalancingInProgress))
                &&& final(coordinator).current() == old(coordinator).current()
            },
            StartOutcome::CriticalOperationInProgress => {
                &&& r matches Err(
                    IcpiError::System(SystemError::CriticalOperationInProgress { operation }),
                )
                &&& operation@ == operation_name(old(coordinator).current())
                &&& final(coordinator).current() == old(coordinator).current()
            },
        },
{
    let current_op = coordinator.current;
    if current_op != GlobalOperation::Idle && current_op != op {
        let last_end: u64 = coordinator.last_operation_end_time;
        if last_end > 0 && now >= last_end && now - last_end < GRACE_PERIOD_NANOS {
            let wait_seconds: u64 = (GRACE_PERIOD_NANOS - (now - last_end)) / NANOS_PER_SECOND;
            return Err(
                IcpiError::System(
                    SystemError::GracePeriodActive {
                        wait_seconds,
                        current_operation: text(current_op.as_str()),
                    },
                ),
            );
        }
    }
    match (current_op, op) {
        (GlobalOperation::Idle, _) => {
            if op != GlobalOperation::Idle {
                coordinator.current = op;
            }
            Ok(())
        },
        (_, GlobalOperation::Idle) => Err(
            IcpiError::System(
                SystemError::StateCorrupted { reason: text("Invalid transition to Idle state") },
            ),
        ),
        (GlobalOperation::Rebalancing, GlobalOperation::Minting)
        | (GlobalOperation::Rebalancing, GlobalOperation::Burning) => Err(
            IcpiError::System(SystemError::RebalancingInProgress),
        ),
        (GlobalOperation::Minting, GlobalOperation::Rebalancing)
        | (GlobalOperation::Burning, GlobalOperation::Rebalancing) => Err(
            IcpiError::System(
                SystemError::CriticalOperationInProgress { operation: text(current_op.as_str()) },
            ),
        ),
        (GlobalOperation::Minting, GlobalOperation::Minting)
        | (GlobalOperation::Burning, GlobalOperation::Burning)
        | (GlobalOperation::Minting, GlobalOperation::Burning)
        | (GlobalOperation::Burning, GlobalOperation::Minting) => Ok(()),
        (GlobalOperation::Rebalancing, GlobalOperation::Rebalancing) => Ok(()),
    }
}

/// End a global operation at time `now`. This is the only way back to `Idle`.
///
/// Ending the running rebalance always returns to `Idle`. Ending a mint or burn
/// returns to `Idle` once no guard of either kind is held, whichever of the two
/// the state carries. Anything else changes nothing.
pub fn end_global_operation(coordinator: &mut Coordinator, op: GlobalOperation, now: u64)
    ensures
        final(coordinator).wf() == old(coordinator).wf(),
        final(coordinator).same_guards(old(coordinator)),
        final(coordinator).current() == end_outcome(
            old(coordinator).current(),
            op,
            old(coordinator).any_guard_held(),
        ),
        final(coordinator).current() != old(coordinator).current() ==> final(coordinator).last_end()
            == now,
        final(coordinator).current() == old(coordinator).current() ==> final(coordinator).last_end() == old(coordinator).last_end(),
{
    let current_op = coordinator.current;
    match (current_op, op) {
        (GlobalOperation::Rebalancing, GlobalOperation::Rebalancing) => {
            coordinator.current = GlobalOperation::Idle;
            coordinator.last_operation_end_time = now;
        },
        (GlobalOperation::Minting, GlobalOperation::Minting)
        | (GlobalOperation::Burning, GlobalOperation::Burning)
        | (GlobalOperation::Minting, GlobalOperation::Burning)
        | (GlobalOperation::Burning, GlobalOperation::Minting) => {
            let has_active_mints = !coordinator.active_mints.is_empty();
            let has_active_burns = !coordinator.active_burns.is_empty();
            if !has_active_mints && !has_active_burns {
                coordinator.current = GlobalOperation::Idle;
                coordinator.last_operation_end_time = now;
            }
        },
        _ => {},
    }
}

/// The current global operation.
pub fn get_current_operation(coordinator: &Coordinator) -> (r: GlobalOperation)
    ensures
        r == coordinator.current(),
{
    coordinator.current
}

/// Whether anything is active: a guard is held, or the system is not idle.
pub fn has_active_operations(coordinator: &Coordinator) -> (r: bool)
    ensures
        r == (coordinator.any_guard_held() || coordinator.current() != GlobalOperation::Idle),
{
    let has_mints = !coordinator.active_mints.is_empty();
    let has_burns = !coordinator.active_burns.is_empty();
    has_mints || has_burns || coordinator.current != GlobalOperation::Idle
}

/// In a consistent coordinator the state is `Idle` exactly when nothing is in
/// flight: no mint guard, no burn guard, no rebalance.
pub proof fn lemma_idle_means_nothing_in_flight(coordinator: &Coordinator)
    requires
        coordinator.consistent(),
    ensures
        coordinator.current() == GlobalOperation::Idle <==> (coordinator.active_mints().len() == 0
            && coordinator.active_burns().len() == 0 && coordinator.current()
            != GlobalOperation::Rebalancing),
        coordinator.current() == GlobalOperation::Rebalancing ==> !coordinator.any_guard_held(),
{
}

/// Once no guard is held, ending a mint or a burn returns to `Idle`, whether
/// the state carries `Minting` or `Burning`; while a guard is held it changes
/// nothing.
pub proof fn lemma_nothing_in_flight_returns_to_idle(current: GlobalOperation, op: GlobalOperation)
    requires
        is_critical(current),
        is_critical(op),
    ensures
        end_outcome(current, op, false) == GlobalOperation::Idle,
        end_outcome(current, op, true) == current,
{
}

/// A request never leads to `Idle` out of another state, and a request for
/// `Idle` is refused in every state but `Idle`.
pub proof fn lemma_idle_only_by_ending(current: GlobalOperation, op: GlobalOperation, last_end: u64, now: u64)
    ensures
        start_outcome(current, op, last_end, now) == StartOutcome::Accepted(GlobalOperation::Idle)
            ==> current == GlobalOperation::Idle,
        current != GlobalOperation::Idle ==> !(start_outcome(
            current,
            GlobalOperation::Idle,
            last_end,
            now,
        ) is Accepted),
        current != GlobalOperation::Idle && op != GlobalOperation::Idle ==> (start_outcome(
            current,
            op,
            last_end,
            now,
        ) matches StartOutcome::Accepted(next) ==> next == current),
{
}

/// Ending an operation leads to `Idle` or changes nothing. It leads there out of
/// a rebalance only by ending the rebalance, and out of a mint or burn only by
/// ending a mint or burn with no guard held.
pub proof fn lemma_end_reaches_idle(current: GlobalOperation, op: GlobalOperation, any_active: bool)
    ensures
        end_outcome(current, op, any_active) == GlobalOperation::Idle || end_outcome(
            current,
            op,
            any_active,
        ) == current,
        current == GlobalOperation::Rebalancing && end_outcome(current, op, any_active)
            == GlobalOperation::Idle ==> op == GlobalOperation::Rebalancing,
        is_critical(current) && end_outcome(current, op, any_active) == GlobalOperation::Idle
            ==> is_critical(op) && !any_active,
{
}

} // verus!
