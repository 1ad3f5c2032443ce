//! Pending mints: their statuses, the transitions between statuses, and the
//! table that holds them.

use vstd::prelude::*;
use crate::amount::Amount;
use crate::constants::PENDING_MINT_TTL_NANOS;
use crate::principal::Principal;

verus! {

/// Where a mint stands.
#[derive(Debug)]
pub enum MintStatus {
    Pending,
    CollectingFee,
    Snapshotting,
    CollectingDeposit,
    Calculating,
    Minting,
    /// Done: the given amount of index atoms was issued.
    Complete(Amount),
    /// Failed before any deposit was held.
    Failed(String),
    /// The deposit is on its way back.
    Refunding,
    /// Failed; the deposit was returned.
    FailedRefunded(String),
    /// Failed, and the deposit could not be returned: an operator must step in.
    FailedNoRefund(String),
}

/// A status as plain values.
pub enum MintStatusView {
    Pending,
    CollectingFee,
    Snapshotting,
    CollectingDeposit,
    Calculating,
    Minting,
    Complete(nat),
    Failed(Seq<char>),
    Refunding,
    FailedRefunded(Seq<char>),
    FailedNoRefund(Seq<char>),
}

impl View for MintStatus {
    type V = MintStatusView;

    open spec fn view(&self) -> MintStatusView {
        match self {
            MintStatus::Pending => MintStatusView::Pending,
            MintStatus::CollectingFee => MintStatusView::CollectingFee,
            MintStatus::Snapshotting => MintStatusView::Snapshotting,
            MintStatus::CollectingDeposit => MintStatusView::CollectingDeposit,
            MintStatus::Calculating => MintStatusView::Calculating,
            MintStatus::Minting => MintStatusView::Minting,
            MintStatus::Complete(a) => MintStatusView::Complete(a@),
            MintStatus::Failed(r) => MintStatusView::Failed(r@),
            MintStatus::Refunding => MintStatusView::Refunding,
            MintStatus::FailedRefunded(r) => MintStatusView::FailedRefunded(r@),
            MintStatus::FailedNoRefund(r) => MintStatusView::FailedNoRefund(r@),
        }
    }
}

impl Clone for MintStatus {
    fn clone(&self) -> (r: MintStatus)
        ensures
            r@ == self@,
    {
        match self {
            MintStatus::Pending => MintStatus::Pending,
            MintStatus::CollectingFee => MintStatus::CollectingFee,
            MintStatus::Snapshotting => MintStatus::Snapshotting,
            MintStatus::CollectingDeposit => MintStatus::CollectingDeposit,
            MintStatus::Calculating => MintStatus::Calculating,
            MintStatus::Minting => MintStatus::Minting,
            MintStatus::Complete(a) => MintStatus::Complete(a.duplicate()),
            MintStatus::Failed(r) => MintStatus::Failed(r.clone()),
            MintStatus::Refunding => MintStatus::Refunding,
            MintStatus::FailedRefunded(r) => MintStatus::FailedRefunded(r.clone()),
            MintStatus::FailedNoRefund(r) => MintStatus::FailedNoRefund(r.clone()),
        }
    }
}

/// A mint in this status moves no further.
pub open spec fn is_terminal(status: MintStatusView) -> bool {
    status is Complete || status is FailedRefunded || status is FailedNoRefund
}

/// The steps a mint can take. Each step on the way to `Complete` leads to the
/// next status in line. A step fails to `Failed` while no deposit is held, and to
/// `Refunding` once it is; `Refunding` ends with or without the refund. A mint
/// that failed with no deposit held may be tried again from the fee.
pub open spec fn valid_transition(from: MintStatusView, to: MintStatusView) -> bool {
    match from {
        MintStatusView::Pending => to is CollectingFee,
        MintStatusView::CollectingFee => to is Snapshotting || to is Failed,
        MintStatusView::Snapshotting => to is CollectingDeposit || to is Failed,
        MintStatusView::CollectingDeposit => to is Calculating || to is Failed,
        MintStatusView::Calculating => to is Minting || to is Refunding,
        MintStatusView::Minting => to is Complete || to is Refunding,
        MintStatusView::Refunding => to is FailedRefunded || to is FailedNoRefund,
        MintStatusView::Failed(_) => to is CollectingFee,
        _ => false,
    }
}

/// Every step of `trace` is a valid transition.
pub open spec fn valid_trace(trace: Seq<MintStatusView>) -> bool {
    forall|i: int| 0 <= i < trace.len() - 1 ==> valid_transition(#[trigger] trace[i], trace[i + 1])
}

/// `Complete`, `FailedRefunded` and `FailedNoRefund` are sinks: no transition
/// leaves them.
pub proof fn lemma_terminal_statuses_are_sinks(from: MintStatusView, to: MintStatusView)
    requires
        is_terminal(from),
    ensures
        !valid_transition(from, to),
{
}

/// No transition leads from `Pending` straight to `Complete`: the only status
/// that `Complete` follows is `Minting`.
pub proof fn lemma_complete_follows_minting(from: MintStatusView, to: MintStatusView)
    requires
        valid_transition(from, to),
        to is Complete,
    ensures
        from is Minting,
        !(from is Pending),
{
}

/// A mint that goes from `Pending` to `Complete` passes through every status in
/// between: its last steps are the fee, the snapshot, the deposit, the
/// calculation and the issue, in this order.
pub proof fn lemma_complete_traverses_every_status(trace: Seq<MintStatusView>)
    requires
        trace.len() > 0,
        valid_trace(trace),
        trace[0] is Pending,
        trace.last() is Complete,
    ensures
        trace.len() >= 7,
        trace[trace.len() - 6] is CollectingFee,
        trace[trace.len() - 5] is Snapshotting,
        trace[trace.len() - 4] is CollectingDeposit,
        trace[trace.len() - 3] is Calculating,
        trace[trace.len() - 2] is Minting,
{
    let n = trace.len() - 1;
    assert(n >= 1);
    assert(valid_transition(trace[n - 1], trace[n - 1 + 1]));
    assert(trace[n - 1] is Minting);
    assert(n >= 2);
    assert(valid_transition(trace[n - 2], trace[n - 2 + 1]));
    assert(trace[n - 2] is Calculating);
    assert(n >= 3);
    assert(valid_transition(trace[n - 3], trace[n - 3 + 1]));
    assert(trace[n - 3] is CollectingDeposit);
    assert(n >= 4);
    assert(valid_transition(trace[n - 4], trace[n - 4 + 1]));
    assert(trace[n - 4] is Snapshotting);
    assert(n >= 5);
    assert(valid_transition(trace[n - 5], trace[n - 5 + 1]));
    assert(trace[n - 5] is CollectingFee);
    assert(n >= 6);
}

/// Supply and value as read for one mint, before its deposit was taken.
#[derive(Debug)]
pub struct MintSnapshot {
    pub supply: Amount,
    pub tvl: Amount,
    pub timestamp: u64,
}

impl Clone for MintSnapshot {
    fn clone(&self) -> (r: MintSnapshot)
        ensures
            r.supply@ == self.supply@,
            r.tvl@ == self.tvl@,
            r.timestamp == self.timestamp,
    {
        MintSnapshot {
            supply: self.supply.duplicate(),
            tvl: self.tvl.duplicate(),
            timestamp: self.timestamp,
        }
    }
}

/// A mint that has been asked for.
#[derive(Debug)]
pub struct PendingMint {
    pub id: String,
    pub user: Principal,
    /// The deposit, in stable atoms.
    pub amount: Amount,
    pub status: MintStatus,
    pub created_at: u64,
    pub last_updated: u64,
    pub snapshot: Option<MintSnapshot>,
}

/// A pending mint as plain values.
pub struct PendingMintView {
    pub id: Seq<char>,
    pub user: Seq<u8>,
    pub amount: nat,
    pub status: MintStatusView,
    pub created_at: u64,
    pub last_updated: u64,
    /// Supply, value and time of the snapshot.
    pub snapshot: Option<(nat, nat, u64)>,
}

impl View for PendingMint {
    type V = PendingMintView;

    open spec fn view(&self) -> PendingMintView {
        PendingMintView {
            id: self.id@,
            user: self.user@,
            amount: self.amount@,
            status: self.status@,
            created_at: self.created_at,
            last_updated: self.last_updated,
            snapshot: match self.snapshot {
                Some(s) => Some((s.supply@, s.tvl@, s.timestamp)),
                None => None,
            },
        }
    }
}

impl Clone for PendingMint {
    fn clone(&self) -> (r: PendingMint)
        ensures
            r@ == self@,
    {
        PendingMint {
            id: self.id.clone(),
            user: self.user.duplicate(),
            amount: self.amount.duplicate(),
            status: self.status.clone(),
            created_at: self.created_at,
            last_updated: self.last_updated,
            snapshot: match &self.snapshot {
                Some(s) => Some(s.clone()),
                None => None,
            },
        }
    }
}

/// Whether a mint created at `created_at` has outlived its 24 hours at `now`.
pub open spec fn expired(created_at: u64, now: u64) -> bool {
    now >= created_at && now - created_at >= PENDING_MINT_TTL_NANOS
}

/// The last of `mints` that bears the id `id`, if any does.
pub open spec fn latest_with_id(mints: Seq<PendingMint>, id: Seq<char>) -> Option<PendingMintView>
    decreases mints.len(),
{
    if mints.len() == 0 {
        None
    } else if mints.last().id@ == id {
        Some(mints.last()@)
    } else {
        latest_with_id(mints.drop_last(), id)
    }
}

/// The table of pending mints, keyed by id.
#[derive(Debug)]
pub struct MintStore {
    mints: Vec<PendingMint>,
}

impl MintStore {
    /// Each id has one entry.
    pub closed spec fn wf(&self) -> bool {
        forall|i: int, j: int|
            0 <= i < self.mints@.len() && 0 <= j < self.mints@.len() && i != j
                ==> self.mints@[i].id@ != self.mints@[j].id@
    }

    /// The mint stored under `id`, if any.
    pub closed spec fn get(&self, id: Seq<char>) -> Option<PendingMintView> {
        Self::lookup(self.mints@, id)
    }

    /// The number of mints stored.
    pub closed spec fn count(&self) -> nat {
        self.mints@.len()
    }

    pub fn new() -> (r: MintStore)
        ensures
            r.wf(),
            r.count() == 0,
            forall|id: Seq<char>| r.get(id).is_none(),
    {
        MintStore { mints: Vec::new() }
    }

    /// The number of mints stored.
    pub fn len(&self) -> (r: usize)
        ensures
            r == self.count(),
    {
        self.mints.len()
    }

    fn find(&self, id: &String) -> (r: Option<usize>)
        requires
            self.wf(),
        ensures
            r matches Some(i) ==> i < self.mints@.len() && self.mints@[i as int].id@ == id@
                && self.get(id@) == Some(self.mints@[i as int]@),
            r.is_none() ==> self.get(id@).is_none(),
    {
        let mut i: usize = 0;
        while i < self.mints.len()
            invariant
                self.wf(),
                i <= self.mints@.len(),
                forall|j: int| 0 <= j < i ==> self.mints@[j].id@ != id@,
            decreases self.mints@.len() - i,
        {
            if self.mints[i].id == *id {
                proof {
                    let mints = self.mints@;
                    assert(mints[i as int].id@ == id@);
                    let c = choose|j: int| 0 <= j < mints.len() && mints[j].id@ == id@;
                    assert(mints[c].id@ == id@);
                    assert(c == i);
                }
                return Some(i);
            }
            i = i + 1;
        }
        None
    }

    /// Two tables agree on every id but `id`.
    pub open spec fn same_elsewhere(&self, other: &MintStore, id: Seq<char>) -> bool {
        forall|k: Seq<char>| k != id ==> self.get(k) == other.get(k)
    }

    /// Store `mint` under its id, in place of any mint stored under it before.
    pub fn store_pending_mint(&mut self, mint: PendingMint)
        requires
            old(self).wf(),
        ensures
            final(self).wf(),
            final(self).get(mint.id@) == Some(mint@),
            final(self).same_elsewhere(old(self), mint.id@),
    {
        let ghost id = mint.id@;
        let ghost before = self.mints@;
        match self.find(&mint.id) {
            Some(i) => {
                self.mints.set(i, mint);
                proof {
                    let after = self.mints@;
                    assert forall|a: int, b: int|
                        0 <= a < after.len() && 0 <= b < after.len() && a != b implies after[a].id@
                        != after[b].id@ by {
                        assert(after[a].id@ == before[a].id@);
                        assert(after[b].id@ == before[b].id@);
                    }
                    Self::lemma_get_at(after, i as int);
                    assert forall|j: int|
                        0 <= j < before.len() && before[j].id@ != id implies #[trigger] Self::among(
                        after,
                        before[j]@,
                    ) by {
                        assert(after[j]@ == before[j]@);
                    }
                    assert forall|k: int|
                        0 <= k < after.len() && after[k].id@ != id implies #[trigger] Self::among(
                        before,
                        after[k]@,
                    ) by {
                        assert(k < before.len());
                        assert(before[k]@ == after[k]@);
                    }
                    Self::lemma_same_elsewhere(before, after, id);
                }
            },
            None => {
                self.mints.push(mint);
                proof {
                    let after = self.mints@;
                    let n = before.len() as int;
                    assert forall|a: int, b: int|
                        0 <= a < after.len() && 0 <= b < after.len() && a != b implies after[a].id@
                        != after[b].id@ by {
                        if a < n && b < n {
                            assert(before[a].id@ != before[b].id@);
                        } else if a < n {
                            assert(before[a].id@ != id);
                        } else {
                            assert(before[b].id@ != id);
                        }
                    }
                    Self::lemma_get_at(after, n);
                    assert forall|j: int|
                        0 <= j < before.len() && before[j].id@ != id implies #[trigger] Self::among(
                        after,
                        before[j]@,
                    ) by {
                        assert(after[j]@ == before[j]@);
                    }
                    assert forall|k: int|
                        0 <= k < after.len() && after[k].id@ != id implies #[trigger] Self::among(
                        before,
                        after[k]@,
                    ) by {
                        assert(k < before.len());
                        assert(before[k]@ == after[k]@);
                    }
                    Self::lemma_same_elsewhere(before, after, id);
                }
            },
        }
    }

    /// In a list with one entry per id, the entry at `i` is the one found under
    /// its id.
    proof fn lemma_get_at(mints: Seq<PendingMint>, i: int)
        requires
            0 <= i < mints.len(),
            forall|a: int, b: int|
                0 <= a < mints.len() && 0 <= b < mints.len() && a != b ==> mints[a].id@
                    != mints[b].id@,
        ensures
            Self::lookup(mints, mints[i].id@) == Some(mints[i]@),
    {
        let id = mints[i].id@;
        let c = choose|j: int| 0 <= j < mints.len() && mints[j].id@ == id;
        assert(mints[c].id@ == id);
        assert(c == i);
    }

    /// The entry of a list under `id`.
    closed spec fn lookup(mints: Seq<PendingMint>, id: Seq<char>) -> Option<PendingMintView> {
        if exists|i: int| 0 <= i < mints.len() && mints[i].id@ == id {
            let i = choose|i: int| 0 <= i < mints.len() && mints[i].id@ == id;
            Some(mints[i]@)
        } else {
            None
        }
    }

    /// Two lists with one entry per id, which hold the same entries under every
    /// id but `id`, agree on every other id.
    proof fn lemma_same_elsewhere(before: Seq<PendingMint>, after: Seq<PendingMint>, id: Seq<char>)
        requires
            forall|a: int, b: int|
                0 <= a < before.len() && 0 <= b < before.len() && a != b ==> before[a].id@
                    != before[b].id@,
            forall|a: int, b: int|
                0 <= a < after.len() && 0 <= b < after.len() && a != b ==> after[a].id@
                    != after[b].id@,
            forall|j: int|
                0 <= j < before.len() && before[j].id@ != id ==> #[trigger] Self::among(
                    after,
                    before[j]@,
                ),
            forall|k: int|
                0 <= k < after.len() && after[k].id@ != id ==> #[trigger] Self::among(
                    before,
                    after[k]@,
                ),
        ensures
            forall|k: Seq<char>| k != id ==> Self::lookup(after, k) == Self::lookup(before, k),
    {
        assert forall|k: Seq<char>| k != id implies Self::lookup(after, k) == Self::lookup(
            before,
            k,
        ) by {
            if exists|j: int| 0 <= j < before.len() && before[j].id@ == k {
                let j0 = choose|j: int| 0 <= j < before.len() && before[j].id@ == k;
                assert(before[j0].id@ == k);
                assert(Self::among(after, before[j0]@));
                let k0 = choose|x: int| 0 <= x < after.len() && #[trigger] after[x]@ == before[j0]@;
                assert(after[k0].id@ == k);
                Self::lemma_get_at(after, k0);
                Self::lemma_get_at(before, j0);
            } else {
                if exists|x: int| 0 <= x < after.len() && after[x].id@ == k {
                    let x0 = choose|x: int| 0 <= x < after.len() && after[x].id@ == k;
                    assert(after[x0].id@ == k);
                    assert(Self::among(before, after[x0]@));
                    let j1 = choose|j: int|
                        0 <= j < before.len() && #[trigger] before[j]@ == after[x0]@;
                    assert(before[j1].id@ == k);
                }
            }
        }
    }

    /// Set the status of the mint stored under `id`, and with it the time of its
    /// last update. Says whether there is such a mint.
    pub fn update_mint_status(&mut self, id: &str, status: MintStatus, now: u64) -> (r: bool)
        requires
            old(self).wf(),
        ensures
            final(self).wf(),
            final(self).same_elsewhere(old(self), id@),
            final(self).count() == old(self).count(),
            match old(self).get(id@) {
                Some(m) => r && final(self).get(id@) == Some(
                    PendingMintView { status: status@, last_updated: now, ..m },
                ),
                None => !r && final(self).get(id@).is_none(),
            },
    {
        let owned = id.to_owned();
        let ghost before = self.mints@;
        match self.find(&owned) {
            Some(i) => {
                let current = self.mints[i].clone();
                let updated = PendingMint { status, last_updated: now, ..current };
                self.mints.set(i, updated);
                proof {
                    let after = self.mints@;
                    assert forall|a: int, b: int|
                        0 <= a < after.len() && 0 <= b < after.len() && a != b implies after[a].id@
                        != after[b].id@ by {
                        assert(after[a].id@ == before[a].id@);
                        assert(after[b].id@ == before[b].id@);
                    }
                    Self::lemma_get_at(after, i as int);
                    assert forall|j: int|
                        0 <= j < before.len() && before[j].id@ != id@ implies #[trigger] Self::among(
                        after,
                        before[j]@,
                    ) by {
                        assert(after[j]@ == before[j]@);
                    }
                    assert forall|k: int|
                        0 <= k < after.len() && after[k].id@ != id@ implies #[trigger] Self::among(
                        before,
                        after[k]@,
                    ) by {
                        assert(before[k]@ == after[k]@);
                    }
                    Self::lemma_same_elsewhere(before, after, id@);
                }
                true
            },
            None => false,
        }
    }

    /// Record the snapshot taken for the mint stored under `id`. Says whether
    /// there is such a mint.
    pub fn record_snapshot(&mut self, id: &str, snapshot: MintSnapshot) -> (r: bool)
        requires
            old(self).wf(),
        ensures
            final(self).wf(),
            final(self).same_elsewhere(old(self), id@),
            final(self).count() == old(self).count(),
            match old(self).get(id@) {
                Some(m) => r && final(self).get(id@) == Some(
                    PendingMintView {
                        snapshot: Some((snapshot.supply@, snapshot.tvl@, snapshot.timestamp)),
                        ..m
                    },
                ),
                None => !r && final(self).get(id@).is_none(),
            },
    {
        let owned = id.to_owned();
        let ghost before = self.mints@;
        match self.find(&owned) {
            Some(i) => {
                let current = self.mints[i].clone();
                let updated = PendingMint { snapshot: Some(snapshot), ..current };
                self.mints.set(i, updated);
                proof {
                    let after = self.mints@;
                    assert forall|a: int, b: int|
                        0 <= a < after.len() && 0 <= b < after.len() && a != b implies after[a].id@
                        != after[b].id@ by {
                        assert(after[a].id@ == before[a].id@);
                        assert(after[b].id@ == before[b].id@);
                    }
                    Self::lemma_get_at(after, i as int);
                    assert forall|j: int|
                        0 <= j < before.len() && before[j].id@ != id@ implies #[trigger] Self::among(
                        after,
                        before[j]@,
                    ) by {
                        assert(after[j]@ == before[j]@);
                    }
                    assert forall|k: int|
                        0 <= k < after.len() && after[k].id@ != id@ implies #[trigger] Self::among(
                        before,
                        after[k]@,
                    ) by {
                        assert(before[k]@ == after[k]@);
                    }
                    Self::lemma_same_elsewhere(before, after, id@);
                }
                true
            },
            None => false,
        }
    }

    /// A copy of the mint stored under `id`, if any.
    pub fn get_pending_mint(&self, id: &str) -> (r: Option<PendingMint>)
        requires
            self.wf(),
        ensures
            match r {
                Some(m) => self.get(id@) == Some(m@),
                None => self.get(id@).is_none(),
            },
    {
        let owned = id.to_owned();
        match self.find(&owned) {
            Some(i) => Some(self.mints[i].clone()),
            None => None,
        }
    }

    /// The status of the mint stored under `id`, if any.
    pub fn get_mint_status(&self, id: &str) -> (r: Option<MintStatus>)
        requires
            self.wf(),
        ensures
            match r {
                Some(s) => self.get(id@) matches Some(m) && m.status == s@,
                None => self.get(id@).is_none(),
            },
    {
        let owned = id.to_owned();
        match self.find(&owned) {
            Some(i) => Some(self.mints[i].status.clone()),
            None => None,
        }
    }

    /// Drop every mint that has outlived its 24 hours at `now`, whatever its
    /// status, and say how many were dropped.
    pub fn cleanup_expired_mints(&mut self, now: u64) -> (r: usize)
        requires
            old(self).wf(),
        ensures
            final(self).wf(),
            forall|id: Seq<char>|
                final(self).get(id) == match old(self).get(id) {
                    Some(m) => if expired(m.created_at, now) {
                        None
                    } else {
                        Some(m)
                    },
                    None => None,
                },
            r == old(self).count() - final(self).count(),
    {
        let ghost before = self.mints@;
        let mut kept: Vec<PendingMint> = Vec::new();
        let mut dropped: usize = 0;
        let mut i: usize = 0;
        let n: usize = self.mints.len();
        while i < n
            invariant
                i <= n,
                n == before.len(),
                self.mints@ == before,
                dropped + kept@.len() == i,
                forall|a: int, b: int|
                    0 <= a < before.len() && 0 <= b < before.len() && a != b ==> before[a].id@
                        != before[b].id@,
                forall|k: int|
                    0 <= k < kept@.len() ==> #[trigger] Self::live_among(
                        before,
                        i as int,
                        kept@[k]@,
                        now,
                    ),
                forall|j: int|
                    0 <= j < i && !expired(before[j].created_at, now) ==> #[trigger] Self::among(
                        kept@,
                        before[j]@,
                    ),
                forall|a: int, b: int|
                    0 <= a < kept@.len() && 0 <= b < kept@.len() && a != b ==> kept@[a].id@
                        != kept@[b].id@,
            decreases n - i,
        {
            let created: u64 = self.mints[i].created_at;
            let is_expired = now >= created && now - created >= PENDING_MINT_TTL_NANOS;
            let ghost kept_before = kept@;
            if is_expired {
                dropped = dropped + 1;
            } else {
                let copy = self.mints[i].clone();
                kept.push(copy);
            }
            proof {
                let m = kept_before.len() as int;
                assert forall|k: int| 0 <= k < kept@.len() implies #[trigger] Self::live_among(
                    before,
                    i as int + 1,
                    kept@[k]@,
                    now,
                ) by {
                    if k < m {
                        assert(kept@[k] == kept_before[k]);
                        assert(Self::live_among(before, i as int, kept_before[k]@, now));
                        let j = choose|j: int|
                            0 <= j < i && #[trigger] before[j]@ == kept_before[k]@ && !expired(
                                before[j].created_at,
                                now,
                            );
                        assert(before[j]@ == kept@[k]@);
                    } else {
                        assert(before[i as int]@ == kept@[k]@);
                    }
                }
                assert forall|j: int|
                    0 <= j < i + 1 && !expired(before[j].created_at, now) implies #[trigger] Self::among(
                    kept@,
                    before[j]@,
                ) by {
                    if j < i {
                        assert(Self::among(kept_before, before[j]@));
                        let k = choose|k: int|
                            0 <= k < kept_before.len() && #[trigger] kept_before[k]@ == before[j]@;
                        assert(kept@[k] == kept_before[k]);
                        assert(kept@[k]@ == before[j]@);
                    } else {
                        assert(kept@[m]@ == before[j]@);
                    }
                }
                assert forall|a: int, b: int|
                    0 <= a < kept@.len() && 0 <= b < kept@.len() && a != b implies kept@[a].id@
                    != kept@[b].id@ by {
                    if a < m && b < m {
                        assert(kept@[a] == kept_before[a]);
                        assert(kept@[b] == kept_before[b]);
                    } else {
                        let c = if a < m { a } else { b };
                        assert(kept@[c] == kept_before[c]);
                        assert(Self::live_among(before, i as int, kept_before[c]@, now));
                        let j = choose|j: int|
                            0 <= j < i && #[trigger] before[j]@ == kept_before[c]@ && !expired(
                                before[j].created_at,
                                now,
                            );
                        assert(before[j].id@ == kept@[c].id@);
                        assert(before[j].id@ != before[i as int].id@);
                    }
                }
            }
            i = i + 1;
        }
        self.mints = kept;
        proof {
            let after = self.mints@;
            assert forall|id: Seq<char>|
                self.get(id) == match old(self).get(id) {
                    Some(m) => if expired(m.created_at, now) {
                        None
                    } else {
                        Some(m)
                    },
                    None => None,
                } by {
                if exists|x: int| 0 <= x < after.len() && after[x].id@ == id {
                    let x0 = choose|x: int| 0 <= x < after.len() && after[x].id@ == id;
                    assert(after[x0].id@ == id);
                    assert(Self::live_among(before, n as int, after[x0]@, now));
                    let j1 = choose|j: int|
                        0 <= j < n && #[trigger] before[j]@ == after[x0]@ && !expired(
                            before[j].created_at,
                            now,
                        );
                    assert(before[j1].id@ == id);
                    Self::lemma_get_at(before, j1);
                    Self::lemma_get_at(after, x0);
                } else {
                    if exists|j: int| 0 <= j < before.len() && before[j].id@ == id {
                        let j0 = choose|j: int| 0 <= j < before.len() && before[j].id@ == id;
                        assert(before[j0].id@ == id);
                        Self::lemma_get_at(before, j0);
                        if !expired(before[j0].created_at, now) {
                            assert(Self::among(after, before[j0]@));
                            let k = choose|k: int|
                                0 <= k < after.len() && #[trigger] after[k]@ == before[j0]@;
                            assert(after[k].id@ == id);
                        }
                    }
                }
            }
        }
        dropped
    }

    /// `v` is one of the first `upto` entries of `mints`, and has not expired.
    closed spec fn live_among(mints: Seq<PendingMint>, upto: int, v: PendingMintView, now: u64) -> bool {
        exists|j: int|
            0 <= j < upto && #[trigger] mints[j]@ == v && !expired(mints[j].created_at, now)
    }

    /// `v` is one of the entries of `mints`.
    pub open spec fn among(mints: Seq<PendingMint>, v: PendingMintView) -> bool {
        exists|k: int| 0 <= k < mints.len() && #[trigger] mints[k]@ == v
    }

    /// A copy of every mint stored.
    pub fn export_state(&self) -> (r: Vec<PendingMint>)
        requires
            self.wf(),
        ensures
            r@.len() == self.count(),
            forall|i: int| 0 <= i < r@.len() ==> self.get(#[trigger] r@[i].id@) == Some(r@[i]@),
            forall|id: Seq<char>|
                (#[trigger] self.get(id)) is Some ==> Self::among(r@, self.get(id).unwrap()),
    {
        let mut out: Vec<PendingMint> = Vec::new();
        let mut i: usize = 0;
        while i < self.mints.len()
            invariant
                i <= self.mints@.len(),
                out@.len() == i,
                forall|j: int| 0 <= j < i ==> out@[j]@ == self.mints@[j]@,
            decreases self.mints@.len() - i,
        {
            out.push(self.mints[i].clone());
            i = i + 1;
        }
        proof {
            assert forall|i: int| 0 <= i < out@.len() implies self.get(#[trigger] out@[i].id@)
                == Some(out@[i]@) by {
                Self::lemma_get_at(self.mints@, i);
            }
            assert forall|id: Seq<char>| (#[trigger] self.get(id)) is Some implies Self::among(
                out@,
                self.get(id).unwrap(),
            ) by {
                let mints = self.mints@;
                let c = choose|c: int| 0 <= c < mints.len() && mints[c].id@ == id;
                assert(out@[c]@ == self.get(id).unwrap());
            }
        }
        out
    }

    /// The table that holds the given mints; of two mints with one id, the later
    /// stands.
    pub fn import_state(mints: Vec<PendingMint>) -> (r: MintStore)
        ensures
            r.wf(),
            forall|id: Seq<char>| #[trigger] r.get(id) == latest_with_id(mints@, id),
    {
        let mut store = MintStore::new();
        let mut i: usize = 0;
        while i < mints.len()
            invariant
                store.wf(),
                i <= mints@.len(),
                forall|id: Seq<char>|
                    #[trigger] store.get(id) == latest_with_id(mints@.take(i as int), id),
            decreases mints@.len() - i,
        {
            let ghost prev = store;
            let copy = mints[i].clone();
            store.store_pending_mint(copy);
            proof {
                let id_i = mints@[i as int].id@;
                let next = mints@.take(i as int + 1);
                assert(next.drop_last() == mints@.take(i as int));
                assert(next.last() == mints@[i as int]);
                assert forall|id: Seq<char>| #[trigger] store.get(id) == latest_with_id(
                    next,
                    id,
                ) by {
                    if id != id_i {
                        assert(store.get(id) == prev.get(id));
                    }
                }
            }
            i = i + 1;
        }
        proof {
            assert(mints@.take(mints@.len() as int) == mints@);
        }
        store
    }
}

} // verus!
