//! What is kept across upgrades: the pending mints and the trade history.
//! Everything else is rebuilt on restart.

use vstd::prelude::*;
use crate::constants::MAX_REBALANCE_HISTORY;
use crate::mint_state::{expired, latest_with_id, MintStore, PendingMint};
use crate::rebalancing::{last_records, records_view, RebalanceRecord, RebalanceState};

verus! {

/// The envelope written before an upgrade and read after it.
#[derive(Debug)]
pub struct StableState {
    pub pending_mints: Vec<PendingMint>,
    pub trade_history: Vec<RebalanceRecord>,
}

/// The envelope to write before an upgrade: every pending mint and the full
/// trade history.
pub fn save_state(pending_mints: &MintStore, rebalancer: &RebalanceState) -> (r: StableState)
    requires
        pending_mints.wf(),
    ensures
        r.pending_mints@.len() == pending_mints.count(),
        forall|i: int|
            0 <= i < r.pending_mints@.len() ==> pending_mints.get(
                #[trigger] r.pending_mints@[i].id@,
            ) == Some(r.pending_mints@[i]@),
        forall|id: Seq<char>|
            (#[trigger] pending_mints.get(id)) is Some ==> MintStore::among(
                r.pending_mints@,
                pending_mints.get(id).unwrap(),
            ),
        records_view(r.trade_history@) == rebalancer.full(),
{
    StableState {
        pending_mints: pending_mints.export_state(),
        trade_history: rebalancer.get_full_trade_history(),
    }
}

/// The tables to go on with after an upgrade, at time `now`: the pending mints
/// that are less than 24 hours old, and the trade history. Of two saved mints
/// with one id the later counts. Where nothing could be read back, both are
/// empty.
pub fn restore_state(saved: Option<StableState>, now: u64) -> (r: (MintStore, RebalanceState))
    ensures
        r.0.wf(),
        r.1.wf(),
        !r.1.in_progress(),
        !r.1.timer_active(),
        r.1.last_rebalance() is None,
        match saved {
            None => {
                &&& r.0.count() == 0
                &&& forall|id: Seq<char>| (#[trigger] r.0.get(id)) is None
                &&& r.1.full().len() == 0
                &&& r.1.recent().len() == 0
            },
            Some(state) => {
                &&& r.1.full() == records_view(state.trade_history@)
                &&& r.1.recent() == last_records(
                    records_view(state.trade_history@),
                    MAX_REBALANCE_HISTORY as int,
                )
                &&& forall|id: Seq<char>|
                    #[trigger] r.0.get(id) == match latest_with_id(state.pending_mints@, id) {
                        Some(m) => if expired(m.created_at, now) {
                            None
                        } else {
                            Some(m)
                        },
                        None => None,
                    }
            },
        },
{
    match saved {
        None => (MintStore::new(), RebalanceState::new()),
        Some(state) => {
            let mut store = MintStore::import_state(state.pending_mints);
            let ghost imported = store;
            store.cleanup_expired_mints(now);
            proof {
                assert forall|id: Seq<char>|
                    #[trigger] store.get(id) == match latest_with_id(state.pending_mints@, id) {
                        Some(m) => if expired(m.created_at, now) {
                            None
                        } else {
                            Some(m)
                        },
                        None => None,
                    } by {
                    assert(imported.get(id) == latest_with_id(state.pending_mints@, id));
                }
            }
            (store, RebalanceState::load_history_from_stable(state.trade_history))
        },
    }
}

} // verus!
