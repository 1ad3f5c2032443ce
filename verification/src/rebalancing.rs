//! The rebalancing controller: one bounded trade per cycle, towards the target
//! weights.
//!
//! With enough stable reserves the token furthest below its target is bought;
//! failing that, the token furthest above its target is sold; deviations below
//! the minimum trade size are left alone.

use vstd::prelude::*;
use crate::amount::Amount;
use crate::constants::{MAX_REBALANCE_HISTORY, MIN_TRADE_SIZE_USD_E6, REBALANCE_INTERVAL_SECONDS};
use crate::errors::{IcpiError, RebalanceError};
use crate::math::pow10;
use crate::portfolio::AllocationDeviation;
use crate::reentrancy::NANOS_PER_SECOND;
use crate::strings::text;
use crate::tokens::{decimals_of, symbol_of, TrackedToken};

verus! {

/// What a rebalancing cycle does. Dollar values are in millionths of a dollar.
#[derive(Debug, Clone, Copy, PartialEq, Eq, Structural)]
pub enum RebalanceAction {
    /// Nothing is traded.
    NoAction,
    Buy { token: TrackedToken, usdt_amount_e6: u64 },
    Sell { token: TrackedToken, usdt_value_e6: u64 },
}

/// The record of one rebalancing cycle.
#[derive(Debug)]
pub struct RebalanceRecord {
    pub timestamp: u64,
    pub action: RebalanceAction,
    pub success: bool,
    pub details: String,
}

/// A record as plain values.
pub struct RebalanceRecordView {
    pub timestamp: u64,
    pub action: RebalanceAction,
    pub success: bool,
    pub details: Seq<char>,
}

impl View for RebalanceRecord {
    type V = RebalanceRecordView;

    open spec fn view(&self) -> RebalanceRecordView {
        RebalanceRecordView {
            timestamp: self.timestamp,
            action: self.action,
            success: self.success,
            details: self.details@,
        }
    }
}

impl Clone for RebalanceRecord {
    fn clone(&self) -> (r: RebalanceRecord)
        ensures
            r@ == self@,
    {
        RebalanceRecord {
            timestamp: self.timestamp,
            action: self.action,
            success: self.success,
            details: self.details.clone(),
        }
    }
}

/// Records as plain values.
pub open spec fn records_view(s: Seq<RebalanceRecord>) -> Seq<RebalanceRecordView> {
    Seq::new(s.len(), |i: int| s[i]@)
}

/// What the rebalancer reports of itself.
#[derive(Debug)]
pub struct RebalancerStatus {
    pub timer_active: bool,
    pub last_rebalance: Option<u64>,
    pub next_rebalance: Option<u64>,
    pub recent_history: Vec<RebalanceRecord>,
}

// ---------------------------------------------------------------------------
// choosing the action
// ---------------------------------------------------------------------------

/// `i` is the deviation to buy for: under-weight, no other is more under-weight,
/// and of several equally under-weight it is the last.
pub open spec fn is_most_underweight(deviations: Seq<AllocationDeviation>, i: int) -> bool {
    &&& 0 <= i < deviations.len()
    &&& deviations[i].usd_difference_e6 > 0
    &&& forall|j: int|
        0 <= j < deviations.len() ==> (#[trigger] deviations[j]).usd_difference_e6
            <= deviations[i].usd_difference_e6
    &&& forall|j: int|
        i < j < deviations.len() ==> (#[trigger] deviations[j]).usd_difference_e6
            < deviations[i].usd_difference_e6
}

/// `i` is the deviation to sell for: over-weight, no other is more over-weight,
/// and of several equally over-weight it is the first.
pub open spec fn is_most_overweight(deviations: Seq<AllocationDeviation>, i: int) -> bool {
    &&& 0 <= i < deviations.len()
    &&& deviations[i].usd_difference_e6 < 0
    &&& forall|j: int|
        0 <= j < deviations.len() ==> (#[trigger] deviations[j]).usd_difference_e6
            >= deviations[i].usd_difference_e6
    &&& forall|j: int|
        0 <= j < i ==> (#[trigger] deviations[j]).usd_difference_e6
            > deviations[i].usd_difference_e6
}

/// Some token is under-weight.
pub open spec fn any_underweight(deviations: Seq<AllocationDeviation>) -> bool {
    exists|j: int| 0 <= j < deviations.len() && (#[trigger] deviations[j]).usd_difference_e6 > 0
}

/// Some token is over-weight.
pub open spec fn any_overweight(deviations: Seq<AllocationDeviation>) -> bool {
    exists|j: int| 0 <= j < deviations.len() && (#[trigger] deviations[j]).usd_difference_e6 < 0
}

/// A buy is called for: the reserves reach the minimum trade size, and the most
/// under-weight token is short by more than the minimum.
pub open spec fn buy_called_for(deviations: Seq<AllocationDeviation>, reserves: nat, i: int) -> bool {
    reserves >= MIN_TRADE_SIZE_USD_E6 && is_most_underweight(deviations, i)
        && deviations[i].usd_difference_e6 > MIN_TRADE_SIZE_USD_E6
}

/// A sell is called for: the most over-weight token is over by more than the
/// minimum trade size.
pub open spec fn sell_called_for(deviations: Seq<AllocationDeviation>, i: int) -> bool {
    is_most_overweight(deviations, i) && -deviations[i].usd_difference_e6 > MIN_TRADE_SIZE_USD_E6
}

/// `action` is what the deviations call for, given the stable reserves: the buy
/// where one is called for; failing that, the sale where one is called for;
/// failing that, nothing. The amount is the trade size that the deviation
/// carries.
pub open spec fn action_called_for(
    deviations: Seq<AllocationDeviation>,
    reserves: nat,
    action: RebalanceAction,
) -> bool {
    match action {
        RebalanceAction::Buy { token, usdt_amount_e6 } => exists|i: int|
            buy_called_for(deviations, reserves, i) && token == (#[trigger] deviations[i]).token
                && usdt_amount_e6 == deviations[i].trade_size_e6,
        RebalanceAction::Sell { token, usdt_value_e6 } => {
            &&& forall|i: int| !buy_called_for(deviations, reserves, i)
            &&& exists|i: int|
                sell_called_for(deviations, i) && token == (#[trigger] deviations[i]).token
                    && usdt_value_e6 == deviations[i].trade_size_e6
        },
        RebalanceAction::NoAction => {
            &&& forall|i: int| !buy_called_for(deviations, reserves, i)
            &&& forall|i: int| !sell_called_for(deviations, i)
        },
    }
}

fn most_underweight(deviations: &[AllocationDeviation]) -> (r: Option<usize>)
    ensures
        match r {
            Some(i) => is_most_underweight(deviations@, i as int),
            None => !any_underweight(deviations@),
        },
{
    let mut best: Option<usize> = None;
    let mut i: usize = 0;
    while i < deviations.len()
        invariant
            i <= deviations@.len(),
            match best {
                Some(b) => is_most_underweight(deviations@.take(i as int), b as int),
                None => !any_underweight(deviations@.take(i as int)),
            },
        decreases deviations@.len() - i,
    {
        let ghost before = deviations@.take(i as int);
        let ghost after = deviations@.take(i as int + 1);
        proof {
            assert forall|j: int| 0 <= j < i implies after[j] == before[j] by {}
            assert(after[i as int] == deviations@[i as int]);
        }
        let difference: i64 = deviations[i].usd_difference_e6;
        if difference > 0 {
            match best {
                Some(b) => {
                    if deviations[b].usd_difference_e6 <= difference {
                        best = Some(i);
                        proof {
                            assert forall|j: int| 0 <= j < after.len() implies (#[trigger] after[j]).usd_difference_e6
                                <= after[i as int].usd_difference_e6 by {
                                if j < i {
                                    assert(before[j].usd_difference_e6
                                        <= before[b as int].usd_difference_e6);
                                }
                            }
                        }
                    } else {
                        proof {
                            assert forall|j: int| 0 <= j < after.len() implies (#[trigger] after[j]).usd_difference_e6
                                <= after[b as int].usd_difference_e6 by {
                                if j < i {
                                    assert(before[j].usd_difference_e6
                                        <= before[b as int].usd_difference_e6);
                                }
                            }
                            assert forall|j: int| b < j < after.len() implies (#[trigger] after[j]).usd_difference_e6
                                < after[b as int].usd_difference_e6 by {
                                if j < i {
                                    assert(before[j].usd_difference_e6
                                        < before[b as int].usd_difference_e6);
                                }
                            }
                        }
                    }
                },
                None => {
                    best = Some(i);
                    proof {
                        assert forall|j: int| 0 <= j < after.len() implies (#[trigger] after[j]).usd_difference_e6
                            <= after[i as int].usd_difference_e6 by {
                            if j < i {
                                assert(before[j].usd_difference_e6 <= 0);
                            }
                        }
                    }
                },
            }
        } else {
            proof {
                match best {
                    Some(b) => {
                        assert forall|j: int| 0 <= j < after.len() implies (#[trigger] after[j]).usd_difference_e6
                            <= after[b as int].usd_difference_e6 by {
                            if j < i {
                                assert(before[j].usd_difference_e6
                                    <= before[b as int].usd_difference_e6);
                            }
                        }
                        assert forall|j: int| b < j < after.len() implies (#[trigger] after[j]).usd_difference_e6
                            < after[b as int].usd_difference_e6 by {
                            if j < i {
                                assert(before[j].usd_difference_e6
                                    < before[b as int].usd_difference_e6);
                            }
                        }
                    },
                    None => {
                        if any_underweight(after) {
                            let j = choose|j: int|
                                0 <= j < after.len() && (#[trigger] after[j]).usd_difference_e6 > 0;
                            assert(before[j].usd_difference_e6 > 0);
                        }
                    },
                }
            }
        }
        i = i + 1;
    }
    proof {
        assert(deviations@.take(deviations@.len() as int) == deviations@);
    }
    best
}

fn most_overweight(deviations: &[AllocationDeviation]) -> (r: Option<usize>)
    ensures
        match r {
            Some(i) => is_most_overweight(deviations@, i as int),
            None => !any_overweight(deviations@),
        },
{
    let mut best: Option<usize> = None;
    let mut i: usize = 0;
    while i < deviations.len()
        invariant
            i <= deviations@.len(),
            match best {
                Some(b) => is_most_overweight(deviations@.take(i as int), b as int),
                None => !any_overweight(deviations@.take(i as int)),
            },
        decreases deviations@.len() - i,
    {
        let ghost before = deviations@.take(i as int);
        let ghost after = deviations@.take(i as int + 1);
        proof {
            assert forall|j: int| 0 <= j < i implies after[j] == before[j] by {}
            assert(after[i as int] == deviations@[i as int]);
        }
        let difference: i64 = deviations[i].usd_difference_e6;
        let ghost old_best = best;
        if difference < 0 {
            match best {
                Some(b) => {
                    if difference < deviations[b].usd_difference_e6 {
                        best = Some(i);
                    }
                },
                None => {
                    best = Some(i);
                },
            }
        }
        proof {
            match best {
                Some(b) => {
                    assert forall|j: int| 0 <= j < after.len() implies (#[trigger] after[j]).usd_difference_e6
                        >= after[b as int].usd_difference_e6 by {
                        if j < i {
                            match old_best {
                                Some(ob) => {
                                    assert(before[j].usd_difference_e6
                                        >= before[ob as int].usd_difference_e6);
                                },
                                None => {
                                    assert(before[j].usd_difference_e6 >= 0);
                                },
                            }
                        }
                    }
                    assert forall|j: int| 0 <= j < b implies (#[trigger] after[j]).usd_difference_e6
                        > after[b as int].usd_difference_e6 by {
                        match old_best {
                            Some(ob) => {
                                if j < ob {
                                    assert(before[j].usd_difference_e6
                                        > before[ob as int].usd_difference_e6);
                                } else {
                                    assert(before[j].usd_difference_e6
                                        >= before[ob as int].usd_difference_e6);
                                }
                            },
                            None => {
                                assert(before[j].usd_difference_e6 >= 0);
                            },
                        }
                    }
                },
                None => {
                    if any_overweight(after) {
                        let j = choose|j: int|
                            0 <= j < after.len() && (#[trigger] after[j]).usd_difference_e6 < 0;
                        assert(before[j].usd_difference_e6 < 0);
                    }
                },
            }
        }
        i = i + 1;
    }
    proof {
        assert(deviations@.take(deviations@.len() as int) == deviations@);
    }
    best
}

/// The action that the deviations call for, given the stable reserves.
///
/// First choice is to buy the most under-weight token, where the reserves reach
/// the minimum trade size and the token is short by more than the minimum.
/// Second choice is to sell the most over-weight token, where it is over by
/// more than the minimum. Otherwise nothing is done. The amount is the trade
/// size that the deviation carries.
pub fn get_rebalancing_action(deviations: &[AllocationDeviation], ckusdt_balance: &Amount) -> (r: Result<
    RebalanceAction,
    IcpiError,
>)
    ensures
        r matches Ok(action) && action_called_for(deviations@, ckusdt_balance@, action),
{
    let minimum = Amount::from_u64(MIN_TRADE_SIZE_USD_E6);
    let can_buy = minimum.le(ckusdt_balance);
    let underweight = most_underweight(deviations);
    proof {
        // there is at most one deviation to buy for
        assert forall|i: int, j: int|
            is_most_underweight(deviations@, i) && is_most_underweight(
                deviations@,
                j,
            ) implies i == j by {
            if i < j {
                assert(deviations@[j].usd_difference_e6 < deviations@[i].usd_difference_e6);
                assert(deviations@[i].usd_difference_e6 <= deviations@[j].usd_difference_e6);
            } else if j < i {
                assert(deviations@[i].usd_difference_e6 < deviations@[j].usd_difference_e6);
                assert(deviations@[j].usd_difference_e6 <= deviations@[i].usd_difference_e6);
            }
        }
    }
    if can_buy {
        match underweight {
            Some(i) => {
                let deficit = &deviations[i];
                if deficit.usd_difference_e6 > MIN_TRADE_SIZE_USD_E6 as i64 {
                    proof {
                        assert(buy_called_for(deviations@, ckusdt_balance@, i as int));
                    }
                    return Ok(
                        RebalanceAction::Buy {
                            token: deficit.token,
                            usdt_amount_e6: deficit.trade_size_e6,
                        },
                    );
                }
            },
            None => {
                proof {
                    assert forall|i: int| !is_most_underweight(deviations@, i) by {
                        if is_most_underweight(deviations@, i) {
                            assert(deviations@[i].usd_difference_e6 > 0);
                        }
                    }
                }
            },
        }
    }
    proof {
        assert forall|i: int| !buy_called_for(deviations@, ckusdt_balance@, i) by {
            if buy_called_for(deviations@, ckusdt_balance@, i) {
                match underweight {
                    Some(u) => {
                        assert(i == u);
                    },
                    None => {
                        assert(deviations@[i].usd_difference_e6 > 0);
                    },
                }
            }
        }
    }
    let overweight = most_overweight(deviations);
    proof {
        assert forall|i: int, j: int|
            is_most_overweight(deviations@, i) && is_most_overweight(deviations@, j) implies i
            == j by {
            if i < j {
                assert(deviations@[i].usd_difference_e6 > deviations@[j].usd_difference_e6);
                assert(deviations@[j].usd_difference_e6 >= deviations@[i].usd_difference_e6);
            } else if j < i {
                assert(deviations@[j].usd_difference_e6 > deviations@[i].usd_difference_e6);
                assert(deviations@[i].usd_difference_e6 >= deviations@[j].usd_difference_e6);
            }
        }
    }
    match overweight {
        Some(i) => {
            let excess = &deviations[i];
            // the difference is negative: its magnitude is over the minimum
            if excess.usd_difference_e6 < -(MIN_TRADE_SIZE_USD_E6 as i64) {
                proof {
                    assert(sell_called_for(deviations@, i as int));
                }
                return Ok(
                    RebalanceAction::Sell { token: excess.token, usdt_value_e6: excess.trade_size_e6 },
                );
            }
            proof {
                assert forall|k: int| !sell_called_for(deviations@, k) by {
                    if sell_called_for(deviations@, k) {
                        assert(k == i);
                    }
                }
            }
        },
        None => {
            proof {
                assert forall|k: int| !sell_called_for(deviations@, k) by {
                    if sell_called_for(deviations@, k) {
                        assert(deviations@[k].usd_difference_e6 < 0);
                    }
                }
            }
        },
    }
    Ok(RebalanceAction::NoAction)
}

// ---------------------------------------------------------------------------
// sizing the trades
// ---------------------------------------------------------------------------

/// The atoms of a token with `decimals` decimals that are worth `usd_value_e6`
/// at `price_e6` a whole token, rounded down.
pub open spec fn atoms_for_value(usd_value_e6: u64, price_e6: u64, decimals: u8) -> nat {
    ((usd_value_e6 as nat) * pow10(decimals as nat)) / (price_e6 as nat)
}

/// What to pay in a sale of `token` worth `usd_value_e6`, at the price quoted,
/// given what the system holds of it: the atoms worth that value.
///
/// Fails with `InsufficientBalance` where the system holds less, and where no
/// price was quoted or the price is zero.
pub fn sell_amount(token: &TrackedToken, usd_value_e6: u64, price_e6: u64, balance: &Amount) -> (r: Result<
    Amount,
    IcpiError,
>)
    ensures
        price_e6 == 0 ==> r matches Err(IcpiError::Other(_)),
        price_e6 != 0 && balance@ < atoms_for_value(usd_value_e6, price_e6, decimals_of(*token))
            ==> {
            &&& r matches Err(
                IcpiError::Rebalance(
                    RebalanceError::InsufficientBalance { token: symbol, available, required },
                ),
            )
            &&& symbol@ == symbol_of(*token)
            &&& available@ == balance@
            &&& required@ == atoms_for_value(usd_value_e6, price_e6, decimals_of(*token))
        },
        price_e6 != 0 && balance@ >= atoms_for_value(usd_value_e6, price_e6, decimals_of(*token))
            ==> (r matches Ok(amount) && amount@ == atoms_for_value(
            usd_value_e6,
            price_e6,
            decimals_of(*token),
        )),
{
    if price_e6 == 0 {
        return Err(IcpiError::Other(text("Token price is zero")));
    }
    let decimals: u8 = token.get_decimals();
    let ten = Amount::from_u64(10);
    let mut unit = Amount::from_u64(1);
    let mut i: u8 = 0;
    while i < decimals
        invariant
            i <= decimals,
            ten@ == 10,
            unit@ == pow10(i as nat),
        decreases decimals - i,
    {
        unit = ten.times(&unit);
        i = i + 1;
    }
    let value = Amount::from_u64(usd_value_e6);
    let price = Amount::from_u64(price_e6);
    let token_amount = match value.times(&unit).checked_div(&price) {
        Some(a) => a,
        None => {
            proof {
                assert(false);
            }
            Amount::zero()
        },
    };
    if balance.lt(&token_amount) {
        return Err(
            IcpiError::Rebalance(
                RebalanceError::InsufficientBalance {
                    token: text(token.to_symbol()),
                    available: balance.duplicate(),
                    required: token_amount,
                },
            ),
        );
    }
    Ok(token_amount)
}

// ---------------------------------------------------------------------------
// history
// ---------------------------------------------------------------------------

/// The state of the rebalancer: when it last ran, the ring of recent records,
/// the full history, and whether a cycle is running.
#[derive(Debug)]
pub struct RebalanceState {
    last_rebalance: Option<u64>,
    history: Vec<RebalanceRecord>,
    full_history: Vec<RebalanceRecord>,
    timer_active: bool,
    in_progress: bool,
}

/// The last `limit` entries of a list of records.
pub open spec fn last_records(records: Seq<RebalanceRecordView>, limit: int) -> Seq<RebalanceRecordView> {
    if records.len() > limit {
        records.subrange(records.len() - limit, records.len() as int)
    } else {
        records
    }
}

impl RebalanceState {
    pub closed spec fn last_rebalance(&self) -> Option<u64> {
        self.last_rebalance
    }

    /// The ring of the most recent records, oldest first.
    pub closed spec fn recent(&self) -> Seq<RebalanceRecordView> {
        records_view(self.history@)
    }

    /// Every record since the history began, oldest first.
    pub closed spec fn full(&self) -> Seq<RebalanceRecordView> {
        records_view(self.full_history@)
    }

    pub closed spec fn timer_active(&self) -> bool {
        self.timer_active
    }

    /// A cycle is running.
    pub closed spec fn in_progress(&self) -> bool {
        self.in_progress
    }

    /// The ring holds at most ten records: the last ones of the full history.
    pub closed spec fn wf(&self) -> bool {
        &&& self.history@.len() <= MAX_REBALANCE_HISTORY
        &&& self.recent() == last_records(self.full(), MAX_REBALANCE_HISTORY as int)
    }

    /// A rebalancer that has never run.
    pub fn new() -> (r: RebalanceState)
        ensures
            r.wf(),
            r.last_rebalance().is_none(),
            r.recent().len() == 0,
            r.full().len() == 0,
            !r.timer_active(),
            !r.in_progress(),
    {
        let r = RebalanceState {
            last_rebalance: None,
            history: Vec::new(),
            full_history: Vec::new(),
            timer_active: false,
            in_progress: false,
        };
        proof {
            assert(r.recent() =~= r.full());
        }
        r
    }

    /// End the running cycle.
    pub fn finish_rebalance(&mut self)
        ensures
            !final(self).in_progress(),
            final(self).last_rebalance() == old(self).last_rebalance(),
            final(self).recent() == old(self).recent(),
            final(self).full() == old(self).full(),
            final(self).timer_active() == old(self).timer_active(),
            final(self).wf() == old(self).wf(),
    {
        self.in_progress = false;
    }

    /// Record the outcome of a cycle at time `now`: the record joins the full
    /// history, and the ring keeps the last ten.
    pub fn record_rebalance(&mut self, action: RebalanceAction, success: bool, details: &str, now: u64)
        requires
            old(self).wf(),
            old(self).full().len() < usize::MAX,
        ensures
            final(self).wf(),
            final(self).last_rebalance() == Some(now),
            final(self).full() == old(self).full().push(
                RebalanceRecordView { timestamp: now, action, success, details: details@ },
            ),
            final(self).recent() == last_records(final(self).full(), MAX_REBALANCE_HISTORY as int),
            final(self).recent().len() <= MAX_REBALANCE_HISTORY,
            final(self).timer_active() == old(self).timer_active(),
            final(self).in_progress() == old(self).in_progress(),
    {
        let ghost entry = RebalanceRecordView { timestamp: now, action, success, details: details@ };
        let ghost recent_before = self.recent();
        let ghost full_before = self.full();
        self.last_rebalance = Some(now);
        self.history.push(
            RebalanceRecord { timestamp: now, action, success, details: text(details) },
        );
        self.full_history.push(
            RebalanceRecord { timestamp: now, action, success, details: text(details) },
        );
        proof {
            assert(self.recent() =~= recent_before.push(entry));
            assert(self.full() =~= full_before.push(entry));
        }
        if self.history.len() > MAX_REBALANCE_HISTORY {
            let ghost grown = self.recent();
            self.history.remove(0);
            proof {
                assert(self.recent() =~= grown.subrange(1, grown.len() as int));
            }
        }
        proof {
            assert(self.recent() =~= last_records(self.full(), MAX_REBALANCE_HISTORY as int));
        }
    }

    /// A copy of the full history, oldest record first.
    pub fn get_full_trade_history(&self) -> (r: Vec<RebalanceRecord>)
        ensures
            records_view(r@) == self.full(),
    {
        copy_records(&self.full_history)
    }

    /// The rebalancer with the given full history and nothing running.
    pub fn load_history_from_stable(history: Vec<RebalanceRecord>) -> (r: RebalanceState)
        ensures
            r.wf(),
            r.full() == records_view(history@),
            r.recent() == last_records(records_view(history@), MAX_REBALANCE_HISTORY as int),
            r.last_rebalance().is_none(),
            !r.timer_active(),
            !r.in_progress(),
    {
        let n: usize = history.len();
        let start: usize = if n > MAX_REBALANCE_HISTORY {
            n - MAX_REBALANCE_HISTORY
        } else {
            0
        };
        let mut recent: Vec<RebalanceRecord> = Vec::new();
        let mut i: usize = start;
        while i < n
            invariant
                start <= i <= n,
                n == history@.len(),
                n - start <= MAX_REBALANCE_HISTORY,
                recent@.len() == i - start,
                forall|j: int| 0 <= j < i - start ==> recent@[j]@ == history@[start + j]@,
            decreases n - i,
        {
            recent.push(history[i].clone());
            i = i + 1;
        }
        let r = RebalanceState {
            last_rebalance: None,
            history: recent,
            full_history: history,
            timer_active: false,
            in_progress: false,
        };
        proof {
            assert(r.recent() =~= last_records(r.full(), MAX_REBALANCE_HISTORY as int));
        }
        r
    }
}

/// Note that the timer has been started.
pub fn start_rebalancing_timer(state: &mut RebalanceState)
    ensures
        final(state).timer_active(),
        final(state).last_rebalance() == old(state).last_rebalance(),
        final(state).recent() == old(state).recent(),
        final(state).full() == old(state).full(),
        final(state).in_progress() == old(state).in_progress(),
        final(state).wf() == old(state).wf(),
{
    state.timer_active = true;
}

/// Mark a cycle as running. Fails with `RebalancingInProgress`, changing
/// nothing, while another cycle is running.
pub fn begin_cycle(state: &mut RebalanceState) -> (r: Result<(), IcpiError>)
    ensures
        old(state).in_progress() ==> r matches Err(
            IcpiError::Rebalance(RebalanceError::RebalancingInProgress),
        ),
        !old(state).in_progress() ==> r is Ok,
        final(state).in_progress(),
        final(state).last_rebalance() == old(state).last_rebalance(),
        final(state).recent() == old(state).recent(),
        final(state).full() == old(state).full(),
        final(state).timer_active() == old(state).timer_active(),
        final(state).wf() == old(state).wf(),
{
    if state.in_progress {
        return Err(IcpiError::Rebalance(RebalanceError::RebalancingInProgress));
    }
    state.in_progress = true;
    Ok(())
}

/// What the rebalancer reports of itself: the next cycle is due an hour
/// after the last.
pub fn get_rebalancer_status(state: &RebalanceState) -> (r: RebalancerStatus)
    ensures
        r.timer_active == state.timer_active(),
        r.last_rebalance == state.last_rebalance(),
        r.next_rebalance == match state.last_rebalance() {
            Some(last) => if last + REBALANCE_INTERVAL_SECONDS * NANOS_PER_SECOND <= u64::MAX {
                Some((last + REBALANCE_INTERVAL_SECONDS * NANOS_PER_SECOND) as u64)
            } else {
                None
            },
            None => None,
        },
        records_view(r.recent_history@) == state.recent(),
{
    let interval: u64 = REBALANCE_INTERVAL_SECONDS * NANOS_PER_SECOND;
    let next_rebalance = match state.last_rebalance {
        Some(last) => {
            if last <= u64::MAX - interval {
                Some(last + interval)
            } else {
                None
            }
        },
        None => None,
    };
    let recent_history = copy_records(&state.history);
    RebalancerStatus {
        timer_active: state.timer_active,
        last_rebalance: state.last_rebalance,
        next_rebalance,
        recent_history,
    }
}

fn copy_records(records: &Vec<RebalanceRecord>) -> (r: Vec<RebalanceRecord>)
    ensures
        records_view(r@) == records_view(records@),
{
    let mut out: Vec<RebalanceRecord> = Vec::new();
    let mut i: usize = 0;
    while i < records.len()
        invariant
            i <= records@.len(),
            out@.len() == i,
            forall|j: int| 0 <= j < i ==> out@[j]@ == records@[j]@,
        decreases records@.len() - i,
    {
        out.push(records[i].clone());
        i = i + 1;
    }
    proof {
        assert(records_view(out@) =~= records_view(records@));
    }
    out
}

/// One page of a trade history: up to `limit` records from `offset` on, and the
/// number of records in all.
pub fn get_trade_history_paginated(history: &Vec<RebalanceRecord>, offset: u64, limit: u64) -> (r: (
    Vec<RebalanceRecord>,
    u64,
))
    requires
        history@.len() <= u64::MAX,
    ensures
        r.1 == history@.len(),
        offset >= history@.len() ==> r.0@.len() == 0,
        offset < history@.len() ==> records_view(r.0@) == records_view(history@).subrange(
            offset as int,
            if offset + limit < history@.len() {
                offset + limit
            } else {
                history@.len() as int
            },
        ),
{
    let total: usize = history.len();
    let mut page: Vec<RebalanceRecord> = Vec::new();
    if offset >= total as u64 {
        return (page, total as u64);
    }
    let start: usize = offset as usize;
    let room: usize = total - start;
    let end: usize = if limit < room as u64 {
        start + limit as usize
    } else {
        total
    };
    let mut i: usize = start;
    while i < end
        invariant
            start <= i <= end <= total,
            total == history@.len(),
            page@.len() == i - start,
            forall|j: int| 0 <= j < i - start ==> page@[j]@ == history@[start + j]@,
        decreases end - i,
    {
        page.push(history[i].clone());
        i = i + 1;
    }
    proof {
        assert(records_view(page@) =~= records_view(history@).subrange(start as int, end as int));
    }
    (page, total as u64)
}

} // verus!
