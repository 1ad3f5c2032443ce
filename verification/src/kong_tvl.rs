//! Locked liquidity: the value that lock canisters hold of each basket token,
//! from which the target weights of the basket derive.

use vstd::prelude::*;
use crate::amount::Amount;
use crate::errors::IcpiError;
use crate::strings::{text, text_eq};
use crate::tokens::{basket, symbol_of, TrackedToken};

verus! {

/// One liquidity position: the two symbols of the pair, and the dollar value of
/// each side in millionths of a dollar.
#[derive(Debug)]
pub struct LpPosition {
    pub symbol_0: String,
    pub symbol_1: String,
    pub usd_amount_0_e6: u64,
    pub usd_amount_1_e6: u64,
}

/// What the exchange said of one lock canister's positions.
#[derive(Debug)]
pub enum PeerBalances {
    Queried(Vec<LpPosition>),
    /// The query failed, or the exchange answered with an error.
    Failed(String),
}

/// What a position holds of the token `symbol`: the value of each side that
/// bears the symbol. The value of the pair as a whole is never used, since it
/// would count the other side too.
pub open spec fn position_value(lp: LpPosition, symbol: Seq<char>) -> nat {
    (if lp.symbol_0@ == symbol {
        lp.usd_amount_0_e6 as nat
    } else {
        0
    }) + (if lp.symbol_1@ == symbol {
        lp.usd_amount_1_e6 as nat
    } else {
        0
    })
}

/// What a list of positions holds of the token `symbol`.
pub open spec fn positions_value(positions: Seq<LpPosition>, symbol: Seq<char>) -> nat
    decreases positions.len(),
{
    if positions.len() == 0 {
        0
    } else {
        positions_value(positions.drop_last(), symbol) + position_value(positions.last(), symbol)
    }
}

/// What the lock canisters that answered hold of the token `symbol`.
pub open spec fn locked_value(peers: Seq<PeerBalances>, symbol: Seq<char>) -> nat
    decreases peers.len(),
{
    if peers.len() == 0 {
        0
    } else {
        locked_value(peers.drop_last(), symbol) + match peers.last() {
            PeerBalances::Queried(positions) => positions_value(positions@, symbol),
            PeerBalances::Failed(_) => 0,
        }
    }
}

/// The number of lock canisters that answered.
pub open spec fn answered(peers: Seq<PeerBalances>) -> nat
    decreases peers.len(),
{
    if peers.len() == 0 {
        0
    } else {
        answered(peers.drop_last()) + if peers.last() is Queried {
            1nat
        } else {
            0nat
        }
    }
}

/// Too few lock canisters answered for the aggregate to be relied on: fewer
/// than half of them.
pub open spec fn unreliable(peers: Seq<PeerBalances>) -> bool {
    peers.len() > 0 && 2 * answered(peers) < peers.len()
}

pub proof fn lemma_answered_bounded(peers: Seq<PeerBalances>)
    ensures
        answered(peers) <= peers.len(),
    decreases peers.len(),
{
    if peers.len() > 0 {
        lemma_answered_bounded(peers.drop_last());
    }
}

fn value_in_positions(positions: &Vec<LpPosition>, token: TrackedToken) -> (r: Amount)
    ensures
        r@ == positions_value(positions@, symbol_of(token)),
{
    let symbol = token.to_symbol();
    let mut total = Amount::zero();
    let mut i: usize = 0;
    while i < positions.len()
        invariant
            i <= positions@.len(),
            symbol@ == symbol_of(token),
            total@ == positions_value(positions@.take(i as int), symbol_of(token)),
        decreases positions@.len() - i,
    {
        proof {
            assert(positions@.take(i as int + 1).drop_last() == positions@.take(i as int));
            assert(positions@.take(i as int + 1).last() == positions@[i as int]);
        }
        let lp = &positions[i];
        let mut held: u128 = 0;
        if text_eq(lp.symbol_0.as_str(), symbol) {
            held = held + lp.usd_amount_0_e6 as u128;
        }
        if text_eq(lp.symbol_1.as_str(), symbol) {
            held = held + lp.usd_amount_1_e6 as u128;
        }
        total = total.plus(&Amount::from_u128(held));
        i = i + 1;
    }
    proof {
        assert(positions@.take(positions@.len() as int) == positions@);
    }
    total
}

fn value_locked(peers: &[PeerBalances], token: TrackedToken) -> (r: Amount)
    ensures
        r@ == locked_value(peers@, symbol_of(token)),
{
    let mut total = Amount::zero();
    let mut i: usize = 0;
    while i < peers.len()
        invariant
            i <= peers@.len(),
            total@ == locked_value(peers@.take(i as int), symbol_of(token)),
        decreases peers@.len() - i,
    {
        proof {
            assert(peers@.take(i as int + 1).drop_last() == peers@.take(i as int));
            assert(peers@.take(i as int + 1).last() == peers@[i as int]);
        }
        match &peers[i] {
            PeerBalances::Queried(positions) => {
                let held = value_in_positions(positions, token);
                total = total.plus(&held);
            },
            PeerBalances::Failed(_) => {},
        }
        i = i + 1;
    }
    proof {
        assert(peers@.take(peers@.len() as int) == peers@);
    }
    total
}

fn count_answered(peers: &[PeerBalances]) -> (r: usize)
    ensures
        r == answered(peers@),
{
    let mut count: usize = 0;
    let mut i: usize = 0;
    while i < peers.len()
        invariant
            i <= peers@.len(),
            count <= i,
            count == answered(peers@.take(i as int)),
        decreases peers@.len() - i,
    {
        proof {
            assert(peers@.take(i as int + 1).drop_last() == peers@.take(i as int));
            assert(peers@.take(i as int + 1).last() == peers@[i as int]);
        }
        match &peers[i] {
            PeerBalances::Queried(_) => {
                count = count + 1;
            },
            PeerBalances::Failed(_) => {},
        }
        i = i + 1;
    }
    proof {
        assert(peers@.take(peers@.len() as int) == peers@);
    }
    count
}

/// The value locked of each basket token, in millionths of a dollar, from what
/// the exchange said of each lock canister.
///
/// A lock canister whose query failed is passed over. Where fewer than half of
/// them answered, the aggregate is unreliable and the whole fails. With no lock
/// canister at all, nothing is locked.
pub fn calculate_kong_locker_tvl(peers: &[PeerBalances]) -> (r: Result<
    Vec<(TrackedToken, Amount)>,
    IcpiError,
>)
    ensures
        unreliable(peers@) ==> r matches Err(IcpiError::Other(_)),
        !unreliable(peers@) ==> {
            &&& r matches Ok(tvl)
            &&& tvl@.len() == 4
            &&& forall|i: int|
                0 <= i < 4 ==> (#[trigger] tvl@[i]).0 == basket()[i] && tvl@[i].1@ == locked_value(
                    peers@,
                    symbol_of(basket()[i]),
                )
        },
{
    let total_canisters: usize = peers.len();
    let successful_queries: usize = count_answered(peers);
    proof {
        lemma_answered_bounded(peers@);
    }
    if total_canisters > 0 && successful_queries == 0 {
        return Err(
            IcpiError::Other(text("TVL calculation failed: all lock canister queries failed")),
        );
    }
    if total_canisters > 0 && successful_queries < total_canisters - successful_queries {
        return Err(
            IcpiError::Other(text("TVL calculation unreliable: too few queries succeeded")),
        );
    }
    let tokens = TrackedToken::all();
    let mut tvl: Vec<(TrackedToken, Amount)> = Vec::new();
    let mut i: usize = 0;
    while i < 4
        invariant
            i <= 4,
            tokens@ == basket(),
            tvl@.len() == i,
            forall|j: int|
                0 <= j < i ==> (#[trigger] tvl@[j]).0 == basket()[j] && tvl@[j].1@ == locked_value(
                    peers@,
                    symbol_of(basket()[j]),
                ),
        decreases 4 - i,
    {
        let token = tokens[i];
        let held = value_locked(peers, token);
        tvl.push((token, held));
        i = i + 1;
    }
    Ok(tvl)
}

/// One token's share of the locked value.
#[derive(Debug)]
pub struct TokenTvl {
    pub token: TrackedToken,
    /// In millionths of a dollar.
    pub tvl_usd_e6: Amount,
    /// In basis points of the total.
    pub percentage_bps: u64,
}

/// The locked value of the basket and each token's share of it.
#[derive(Debug)]
pub struct TvlSummary {
    /// In millionths of a dollar.
    pub total_tvl_usd_e6: Amount,
    pub tokens: Vec<TokenTvl>,
    pub timestamp: u64,
}

/// The sum of the values of a list of token values.
pub open spec fn sum_values(tvl: Seq<(TrackedToken, Amount)>) -> nat
    decreases tvl.len(),
{
    if tvl.len() == 0 {
        0
    } else {
        sum_values(tvl.drop_last()) + tvl.last().1@
    }
}

/// The share of `value` in `total`, in basis points, rounded down; zero where
/// there is no total.
pub open spec fn share_bps(value: nat, total: nat) -> nat {
    if total > 0 {
        (value * 10_000) / total
    } else {
        0
    }
}

pub proof fn lemma_sum_bounds_each(tvl: Seq<(TrackedToken, Amount)>, i: int)
    requires
        0 <= i < tvl.len(),
    ensures
        tvl[i].1@ <= sum_values(tvl),
    decreases tvl.len(),
{
    if i < tvl.len() - 1 {
        lemma_sum_bounds_each(tvl.drop_last(), i);
    }
}

pub proof fn lemma_share_bounded(value: nat, total: nat)
    requires
        value <= total,
    ensures
        share_bps(value, total) <= 10_000,
{
    if total > 0 {
        assert(value * 10_000 <= total * 10_000) by (nonlinear_arith)
            requires
                value <= total,
        ;
        vstd::arithmetic::div_mod::lemma_div_is_ordered(
            (value * 10_000) as int,
            (total * 10_000) as int,
            total as int,
        );
        vstd::arithmetic::div_mod::lemma_div_multiples_vanish(10_000, total as int);
        vstd::arithmetic::mul::lemma_mul_is_commutative(total as int, 10_000);
    }
}

/// The target weights: each token's share of the locked value, in basis points,
/// with the total, as of `now`.
pub fn get_tvl_summary(tvl: &[(TrackedToken, Amount)], now: u64) -> (r: TvlSummary)
    ensures
        r.timestamp == now,
        r.total_tvl_usd_e6@ == sum_values(tvl@),
        r.tokens@.len() == tvl@.len(),
        forall|i: int|
            0 <= i < tvl@.len() ==> {
                &&& (#[trigger] r.tokens@[i]).token == tvl@[i].0
                &&& r.tokens@[i].tvl_usd_e6@ == tvl@[i].1@
                &&& r.tokens@[i].percentage_bps == share_bps(tvl@[i].1@, sum_values(tvl@))
                &&& r.tokens@[i].percentage_bps <= 10_000
            },
{
    let mut total = Amount::zero();
    let mut i: usize = 0;
    while i < tvl.len()
        invariant
            i <= tvl@.len(),
            total@ == sum_values(tvl@.take(i as int)),
        decreases tvl@.len() - i,
    {
        proof {
            assert(tvl@.take(i as int + 1).drop_last() == tvl@.take(i as int));
            assert(tvl@.take(i as int + 1).last() == tvl@[i as int]);
        }
        total = total.plus(&tvl[i].1);
        i = i + 1;
    }
    proof {
        assert(tvl@.take(tvl@.len() as int) == tvl@);
    }
    let scale = Amount::from_u64(10_000);
    let mut tokens: Vec<TokenTvl> = Vec::new();
    let mut k: usize = 0;
    while k < tvl.len()
        invariant
            k <= tvl@.len(),
            scale@ == 10_000,
            total@ == sum_values(tvl@),
            tokens@.len() == k,
            forall|j: int|
                0 <= j < k ==> {
                    &&& (#[trigger] tokens@[j]).token == tvl@[j].0
                    &&& tokens@[j].tvl_usd_e6@ == tvl@[j].1@
                    &&& tokens@[j].percentage_bps == share_bps(tvl@[j].1@, sum_values(tvl@))
                    &&& tokens@[j].percentage_bps <= 10_000
                },
        decreases tvl@.len() - k,
    {
        let value = &tvl[k].1;
        proof {
            lemma_sum_bounds_each(tvl@, k as int);
            lemma_share_bounded(value@, total@);
        }
        let percentage_bps: u64 = match value.times(&scale).checked_div(&total) {
            Some(share) => match share.to_u64() {
                Some(bps) => bps,
                None => {
                    proof {
                        assert(false);
                    }
                    0
                },
            },
            None => 0,
        };
        tokens.push(TokenTvl { token: tvl[k].0, tvl_usd_e6: value.duplicate(), percentage_bps });
        k = k + 1;
    }
    TvlSummary { total_tvl_usd_e6: total, tokens, timestamp: now }
}

} // verus!
