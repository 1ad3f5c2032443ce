//! The state of the index: what the system holds, what it should hold, and how
//! far the two are apart. Dollar values are in millionths of a dollar,
//! percentages in basis points.

use vstd::prelude::*;
use crate::amount::Amount;
use crate::constants::{MAX_REASONABLE_VALUE_E6, TRADE_INTENSITY_BPS};
use crate::critical_data::{
    calculate_portfolio_value_atomic, holding_value, holdings_view, total_value,
    value_of_holding, Holding, HoldingView,
};
use crate::errors::IcpiError;
use crate::tokens::{basket, token_of_symbol, TrackedToken};

verus! {

/// The share that each basket token should have of the portfolio while nothing
/// is locked: a quarter.
pub const EQUAL_TARGET_BPS: u64 = 2_500;

/// One holding, valued.
#[derive(Debug)]
pub struct CurrentPosition {
    pub token: TrackedToken,
    /// In the token's atoms.
    pub balance: Amount,
    pub usd_value_e6: u64,
    pub percentage_bps: u64,
}

/// What a basket token should amount to.
#[derive(Debug, Clone, Copy, PartialEq, Eq, Structural)]
pub struct TargetAllocation {
    pub token: TrackedToken,
    pub target_percentage_bps: u64,
    pub target_usd_value_e6: u64,
}

/// How far a basket token is from its target. A positive difference means the
/// token is under-weight: more of it should be held.
#[derive(Debug, Clone, Copy, PartialEq, Eq, Structural)]
pub struct AllocationDeviation {
    pub token: TrackedToken,
    pub current_bps: u64,
    pub target_bps: u64,
    /// Target less current.
    pub deviation_bps: i64,
    /// Target value less current value.
    pub usd_difference_e6: i64,
    /// The size of one trade towards the target: a tenth of the difference.
    pub trade_size_e6: u64,
}

/// The state of the index at one moment.
#[derive(Debug)]
pub struct IndexState {
    pub total_value_e6: u64,
    pub current_positions: Vec<CurrentPosition>,
    pub target_allocations: Vec<TargetAllocation>,
    pub deviations: Vec<AllocationDeviation>,
    pub timestamp: u64,
    /// The stable reserves, in stable atoms.
    pub ckusdt_balance: Amount,
}

/// The lock canisters as last read from the catalog.
#[derive(Debug)]
pub struct CachedLockCanisters {
    pub canisters: Vec<String>,
    pub timestamp: u64,
}

/// The share of `value` in `total`, in basis points, rounded down; zero where
/// there is no total.
pub open spec fn percentage_of(value: u64, total: u64) -> nat {
    if total > 0 {
        ((value as nat) * 10_000) / (total as nat)
    } else {
        0
    }
}

/// The holding at `i` is of `token`.
pub open spec fn holds_token(holdings: Seq<HoldingView>, i: int, token: TrackedToken) -> bool {
    0 <= i < holdings.len() && token_of_symbol(holdings[i].symbol) == Some(token)
}

/// The place of the first holding of `token`, if there is one.
#[verifier::opaque]
pub open spec fn first_holding(holdings: Seq<HoldingView>, token: TrackedToken) -> Option<int> {
    if exists|i: int| holds_token(holdings, i, token) {
        Some(
            choose|i: int|
                holds_token(holdings, i, token) && forall|j: int|
                    0 <= j < i ==> !holds_token(holdings, j, token),
        )
    } else {
        None
    }
}

/// The value held of `token`: that of its first holding, or nothing.
pub open spec fn value_held(holdings: Seq<HoldingView>, token: TrackedToken) -> u64 {
    match first_holding(holdings, token) {
        Some(i) => match holding_value(holdings[i]) {
            Some(v) => v,
            None => 0,
        },
        None => 0,
    }
}

/// The stable reserves: the balance of the first stable holding, or nothing.
pub open spec fn stable_reserves(holdings: Seq<HoldingView>) -> nat {
    match first_holding(holdings, TrackedToken::ckUSDT) {
        Some(i) => holdings[i].balance,
        None => 0,
    }
}

/// Locked values as plain values.
pub open spec fn locked_view(s: Seq<(TrackedToken, Amount)>) -> Seq<(TrackedToken, nat)> {
    Seq::new(s.len(), |i: int| (s[i].0, s[i].1@))
}

/// The value locked of `token`: the sum of the entries that name it.
pub open spec fn locked_of(locked: Seq<(TrackedToken, nat)>, token: TrackedToken) -> nat
    decreases locked.len(),
{
    if locked.len() == 0 {
        0
    } else {
        locked_of(locked.drop_last(), token) + if locked.last().0 == token {
            locked.last().1
        } else {
            0
        }
    }
}

/// The value locked of the whole basket.
pub open spec fn locked_total(locked: Seq<(TrackedToken, nat)>) -> nat {
    locked_of(locked, TrackedToken::ALEX) + locked_of(locked, TrackedToken::ZERO) + locked_of(
        locked,
        TrackedToken::KONG,
    ) + locked_of(locked, TrackedToken::BOB)
}

/// The target weight of `token` in basis points: its share of the value locked
/// of the basket, rounded down. While nothing is locked the basket tokens weigh
/// the same, a quarter each.
pub open spec fn target_share_bps(locked: Seq<(TrackedToken, nat)>, token: TrackedToken) -> nat {
    if locked_total(locked) == 0 {
        EQUAL_TARGET_BPS as nat
    } else {
        (locked_of(locked, token) * 10_000) / locked_total(locked)
    }
}

/// What `token` should be worth in a portfolio worth `total`: its share of the
/// value locked, taken of the total and rounded down. While nothing is locked,
/// a quarter of the total.
pub open spec fn target_value(locked: Seq<(TrackedToken, nat)>, token: TrackedToken, total: u64) -> nat {
    if locked_total(locked) == 0 {
        (total / 4) as nat
    } else {
        ((total as nat) * locked_of(locked, token)) / locked_total(locked)
    }
}

/// The target of the basket token `token` in a portfolio worth `total`.
pub open spec fn target_of(locked: Seq<(TrackedToken, nat)>, token: TrackedToken, total: u64) -> TargetAllocation {
    TargetAllocation {
        token,
        target_percentage_bps: target_share_bps(locked, token) as u64,
        target_usd_value_e6: target_value(locked, token, total) as u64,
    }
}

/// The size of the trade that a difference calls for: a tenth of it.
pub open spec fn trade_size_for(usd_difference_e6: int) -> nat {
    let magnitude = if usd_difference_e6 < 0 {
        -usd_difference_e6
    } else {
        usd_difference_e6
    };
    ((magnitude * TRADE_INTENSITY_BPS) / 10_000) as nat
}

/// How far `token`, of which `held` is held, is from the target `target` in a
/// portfolio worth `total`: target less current, in weight and in value.
pub open spec fn deviation_of(target: TargetAllocation, held: u64, total: u64) -> AllocationDeviation {
    AllocationDeviation {
        token: target.token,
        current_bps: percentage_of(held, total) as u64,
        target_bps: target.target_percentage_bps,
        deviation_bps: (target.target_percentage_bps - percentage_of(held, total)) as i64,
        usd_difference_e6: (target.target_usd_value_e6 - held) as i64,
        trade_size_e6: trade_size_for(target.target_usd_value_e6 - held) as u64,
    }
}

/// No basket token has more locked than the basket as a whole.
pub proof fn lemma_locked_within_total(locked: Seq<(TrackedToken, nat)>, token: TrackedToken)
    requires
        token != TrackedToken::ckUSDT,
    ensures
        locked_of(locked, token) <= locked_total(locked),
{
}

/// A target weight is at most the whole, and a target value at most the total.
pub proof fn lemma_target_bounded(locked: Seq<(TrackedToken, nat)>, token: TrackedToken, total: u64)
    requires
        token != TrackedToken::ckUSDT,
    ensures
        target_share_bps(locked, token) <= 10_000,
        target_value(locked, token, total) <= total,
{
    lemma_locked_within_total(locked, token);
    let l = locked_of(locked, token) as int;
    let t = locked_total(locked) as int;
    let v = total as int;
    if t > 0 {
        assert(l * 10_000 <= t * 10_000) by (nonlinear_arith)
            requires
                l <= t,
        ;
        vstd::arithmetic::div_mod::lemma_div_is_ordered(l * 10_000, t * 10_000, t);
        vstd::arithmetic::div_mod::lemma_div_multiples_vanish(10_000, t);
        vstd::arithmetic::mul::lemma_mul_is_commutative(t, 10_000);
        assert(v * l <= v * t) by (nonlinear_arith)
            requires
                0 <= l <= t,
                0 <= v,
        ;
        vstd::arithmetic::div_mod::lemma_div_is_ordered(v * l, v * t, t);
        vstd::arithmetic::div_mod::lemma_div_multiples_vanish(v, t);
        vstd::arithmetic::mul::lemma_mul_is_commutative(t, v);
    }
}

/// Where all that is locked is locked of one basket token, that token's target
/// is the whole and the targets of the other basket tokens are nothing.
pub proof fn lemma_sole_locked_token_takes_all(
    locked: Seq<(TrackedToken, nat)>,
    token: TrackedToken,
    other: TrackedToken,
    total: u64,
)
    requires
        token != TrackedToken::ckUSDT,
        other != TrackedToken::ckUSDT,
        other != token,
        locked_total(locked) > 0,
        locked_of(locked, token) == locked_total(locked),
    ensures
        target_share_bps(locked, token) == 10_000,
        target_value(locked, token, total) == total,
        target_share_bps(locked, other) == 0,
        target_value(locked, other, total) == 0,
{
    let t = locked_total(locked) as int;
    vstd::arithmetic::div_mod::lemma_div_multiples_vanish(10_000, t);
    vstd::arithmetic::mul::lemma_mul_is_commutative(t, 10_000);
    vstd::arithmetic::div_mod::lemma_div_multiples_vanish(total as int, t);
    vstd::arithmetic::mul::lemma_mul_is_commutative(t, total as int);
    assert(locked_of(locked, other) == 0);
    assert(0 * 10_000 == 0);
    assert((total as nat) * 0 == 0) by (nonlinear_arith);
}

/// The target weights are the normalized shares of what is locked: together
/// they make up the whole, short of it by less than one basis point for each
/// share that was rounded down.
pub proof fn lemma_target_weights_sum(locked: Seq<(TrackedToken, nat)>)
    ensures
        9_997 <= target_share_bps(locked, TrackedToken::ALEX) + target_share_bps(
            locked,
            TrackedToken::ZERO,
        ) + target_share_bps(locked, TrackedToken::KONG) + target_share_bps(
            locked,
            TrackedToken::BOB,
        ) <= 10_000,
{
    let t = locked_total(locked) as int;
    if t > 0 {
        let a = (locked_of(locked, TrackedToken::ALEX) * 10_000) as int;
        let b = (locked_of(locked, TrackedToken::ZERO) * 10_000) as int;
        let c = (locked_of(locked, TrackedToken::KONG) * 10_000) as int;
        let d = (locked_of(locked, TrackedToken::BOB) * 10_000) as int;
        vstd::arithmetic::div_mod::lemma_fundamental_div_mod(a, t);
        vstd::arithmetic::div_mod::lemma_fundamental_div_mod(b, t);
        vstd::arithmetic::div_mod::lemma_fundamental_div_mod(c, t);
        vstd::arithmetic::div_mod::lemma_fundamental_div_mod(d, t);
        vstd::arithmetic::div_mod::lemma_mod_bound(a, t);
        vstd::arithmetic::div_mod::lemma_mod_bound(b, t);
        vstd::arithmetic::div_mod::lemma_mod_bound(c, t);
        vstd::arithmetic::div_mod::lemma_mod_bound(d, t);
        let q = a / t + b / t + c / t + d / t;
        let r = a % t + b % t + c % t + d % t;
        assert(a + b + c + d == t * 10_000);
        assert(t * q + r == t * 10_000) by (nonlinear_arith)
            requires
                a == t * (a / t) + a % t,
                b == t * (b / t) + b % t,
                c == t * (c / t) + c % t,
                d == t * (d / t) + d % t,
                q == a / t + b / t + c / t + d / t,
                r == a % t + b % t + c % t + d % t,
                a + b + c + d == t * 10_000,
        ;
        assert(9_997 <= q <= 10_000) by (nonlinear_arith)
            requires
                t > 0,
                0 <= r < 4 * t,
                t * q + r == t * 10_000,
        ;
    }
}

/// Every holding is worth no more than all of them together.
pub proof fn lemma_value_within_total(holdings: Seq<HoldingView>, i: int)
    requires
        0 <= i < holdings.len(),
        total_value(holdings) is Some,
    ensures
        holding_value(holdings[i]) matches Some(v) && v <= total_value(holdings).unwrap(),
    decreases holdings.len(),
{
    if i < holdings.len() - 1 {
        lemma_value_within_total(holdings.drop_last(), i);
    }
}

pub proof fn lemma_percentage_bounded(value: u64, total: u64)
    requires
        value <= total,
    ensures
        percentage_of(value, total) <= 10_000,
{
    if total > 0 {
        let v = value as int;
        let t = total as int;
        assert(v * 10_000 <= t * 10_000) by (nonlinear_arith)
            requires
                v <= t,
        ;
        vstd::arithmetic::div_mod::lemma_div_is_ordered(v * 10_000, t * 10_000, t);
        vstd::arithmetic::div_mod::lemma_div_multiples_vanish(10_000, t);
        vstd::arithmetic::mul::lemma_mul_is_commutative(t, 10_000);
    }
}

fn percentage(value: u64, total: u64) -> (r: u64)
    requires
        value <= total,
    ensures
        r == percentage_of(value, total),
        r <= 10_000,
{
    proof {
        lemma_percentage_bounded(value, total);
    }
    if total > 0 {
        let scaled: u128 = (value as u128) * 10_000;
        (scaled / (total as u128)) as u64
    } else {
        0
    }
}

/// How far what is held is from the target.
fn deviation_for(target: TargetAllocation, held: u64, total: u64) -> (r: AllocationDeviation)
    requires
        held <= total,
        total <= MAX_REASONABLE_VALUE_E6,
        target.target_percentage_bps <= 10_000,
        target.target_usd_value_e6 <= total,
    ensures
        r == deviation_of(target, held, total),
{
    let target_usd: u64 = target.target_usd_value_e6;
    let current_bps = percentage(held, total);
    let deviation_bps: i64 = target.target_percentage_bps as i64 - current_bps as i64;
    let usd_difference_e6: i64 = target_usd as i64 - held as i64;
    let magnitude: u128 = if usd_difference_e6 < 0 {
        (held - target_usd) as u128
    } else {
        (target_usd - held) as u128
    };
    let trade_size_e6: u64 = ((magnitude * (TRADE_INTENSITY_BPS as u128)) / 10_000) as u64;
    AllocationDeviation {
        token: target.token,
        current_bps,
        target_bps: target.target_percentage_bps,
        deviation_bps,
        usd_difference_e6,
        trade_size_e6,
    }
}

/// The value locked of `token`.
fn locked_amount(locked: &[(TrackedToken, Amount)], token: TrackedToken) -> (r: Amount)
    ensures
        r@ == locked_of(locked_view(locked@), token),
{
    let ghost all = locked_view(locked@);
    let mut sum = Amount::zero();
    let mut i: usize = 0;
    while i < locked.len()
        invariant
            i <= locked@.len(),
            all == locked_view(locked@),
            sum@ == locked_of(all.take(i as int), token),
        decreases locked@.len() - i,
    {
        proof {
            assert(all.take(i as int + 1).drop_last() == all.take(i as int));
            assert(all.take(i as int + 1).last() == (locked@[i as int].0, locked@[i as int].1@));
        }
        if locked[i].0 == token {
            sum = sum.plus(&locked[i].1);
        }
        i = i + 1;
    }
    proof {
        assert(all.take(locked@.len() as int) == all);
    }
    sum
}

/// The target of the basket token `token` in a portfolio worth `total`, where
/// `locked_in_all` is locked of the whole basket.
fn target_for(
    locked: &[(TrackedToken, Amount)],
    locked_in_all: &Amount,
    token: TrackedToken,
    total: u64,
) -> (r: TargetAllocation)
    requires
        token != TrackedToken::ckUSDT,
        locked_in_all@ == locked_total(locked_view(locked@)),
    ensures
        r == target_of(locked_view(locked@), token, total),
        r.target_percentage_bps <= 10_000,
        r.target_usd_value_e6 <= total,
{
    proof {
        lemma_target_bounded(locked_view(locked@), token, total);
    }
    if locked_in_all.is_zero() {
        return TargetAllocation {
            token,
            target_percentage_bps: EQUAL_TARGET_BPS,
            target_usd_value_e6: total / 4,
        };
    }
    let held = locked_amount(locked, token);
    let scale = Amount::from_u64(10_000);
    let target_percentage_bps: u64 = match held.times(&scale).checked_div(locked_in_all) {
        Some(share) => match share.to_u64() {
            Some(bps) => bps,
            None => {
                proof {
                    assert(false);
                }
                0
            },
        },
        None => {
            proof {
                assert(false);
            }
            0
        },
    };
    let worth = Amount::from_u64(total);
    let target_usd_value_e6: u64 = match worth.times(&held).checked_div(locked_in_all) {
        Some(value) => match value.to_u64() {
            Some(v) => v,
            None => {
                proof {
                    assert(false);
                }
                0
            },
        },
        None => {
            proof {
                assert(false);
            }
            0
        },
    };
    TargetAllocation { token, target_percentage_bps, target_usd_value_e6 }
}

/// The index of the first holding of `token`.
fn find_holding(holdings: &[Holding], token: TrackedToken) -> (r: Option<usize>)
    ensures
        match r {
            Some(i) => first_holding(holdings_view(holdings@), token) == Some(i as int) && i
                < holdings@.len(),
            None => first_holding(holdings_view(holdings@), token).is_none(),
        },
{
    let ghost all = holdings_view(holdings@);
    let mut i: usize = 0;
    while i < holdings.len()
        invariant
            i <= holdings@.len(),
            all == holdings_view(holdings@),
            forall|j: int| 0 <= j < i ==> !holds_token(all, j, token),
        decreases holdings@.len() - i,
    {
        match TrackedToken::from_symbol(holdings[i].symbol.as_str()) {
            Some(t) => {
                if t == token {
                    proof {
                        reveal(first_holding);
                        assert(holds_token(all, i as int, token));
                        let c = choose|c: int|
                            holds_token(all, c, token) && forall|j: int|
                                0 <= j < c ==> !holds_token(all, j, token);
                        assert(c == i);
                    }
                    return Some(i);
                }
            },
            None => {},
        }
        i = i + 1;
    }
    proof {
        reveal(first_holding);
    }
    None
}

/// The target of the basket token `token` and the deviation of what is held of
/// it, in a portfolio worth `total`.
fn basket_entry(
    holdings: &[Holding],
    locked: &[(TrackedToken, Amount)],
    locked_in_all: &Amount,
    token: TrackedToken,
    total: u64,
) -> (r: (TargetAllocation, AllocationDeviation))
    requires
        token != TrackedToken::ckUSDT,
        locked_in_all@ == locked_total(locked_view(locked@)),
        total_value(holdings_view(holdings@)) == Some(total as nat),
        total <= MAX_REASONABLE_VALUE_E6,
    ensures
        r.0 == target_of(locked_view(locked@), token, total),
        r.1 == deviation_of(r.0, value_held(holdings_view(holdings@), token), total),
{
    let ghost all = holdings_view(holdings@);
    let held: u64 = match find_holding(holdings, token) {
        Some(at) => {
            proof {
                lemma_value_within_total(all, at as int);
                assert(all[at as int] == holdings@[at as int]@);
            }
            match value_of_holding(&holdings[at]) {
                Ok(v) => v,
                Err(_) => {
                    proof {
                        assert(false);
                    }
                    0
                },
            }
        },
        None => 0,
    };
    let target = target_for(locked, locked_in_all, token, total);
    let deviation = deviation_for(target, held, total);
    (target, deviation)
}

/// The four values as a list.
fn four_targets(a: TargetAllocation, b: TargetAllocation, c: TargetAllocation, d: TargetAllocation) -> (r:
    Vec<TargetAllocation>)
    ensures
        r@.len() == 4,
        r@[0] == a,
        r@[1] == b,
        r@[2] == c,
        r@[3] == d,
{
    let mut v: Vec<TargetAllocation> = Vec::new();
    v.push(a);
    v.push(b);
    v.push(c);
    v.push(d);
    v
}

/// The four values as a list.
fn four_deviations(
    a: AllocationDeviation,
    b: AllocationDeviation,
    c: AllocationDeviation,
    d: AllocationDeviation,
) -> (r: Vec<AllocationDeviation>)
    ensures
        r@.len() == 4,
        r@[0] == a,
        r@[1] == b,
        r@[2] == c,
        r@[3] == d,
{
    let mut v: Vec<AllocationDeviation> = Vec::new();
    v.push(a);
    v.push(b);
    v.push(c);
    v.push(d);
    v
}

/// The targets and deviations of the basket tokens, in the order of the basket.
fn basket_entries(holdings: &[Holding], locked: &[(TrackedToken, Amount)], total: u64) -> (r: (
    Vec<TargetAllocation>,
    Vec<AllocationDeviation>,
))
    requires
        total_value(holdings_view(holdings@)) == Some(total as nat),
        total <= MAX_REASONABLE_VALUE_E6,
    ensures
        r.0@.len() == 4,
        r.1@.len() == 4,
        forall|k: int|
            0 <= k < 4 ==> #[trigger] r.0@[k] == target_of(locked_view(locked@), basket()[k], total),
        forall|k: int|
            0 <= k < 4 ==> #[trigger] r.1@[k] == deviation_of(
                target_of(locked_view(locked@), basket()[k], total),
                value_held(holdings_view(holdings@), basket()[k]),
                total,
            ),
{
    let locked_in_all = locked_in_basket(locked);
    let alex = basket_entry(holdings, locked, &locked_in_all, TrackedToken::ALEX, total);
    let zero = basket_entry(holdings, locked, &locked_in_all, TrackedToken::ZERO, total);
    let kong = basket_entry(holdings, locked, &locked_in_all, TrackedToken::KONG, total);
    let bob = basket_entry(holdings, locked, &locked_in_all, TrackedToken::BOB, total);
    let targets = four_targets(alex.0, zero.0, kong.0, bob.0);
    let deviations = four_deviations(alex.1, zero.1, kong.1, bob.1);
    proof {
        let b = basket();
        assert(b[0] == TrackedToken::ALEX);
        assert(b[1] == TrackedToken::ZERO);
        assert(b[2] == TrackedToken::KONG);
        assert(b[3] == TrackedToken::BOB);
    }
    (targets, deviations)
}

/// The value locked of the whole basket.
fn locked_in_basket(locked: &[(TrackedToken, Amount)]) -> (r: Amount)
    ensures
        r@ == locked_total(locked_view(locked@)),
{
    let alex = locked_amount(locked, TrackedToken::ALEX);
    let zero = locked_amount(locked, TrackedToken::ZERO);
    let kong = locked_amount(locked, TrackedToken::KONG);
    let bob = locked_amount(locked, TrackedToken::BOB);
    alex.plus(&zero).plus(&kong).plus(&bob)
}

/// `r` is the state of the index as of `now` for the given holdings and locked
/// values: every holding as a position with its value and its share of the
/// total; each basket token with its target, the normalized share of what is
/// locked; and for each basket token the deviation of what is held from the
/// target, sized into a trade. Or an error, where the holdings cannot be
/// valued.
pub open spec fn is_portfolio_state(
    holdings: Seq<Holding>,
    locked: Seq<(TrackedToken, Amount)>,
    now: u64,
    r: Result<IndexState, IcpiError>,
) -> bool {
    match total_value(holdings_view(holdings)) {
        Some(total) => if total <= MAX_REASONABLE_VALUE_E6 {
            &&& r matches Ok(state)
            &&& state.total_value_e6 == total
            &&& state.timestamp == now
            &&& state.ckusdt_balance@ == stable_reserves(holdings_view(holdings))
            &&& state.current_positions@.len() == holdings.len()
            &&& forall|i: int|
                0 <= i < holdings.len() ==> {
                    let p = #[trigger] state.current_positions@[i];
                    &&& Some(p.token) == token_of_symbol(holdings[i].symbol@)
                    &&& p.balance@ == holdings[i].balance@
                    &&& Some(p.usd_value_e6) == holding_value(holdings[i]@)
                    &&& p.percentage_bps == percentage_of(p.usd_value_e6, total as u64)
                }
            &&& state.target_allocations@.len() == 4
            &&& state.deviations@.len() == 4
            &&& forall|k: int|
                0 <= k < 4 ==> #[trigger] state.target_allocations@[k] == target_of(
                    locked_view(locked),
                    basket()[k],
                    total as u64,
                )
            &&& forall|k: int|
                0 <= k < 4 ==> #[trigger] state.deviations@[k] == deviation_of(
                    target_of(locked_view(locked), basket()[k], total as u64),
                    value_held(holdings_view(holdings), basket()[k]),
                    total as u64,
                )
        } else {
            r matches Err(IcpiError::Other(_))
        },
        None => r matches Err(IcpiError::Other(_)),
    }
}

/// The state of the index as of `now`, from the system's holdings, the prices
/// quoted for them, and the value locked of each basket token.
///
/// Every holding becomes a position with its value and its share of the total.
/// The target weight of a basket token is its share of the value locked of the
/// basket; while nothing is locked, every target is a quarter. Each basket
/// token is set against its target, and the difference sized into a trade.
/// Fails where the holdings cannot be valued.
pub fn get_portfolio_state_uncached(
    holdings: &[Holding],
    locked: &[(TrackedToken, Amount)],
    now: u64,
) -> (r: Result<IndexState, IcpiError>)
    ensures
        is_portfolio_state(holdings@, locked@, now, r),
{
    let ghost all = holdings_view(holdings@);
    let total_amount = match calculate_portfolio_value_atomic(holdings) {
        Ok(t) => t,
        Err(e) => {
            return Err(e);
        },
    };
    let total: u64 = match total_amount.to_u64() {
        Some(t) => t,
        None => {
            proof {
                assert(false);
            }
            0
        },
    };
    // positions
    let mut current_positions: Vec<CurrentPosition> = Vec::new();
    let mut i: usize = 0;
    while i < holdings.len()
        invariant
            i <= holdings@.len(),
            all == holdings_view(holdings@),
            total_value(all) == Some(total as nat),
            current_positions@.len() == i,
            forall|j: int|
                0 <= j < i ==> {
                    let p = #[trigger] current_positions@[j];
                    &&& Some(p.token) == token_of_symbol(holdings@[j].symbol@)
                    &&& p.balance@ == holdings@[j].balance@
                    &&& Some(p.usd_value_e6) == holding_value(holdings@[j]@)
                    &&& p.percentage_bps == percentage_of(p.usd_value_e6, total)
                },
        decreases holdings@.len() - i,
    {
        proof {
            lemma_value_within_total(all, i as int);
            assert(all[i as int] == holdings@[i as int]@);
        }
        let holding = &holdings[i];
        let token = match TrackedToken::from_symbol(holding.symbol.as_str()) {
            Some(t) => t,
            None => {
                proof {
                    assert(false);
                }
                TrackedToken::ckUSDT
            },
        };
        let usd_value_e6: u64 = match value_of_holding(holding) {
            Ok(v) => v,
            Err(_) => {
                proof {
                    assert(false);
                }
                0
            },
        };
        let percentage_bps = percentage(usd_value_e6, total);
        current_positions.push(
            CurrentPosition {
                token,
                balance: holding.balance.duplicate(),
                usd_value_e6,
                percentage_bps,
            },
        );
        i = i + 1;
    }
    let (target_allocations, deviations) = basket_entries(holdings, locked, total);
    let ckusdt_balance = match find_holding(holdings, TrackedToken::ckUSDT) {
        Some(at) => {
            proof {
                assert(all[at as int] == holdings@[at as int]@);
            }
            holdings[at].balance.duplicate()
        },
        None => Amount::zero(),
    };
    Ok(
        IndexState {
            total_value_e6: total,
            current_positions,
            target_allocations,
            deviations,
            timestamp: now,
            ckusdt_balance,
        },
    )
}

/// The state of the index for display: the same as
/// `get_portfolio_state_uncached`. Nothing is cached, and errors are passed on
/// rather than hidden behind an empty state.
pub fn get_index_state_cached(
    holdings: &[Holding],
    locked: &[(TrackedToken, Amount)],
    now: u64,
) -> (r: Result<IndexState, IcpiError>)
    ensures
        is_portfolio_state(holdings@, locked@, now, r),
{
    get_portfolio_state_uncached(holdings, locked, now)
}

} // verus!
