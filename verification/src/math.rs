//! The arithmetic kernel: exact multiply-then-divide, decimal re-basing, and the
//! mint, redemption and trade-size formulas. Every quotient is rounded down, so
//! the system can never over-issue or over-redeem.

use vstd::prelude::*;
use vstd::arithmetic::div_mod::{
    lemma_div_is_ordered, lemma_div_is_ordered_by_denominator, lemma_div_multiples_vanish,
    lemma_fundamental_div_mod, lemma_fundamental_div_mod_converse, lemma_mod_bound,
    lemma_div_pos_is_pos,
};
use vstd::arithmetic::mul::lemma_mul_is_commutative;
use crate::amount::Amount;
use crate::errors::{BurnError, CalculationError, IcpiError, MintError, ValidationError};
use crate::strings::text;

verus! {

/// Decimal width of the reference stablecoin.
pub const STABLE_DECIMALS: u32 = 6;

/// Decimal width of the index token and of every basket token.
pub const INDEX_DECIMALS: u32 = 8;

// ---------------------------------------------------------------------------
// multiply, then divide
// ---------------------------------------------------------------------------

/// `(a * b) / c`, rounded down, in arbitrary precision. Fails with
/// `DivisionByZero` exactly when `c` is zero.
pub fn multiply_and_divide(a: &Amount, b: &Amount, c: &Amount) -> (r: Result<Amount, IcpiError>)
    ensures
        c@ == 0 ==> r matches Err(IcpiError::Calculation(CalculationError::DivisionByZero { .. })),
        c@ != 0 ==> (r matches Ok(v) && v@ == (a@ * b@) / c@),
{
    let product = a.times(b);
    match product.checked_div(c) {
        Some(q) => Ok(q),
        None => Err(
            IcpiError::Calculation(
                CalculationError::DivisionByZero { operation: text("multiply_and_divide") },
            ),
        ),
    }
}

/// Floor division: the quotient `q` of `a * b` by `c` leaves a remainder `r`
/// with `q * c + r == a * b` and `0 <= r < c`.
pub proof fn lemma_mul_div_floor(a: nat, b: nat, c: nat)
    requires
        c > 0,
    ensures
        ((a * b) / c) * c + (a * b) % c == a * b,
        0 <= (a * b) % c < c,
{
    let p = (a * b) as int;
    lemma_fundamental_div_mod(p, c as int);
    lemma_mod_bound(p, c as int);
    lemma_mul_is_commutative(c as int, p / (c as int));
}

// ---------------------------------------------------------------------------
// decimal re-basing
// ---------------------------------------------------------------------------

/// `10^k`
pub open spec fn pow10(k: nat) -> nat
    decreases k,
{
    if k == 0 {
        1
    } else {
        10 * pow10((k - 1) as nat)
    }
}

pub proof fn lemma_pow10_positive(k: nat)
    ensures
        pow10(k) > 0,
    decreases k,
{
    if k > 0 {
        lemma_pow10_positive((k - 1) as nat);
    }
}

/// An amount moved from `from` decimals to `to` decimals: scaled up exactly, or
/// scaled down with the remainder dropped.
pub open spec fn rebased(x: nat, from: nat, to: nat) -> nat {
    if to >= from {
        x * pow10((to - from) as nat)
    } else {
        x / pow10((from - to) as nat)
    }
}

/// Scaling down would turn a non-zero amount into zero.
pub open spec fn precision_lost(x: nat, from: nat, to: nat) -> bool {
    from > to && x != 0 && x / pow10((from - to) as nat) == 0
}

fn pow10_amount(k: u32) -> (r: Amount)
    ensures
        r@ == pow10(k as nat),
{
    let ten = Amount::from_u64(10);
    let mut p = Amount::from_u64(1);
    let mut i: u32 = 0;
    while i < k
        invariant
            i <= k,
            ten@ == 10,
            p@ == pow10(i as nat),
        decreases k - i,
    {
        p = ten.times(&p);
        i = i + 1;
    }
    p
}

/// Convert `amount` between decimal widths. Fails with `PrecisionLoss` exactly
/// when scaling down would turn a non-zero amount into zero.
pub fn convert_decimals(amount: &Amount, from_decimals: u32, to_decimals: u32) -> (r: Result<
    Amount,
    IcpiError,
>)
    ensures
        precision_lost(amount@, from_decimals as nat, to_decimals as nat) ==> (r matches Err(
            IcpiError::Calculation(CalculationError::PrecisionLoss { original, .. }),
        ) && original@ == amount@),
        !precision_lost(amount@, from_decimals as nat, to_decimals as nat) ==> (r matches Ok(v)
            && v@ == rebased(amount@, from_decimals as nat, to_decimals as nat)),
{
    if from_decimals == to_decimals {
        proof {
            assert(pow10(0) == 1);
            assert(amount@ * 1 == amount@);
        }
        return Ok(amount.duplicate());
    }
    if from_decimals < to_decimals {
        let multiplier = pow10_amount(to_decimals - from_decimals);
        Ok(amount.times(&multiplier))
    } else {
        let divisor = pow10_amount(from_decimals - to_decimals);
        proof {
            lemma_pow10_positive((from_decimals - to_decimals) as nat);
        }
        match amount.checked_div(&divisor) {
            Some(q) => {
                if q.is_zero() && !amount.is_zero() {
                    Err(
                        IcpiError::Calculation(
                            CalculationError::PrecisionLoss {
                                operation: text("convert_decimals"),
                                original: amount.duplicate(),
                            },
                        ),
                    )
                } else {
                    Ok(q)
                }
            },
            None => {
                proof {
                    assert(false);
                }
                Ok(amount.duplicate())
            },
        }
    }
}

/// Stable atoms re-based to index decimals and back are unchanged.
pub proof fn lemma_rebase_round_trip(x: nat)
    requires
        x >= 1,
    ensures
        !precision_lost(x, 6, 8),
        !precision_lost(rebased(x, 6, 8), 8, 6),
        rebased(rebased(x, 6, 8), 8, 6) == x,
{
    lemma_pow10_two();
    lemma_div_multiples_vanish(x as int, 100);
    lemma_mul_is_commutative(x as int, 100);
}

pub proof fn lemma_pow10_two()
    ensures
        pow10(2) == 100,
{
    reveal_with_fuel(pow10, 3);
}

// ---------------------------------------------------------------------------
// mint amount
// ---------------------------------------------------------------------------

/// Index atoms issued for a deposit of `deposit` stable atoms against a snapshot
/// of `supply` index atoms backed by `tvl` stable atoms, before the check that
/// the result is not zero. Stable amounts are first re-based to the decimals of
/// the index. With no supply or no value yet, the deposit is taken one to one.
pub open spec fn mint_amount_value(deposit: nat, supply: nat, tvl: nat) -> nat {
    if supply == 0 || tvl == 0 {
        rebased(deposit, STABLE_DECIMALS as nat, INDEX_DECIMALS as nat)
    } else {
        (rebased(deposit, STABLE_DECIMALS as nat, INDEX_DECIMALS as nat) * supply) / rebased(
            tvl,
            STABLE_DECIMALS as nat,
            INDEX_DECIMALS as nat,
        )
    }
}

/// Index tokens to mint for a deposit.
///
/// A zero deposit is an `InvalidAmount`. With no supply or no value yet, the
/// deposit is re-based one to one. Otherwise the deposit buys its proportional
/// share of the supply, rounded down; a share of zero is a
/// `ProportionalCalculationError`.
pub fn calculate_mint_amount(deposit_amount: &Amount, current_supply: &Amount, current_tvl: &Amount) -> (r:
    Result<Amount, IcpiError>)
    ensures
        deposit_amount@ == 0 ==> r matches Err(
            IcpiError::Validation(ValidationError::InvalidAmount { .. }),
        ),
        deposit_amount@ != 0 && mint_amount_value(deposit_amount@, current_supply@, current_tvl@)
            == 0 ==> r matches Err(
            IcpiError::Mint(MintError::ProportionalCalculationError { .. }),
        ),
        deposit_amount@ != 0 && mint_amount_value(deposit_amount@, current_supply@, current_tvl@)
            != 0 ==> (r matches Ok(v) && v@ == mint_amount_value(
            deposit_amount@,
            current_supply@,
            current_tvl@,
        )),
{
    if deposit_amount.is_zero() {
        return Err(
            IcpiError::Validation(
                ValidationError::InvalidAmount {
                    amount: Amount::zero(),
                    reason: text("Deposit amount cannot be zero"),
                },
            ),
        );
    }
    proof {
        lemma_pow10_two();
        assert(deposit_amount@ * 100 != 0) by (nonlinear_arith)
            requires
                deposit_amount@ != 0,
        ;
    }
    let deposit_e8 = match convert_decimals(deposit_amount, STABLE_DECIMALS, INDEX_DECIMALS) {
        Ok(v) => v,
        Err(e) => {
            return Err(e);
        },
    };
    if current_supply.is_zero() || current_tvl.is_zero() {
        return Ok(deposit_e8);
    }
    proof {
        assert(current_tvl@ * 100 != 0) by (nonlinear_arith)
            requires
                current_tvl@ != 0,
        ;
    }
    let tvl_e8 = match convert_decimals(current_tvl, STABLE_DECIMALS, INDEX_DECIMALS) {
        Ok(v) => v,
        Err(e) => {
            return Err(e);
        },
    };
    match multiply_and_divide(&deposit_e8, current_supply, &tvl_e8) {
        Ok(icpi_amount) => {
            if icpi_amount.is_zero() {
                Err(
                    IcpiError::Mint(
                        MintError::ProportionalCalculationError {
                            reason: text("Calculated mint amount is zero - deposit too small"),
                        },
                    ),
                )
            } else {
                Ok(icpi_amount)
            }
        },
        Err(e) => Err(e),
    }
}

/// The proportional mint grows with the deposit and with the supply, and
/// shrinks as the value behind the supply grows.
pub proof fn lemma_mint_amount_monotone(d1: nat, d2: nat, s1: nat, s2: nat, t1: nat, t2: nat)
    requires
        0 < d1 <= d2,
        0 < s1 <= s2,
        0 < t2 <= t1,
    ensures
        mint_amount_value(d1, s1, t1) <= mint_amount_value(d2, s2, t2),
{
    lemma_pow10_two();
    let n1 = ((d1 * 100) * s1) as int;
    let n2 = ((d2 * 100) * s2) as int;
    assert(n1 <= n2) by (nonlinear_arith)
        requires
            0 < d1 <= d2,
            0 < s1 <= s2,
            n1 == (d1 * 100) * s1,
            n2 == (d2 * 100) * s2,
    ;
    let m1 = (t1 * 100) as int;
    let m2 = (t2 * 100) as int;
    assert(0 < m2 <= m1) by (nonlinear_arith)
        requires
            0 < t2 <= t1,
            m1 == t1 * 100,
            m2 == t2 * 100,
    ;
    // n1 / m1 <= n2 / m1 <= n2 / m2
    lemma_div_is_ordered(n1, n2, m1);
    lemma_div_is_ordered_by_denominator(n2, m2, m1);
}

// ---------------------------------------------------------------------------
// redemptions
// ---------------------------------------------------------------------------

/// The share of a basket balance that burning `burn` out of `supply` redeems.
pub open spec fn redemption_share(burn: nat, supply: nat, balance: nat) -> nat {
    (burn * balance) / supply
}

/// The non-zero shares of the balances, in the order of the balances.
pub open spec fn redemptions_of(burn: nat, supply: nat, balances: Seq<(Seq<char>, nat)>) -> Seq<
    (Seq<char>, nat),
>
    decreases balances.len(),
{
    if balances.len() == 0 {
        Seq::empty()
    } else {
        let rest = redemptions_of(burn, supply, balances.drop_last());
        let last = balances.last();
        if redemption_share(burn, supply, last.1) > 0 {
            rest.push((last.0, redemption_share(burn, supply, last.1)))
        } else {
            rest
        }
    }
}

/// Symbols and amounts as plain values.
pub open spec fn entries_view(s: Seq<(String, Amount)>) -> Seq<(Seq<char>, nat)> {
    Seq::new(s.len(), |i: int| (s[i].0@, s[i].1@))
}

/// Redemption amounts for burning `burn_amount` out of `total_supply`.
///
/// Each basket balance yields its proportional share, rounded down; shares of
/// zero are left out.
pub fn calculate_redemptions(
    burn_amount: &Amount,
    total_supply: &Amount,
    token_balances: &[(String, Amount)],
) -> (r: Result<Vec<(String, Amount)>, IcpiError>)
    ensures
        burn_amount@ == 0 ==> r matches Err(
            IcpiError::Validation(ValidationError::InvalidAmount { .. }),
        ),
        burn_amount@ != 0 && total_supply@ == 0 ==> r matches Err(
            IcpiError::Burn(BurnError::NoRedemptionsPossible { .. }),
        ),
        total_supply@ != 0 && burn_amount@ > total_supply@ ==> (r matches Err(
            IcpiError::Validation(ValidationError::InvalidAmount { amount, .. }),
        ) && amount@ == burn_amount@),
        0 < burn_amount@ <= total_supply@ && redemptions_of(
            burn_amount@,
            total_supply@,
            entries_view(token_balances@),
        ).len() == 0 ==> r matches Err(IcpiError::Burn(BurnError::NoRedemptionsPossible { .. })),
        0 < burn_amount@ <= total_supply@ && redemptions_of(
            burn_amount@,
            total_supply@,
            entries_view(token_balances@),
        ).len() > 0 ==> (r matches Ok(v) && entries_view(v@) == redemptions_of(
            burn_amount@,
            total_supply@,
            entries_view(token_balances@),
        )),
{
    if burn_amount.is_zero() {
        return Err(
            IcpiError::Validation(
                ValidationError::InvalidAmount {
                    amount: Amount::zero(),
                    reason: text("Burn amount cannot be zero"),
                },
            ),
        );
    }
    if total_supply.is_zero() {
        return Err(
            IcpiError::Burn(
                BurnError::NoRedemptionsPossible { reason: text("Total supply is zero") },
            ),
        );
    }
    if total_supply.lt(burn_amount) {
        return Err(
            IcpiError::Validation(
                ValidationError::InvalidAmount {
                    amount: burn_amount.duplicate(),
                    reason: text("Burn amount exceeds total supply"),
                },
            ),
        );
    }
    let ghost all = entries_view(token_balances@);
    let mut redemptions: Vec<(String, Amount)> = Vec::new();
    let n: usize = token_balances.len();
    let mut i: usize = 0;
    while i < n
        invariant
            i <= n,
            n == token_balances@.len(),
            all == entries_view(token_balances@),
            total_supply@ != 0,
            entries_view(redemptions@) == redemptions_of(
                burn_amount@,
                total_supply@,
                all.take(i as int),
            ),
        decreases n - i,
    {
        let entry = &token_balances[i];
        let product = burn_amount.times(&entry.1);
        let ghost before = entries_view(redemptions@);
        proof {
            assert(all.take(i as int + 1).drop_last() == all.take(i as int));
            assert(all.take(i as int + 1).last() == (entry.0@, entry.1@));
        }
        match product.checked_div(total_supply) {
            Some(share) => {
                if !share.is_zero() {
                    redemptions.push((entry.0.clone(), share));
                    proof {
                        assert(entries_view(redemptions@) == before.push(
                            (entry.0@, redemption_share(burn_amount@, total_supply@, entry.1@)),
                        ));
                    }
                }
            },
            None => {
                proof {
                    assert(false);
                }
            },
        }
        i = i + 1;
    }
    proof {
        assert(all.take(n as int) == all);
    }
    if redemptions.len() == 0 {
        return Err(
            IcpiError::Burn(
                BurnError::NoRedemptionsPossible {
                    reason: text("No tokens available for redemption"),
                },
            ),
        );
    }
    Ok(redemptions)
}

/// A redemption never exceeds the balance it is taken from.
pub proof fn lemma_redemption_bounded(burn: nat, supply: nat, balance: nat)
    requires
        burn <= supply,
        supply > 0,
    ensures
        redemption_share(burn, supply, balance) <= balance,
{
    let p = (burn * balance) as int;
    let q = (supply * balance) as int;
    assert(p <= q) by (nonlinear_arith)
        requires
            burn <= supply,
            p == burn * balance,
            q == supply * balance,
    ;
    lemma_div_is_ordered(p, q, supply as int);
    lemma_mul_is_commutative(supply as int, balance as int);
    lemma_div_multiples_vanish(balance as int, supply as int);
}

/// The share of every balance, in the order of the balances, zero shares
/// included.
pub open spec fn shares_of(burn: nat, supply: nat, balances: Seq<(Seq<char>, nat)>) -> Seq<
    (Seq<char>, nat),
> {
    Seq::new(
        balances.len(),
        |i: int| (balances[i].0, redemption_share(burn, supply, balances[i].1)),
    )
}

/// The redemptions are the shares of the balances with the zero shares left
/// out, and asset by asset no share exceeds the balance it is taken from.
pub proof fn lemma_redemptions_are_bounded_shares(burn: nat, supply: nat, balances: Seq<(Seq<char>, nat)>)
    requires
        burn <= supply,
        supply > 0,
    ensures
        redemptions_of(burn, supply, balances) == shares_of(burn, supply, balances).filter(
            |e: (Seq<char>, nat)| e.1 > 0,
        ),
        forall|i: int|
            0 <= i < balances.len() ==> (#[trigger] shares_of(burn, supply, balances)[i]).0
                == balances[i].0 && shares_of(burn, supply, balances)[i].1 <= balances[i].1,
    decreases balances.len(),
{
    let shares = shares_of(burn, supply, balances);
    let nonzero = |e: (Seq<char>, nat)| e.1 > 0;
    assert forall|i: int| 0 <= i < balances.len() implies (#[trigger] shares[i]).0
        == balances[i].0 && shares[i].1 <= balances[i].1 by {
        lemma_redemption_bounded(burn, supply, balances[i].1);
    }
    reveal(Seq::filter);
    if balances.len() > 0 {
        lemma_redemptions_are_bounded_shares(burn, supply, balances.drop_last());
        assert(shares.drop_last() =~= shares_of(burn, supply, balances.drop_last()));
        assert(shares.last() == (
            balances.last().0,
            redemption_share(burn, supply, balances.last().1),
        ));
    } else {
        assert(shares =~= Seq::empty());
    }
}

/// The balances with every amount scaled by `k`.
pub open spec fn scaled_balances(balances: Seq<(Seq<char>, nat)>, k: nat) -> Seq<(Seq<char>, nat)> {
    Seq::new(balances.len(), |j: int| (balances[j].0, k * balances[j].1))
}

/// Where every balance is scaled by `k` and no remainder, scaled by `k`,
/// reaches the supply, every share is scaled by `k`.
pub proof fn lemma_shares_scale(burn: nat, supply: nat, balances: Seq<(Seq<char>, nat)>, k: nat)
    requires
        supply > 0,
        forall|i: int|
            0 <= i < balances.len() ==> k * ((burn * (#[trigger] balances[i]).1) % supply) < supply,
    ensures
        forall|i: int|
            0 <= i < balances.len() ==> (#[trigger] shares_of(
                burn,
                supply,
                scaled_balances(balances, k),
            )[i]).1 == k * shares_of(burn, supply, balances)[i].1,
{
    let scaled = scaled_balances(balances, k);
    assert forall|i: int| 0 <= i < balances.len() implies (#[trigger] shares_of(
        burn,
        supply,
        scaled,
    )[i]).1 == k * shares_of(burn, supply, balances)[i].1 by {
        assert(k * ((burn * balances[i].1) % supply) < supply);
        lemma_redemption_scaling(burn, supply, balances[i].1, k);
    }
}

/// Scaling a balance by `k` scales its redemption by `k` exactly when the
/// remainder of the unscaled division, scaled by `k`, stays below the supply.
pub proof fn lemma_redemption_scaling(burn: nat, supply: nat, balance: nat, k: nat)
    requires
        supply > 0,
    ensures
        (redemption_share(burn, supply, k * balance) == k * redemption_share(burn, supply, balance))
            <==> k * ((burn * balance) % supply) < supply,
{
    let p = (burn * balance) as int;
    let s = supply as int;
    let q = p / s;
    let m = p % s;
    lemma_fundamental_div_mod(p, s);
    lemma_mod_bound(p, s);
    let scaled = (burn * (k * balance)) as int;
    assert(scaled == k * p) by (nonlinear_arith)
        requires
            scaled == burn * (k * balance),
            p == burn * balance,
    ;
    assert(scaled == s * (k * q) + k * m) by (nonlinear_arith)
        requires
            scaled == k * p,
            p == s * q + m,
    ;
    let km = k * m;
    lemma_fundamental_div_mod(km, s);
    lemma_mod_bound(km, s);
    // scaled = s * (k*q + km/s) + km % s
    assert(scaled == (k * q + km / s) * s + km % s) by (nonlinear_arith)
        requires
            scaled == s * (k * q) + km,
            km == s * (km / s) + km % s,
    ;
    lemma_fundamental_div_mod_converse(scaled, s, k * q + km / s, km % s);
    assert(scaled / s == k * q + km / s);
    if km < s {
        vstd::arithmetic::div_mod::lemma_basic_div(km, s);
    } else {
        lemma_div_pos_is_pos(km, s);
        vstd::arithmetic::div_mod::lemma_div_non_zero(km, s);
    }
}

// ---------------------------------------------------------------------------
// burn cap
// ---------------------------------------------------------------------------

/// A burn of `burn` is within the cap of 10% of `supply`.
pub open spec fn within_burn_cap(burn: nat, supply: nat) -> bool {
    burn * 100 <= supply * 10
}

/// The largest burn the cap admits: `supply * 10 / 100`, rounded down.
pub open spec fn max_burn(supply: nat) -> nat {
    (supply * 10) / 100
}

/// Whether a burn of `burn` out of `supply` is within the 10% cap.
pub fn burn_within_cap(burn: &Amount, supply: &Amount) -> (r: bool)
    ensures
        r == within_burn_cap(burn@, supply@),
{
    let hundred = Amount::from_u64(100);
    let ten = Amount::from_u64(10);
    let scaled_burn = burn.times(&hundred);
    let scaled_supply = supply.times(&ten);
    scaled_burn.le(&scaled_supply)
}

/// The cap admits a burn exactly when ten times the burn is no more than the
/// supply, that is, when the burn is no more than `max_burn`.
pub proof fn lemma_burn_cap(burn: nat, supply: nat)
    ensures
        within_burn_cap(burn, supply) <==> burn * 10 <= supply,
        within_burn_cap(burn, supply) <==> burn <= max_burn(supply),
{
    assert((burn * 100 <= supply * 10) <==> (burn * 10 <= supply)) by (nonlinear_arith);
    // supply * 10 / 100 == supply / 10
    assert((supply * 10) / 100 == supply / 10) by (nonlinear_arith);
    assert((burn * 10 <= supply) <==> (burn <= supply / 10)) by (nonlinear_arith);
}

// ---------------------------------------------------------------------------
// trade size
// ---------------------------------------------------------------------------

/// Size of one rebalancing trade, in stable atoms: the given fraction of the
/// deviation, or zero where the deviation is not positive or the fraction falls
/// short of the minimum.
pub open spec fn trade_size_of(deviation_e6: int, intensity_bps: nat, min_trade_e6: nat) -> nat {
    if deviation_e6 <= 0 || deviation_e6 * intensity_bps < min_trade_e6 * 10_000 {
        0
    } else {
        ((deviation_e6 * intensity_bps) / 10_000) as nat
    }
}

/// Size of one rebalancing trade in stable atoms. The deviation and the minimum
/// are in millionths of a dollar, the intensity in basis points.
pub fn calculate_trade_size(deviation_usd_e6: i64, trade_intensity_bps: u32, min_trade_size_e6: u64) -> (r:
    Result<Amount, IcpiError>)
    ensures
        r matches Ok(v) && v@ == trade_size_of(
            deviation_usd_e6 as int,
            trade_intensity_bps as nat,
            min_trade_size_e6 as nat,
        ),
{
    if deviation_usd_e6 <= 0 {
        return Ok(Amount::zero());
    }
    let deviation: u128 = deviation_usd_e6 as u128;
    let intensity: u128 = trade_intensity_bps as u128;
    let minimum: u128 = min_trade_size_e6 as u128;
    assert(deviation * intensity <= 0x7fff_ffff_ffff_ffff * 0xffff_ffff) by (nonlinear_arith)
        requires
            deviation <= 0x7fff_ffff_ffff_ffff,
            intensity <= 0xffff_ffff,
    ;
    let scaled: u128 = deviation * intensity;
    let threshold: u128 = minimum * 10_000;
    if scaled < threshold {
        return Ok(Amount::zero());
    }
    Ok(Amount::from_u128(scaled / 10_000))
}

} // verus!
