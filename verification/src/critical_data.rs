//! Supply and value: the snapshot that mints are measured against, and the
//! value of the system's holdings in stable atoms.

use vstd::prelude::*;
use crate::amount::Amount;
use crate::constants::{MAX_REASONABLE_VALUE_E6, MAX_RETRIES};
use crate::errors::{IcpiError, ValidationError};
use crate::strings::{text, text_eq};
use crate::tokens::{lemma_symbol_names_token, token_of_symbol, TrackedToken};

verus! {

/// Supply and value contradict each other: one is zero and the other is not.
pub open spec fn inconsistent(supply: nat, tvl: nat) -> bool {
    (supply > 0 && tvl == 0) || (supply == 0 && tvl > 0)
}

/// Accept a snapshot of supply and value, unless one of them is zero while the
/// other is not: that is a `DataInconsistency`, and no mint or burn may go on.
pub fn validate_and_return_snapshot(supply: Amount, tvl: Amount) -> (r: Result<(Amount, Amount), IcpiError>)
    ensures
        inconsistent(supply@, tvl@) ==> {
            &&& r matches Err(
                IcpiError::Validation(ValidationError::DataInconsistency { supply: s, tvl: t }),
            )
            &&& s@ == supply@
            &&& t@ == tvl@
        },
        !inconsistent(supply@, tvl@) ==> (r matches Ok(pair) && pair.0@ == supply@ && pair.1@
            == tvl@),
{
    let no_supply = supply.is_zero();
    let no_tvl = tvl.is_zero();
    if no_supply != no_tvl {
        return Err(
            IcpiError::Validation(ValidationError::DataInconsistency { supply, tvl }),
        );
    }
    Ok((supply, tvl))
}

/// What to do after one attempt to read supply and value together.
#[derive(Debug)]
pub enum SnapshotDecision {
    /// The snapshot, or the error that ends the attempts.
    Done(Result<(Amount, Amount), IcpiError>),
    /// Read both again; this will be the attempt with the given number.
    Retry { attempt: u8 },
}

/// Decide on the replies to attempt number `attempt` (counted from zero) to
/// read supply and value together.
///
/// Where both were read, the snapshot is checked for consistency and that ends
/// it. Where either failed, both are read again, up to two more times; after
/// the last attempt the error stands, that of the supply where both failed.
pub fn get_supply_and_tvl_atomic(
    attempt: u8,
    supply_result: Result<Amount, IcpiError>,
    tvl_result: Result<Amount, IcpiError>,
) -> (r: SnapshotDecision)
    ensures
        match (supply_result, tvl_result) {
            (Ok(supply), Ok(tvl)) => if inconsistent(supply@, tvl@) {
                &&& r matches SnapshotDecision::Done(
                    Err(
                        IcpiError::Validation(ValidationError::DataInconsistency { supply: s, tvl: t }),
                    ),
                )
                &&& s@ == supply@
                &&& t@ == tvl@
            } else {
                r matches SnapshotDecision::Done(Ok(pair)) && pair.0@ == supply@ && pair.1@ == tvl@
            },
            (Err(e), _) => if attempt < MAX_RETRIES {
                r matches SnapshotDecision::Retry { attempt: next } && next == attempt + 1
            } else {
                r == SnapshotDecision::Done(Err(e))
            },
            (Ok(_), Err(e)) => if attempt < MAX_RETRIES {
                r matches SnapshotDecision::Retry { attempt: next } && next == attempt + 1
            } else {
                r == SnapshotDecision::Done(Err(e))
            },
        },
{
    match (supply_result, tvl_result) {
        (Ok(supply), Ok(tvl)) => SnapshotDecision::Done(validate_and_return_snapshot(supply, tvl)),
        (Err(e), _) => {
            if attempt < MAX_RETRIES {
                SnapshotDecision::Retry { attempt: attempt + 1 }
            } else {
                SnapshotDecision::Done(Err(e))
            }
        },
        (Ok(_), Err(e)) => {
            if attempt < MAX_RETRIES {
                SnapshotDecision::Retry { attempt: attempt + 1 }
            } else {
                SnapshotDecision::Done(Err(e))
            }
        },
    }
}

/// One holding of the system: a symbol, the balance in the token's atoms, and
/// the price of one whole token in stable atoms as the exchange quoted it, or
/// why no price was had. The stablecoin needs no price.
#[derive(Debug)]
pub struct Holding {
    pub symbol: String,
    pub balance: Amount,
    pub price_e6: Result<u64, String>,
}

/// A holding as plain values.
pub struct HoldingView {
    pub symbol: Seq<char>,
    pub balance: nat,
    pub price_e6: Option<u64>,
}

impl View for Holding {
    type V = HoldingView;

    open spec fn view(&self) -> HoldingView {
        HoldingView {
            symbol: self.symbol@,
            balance: self.balance@,
            price_e6: match self.price_e6 {
                Ok(p) => Some(p),
                Err(_) => None,
            },
        }
    }
}

/// Holdings as plain values.
pub open spec fn holdings_view(s: Seq<Holding>) -> Seq<HoldingView> {
    Seq::new(s.len(), |i: int| s[i]@)
}

/// The value in stable atoms of `balance` atoms of a basket token at `price_e6`
/// stable atoms a whole token: a whole token is 10^8 atoms, and the quotient is
/// rounded down. `None` where the balance or the value does not fit in 64 bits.
pub open spec fn token_value(balance: nat, price_e6: u64) -> Option<u64> {
    if balance > u64::MAX {
        None
    } else if (balance * price_e6) / 100_000_000 > u64::MAX {
        None
    } else {
        Some(((balance * price_e6) / 100_000_000) as u64)
    }
}

/// The value in stable atoms of a holding: the balance itself for the
/// stablecoin, the priced balance for a basket token. `None` for an unknown
/// symbol, for a basket token without a price, and where the numbers do not fit
/// in 64 bits.
pub open spec fn holding_value(h: HoldingView) -> Option<u64> {
    match token_of_symbol(h.symbol) {
        None => None,
        Some(TrackedToken::ckUSDT) => if h.balance <= u64::MAX {
            Some(h.balance as u64)
        } else {
            None
        },
        Some(_) => match h.price_e6 {
            Some(p) => token_value(h.balance, p),
            None => None,
        },
    }
}

/// The value in stable atoms of `amount` atoms of the basket token `symbol`, at
/// the quoted price. Fails for a symbol that is no basket token, where no price
/// was had, and where the numbers do not fit in 64 bits. No price is ever
/// assumed.
pub fn get_token_usd_value(token_symbol: &str, amount: &Amount, price_e6: &Result<u64, String>) -> (r:
    Result<u64, IcpiError>)
    ensures
        match token_of_symbol(token_symbol@) {
            None => r matches Err(IcpiError::Other(_)),
            Some(TrackedToken::ckUSDT) => r matches Err(IcpiError::Other(_)),
            Some(_) => match *price_e6 {
                Err(_) => r matches Err(IcpiError::Other(_)),
                Ok(p) => match token_value(amount@, p) {
                    Some(v) => r == Ok::<u64, IcpiError>(v),
                    None => r matches Err(IcpiError::Other(_)),
                },
            },
        },
{
    match TrackedToken::from_symbol(token_symbol) {
        None => {
            return Err(IcpiError::Other(text("Unknown token")));
        },
        Some(TrackedToken::ckUSDT) => {
            return Err(IcpiError::Other(text("Unknown token")));
        },
        Some(_) => {},
    }
    let price: u64 = match price_e6 {
        Ok(p) => *p,
        Err(_) => {
            return Err(IcpiError::Other(text("Token price unavailable")));
        },
    };
    let amount_e8: u64 = match amount.to_u64() {
        Some(a) => a,
        None => {
            return Err(IcpiError::Other(text("Amount too large to process")));
        },
    };
    if amount_e8 == 0 {
        proof {
            assert(0nat * (price as nat) == 0);
        }
        return Ok(0u64);
    }
    let amount_u128: u128 = amount_e8 as u128;
    let price_u128: u128 = price as u128;
    assert(amount_u128 * price_u128 <= 0xffff_ffff_ffff_ffff * 0xffff_ffff_ffff_ffff)
        by (nonlinear_arith)
        requires
            amount_u128 <= 0xffff_ffff_ffff_ffff,
            price_u128 <= 0xffff_ffff_ffff_ffff,
    ;
    let product: u128 = amount_u128 * price_u128;
    let value_e6: u128 = product / 100_000_000;
    if value_e6 > 0xffff_ffff_ffff_ffffu128 {
        return Err(IcpiError::Other(text("Value overflow")));
    }
    Ok(value_e6 as u64)
}

/// The sum of the values of the holdings, where every holding has one.
pub open spec fn total_value(holdings: Seq<HoldingView>) -> Option<nat>
    decreases holdings.len(),
{
    if holdings.len() == 0 {
        Some(0)
    } else {
        match (total_value(holdings.drop_last()), holding_value(holdings.last())) {
            (Some(rest), Some(v)) => Some(rest + v as nat),
            _ => None,
        }
    }
}

/// The value of one holding in stable atoms.
pub fn value_of_holding(holding: &Holding) -> (r: Result<u64, IcpiError>)
    ensures
        match holding_value(holding@) {
            Some(v) => r == Ok::<u64, IcpiError>(v),
            None => r matches Err(IcpiError::Other(_)),
        },
{
    if text_eq(holding.symbol.as_str(), "ckUSDT") {
        proof {
            lemma_symbol_names_token(TrackedToken::ckUSDT);
        }
        match holding.balance.to_u64() {
            Some(v) => Ok(v),
            None => Err(IcpiError::Other(text("ckUSDT balance too large to process"))),
        }
    } else {
        get_token_usd_value(holding.symbol.as_str(), &holding.balance, &holding.price_e6)
    }
}

/// The value of all holdings together, in stable atoms: the stable balance at
/// par and every basket token at its quoted price.
///
/// Fails where any holding cannot be valued, and where the total is beyond a
/// trillion dollars.
pub fn calculate_portfolio_value_atomic(holdings: &[Holding]) -> (r: Result<Amount, IcpiError>)
    ensures
        match total_value(holdings_view(holdings@)) {
            Some(total) => if total <= MAX_REASONABLE_VALUE_E6 {
                r matches Ok(v) && v@ == total
            } else {
                r matches Err(IcpiError::Other(_))
            },
            None => r matches Err(IcpiError::Other(_)),
        },
{
    let ghost all = holdings_view(holdings@);
    let mut total_value_e6: u128 = 0;
    let mut exceeded = false;
    let n: usize = holdings.len();
    let mut i: usize = 0;
    while i < n
        invariant
            i <= n,
            n == holdings@.len(),
            all == holdings_view(holdings@),
            match total_value(all.take(i as int)) {
                Some(t) => if exceeded {
                    t > MAX_REASONABLE_VALUE_E6
                } else {
                    t == total_value_e6 && t <= MAX_REASONABLE_VALUE_E6
                },
                None => false,
            },
        decreases n - i,
    {
        proof {
            assert(all.take(i as int + 1).drop_last() == all.take(i as int));
            assert(all.take(i as int + 1).last() == holdings@[i as int]@);
        }
        let value: u64 = match value_of_holding(&holdings[i]) {
            Ok(v) => v,
            Err(e) => {
                proof {
                    assert(total_value(all.take(i as int + 1)).is_none());
                    lemma_total_value_prefix(all, i as int + 1);
                }
                return Err(e);
            },
        };
        if !exceeded {
            total_value_e6 = total_value_e6 + value as u128;
            if total_value_e6 > MAX_REASONABLE_VALUE_E6 {
                exceeded = true;
            }
        }
        i = i + 1;
    }
    proof {
        assert(all.take(n as int) == all);
    }
    if exceeded {
        return Err(IcpiError::Other(text("Portfolio value exceeds maximum reasonable limit")));
    }
    Ok(Amount::from_u128(total_value_e6))
}

/// Where a prefix of the holdings has no total, the whole has none.
pub proof fn lemma_total_value_prefix(holdings: Seq<HoldingView>, k: int)
    requires
        0 <= k <= holdings.len(),
        total_value(holdings.take(k)).is_none(),
    ensures
        total_value(holdings).is_none(),
    decreases holdings.len(),
{
    if k < holdings.len() {
        assert(holdings.drop_last().take(k) == holdings.take(k));
        lemma_total_value_prefix(holdings.drop_last(), k);
    } else {
        assert(holdings.take(k) == holdings);
    }
}

} // verus!
