//! Prices from the exchange: what one whole token fetches in stable atoms.

use vstd::prelude::*;
use crate::amount::Amount;
use crate::errors::IcpiError;
use crate::strings::text;
use crate::tokens::TrackedToken;

verus! {

/// The atoms of one whole basket token: the amount a price is quoted for.
pub const ONE_TOKEN_E8: u64 = 100_000_000;

/// The price of one whole stable token, in stable atoms.
pub const STABLE_PRICE_E6: u64 = 1_000_000;

/// The price of one whole token in stable atoms, from what the exchange quoted
/// for it. The stablecoin is always at par and needs no quote. For any other
/// token a missing quote is an error, and so is a quote beyond 64 bits: no
/// price is ever assumed.
pub fn get_token_price_in_usdt(token: &TrackedToken, quote: Result<Amount, String>) -> (r: Result<
    u64,
    IcpiError,
>)
    ensures
        *token == TrackedToken::ckUSDT ==> r == Ok::<u64, IcpiError>(STABLE_PRICE_E6),
        *token != TrackedToken::ckUSDT ==> match quote {
            Ok(received) => if received@ <= u64::MAX {
                r == Ok::<u64, IcpiError>(received@ as u64)
            } else {
                r matches Err(IcpiError::Other(_))
            },
            Err(why) => r matches Err(IcpiError::Other(msg)) && msg@ == why@,
        },
{
    match token {
        TrackedToken::ckUSDT => {
            return Ok(STABLE_PRICE_E6);
        },
        _ => {},
    }
    match quote {
        Ok(received) => match received.to_u64() {
            Some(price) => Ok(price),
            None => Err(IcpiError::Other(text("Price amount overflow"))),
        },
        Err(why) => Err(IcpiError::Other(why)),
    }
}

} // verus!
