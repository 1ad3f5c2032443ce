//! The tokens that the system tracks: the four basket tokens and the stablecoin.

use vstd::prelude::*;
use crate::principal::{principal_parse, Principal};
use crate::strings::{text, text_eq};

verus! {

/// A tracked token. The first four make up the basket; `ckUSDT` is the currency
/// of deposits and the intermediary of every trade.
#[allow(non_camel_case_types)]
#[derive(Debug, Clone, Copy, PartialEq, Eq, Structural)]
pub enum TrackedToken {
    ALEX,
    ZERO,
    KONG,
    BOB,
    ckUSDT,
}

/// The symbol of a token.
pub open spec fn symbol_of(token: TrackedToken) -> Seq<char> {
    match token {
        TrackedToken::ALEX => "ALEX"@,
        TrackedToken::ZERO => "ZERO"@,
        TrackedToken::KONG => "KONG"@,
        TrackedToken::BOB => "BOB"@,
        TrackedToken::ckUSDT => "ckUSDT"@,
    }
}

/// The text of the principal of a token's ledger.
pub open spec fn ledger_id_of(token: TrackedToken) -> Seq<char> {
    match token {
        TrackedToken::ALEX => "ysy5f-2qaaa-aaaap-qkmmq-cai"@,
        TrackedToken::ZERO => "b3d2q-ayaaa-aaaap-qqcfq-cai"@,
        TrackedToken::KONG => "o7oak-iyaaa-aaaaq-aadzq-cai"@,
        TrackedToken::BOB => "7pail-xaaaa-aaaas-aabmq-cai"@,
        TrackedToken::ckUSDT => "cngnf-vqaaa-aaaar-qag4q-cai"@,
    }
}

/// The decimal width of a token: 6 for the stablecoin, 8 for every basket token.
pub open spec fn decimals_of(token: TrackedToken) -> u8 {
    if token == TrackedToken::ckUSDT {
        6
    } else {
        8
    }
}

/// The token with the given symbol, if it is tracked.
pub open spec fn token_of_symbol(symbol: Seq<char>) -> Option<TrackedToken> {
    if symbol == "ALEX"@ {
        Some(TrackedToken::ALEX)
    } else if symbol == "ZERO"@ {
        Some(TrackedToken::ZERO)
    } else if symbol == "KONG"@ {
        Some(TrackedToken::KONG)
    } else if symbol == "BOB"@ {
        Some(TrackedToken::BOB)
    } else if symbol == "ckUSDT"@ {
        Some(TrackedToken::ckUSDT)
    } else {
        None
    }
}

/// Each token is the one that its own symbol names.
pub proof fn lemma_symbol_names_token(token: TrackedToken)
    ensures
        token_of_symbol(symbol_of(token)) == Some(token),
{
    reveal_strlit("ALEX");
    reveal_strlit("ZERO");
    reveal_strlit("KONG");
    reveal_strlit("BOB");
    reveal_strlit("ckUSDT");
    assert("ALEX"@[0] == 'A');
    assert("ZERO"@[0] == 'Z');
    assert("KONG"@[0] == 'K');
    assert("BOB"@.len() == 3);
    assert("ckUSDT"@.len() == 6);
}

/// The basket, in its fixed order.
pub open spec fn basket() -> Seq<TrackedToken> {
    seq![TrackedToken::ALEX, TrackedToken::ZERO, TrackedToken::KONG, TrackedToken::BOB]
}

impl TrackedToken {
    pub fn to_symbol(&self) -> (r: &'static str)
        ensures
            r@ == symbol_of(*self),
    {
        match self {
            TrackedToken::ALEX => "ALEX",
            TrackedToken::ZERO => "ZERO",
            TrackedToken::KONG => "KONG",
            TrackedToken::BOB => "BOB",
            TrackedToken::ckUSDT => "ckUSDT",
        }
    }

    /// The token with the given symbol, if it is tracked.
    pub fn from_symbol(symbol: &str) -> (r: Option<TrackedToken>)
        ensures
            r == token_of_symbol(symbol@),
    {
        if text_eq(symbol, "ALEX") {
            Some(TrackedToken::ALEX)
        } else if text_eq(symbol, "ZERO") {
            Some(TrackedToken::ZERO)
        } else if text_eq(symbol, "KONG") {
            Some(TrackedToken::KONG)
        } else if text_eq(symbol, "BOB") {
            Some(TrackedToken::BOB)
        } else if text_eq(symbol, "ckUSDT") {
            Some(TrackedToken::ckUSDT)
        } else {
            None
        }
    }

    /// Decimal width: 6 for the stablecoin, 8 for every basket token.
    pub fn get_decimals(&self) -> (r: u8)
        ensures
            r == decimals_of(*self),
    {
        match self {
            TrackedToken::ckUSDT => 6,
            _ => 8,
        }
    }

    /// The text of the principal of this token's ledger.
    pub fn canister_id_text(&self) -> (r: &'static str)
        ensures
            r@ == ledger_id_of(*self),
    {
        match self {
            TrackedToken::ALEX => "ysy5f-2qaaa-aaaap-qkmmq-cai",
            TrackedToken::ZERO => "b3d2q-ayaaa-aaaap-qqcfq-cai",
            TrackedToken::KONG => "o7oak-iyaaa-aaaaq-aadzq-cai",
            TrackedToken::BOB => "7pail-xaaaa-aaaas-aabmq-cai",
            TrackedToken::ckUSDT => "cngnf-vqaaa-aaaar-qag4q-cai",
        }
    }

    /// The principal of this token's ledger, or the text that failed to parse.
    pub fn get_canister_id(&self) -> (r: Result<Principal, String>)
        ensures
            match r {
                Ok(p) => principal_parse(ledger_id_of(*self)) == Some(p@),
                Err(t) => principal_parse(ledger_id_of(*self)).is_none() && t@ == ledger_id_of(
                    *self,
                ),
            },
    {
        let id = self.canister_id_text();
        match Principal::from_text(id) {
            Some(p) => Ok(p),
            None => Err(text(id)),
        }
    }

    /// Whether the token is part of the basket.
    pub fn is_basket_token(&self) -> (r: bool)
        ensures
            r == basket().contains(*self),
            r == (*self != TrackedToken::ckUSDT),
    {
        proof {
            let b = basket();
            assert(b[0] == TrackedToken::ALEX);
            assert(b[1] == TrackedToken::ZERO);
            assert(b[2] == TrackedToken::KONG);
            assert(b[3] == TrackedToken::BOB);
        }
        match self {
            TrackedToken::ckUSDT => false,
            _ => true,
        }
    }

    /// The basket tokens, in their fixed order.
    pub fn all() -> (r: Vec<TrackedToken>)
        ensures
            r@ == basket(),
    {
        let mut v: Vec<TrackedToken> = Vec::new();
        v.push(TrackedToken::ALEX);
        v.push(TrackedToken::ZERO);
        v.push(TrackedToken::KONG);
        v.push(TrackedToken::BOB);
        proof {
            assert(v@ =~= basket());
        }
        v
    }
}

/// Decimal width of the token with the given symbol: 6 for the stablecoin, 8 for
/// everything else.
pub fn get_token_decimals(symbol: &str) -> (r: u32)
    ensures
        r == if symbol@ == "ckUSDT"@ { 6u32 } else { 8u32 },
{
    if text_eq(symbol, "ckUSDT") {
        6
    } else {
        8
    }
}

} // verus!
