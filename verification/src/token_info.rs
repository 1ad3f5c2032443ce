//! What the index token says of itself, and what the system says of the tokens
//! it tracks.

use vstd::prelude::*;
use crate::amount::Amount;
use crate::errors::IcpiError;
use crate::principal::principal_parse;
use crate::strings::text;
use crate::tokens::{basket, decimals_of, ledger_id_of, symbol_of, TrackedToken};

verus! {

/// Fee of a transfer of the index token, in index atoms.
pub const INDEX_TRANSFER_FEE: u64 = 10_000;

pub fn icrc1_name() -> (r: String)
    ensures
        r@ == "Internet Computer Portfolio Index"@,
{
    text("Internet Computer Portfolio Index")
}

pub fn icrc1_symbol() -> (r: String)
    ensures
        r@ == "ICPI"@,
{
    text("ICPI")
}

pub fn icrc1_decimals() -> (r: u8)
    ensures
        r == 8,
{
    8
}

pub fn icrc1_fee() -> (r: Amount)
    ensures
        r@ == INDEX_TRANSFER_FEE,
{
    Amount::from_u64(INDEX_TRANSFER_FEE)
}

/// A standard that the index token supports.
#[derive(Debug)]
pub struct StandardRecord {
    pub name: String,
    pub url: String,
}

/// The standards that the index token supports: ICRC-1 alone.
pub fn icrc1_supported_standards() -> (r: Vec<StandardRecord>)
    ensures
        r@.len() == 1,
        r@[0].name@ == "ICRC-1"@,
        r@[0].url@ == "https://github.com/dfinity/ICRC-1"@,
{
    let mut v: Vec<StandardRecord> = Vec::new();
    v.push(
        StandardRecord { name: text("ICRC-1"), url: text("https://github.com/dfinity/ICRC-1") },
    );
    v
}

/// What is known of a tracked token.
#[derive(Debug)]
pub struct TokenMetadata {
    pub symbol: String,
    /// The text of the principal of the token's ledger.
    pub canister_id: String,
    pub decimals: u8,
}

/// The basket tokens with their ledgers and decimal widths, in the order of the
/// basket. Fails where a ledger's identifier is no principal.
pub fn get_token_metadata() -> (r: Result<Vec<TokenMetadata>, IcpiError>)
    ensures
        match r {
            Ok(tokens) => {
                &&& tokens@.len() == 4
                &&& forall|i: int|
                    0 <= i < 4 ==> {
                        &&& (#[trigger] tokens@[i]).symbol@ == symbol_of(basket()[i])
                        &&& tokens@[i].canister_id@ == ledger_id_of(basket()[i])
                        &&& tokens@[i].decimals == decimals_of(basket()[i])
                        &&& principal_parse(ledger_id_of(basket()[i])) is Some
                    }
            },
            Err(e) => e is Other && exists|i: int|
                0 <= i < 4 && principal_parse(ledger_id_of(#[trigger] basket()[i])) is None,
        },
{
    let all = TrackedToken::all();
    let mut tokens: Vec<TokenMetadata> = Vec::new();
    let mut i: usize = 0;
    while i < 4
        invariant
            i <= 4,
            all@ == basket(),
            tokens@.len() == i,
            forall|j: int|
                0 <= j < i ==> {
                    &&& (#[trigger] tokens@[j]).symbol@ == symbol_of(basket()[j])
                    &&& tokens@[j].canister_id@ == ledger_id_of(basket()[j])
                    &&& tokens@[j].decimals == decimals_of(basket()[j])
                    &&& principal_parse(ledger_id_of(basket()[j])) is Some
                },
        decreases 4 - i,
    {
        let token = all[i];
        proof {
            assert(token == basket()[i as int]);
        }
        match token.get_canister_id() {
            Ok(_) => {
                proof {
                    assert(principal_parse(ledger_id_of(basket()[i as int])) is Some);
                }
            },
            Err(id) => {
                proof {
                    assert(principal_parse(ledger_id_of(basket()[i as int])) is None);
                }
                return Err(IcpiError::Other(id));
            },
        }
        let ghost before = tokens@;
        tokens.push(
            TokenMetadata {
                symbol: text(token.to_symbol()),
                canister_id: text(token.canister_id_text()),
                decimals: token.get_decimals(),
            },
        );
        proof {
            assert forall|j: int| 0 <= j < i implies tokens@[j] == before[j] by {}
        }
        i = i + 1;
    }
    Ok(tokens)
}

/// The symbols of the basket tokens, in the order of the basket.
pub fn get_tracked_tokens() -> (r: Vec<String>)
    ensures
        r@.len() == 4,
        forall|i: int| 0 <= i < 4 ==> (#[trigger] r@[i])@ == symbol_of(basket()[i]),
{
    let all = TrackedToken::all();
    let mut names: Vec<String> = Vec::new();
    let mut i: usize = 0;
    while i < 4
        invariant
            i <= 4,
            all@ == basket(),
            names@.len() == i,
            forall|j: int| 0 <= j < i ==> (#[trigger] names@[j])@ == symbol_of(basket()[j]),
        decreases 4 - i,
    {
        names.push(text(all[i].to_symbol()));
        i = i + 1;
    }
    names
}

} // verus!
