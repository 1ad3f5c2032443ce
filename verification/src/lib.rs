//! Core of a portfolio index token: exact arithmetic, the concurrency
//! coordinator, and the mint, burn and rebalancing rules.

pub mod admin;
pub mod amount;
pub mod burn_validator;
pub mod burning;
pub mod constants;
pub mod critical_data;
pub mod errors;
pub mod kong_tvl;
pub mod ledger;
pub mod math;
pub mod mint_state;
pub mod minting;
pub mod pools;
pub mod portfolio;
pub mod principal;
pub mod principal_set;
pub mod rate_limit;
pub mod rebalance_cycle;
pub mod rebalancing;
pub mod reentrancy;
pub mod slippage;
pub mod stable_storage;
pub mod strings;
pub mod swaps;
pub mod token_info;
pub mod tokens;
