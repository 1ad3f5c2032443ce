//! Fixed parameters of the system.

use vstd::prelude::*;

verus! {

/// Smallest burn, in index atoms.
pub const MIN_BURN_AMOUNT: u64 = 10_000;

/// Smallest mint deposit, in stable atoms.
pub const MIN_MINT_AMOUNT: u64 = 100_000;

/// Fee for a mint or a burn, in stable atoms: a tenth of one stable unit.
pub const MINT_FEE_AMOUNT: u64 = 100_000;

/// Smallest rebalancing trade, in millionths of a dollar: ten dollars.
pub const MIN_TRADE_SIZE_USD_E6: u64 = 10_000_000;

/// Share of a deviation that one trade closes, in basis points: a tenth.
pub const TRADE_INTENSITY_BPS: u32 = 1_000;

/// Largest slippage accepted on a rebalancing swap, in basis points: 2%.
pub const MAX_SLIPPAGE_BPS: u32 = 200;

/// Largest slippage any swap may ask for, in basis points: 10%.
pub const SLIPPAGE_LIMIT_BPS: i64 = 1_000;

/// Seconds between two rebalancing cycles.
pub const REBALANCE_INTERVAL_SECONDS: u64 = 3_600;

/// Lifetime of an approval given to the exchange, in nanoseconds: 15 minutes.
pub const APPROVAL_EXPIRY_NANOS: u64 = 900_000_000_000;

/// Age at which a pending mint is dropped, in nanoseconds: 24 hours.
pub const PENDING_MINT_TTL_NANOS: u64 = 86_400_000_000_000;

/// Age beyond which a snapshot draws a warning, in nanoseconds: 30 seconds.
pub const MAX_SNAPSHOT_AGE_NANOS: u64 = 30_000_000_000;

/// Cooldown between two mints, or two burns, of one caller: one second.
pub const OPERATION_COOLDOWN_NANOS: u64 = 1_000_000_000;

/// Records kept in the ring of recent rebalances.
pub const MAX_REBALANCE_HISTORY: usize = 10;

/// Entries kept in the log of admin actions.
pub const MAX_LOG_ENTRIES: usize = 1_000;

/// Retries of the supply and value snapshot after the first attempt.
pub const MAX_RETRIES: u8 = 2;

/// Largest portfolio value taken as sane, in stable atoms: a trillion dollars.
pub const MAX_REASONABLE_VALUE_E6: u128 = 1_000_000_000_000_000_000;

/// The exchange.
pub const KONGSWAP_BACKEND_ID: &'static str = "2ipq2-uqaaa-aaaar-qailq-cai";

/// The catalog of lock canisters.
pub const KONG_LOCKER_ID: &'static str = "eazgb-giaaa-aaaap-qqc2q-cai";

/// The ledger of the index token.
pub const ICPI_CANISTER_ID: &'static str = "l6lep-niaaa-aaaap-qqeda-cai";

/// The ledger of the stablecoin.
pub const CKUSDT_CANISTER_ID: &'static str = "cngnf-vqaaa-aaaar-qag4q-cai";

} // verus!
