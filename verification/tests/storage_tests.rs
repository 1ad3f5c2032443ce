use icpi_backend::amount::Amount;
use icpi_backend::mint_state::{MintStatus, MintStore, PendingMint};
use icpi_backend::principal::Principal;
use icpi_backend::rebalancing::{
    get_rebalancer_status, start_rebalancing_timer, RebalanceAction, RebalanceState,
};
use icpi_backend::stable_storage::{restore_state, save_state};
use icpi_backend::token_info::{
    get_token_metadata, get_tracked_tokens, icrc1_decimals, icrc1_fee, icrc1_name,
    icrc1_supported_standards, icrc1_symbol,
};
use icpi_backend::tokens::TrackedToken;

const HOUR: u64 = 3_600_000_000_000;

fn pending(id: &str, created_at: u64) -> PendingMint {
    PendingMint {
        id: id.to_string(),
        user: Principal::from_text("aaaaa-aa").unwrap(),
        amount: Amount::from_u64(1_000_000),
        status: MintStatus::Pending,
        created_at,
        last_updated: created_at,
        snapshot: None,
    }
}

#[test]
fn state_survives_an_upgrade_without_the_expired_mints() {
    let mut store = MintStore::new();
    store.store_pending_mint(pending("old", HOUR));
    store.store_pending_mint(pending("young", 10 * HOUR));
    let mut rebalancer = RebalanceState::new();
    rebalancer.record_rebalance(
        RebalanceAction::Buy { token: TrackedToken::BOB, usdt_amount_e6: 5 },
        true,
        "Bought",
        HOUR,
    );
    start_rebalancing_timer(&mut rebalancer);

    let saved = save_state(&store, &rebalancer);
    assert_eq!(saved.pending_mints.len(), 2);
    assert_eq!(saved.trade_history.len(), 1);

    let (store, rebalancer) = restore_state(Some(saved), 26 * HOUR);
    assert_eq!(store.len(), 1);
    assert!(store.get_pending_mint("old").is_none());
    assert_eq!(store.get_pending_mint("young").unwrap().created_at, 10 * HOUR);
    let history = rebalancer.get_full_trade_history();
    assert_eq!(history.len(), 1);
    assert_eq!(history[0].details, "Bought");
    assert_eq!(get_rebalancer_status(&rebalancer).recent_history.len(), 1);
    // timers and what runs are not kept
    assert!(!get_rebalancer_status(&rebalancer).timer_active);
}

#[test]
fn nothing_to_restore_gives_empty_tables() {
    let (store, rebalancer) = restore_state(None, 5);
    assert_eq!(store.len(), 0);
    assert!(rebalancer.get_full_trade_history().is_empty());
}

#[test]
fn index_token_describes_itself() {
    assert_eq!(icrc1_name(), "Internet Computer Portfolio Index");
    assert_eq!(icrc1_symbol(), "ICPI");
    assert_eq!(icrc1_decimals(), 8);
    assert_eq!(icrc1_fee(), Amount::from_u64(10_000));
    let standards = icrc1_supported_standards();
    assert_eq!(standards.len(), 1);
    assert_eq!(standards[0].name, "ICRC-1");
    assert_eq!(standards[0].url, "https://github.com/dfinity/ICRC-1");
}

#[test]
fn tracked_tokens_are_the_basket() {
    assert_eq!(get_tracked_tokens(), vec!["ALEX", "ZERO", "KONG", "BOB"]);
    let metadata = get_token_metadata().unwrap();
    assert_eq!(metadata.len(), 4);
    assert_eq!(metadata[0].symbol, "ALEX");
    assert_eq!(metadata[0].canister_id, "ysy5f-2qaaa-aaaap-qkmmq-cai");
    assert_eq!(metadata[0].decimals, 8);
    assert_eq!(metadata[3].symbol, "BOB");
}

#[test]
fn of_two_saved_mints_with_one_id_the_later_counts() {
    let mut first = pending("twin", 10 * HOUR);
    first.amount = Amount::from_u64(1);
    let mut second = pending("twin", 2 * HOUR);
    second.amount = Amount::from_u64(2);

    let store = MintStore::import_state(vec![first.clone(), pending("other", 10 * HOUR), second.clone()]);
    assert_eq!(store.len(), 2);
    assert_eq!(store.get_pending_mint("twin").unwrap().amount, Amount::from_u64(2));
    assert!(store.get_pending_mint("other").is_some());
    assert!(store.get_pending_mint("none").is_none());

    // the later twin is 24 hours old at hour 26 and is dropped, though the
    // earlier one was younger
    let saved = icpi_backend::stable_storage::StableState {
        pending_mints: vec![first, pending("other", 10 * HOUR), second],
        trade_history: Vec::new(),
    };
    let (store, _) = restore_state(Some(saved), 26 * HOUR);
    assert!(store.get_pending_mint("twin").is_none());
    assert!(store.get_pending_mint("other").is_some());
    assert_eq!(store.len(), 1);
}

#[test]
fn every_stored_mint_is_exported() {
    let mut store = MintStore::new();
    for id in ["a", "b", "c"] {
        store.store_pending_mint(pending(id, HOUR));
    }
    let exported = store.export_state();
    let mut ids: Vec<String> = exported.iter().map(|m| m.id.clone()).collect();
    ids.sort();
    assert_eq!(ids, vec!["a", "b", "c"]);
}
