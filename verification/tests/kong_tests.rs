use icpi_backend::amount::Amount;
use icpi_backend::errors::IcpiError;
use icpi_backend::kong_tvl::{calculate_kong_locker_tvl, get_tvl_summary, LpPosition, PeerBalances};
use icpi_backend::tokens::TrackedToken;

fn amt(v: u64) -> Amount {
    Amount::from_u64(v)
}

fn lp(symbol_0: &str, usd_0: u64, symbol_1: &str, usd_1: u64) -> LpPosition {
    LpPosition {
        symbol_0: symbol_0.to_string(),
        symbol_1: symbol_1.to_string(),
        usd_amount_0_e6: usd_0,
        usd_amount_1_e6: usd_1,
    }
}

fn failed() -> PeerBalances {
    PeerBalances::Failed("timeout".to_string())
}

#[test]
fn no_lock_canisters_means_nothing_locked() {
    let tvl = calculate_kong_locker_tvl(&[]).unwrap();
    assert_eq!(tvl.len(), 4);
    assert_eq!(tvl[0], (TrackedToken::ALEX, amt(0)));
    assert_eq!(tvl[1], (TrackedToken::ZERO, amt(0)));
    assert_eq!(tvl[2], (TrackedToken::KONG, amt(0)));
    assert_eq!(tvl[3], (TrackedToken::BOB, amt(0)));
}

#[test]
fn only_the_side_of_the_tracked_token_counts() {
    let peers = vec![
        PeerBalances::Queried(vec![
            lp("ALEX", 1_000_000, "ckUSDT", 1_100_000),
            lp("ICP", 5_000_000, "KONG", 4_000_000),
            lp("ICP", 9_000_000, "ckBTC", 9_000_000),
        ]),
        PeerBalances::Queried(vec![
            // both sides tracked: both count, each for its own token
            lp("ALEX", 200_000, "ZERO", 300_000),
            lp("BOB", 70, "BOB", 30),
        ]),
    ];
    let tvl = calculate_kong_locker_tvl(&peers).unwrap();
    assert_eq!(tvl[0], (TrackedToken::ALEX, amt(1_200_000)));
    assert_eq!(tvl[1], (TrackedToken::ZERO, amt(300_000)));
    assert_eq!(tvl[2], (TrackedToken::KONG, amt(4_000_000)));
    assert_eq!(tvl[3], (TrackedToken::BOB, amt(100)));
}

fn ten_peers(answering: usize) -> Vec<PeerBalances> {
    let mut peers = Vec::new();
    for i in 0..10 {
        if i < answering {
            peers.push(PeerBalances::Queried(vec![lp("ALEX", 1_000_000, "ckUSDT", 1_000_000)]));
        } else {
            peers.push(failed());
        }
    }
    peers
}

#[test]
fn six_of_ten_answers_are_enough() {
    let tvl = calculate_kong_locker_tvl(&ten_peers(6)).unwrap();
    assert_eq!(tvl[0], (TrackedToken::ALEX, amt(6_000_000)));
    assert_eq!(tvl[1].1, amt(0));
}

#[test]
fn four_of_ten_answers_are_too_few() {
    assert!(matches!(calculate_kong_locker_tvl(&ten_peers(4)), Err(IcpiError::Other(_))));
}

#[test]
fn half_the_answers_are_just_enough_and_none_is_a_failure() {
    assert!(calculate_kong_locker_tvl(&ten_peers(5)).is_ok());
    assert!(calculate_kong_locker_tvl(&ten_peers(0)).is_err());
    assert!(calculate_kong_locker_tvl(&[failed()]).is_err());
    // the failures may come first
    let peers = vec![failed(), PeerBalances::Queried(vec![lp("KONG", 5, "ICP", 5)])];
    assert_eq!(calculate_kong_locker_tvl(&peers).unwrap()[2].1, amt(5));
}

#[test]
fn locked_value_does_not_overflow() {
    let peers = vec![PeerBalances::Queried(vec![
        lp("ALEX", u64::MAX, "ALEX", u64::MAX),
        lp("ALEX", u64::MAX, "ALEX", u64::MAX),
    ])];
    let tvl = calculate_kong_locker_tvl(&peers).unwrap();
    assert_eq!(tvl[0].1.to_u128(), Some(4 * (u64::MAX as u128)));
}

#[test]
fn target_weights_are_shares_of_the_total() {
    let tvl = vec![
        (TrackedToken::ALEX, amt(22_500_000_000)),
        (TrackedToken::ZERO, amt(640_000_000)),
        (TrackedToken::KONG, amt(48_000_000)),
        (TrackedToken::BOB, amt(2_000_000)),
    ];
    let summary = get_tvl_summary(&tvl, 123);
    assert_eq!(summary.timestamp, 123);
    assert_eq!(summary.total_tvl_usd_e6, amt(23_190_000_000));
    assert_eq!(summary.tokens.len(), 4);
    assert_eq!(summary.tokens[0].token, TrackedToken::ALEX);
    assert_eq!(summary.tokens[0].tvl_usd_e6, amt(22_500_000_000));
    assert_eq!(summary.tokens[0].percentage_bps, 9_702);
    assert_eq!(summary.tokens[1].percentage_bps, 275);
    assert_eq!(summary.tokens[2].percentage_bps, 20);
    assert_eq!(summary.tokens[3].percentage_bps, 0);
}

#[test]
fn target_weights_of_nothing_are_zero() {
    let tvl = calculate_kong_locker_tvl(&[]).unwrap();
    let summary = get_tvl_summary(&tvl, 1);
    assert_eq!(summary.total_tvl_usd_e6, amt(0));
    assert!(summary.tokens.iter().all(|t| t.percentage_bps == 0));
}
