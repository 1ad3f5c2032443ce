use icpi_backend::amount::Amount;
use icpi_backend::critical_data::{
    calculate_portfolio_value_atomic, get_supply_and_tvl_atomic, get_token_usd_value,
    validate_and_return_snapshot, value_of_holding, Holding, SnapshotDecision,
};
use icpi_backend::errors::{IcpiError, QueryError, ValidationError};
use icpi_backend::pools::get_token_price_in_usdt;
use icpi_backend::portfolio::{
    get_index_state_cached, get_portfolio_state_uncached, CachedLockCanisters,
};
use icpi_backend::tokens::TrackedToken;

fn amt(v: u64) -> Amount {
    Amount::from_u64(v)
}

fn inconsistent(supply: &Amount, tvl: &Amount) -> bool {
    matches!(
        validate_and_return_snapshot(supply.clone(), tvl.clone()),
        Err(IcpiError::Validation(ValidationError::DataInconsistency { .. }))
    )
}

#[test]
fn test_inconsistent_state_supply_but_no_tvl() {
    let supply = amt(1_000_000);
    let tvl = amt(0);

    let is_inconsistent = inconsistent(&supply, &tvl);
    assert!(is_inconsistent, "Should detect supply without TVL as inconsistent");
}

#[test]
fn test_inconsistent_state_tvl_but_no_supply() {
    let supply = amt(0);
    let tvl = amt(100_000);

    let is_inconsistent = inconsistent(&supply, &tvl);
    assert!(is_inconsistent, "Should detect TVL without supply as inconsistent");
}

#[test]
fn test_consistent_state_both_zero() {
    let supply = amt(0);
    let tvl = amt(0);

    let is_inconsistent = inconsistent(&supply, &tvl);
    assert!(!is_inconsistent, "Both zero should be consistent (initial state)");
}

#[test]
fn test_consistent_state_both_positive() {
    let supply = amt(1_000_000);
    let tvl = amt(500_000);

    let is_inconsistent = inconsistent(&supply, &tvl);
    assert!(!is_inconsistent, "Both positive should be consistent");
}

#[test]
fn test_snapshot_validation_boundaries() {
    let supply_one = amt(1);
    let tvl_zero = amt(0);

    let is_inconsistent = inconsistent(&supply_one, &tvl_zero);
    assert!(is_inconsistent, "Even 1 token with 0 TVL should be inconsistent");

    let supply_zero = amt(0);
    let tvl_one = amt(1);

    let is_inconsistent = inconsistent(&supply_zero, &tvl_one);
    assert!(is_inconsistent, "Even 1 ckUSDT with 0 supply should be inconsistent");
}

#[test]
fn test_validation_logic_symmetry() {
    let cases = vec![
        (amt(0), amt(0)),
        (amt(0), amt(100)),
        (amt(100), amt(0)),
        (amt(100), amt(100)),
    ];

    for (supply, tvl) in cases {
        let cond1 = !supply.is_zero() && tvl.is_zero();
        let cond2 = supply.is_zero() && !tvl.is_zero();

        assert!(
            !(cond1 && cond2),
            "Conditions should be mutually exclusive for supply={:?}, tvl={:?}",
            supply,
            tvl
        );
        assert_eq!(inconsistent(&supply, &tvl), cond1 || cond2);
    }
}

#[test]
fn inconsistency_carries_both_figures() {
    match validate_and_return_snapshot(amt(1), amt(0)) {
        Err(IcpiError::Validation(ValidationError::DataInconsistency { supply, tvl })) => {
            assert_eq!(supply, amt(1));
            assert_eq!(tvl, amt(0));
        }
        other => panic!("unexpected: {:?}", other),
    }
    let (s, t) = validate_and_return_snapshot(amt(7), amt(9)).unwrap();
    assert_eq!((s, t), (amt(7), amt(9)));
}

fn unreachable(what: &str) -> IcpiError {
    IcpiError::Query(QueryError::CanisterUnreachable {
        canister: what.to_string(),
        reason: "down".to_string(),
    })
}

#[test]
fn snapshot_is_retried_twice() {
    assert!(matches!(
        get_supply_and_tvl_atomic(0, Err(unreachable("supply")), Ok(amt(5))),
        SnapshotDecision::Retry { attempt: 1 }
    ));
    assert!(matches!(
        get_supply_and_tvl_atomic(1, Ok(amt(5)), Err(unreachable("tvl"))),
        SnapshotDecision::Retry { attempt: 2 }
    ));
    // after the third attempt the error stands: that of the supply where both failed
    match get_supply_and_tvl_atomic(2, Err(unreachable("supply")), Err(unreachable("tvl"))) {
        SnapshotDecision::Done(Err(IcpiError::Query(QueryError::CanisterUnreachable {
            canister,
            ..
        }))) => assert_eq!(canister, "supply"),
        other => panic!("unexpected: {:?}", other),
    }
    match get_supply_and_tvl_atomic(2, Ok(amt(5)), Err(unreachable("tvl"))) {
        SnapshotDecision::Done(Err(IcpiError::Query(QueryError::CanisterUnreachable {
            canister,
            ..
        }))) => assert_eq!(canister, "tvl"),
        other => panic!("unexpected: {:?}", other),
    }
}

#[test]
fn snapshot_read_in_full_is_checked_and_not_retried() {
    match get_supply_and_tvl_atomic(0, Ok(amt(1)), Ok(amt(0))) {
        SnapshotDecision::Done(Err(IcpiError::Validation(
            ValidationError::DataInconsistency { .. },
        ))) => {}
        other => panic!("unexpected: {:?}", other),
    }
    match get_supply_and_tvl_atomic(1, Ok(amt(10)), Ok(amt(20))) {
        SnapshotDecision::Done(Ok((s, t))) => assert_eq!((s, t), (amt(10), amt(20))),
        other => panic!("unexpected: {:?}", other),
    }
}

fn holding(symbol: &str, balance: u64, price: Option<u64>) -> Holding {
    Holding {
        symbol: symbol.to_string(),
        balance: amt(balance),
        price_e6: price.ok_or("no price".to_string()),
    }
}

#[test]
fn token_value_is_balance_times_price() {
    // 2.5 tokens at $0.40 are worth $1
    assert_eq!(get_token_usd_value("ALEX", &amt(250_000_000), &Ok(400_000)).unwrap(), 1_000_000);
    // rounded down
    assert_eq!(get_token_usd_value("BOB", &amt(1), &Ok(99_999_999)).unwrap(), 0);
    assert_eq!(get_token_usd_value("BOB", &amt(3), &Ok(99_999_999)).unwrap(), 2);
    assert_eq!(get_token_usd_value("KONG", &amt(0), &Ok(5)).unwrap(), 0);
    assert!(matches!(get_token_usd_value("DOGE", &amt(1), &Ok(5)), Err(IcpiError::Other(_))));
    assert!(matches!(get_token_usd_value("ckUSDT", &amt(1), &Ok(5)), Err(IcpiError::Other(_))));
    assert!(get_token_usd_value("ALEX", &amt(1), &Err("no quote".to_string())).is_err());
    let too_large = Amount::from_u128(1u128 << 64);
    assert!(get_token_usd_value("ALEX", &too_large, &Ok(1)).is_err());
    // the value itself may not fit
    assert!(get_token_usd_value("ALEX", &amt(u64::MAX), &Ok(u64::MAX)).is_err());
    assert_eq!(
        get_token_usd_value("ALEX", &amt(u64::MAX), &Ok(100_000_000)).unwrap(),
        u64::MAX
    );
}

#[test]
fn portfolio_value_sums_reserves_and_priced_tokens() {
    let holdings = vec![
        holding("ckUSDT", 5_000_000, None),
        holding("ALEX", 250_000_000, Some(400_000)),
        holding("KONG", 100_000_000, Some(2_000_000)),
    ];
    assert_eq!(value_of_holding(&holdings[0]).unwrap(), 5_000_000);
    assert_eq!(calculate_portfolio_value_atomic(&holdings).unwrap(), amt(8_000_000));
    assert_eq!(calculate_portfolio_value_atomic(&[]).unwrap(), amt(0));
}

#[test]
fn portfolio_value_fails_on_any_missing_price() {
    let holdings = vec![
        holding("ckUSDT", 5_000_000, None),
        holding("ALEX", 250_000_000, None),
        holding("KONG", 100_000_000, Some(2_000_000)),
    ];
    assert!(matches!(calculate_portfolio_value_atomic(&holdings), Err(IcpiError::Other(_))));
    assert!(calculate_portfolio_value_atomic(&[holding("DOGE", 1, Some(1))]).is_err());
}

#[test]
fn portfolio_value_beyond_a_trillion_dollars_is_refused() {
    let at_limit = vec![holding("ckUSDT", 1_000_000_000_000_000_000, None)];
    assert_eq!(
        calculate_portfolio_value_atomic(&at_limit).unwrap(),
        amt(1_000_000_000_000_000_000)
    );
    let over = vec![
        holding("ckUSDT", 1_000_000_000_000_000_000, None),
        holding("ALEX", 100_000_000, Some(1)),
    ];
    assert!(calculate_portfolio_value_atomic(&over).is_err());
}

#[test]
fn with_nothing_locked_each_basket_token_is_set_against_a_quarter() {
    // $100 in all: ALEX $30, ZERO $25, KONG $25, BOB $15, reserves $5
    let holdings = vec![
        holding("ALEX", 3_000_000_000, Some(1_000_000)),
        holding("ZERO", 2_500_000_000, Some(1_000_000)),
        holding("KONG", 2_500_000_000, Some(1_000_000)),
        holding("BOB", 1_500_000_000, Some(1_000_000)),
        holding("ckUSDT", 5_000_000, None),
    ];
    let state = get_portfolio_state_uncached(&holdings, &[], 77).unwrap();
    assert_eq!(state.total_value_e6, 100_000_000);
    assert_eq!(state.timestamp, 77);
    assert_eq!(state.ckusdt_balance, amt(5_000_000));

    assert_eq!(state.current_positions.len(), 5);
    let alex = &state.current_positions[0];
    assert_eq!(alex.token, TrackedToken::ALEX);
    assert_eq!(alex.balance, amt(3_000_000_000));
    assert_eq!(alex.usd_value_e6, 30_000_000);
    assert_eq!(alex.percentage_bps, 3_000);
    assert_eq!(state.current_positions[4].token, TrackedToken::ckUSDT);
    assert_eq!(state.current_positions[4].percentage_bps, 500);

    assert_eq!(state.target_allocations.len(), 4);
    for (i, token) in TrackedToken::all().iter().enumerate() {
        assert_eq!(state.target_allocations[i].token, *token);
        assert_eq!(state.target_allocations[i].target_percentage_bps, 2_500);
        assert_eq!(state.target_allocations[i].target_usd_value_e6, 25_000_000);
        assert_eq!(state.deviations[i].token, *token);
        assert_eq!(state.deviations[i].target_bps, 2_500);
    }
    let alex = &state.deviations[0];
    assert_eq!(alex.current_bps, 3_000);
    assert_eq!(alex.deviation_bps, -500);
    assert_eq!(alex.usd_difference_e6, -5_000_000);
    assert_eq!(alex.trade_size_e6, 500_000);
    let zero = &state.deviations[1];
    assert_eq!((zero.deviation_bps, zero.usd_difference_e6, zero.trade_size_e6), (0, 0, 0));
    let bob = &state.deviations[3];
    assert_eq!(bob.current_bps, 1_500);
    assert_eq!(bob.deviation_bps, 1_000);
    assert_eq!(bob.usd_difference_e6, 10_000_000);
    assert_eq!(bob.trade_size_e6, 1_000_000);
}

#[test]
fn index_state_of_an_empty_portfolio() {
    let state = get_portfolio_state_uncached(&[], &[], 1).unwrap();
    assert_eq!(state.total_value_e6, 0);
    assert!(state.current_positions.is_empty());
    assert_eq!(state.ckusdt_balance, amt(0));
    assert_eq!(state.deviations.len(), 4);
    for d in state.deviations.iter() {
        assert_eq!((d.current_bps, d.deviation_bps, d.usd_difference_e6, d.trade_size_e6), (0, 2_500, 0, 0));
    }
}

#[test]
fn index_state_fails_where_holdings_cannot_be_valued() {
    let holdings = vec![holding("ALEX", 1, None)];
    assert!(matches!(get_portfolio_state_uncached(&holdings, &[], 1), Err(IcpiError::Other(_))));
}

#[test]
fn index_state_counts_a_missing_token_as_nothing_held() {
    let holdings = vec![holding("ckUSDT", 40_000_003, None)];
    let state = get_portfolio_state_uncached(&holdings, &[], 1).unwrap();
    assert_eq!(state.total_value_e6, 40_000_003);
    let d = &state.deviations[2];
    assert_eq!(d.token, TrackedToken::KONG);
    assert_eq!(d.current_bps, 0);
    // a quarter of the total, rounded down, and a tenth of that, rounded down
    assert_eq!(d.usd_difference_e6, 10_000_000);
    assert_eq!(d.trade_size_e6, 1_000_000);
}

#[test]
fn cached_lock_canisters_hold_texts_and_a_time() {
    let cached = CachedLockCanisters { canisters: vec!["aaaaa-aa".to_string()], timestamp: 9 };
    assert_eq!(cached.canisters.len(), 1);
    assert_eq!(cached.timestamp, 9);
}

#[test]
fn stable_price_is_one_and_other_prices_come_from_the_quote() {
    assert_eq!(
        get_token_price_in_usdt(&TrackedToken::ckUSDT, Err("never asked".to_string())).unwrap(),
        1_000_000
    );
    assert_eq!(get_token_price_in_usdt(&TrackedToken::ALEX, Ok(amt(1_200))).unwrap(), 1_200);
    match get_token_price_in_usdt(&TrackedToken::ALEX, Err("pool not found".to_string())) {
        Err(IcpiError::Other(msg)) => assert_eq!(msg, "pool not found"),
        other => panic!("unexpected: {:?}", other),
    }
    let huge = Amount::from_u128(1u128 << 64);
    assert!(get_token_price_in_usdt(&TrackedToken::BOB, Ok(huge)).is_err());
}

#[test]
fn index_state_for_display_is_the_uncached_state() {
    let holdings = vec![holding("ckUSDT", 40_000_000, None)];
    let state = get_index_state_cached(&holdings, &[], 5).unwrap();
    assert_eq!(state.total_value_e6, 40_000_000);
    assert_eq!(state.deviations[0].usd_difference_e6, 10_000_000);
    assert!(get_index_state_cached(&[holding("ALEX", 1, None)], &[], 5).is_err());
}

fn hundred_dollars() -> Vec<Holding> {
    // $100 in all: ALEX $30, ZERO $25, KONG $25, BOB $15, reserves $5
    vec![
        holding("ALEX", 3_000_000_000, Some(1_000_000)),
        holding("ZERO", 2_500_000_000, Some(1_000_000)),
        holding("KONG", 2_500_000_000, Some(1_000_000)),
        holding("BOB", 1_500_000_000, Some(1_000_000)),
        holding("ckUSDT", 5_000_000, None),
    ]
}

#[test]
fn target_weights_are_the_shares_of_what_is_locked() {
    // everything locked is in the first basket token
    let locked = vec![
        (TrackedToken::ALEX, amt(7_000_000)),
        (TrackedToken::ZERO, amt(0)),
        (TrackedToken::KONG, amt(0)),
        (TrackedToken::BOB, amt(0)),
    ];
    let state = get_portfolio_state_uncached(&hundred_dollars(), &locked, 9).unwrap();
    let weights: Vec<u64> =
        state.target_allocations.iter().map(|t| t.target_percentage_bps).collect();
    assert_eq!(weights, vec![10_000, 0, 0, 0]);
    let values: Vec<u64> = state.target_allocations.iter().map(|t| t.target_usd_value_e6).collect();
    assert_eq!(values, vec![100_000_000, 0, 0, 0]);

    let alex = &state.deviations[0];
    assert_eq!(alex.token, TrackedToken::ALEX);
    assert_eq!((alex.current_bps, alex.target_bps, alex.deviation_bps), (3_000, 10_000, 7_000));
    assert_eq!(alex.usd_difference_e6, 70_000_000);
    assert_eq!(alex.trade_size_e6, 7_000_000);
    let bob = &state.deviations[3];
    assert_eq!((bob.current_bps, bob.target_bps, bob.deviation_bps), (1_500, 0, -1_500));
    assert_eq!(bob.usd_difference_e6, -15_000_000);
    assert_eq!(bob.trade_size_e6, 1_500_000);
}

#[test]
fn target_weights_are_normalized_and_rounded_down() {
    let locked = vec![
        (TrackedToken::ALEX, amt(22_500_000_000)),
        (TrackedToken::ZERO, amt(640_000_000)),
        (TrackedToken::KONG, amt(48_000_000)),
        (TrackedToken::BOB, amt(2_000_000)),
    ];
    let state = get_portfolio_state_uncached(&hundred_dollars(), &locked, 9).unwrap();
    let weights: Vec<u64> =
        state.target_allocations.iter().map(|t| t.target_percentage_bps).collect();
    assert_eq!(weights, vec![9_702, 275, 20, 0]);
    let sum: u64 = weights.iter().sum();
    assert!(9_997 <= sum && sum <= 10_000);
    let values: Vec<u64> = state.target_allocations.iter().map(|t| t.target_usd_value_e6).collect();
    assert_eq!(values, vec![97_024_579, 2_759_810, 206_985, 8_624]);
    for (i, d) in state.deviations.iter().enumerate() {
        let held = state.current_positions[i].usd_value_e6 as i64;
        assert_eq!(d.target_bps, weights[i]);
        assert_eq!(d.deviation_bps, weights[i] as i64 - d.current_bps as i64);
        assert_eq!(d.usd_difference_e6, values[i] as i64 - held);
        assert_eq!(d.trade_size_e6, d.usd_difference_e6.unsigned_abs() / 10);
    }
}

#[test]
fn locked_values_of_one_token_add_up_and_the_stablecoin_does_not_count() {
    let locked = vec![
        (TrackedToken::KONG, amt(1)),
        (TrackedToken::ckUSDT, amt(1_000)),
        (TrackedToken::KONG, amt(2)),
        (TrackedToken::BOB, amt(1)),
    ];
    let state = get_portfolio_state_uncached(&hundred_dollars(), &locked, 9).unwrap();
    let weights: Vec<u64> =
        state.target_allocations.iter().map(|t| t.target_percentage_bps).collect();
    assert_eq!(weights, vec![0, 0, 7_500, 2_500]);
    // only the stablecoin locked: nothing is locked of the basket
    let locked = vec![(TrackedToken::ckUSDT, amt(1_000))];
    let state = get_portfolio_state_uncached(&hundred_dollars(), &locked, 9).unwrap();
    assert!(state.target_allocations.iter().all(|t| t.target_percentage_bps == 2_500));
    assert!(state.target_allocations.iter().all(|t| t.target_usd_value_e6 == 25_000_000));
}
