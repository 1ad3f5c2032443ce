use icpi_backend::admin::{set_pause, AdminState};
use icpi_backend::amount::Amount;
use icpi_backend::burn_validator::{
    check_burn_balance, check_burn_supply, check_fee_allowance, validate_burn_limit,
    validate_burn_request,
};
use icpi_backend::burning::{burn_icpi, BurnAction, BurnEvent, BurnFlow};
use icpi_backend::constants::{MINT_FEE_AMOUNT, MIN_BURN_AMOUNT};
use icpi_backend::errors::{BurnError, IcpiError, QueryError, SystemError, ValidationError};
use icpi_backend::ledger::{burn_transfer_args, TransferFromOutcome, TransferOutcome};
use icpi_backend::math::burn_within_cap;
use icpi_backend::principal::Principal;
use icpi_backend::rate_limit::{check_rate_limit, RateLimiter};
use icpi_backend::reentrancy::{get_current_operation, Coordinator, GlobalOperation};

fn amt(v: u64) -> Amount {
    Amount::from_u64(v)
}

fn user() -> Principal {
    Principal::from_text("aaaaa-aa").unwrap()
}

// ----- request validation -----

#[test]
fn test_anonymous_principal_rejected() {
    let mut limiter = RateLimiter::new();
    let result =
        validate_burn_request(&Principal::anonymous(), &amt(MIN_BURN_AMOUNT), &mut limiter, 5);
    assert!(matches!(result, Err(IcpiError::Validation(_))));
}

#[test]
fn min_burn_amount_for_a_named_caller() {
    let mut limiter = RateLimiter::new();
    let principal = Principal::from_text("ev6xm-haaaa-aaaap-qqcza-cai").unwrap();
    let result = validate_burn_request(&principal, &amt(1), &mut limiter, 5);
    assert!(matches!(result, Err(IcpiError::Burn(BurnError::AmountBelowMinimum { .. }))));

    let result = validate_burn_request(&principal, &amt(MIN_BURN_AMOUNT), &mut limiter, 5);
    match result {
        Ok(_) => {}
        Err(IcpiError::Other(msg)) if msg.contains("Rate limit") => {}
        Err(e) => panic!("Expected validation to pass or rate limit error, got: {:?}", e),
    }
}

#[test]
fn test_valid_burn_request_structure() {
    let mut limiter = RateLimiter::new();
    let principal = Principal::from_text("aaaaa-aa").unwrap();
    let amount = amt(1_000_000);

    let result = validate_burn_request(&principal, &amount, &mut limiter, 5);
    match result {
        Ok(_) => {}
        Err(IcpiError::Other(msg)) if msg.contains("Rate limit") => {}
        Err(e) => panic!("Unexpected validation error: {:?}", e),
    }
}

#[test]
fn anonymous_caller_is_refused_before_the_amount_is_looked_at() {
    let mut limiter = RateLimiter::new();
    let principal = Principal::from_text("2vxsx-fae").unwrap();
    let result = validate_burn_request(&principal, &amt(1), &mut limiter, 5);
    assert!(matches!(
        result,
        Err(IcpiError::Validation(ValidationError::InvalidPrincipal { .. }))
    ));
}

#[test]
fn anonymous_text_names_the_caller() {
    let mut limiter = RateLimiter::new();
    match validate_burn_request(&Principal::anonymous(), &amt(MIN_BURN_AMOUNT), &mut limiter, 5) {
        Err(IcpiError::Validation(ValidationError::InvalidPrincipal { principal })) => {
            assert_eq!(principal, "2vxsx-fae")
        }
        other => panic!("unexpected: {:?}", other),
    }
}

#[test]
fn burn_requests_are_rate_limited_per_caller() {
    let mut limiter = RateLimiter::new();
    let second: u64 = 1_000_000_000;
    assert!(validate_burn_request(&user(), &amt(20_000), &mut limiter, 10 * second).is_ok());
    // half a second later the same caller is held back
    match validate_burn_request(&user(), &amt(20_000), &mut limiter, 10 * second + second / 2) {
        Err(IcpiError::Other(msg)) => assert!(msg.contains("Rate limit")),
        other => panic!("unexpected: {:?}", other),
    }
    // another caller is not
    let other = Principal::from_text("ev6xm-haaaa-aaaap-qqcza-cai").unwrap();
    assert!(validate_burn_request(&other, &amt(20_000), &mut limiter, 10 * second + 1).is_ok());
    // a full second after the accepted request the caller may burn again
    assert!(validate_burn_request(&user(), &amt(20_000), &mut limiter, 11 * second).is_ok());
}

#[test]
fn rate_limit_window_edges() {
    let mut limiter = RateLimiter::new();
    assert!(check_rate_limit(&mut limiter, "k", 100, 1_000).is_ok());
    assert!(check_rate_limit(&mut limiter, "k", 100, 1_099).is_err());
    assert!(check_rate_limit(&mut limiter, "k", 100, 1_100).is_ok());
    // the refused attempt did not move the timestamp
    assert!(check_rate_limit(&mut limiter, "k", 100, 1_199).is_err());
    assert!(check_rate_limit(&mut limiter, "other", 100, 1_199).is_ok());
}

// ----- the 10% cap -----

#[test]
fn test_burn_exactly_at_10_percent_limit() {
    let supply = amt(1_000_000_000);
    let amount = amt(100_000_000);

    let result = validate_burn_limit(&amount, &supply);
    assert!(result.is_ok(), "Exactly 10% should be allowed");
}

#[test]
fn test_burn_just_over_10_percent_limit() {
    let supply = amt(1_000_000_000);
    let amount = amt(100_000_001);

    let result = validate_burn_limit(&amount, &supply);
    assert!(
        matches!(result, Err(IcpiError::Burn(BurnError::AmountExceedsMaximum { .. }))),
        "10.0000001% should be rejected with AmountExceedsMaximum"
    );
}

#[test]
fn test_burn_with_very_large_supply() {
    let supply = amt(18_446_744_073_709_551_615);
    let amount = amt(1_844_674_407_370_955_161);

    let result = validate_burn_limit(&amount, &supply);
    assert!(result.is_ok(), "Should handle large values without overflow");
}

#[test]
fn test_burn_edge_case_supply_equals_amount() {
    let supply = amt(500_000);
    let amount = amt(500_000);

    let result = validate_burn_limit(&amount, &supply);
    assert!(
        matches!(result, Err(IcpiError::Burn(BurnError::AmountExceedsMaximum { .. }))),
        "100% burn should be rejected with AmountExceedsMaximum"
    );
}

#[test]
fn test_maximum_allowed_burn_calculation() {
    let supply = amt(1_000_000_000);
    let max_allowed = supply.times(&amt(10)).checked_div(&amt(100)).unwrap();

    assert_eq!(max_allowed, amt(100_000_000), "10% of 1B should be 100M");

    let result = validate_burn_limit(&max_allowed, &supply);
    assert!(result.is_ok(), "Exactly 10% should be allowed");

    let one_over = max_allowed.plus(&amt(1));
    let result = validate_burn_limit(&one_over, &supply);
    assert!(
        matches!(result, Err(IcpiError::Burn(BurnError::AmountExceedsMaximum { .. }))),
        "Even 1 token over 10% should be rejected"
    );
}

#[test]
fn test_integer_arithmetic_precision() {
    let supply = amt(10_000_000);
    let amount_pass = amt(999_000);
    let amount_fail = amt(1_001_000);

    let result = validate_burn_limit(&amount_pass, &supply);
    assert!(result.is_ok(), "9.99% should be allowed");

    let result = validate_burn_limit(&amount_fail, &supply);
    assert!(
        matches!(result, Err(IcpiError::Burn(BurnError::AmountExceedsMaximum { .. }))),
        "10.01% should be rejected"
    );
}

#[test]
fn cap_error_names_the_maximum() {
    match validate_burn_limit(&amt(100_000_001), &amt(1_000_000_009)) {
        Err(IcpiError::Burn(BurnError::AmountExceedsMaximum { amount, maximum, percentage_limit })) => {
            assert_eq!(amount, amt(100_000_001));
            assert_eq!(maximum, amt(100_000_000));
            assert_eq!(percentage_limit, "10%");
        }
        other => panic!("unexpected: {:?}", other),
    }
}

#[test]
fn cap_holds_beyond_128_bits() {
    // 2^130 and a tenth of it, rounded down and rounded up
    let two_130 = Amount::from_u128(1u128 << 127).times(&amt(8));
    let tenth = two_130.checked_div(&amt(10)).unwrap();
    assert!(burn_within_cap(&tenth, &two_130));
    assert!(!burn_within_cap(&tenth.plus(&amt(1)), &two_130));
    assert!(two_130.to_u128().is_none());
}

// ----- the fee allowance -----

#[test]
fn test_fee_approval_amount_calculation() {
    let required_fee = amt(MINT_FEE_AMOUNT);
    assert_eq!(required_fee, amt(100_000), "Fee should be 0.1 ckUSDT");
}

#[test]
fn test_insufficient_approval_detection() {
    let required = amt(MINT_FEE_AMOUNT);
    let approved_insufficient = amt(MINT_FEE_AMOUNT - 1);
    let approved_sufficient = amt(MINT_FEE_AMOUNT);
    let approved_excess = amt(MINT_FEE_AMOUNT * 2);

    assert!(approved_insufficient.lt(&required), "Should detect insufficient approval");
    assert!(!approved_sufficient.lt(&required), "Exact approval should be sufficient");
    assert!(!approved_excess.lt(&required), "Excess approval should be sufficient");

    assert!(check_fee_allowance(Ok(approved_insufficient)).is_err());
    assert!(check_fee_allowance(Ok(approved_sufficient)).is_ok());
    assert!(check_fee_allowance(Ok(approved_excess)).is_ok());
}

#[test]
fn test_approval_comparison_with_zero() {
    let required = amt(MINT_FEE_AMOUNT);
    let approved_zero = amt(0);

    assert!(approved_zero.lt(&required), "Zero approval should be insufficient");
    match check_fee_allowance(Ok(approved_zero)) {
        Err(IcpiError::Burn(BurnError::InsufficientFeeAllowance { required, approved })) => {
            assert_eq!(required, amt(100_000));
            assert_eq!(approved, amt(0));
        }
        other => panic!("unexpected: {:?}", other),
    }
}

#[test]
fn test_approval_comparison_boundary() {
    let required = amt(MINT_FEE_AMOUNT);

    let one_less = amt(MINT_FEE_AMOUNT - 1);
    assert!(one_less.lt(&required));

    let exact = amt(MINT_FEE_AMOUNT);
    assert!(!exact.lt(&required));

    let one_more = amt(MINT_FEE_AMOUNT + 1);
    assert!(!one_more.lt(&required));
}

#[test]
fn failed_allowance_query_is_passed_over() {
    assert!(check_fee_allowance(Err("ledger unreachable".to_string())).is_ok());
}

#[test]
fn supply_and_balance_checks() {
    assert!(matches!(
        check_burn_supply(Ok(amt(0)), &amt(10_000)),
        Err(IcpiError::Burn(BurnError::NoSupply))
    ));
    assert!(matches!(
        check_burn_supply(Err("down".to_string()), &amt(10_000)),
        Err(IcpiError::Query(QueryError::CanisterUnreachable { .. }))
    ));
    assert!(matches!(
        check_burn_supply(Ok(amt(99_999)), &amt(10_000)),
        Err(IcpiError::Burn(BurnError::AmountExceedsMaximum { .. }))
    ));
    assert_eq!(check_burn_supply(Ok(amt(100_000)), &amt(10_000)).unwrap(), amt(100_000));

    match check_burn_balance(Ok(amt(9_999)), &amt(10_000)) {
        Err(IcpiError::Burn(BurnError::InsufficientBalance { required, available })) => {
            assert_eq!(required, amt(10_000));
            assert_eq!(available, amt(9_999));
        }
        other => panic!("unexpected: {:?}", other),
    }
    assert!(check_burn_balance(Ok(amt(10_000)), &amt(10_000)).is_ok());
}

// ----- the pipeline -----

struct World {
    admin: AdminState,
    coordinator: Coordinator,
    limiter: RateLimiter,
}

fn world() -> World {
    World { admin: AdminState::new(), coordinator: Coordinator::new(), limiter: RateLimiter::new() }
}

fn block() -> Amount {
    amt(7)
}

fn start(w: &mut World, amount: u64) -> BurnFlow {
    burn_icpi(&w.admin, &mut w.coordinator, &mut w.limiter, user(), amt(amount), 1_000).unwrap()
}

fn run_to_distribution(w: &mut World, flow: &mut BurnFlow, supply: u64, basket: Vec<(String, Amount)>) {
    assert!(matches!(flow.next_action(), BurnAction::QueryFeeAllowance { .. }));
    flow.advance(&mut w.coordinator, BurnEvent::Allowance(Ok(amt(100_000))), 1_001);
    assert!(matches!(flow.next_action(), BurnAction::QuerySupply));
    flow.advance(&mut w.coordinator, BurnEvent::Supply(Ok(amt(supply))), 1_002);
    assert!(matches!(flow.next_action(), BurnAction::QueryUserBalance { .. }));
    flow.advance(&mut w.coordinator, BurnEvent::UserBalance(Ok(amt(supply))), 1_003);
    match flow.next_action() {
        BurnAction::CollectFee { from, amount } => {
            assert!(from.same(&user()));
            assert_eq!(amount, amt(100_000));
        }
        other => panic!("unexpected: {:?}", other),
    }
    flow.advance(
        &mut w.coordinator,
        BurnEvent::FeeCollected(TransferFromOutcome::Transferred { block: block() }),
        1_004,
    );
    assert!(matches!(flow.next_action(), BurnAction::PullTokens { .. }));
    flow.advance(
        &mut w.coordinator,
        BurnEvent::TokensPulled(TransferFromOutcome::Transferred { block: block() }),
        1_005,
    );
    assert!(matches!(flow.next_action(), BurnAction::QueryBasket));
    flow.advance(&mut w.coordinator, BurnEvent::Basket(Ok(basket)), 1_006);
}

#[test]
fn burn_distributes_proportional_shares() {
    let mut w = world();
    let mut flow = start(&mut w, 50_000_000);
    assert!(w.coordinator.is_burning(&user()));
    assert_eq!(get_current_operation(&w.coordinator), GlobalOperation::Burning);

    let basket = vec![
        ("A".to_string(), amt(1000)),
        ("B".to_string(), amt(0)),
        ("C".to_string(), amt(2000)),
    ];
    // a supply of ten times the burn keeps the burn at the cap
    run_to_distribution(&mut w, &mut flow, 500_000_000, basket);

    match flow.next_action() {
        BurnAction::Transfer { symbol, to, amount } => {
            assert_eq!(symbol, "A");
            assert!(to.same(&user()));
            assert_eq!(amount, amt(100));
        }
        other => panic!("unexpected: {:?}", other),
    }
    flow.advance(
        &mut w.coordinator,
        BurnEvent::Transferred(TransferOutcome::Transferred { block: block() }),
        1_007,
    );
    assert!(!flow.is_finished());
    assert!(w.coordinator.is_burning(&user()));
    match flow.next_action() {
        BurnAction::Transfer { symbol, amount, .. } => {
            assert_eq!(symbol, "C");
            assert_eq!(amount, amt(200));
        }
        other => panic!("unexpected: {:?}", other),
    }
    flow.advance(
        &mut w.coordinator,
        BurnEvent::Transferred(TransferOutcome::Transferred { block: block() }),
        1_008,
    );
    assert!(flow.is_finished());
    assert!(matches!(flow.next_action(), BurnAction::Finish));
    assert!(!w.coordinator.is_burning(&user()));
    assert_eq!(get_current_operation(&w.coordinator), GlobalOperation::Idle);

    let result = flow.into_result().unwrap().unwrap();
    assert_eq!(result.successful_transfers.len(), 2);
    assert_eq!(result.successful_transfers[0], ("A".to_string(), amt(100)));
    assert_eq!(result.successful_transfers[1], ("C".to_string(), amt(200)));
    assert!(result.failed_transfers.is_empty());
    assert_eq!(result.icpi_burned, amt(50_000_000));
    assert_eq!(result.timestamp, 1_008);
}

#[test]
fn failed_transfer_of_one_asset_leaves_the_others() {
    let mut w = world();
    let mut flow = start(&mut w, 10_000_000);
    let basket = vec![
        ("ALEX".to_string(), amt(1000)),
        ("ZERO".to_string(), amt(2000)),
        ("KONG".to_string(), amt(3000)),
    ];
    run_to_distribution(&mut w, &mut flow, 100_000_000, basket);

    flow.advance(
        &mut w.coordinator,
        BurnEvent::Transferred(TransferOutcome::Transferred { block: block() }),
        2_000,
    );
    flow.advance(
        &mut w.coordinator,
        BurnEvent::Transferred(TransferOutcome::Rejected { reason: "ledger stopped".to_string() }),
        2_001,
    );
    assert!(!flow.is_finished());
    flow.advance(
        &mut w.coordinator,
        BurnEvent::Transferred(TransferOutcome::Transferred { block: block() }),
        2_002,
    );
    assert!(flow.is_finished());

    let result = flow.into_result().unwrap().unwrap();
    assert_eq!(result.successful_transfers.len(), 2);
    assert_eq!(result.successful_transfers[0], ("ALEX".to_string(), amt(100)));
    assert_eq!(result.successful_transfers[1], ("KONG".to_string(), amt(300)));
    assert_eq!(result.failed_transfers.len(), 1);
    assert_eq!(
        result.failed_transfers[0],
        ("ZERO".to_string(), amt(200), "ledger stopped".to_string())
    );
    assert_eq!(result.successful_transfers.len() + result.failed_transfers.len(), 3);
}

#[test]
fn burn_refused_while_paused() {
    let mut w = world();
    set_pause(&mut w.admin, true);
    let r = burn_icpi(&w.admin, &mut w.coordinator, &mut w.limiter, user(), amt(50_000), 1);
    assert!(matches!(r, Err(IcpiError::Other(_))));
    assert!(!w.coordinator.is_burning(&user()));
    assert_eq!(get_current_operation(&w.coordinator), GlobalOperation::Idle);
}

#[test]
fn second_burn_of_the_same_caller_is_refused() {
    let mut w = world();
    let _flow = start(&mut w, 50_000);
    let r = burn_icpi(&w.admin, &mut w.coordinator, &mut w.limiter, user(), amt(50_000), 9_000_000_000);
    assert!(matches!(r, Err(IcpiError::System(SystemError::OperationInProgress { .. }))));
    assert!(w.coordinator.is_burning(&user()));
}

#[test]
fn invalid_request_gives_the_guard_back() {
    let mut w = world();
    let r = burn_icpi(&w.admin, &mut w.coordinator, &mut w.limiter, user(), amt(9_999), 1);
    assert!(matches!(r, Err(IcpiError::Burn(BurnError::AmountBelowMinimum { .. }))));
    assert!(!w.coordinator.is_burning(&user()));
    assert_eq!(get_current_operation(&w.coordinator), GlobalOperation::Idle);
}

#[test]
fn every_failure_gives_the_guard_back() {
    // insufficient fee allowance
    let mut w = world();
    let mut flow = start(&mut w, 50_000);
    flow.advance(&mut w.coordinator, BurnEvent::Allowance(Ok(amt(99_999))), 2);
    assert!(flow.is_finished());
    assert!(!w.coordinator.is_burning(&user()));
    assert!(matches!(
        flow.into_result(),
        Some(Err(IcpiError::Burn(BurnError::InsufficientFeeAllowance { .. })))
    ));

    // no supply
    let mut w = world();
    let mut flow = start(&mut w, 50_000);
    flow.advance(&mut w.coordinator, BurnEvent::Allowance(Err("down".to_string())), 2);
    flow.advance(&mut w.coordinator, BurnEvent::Supply(Ok(amt(0))), 3);
    assert!(!w.coordinator.is_burning(&user()));
    assert!(matches!(flow.into_result(), Some(Err(IcpiError::Burn(BurnError::NoSupply)))));

    // over the cap
    let mut w = world();
    let mut flow = start(&mut w, 100_000_001);
    flow.advance(&mut w.coordinator, BurnEvent::Allowance(Ok(amt(100_000))), 2);
    flow.advance(&mut w.coordinator, BurnEvent::Supply(Ok(amt(1_000_000_000))), 3);
    assert!(!w.coordinator.is_burning(&user()));
    assert!(matches!(
        flow.into_result(),
        Some(Err(IcpiError::Burn(BurnError::AmountExceedsMaximum { .. })))
    ));

    // too small an approval of the index tokens
    let mut w = world();
    let mut flow = start(&mut w, 50_000);
    flow.advance(&mut w.coordinator, BurnEvent::Allowance(Ok(amt(100_000))), 2);
    flow.advance(&mut w.coordinator, BurnEvent::Supply(Ok(amt(1_000_000))), 3);
    flow.advance(&mut w.coordinator, BurnEvent::UserBalance(Ok(amt(50_000))), 4);
    flow.advance(
        &mut w.coordinator,
        BurnEvent::FeeCollected(TransferFromOutcome::Transferred { block: block() }),
        5,
    );
    flow.advance(
        &mut w.coordinator,
        BurnEvent::TokensPulled(TransferFromOutcome::InsufficientAllowance { allowance: amt(10) }),
        6,
    );
    assert!(!w.coordinator.is_burning(&user()));
    match flow.into_result() {
        Some(Err(IcpiError::Burn(BurnError::InsufficientApproval { required, approved }))) => {
            assert_eq!(required, amt(50_000));
            assert_eq!(approved, amt(10));
        }
        other => panic!("unexpected: {:?}", other),
    }

    // another transfer error
    let mut w = world();
    let mut flow = start(&mut w, 50_000);
    flow.advance(&mut w.coordinator, BurnEvent::Allowance(Ok(amt(100_000))), 2);
    flow.advance(&mut w.coordinator, BurnEvent::Supply(Ok(amt(1_000_000))), 3);
    flow.advance(&mut w.coordinator, BurnEvent::UserBalance(Ok(amt(50_000))), 4);
    flow.advance(
        &mut w.coordinator,
        BurnEvent::FeeCollected(TransferFromOutcome::Transferred { block: block() }),
        5,
    );
    flow.advance(
        &mut w.coordinator,
        BurnEvent::TokensPulled(TransferFromOutcome::CallFailed { reason: "timeout".to_string() }),
        6,
    );
    match flow.into_result() {
        Some(Err(IcpiError::Burn(BurnError::TokenTransferFailed { token, amount, reason }))) => {
            assert_eq!(token, "ICPI");
            assert_eq!(amount, amt(50_000));
            assert_eq!(reason, "timeout");
        }
        other => panic!("unexpected: {:?}", other),
    }

    // nothing to redeem
    let mut w = world();
    let mut flow = start(&mut w, 50_000);
    run_to_distribution(&mut w, &mut flow, 1_000_000, vec![("ALEX".to_string(), amt(0))]);
    assert!(flow.is_finished());
    assert!(!w.coordinator.is_burning(&user()));
    assert!(matches!(
        flow.into_result(),
        Some(Err(IcpiError::Burn(BurnError::NoRedemptionsPossible { .. })))
    ));
}

#[test]
fn unexpected_reply_ends_the_burn() {
    let mut w = world();
    let mut flow = start(&mut w, 50_000);
    flow.advance(&mut w.coordinator, BurnEvent::Supply(Ok(amt(1_000_000))), 2);
    assert!(flow.is_finished());
    assert!(!w.coordinator.is_burning(&user()));
    assert!(matches!(
        flow.into_result(),
        Some(Err(IcpiError::System(SystemError::StateCorrupted { .. })))
    ));
}

#[test]
fn unfinished_burn_has_no_result() {
    let mut w = world();
    let flow = start(&mut w, 50_000);
    assert!(flow.into_result().is_none());
}

#[test]
fn burn_transfer_goes_to_the_system() {
    let system = Principal::from_text("ev6xm-haaaa-aaaap-qqcza-cai").unwrap();
    let args = burn_transfer_args(&user(), &system, &amt(77), 123);
    assert!(args.from.same(&user()));
    assert!(args.to.same(&system));
    assert_eq!(args.amount, amt(77));
    assert_eq!(args.memo, "ICPI burn");
    assert_eq!(args.created_at_time, 123);
}

#[test]
fn paused_burn_names_the_pause_before_anything_is_validated() {
    let mut w = world();
    set_pause(&mut w.admin, true);
    let r = burn_icpi(&w.admin, &mut w.coordinator, &mut w.limiter, Principal::anonymous(), amt(1), 1);
    match r {
        Err(IcpiError::Other(msg)) => assert_eq!(msg, "System is emergency paused"),
        other => panic!("unexpected: {:?}", other.map(|_| ())),
    }
    assert_eq!(w.coordinator.active_burn_count(), 0);
}

#[test]
fn second_burn_names_the_operation_and_the_caller() {
    let mut w = world();
    let _flow = start(&mut w, 50_000);
    match burn_icpi(&w.admin, &mut w.coordinator, &mut w.limiter, user(), amt(50_000), 9_000_000_000) {
        Err(IcpiError::System(SystemError::OperationInProgress { operation, user: name })) => {
            assert_eq!(operation, "burn");
            assert_eq!(name, "aaaaa-aa");
        }
        other => panic!("unexpected: {:?}", other.map(|_| ())),
    }
}

#[test]
fn burn_refusals_and_finishes_leave_the_guards_of_others() {
    let mut w = world();
    let other = Principal::from_text("ev6xm-haaaa-aaaap-qqcza-cai").unwrap();
    let mut others_flow =
        burn_icpi(&w.admin, &mut w.coordinator, &mut w.limiter, other.clone(), amt(50_000), 1_000).unwrap();
    // a refused burn of the caller
    assert!(burn_icpi(&w.admin, &mut w.coordinator, &mut w.limiter, user(), amt(1), 1_001).is_err());
    assert!(w.coordinator.is_burning(&other));
    assert_eq!(w.coordinator.active_burn_count(), 1);
    assert_eq!(get_current_operation(&w.coordinator), GlobalOperation::Burning);
    // a burn of the caller that fails in flight
    let mut flow = start(&mut w, 50_000);
    flow.advance(&mut w.coordinator, BurnEvent::Allowance(Ok(amt(0))), 1_002);
    assert!(flow.is_finished());
    assert!(w.coordinator.is_burning(&other) && !w.coordinator.is_burning(&user()));
    assert_eq!(get_current_operation(&w.coordinator), GlobalOperation::Burning);
    others_flow.advance(&mut w.coordinator, BurnEvent::Allowance(Ok(amt(0))), 1_003);
    assert_eq!(get_current_operation(&w.coordinator), GlobalOperation::Idle);
}
