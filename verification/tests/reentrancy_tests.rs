use icpi_backend::errors::{IcpiError, SystemError};
use icpi_backend::principal::Principal;
use icpi_backend::principal_set::PrincipalSet;
use icpi_backend::reentrancy::{
    end_global_operation, get_current_operation, has_active_operations,
    try_start_global_operation, BurnGuard, Coordinator, GlobalOperation, MintGuard,
};

const SECOND: u64 = 1_000_000_000;

#[test]
fn test_mint_guard_prevents_reentrancy() {
    let mut coordinator = Coordinator::new();
    let user = Principal::anonymous();

    let guard1 = MintGuard::acquire(&mut coordinator, user.clone()).expect("First guard should succeed");

    let result = MintGuard::acquire(&mut coordinator, user.clone());
    assert!(result.is_err());

    guard1.release(&mut coordinator);

    let _guard2 = MintGuard::acquire(&mut coordinator, user).expect("Should succeed after drop");
}

#[test]
fn test_burn_guard_prevents_reentrancy() {
    let mut coordinator = Coordinator::new();
    let user = Principal::anonymous();

    let guard1 = BurnGuard::acquire(&mut coordinator, user.clone()).expect("First guard should succeed");

    let result = BurnGuard::acquire(&mut coordinator, user.clone());
    assert!(result.is_err());

    guard1.release(&mut coordinator);

    let _guard2 = BurnGuard::acquire(&mut coordinator, user).expect("Should succeed after drop");
}

#[test]
fn test_different_users_can_mint_concurrently() {
    let mut coordinator = Coordinator::new();
    let user1 = Principal::from_text("2vxsx-fae").unwrap();
    let user2 = Principal::from_text("aaaaa-aa").unwrap();

    let _guard1 = MintGuard::acquire(&mut coordinator, user1).expect("User 1 should succeed");
    let _guard2 = MintGuard::acquire(&mut coordinator, user2).expect("User 2 should succeed");

    assert!(coordinator.active_mint_count() == 2);
}

#[test]
fn test_idle_to_minting_transition() {
    let mut coordinator = Coordinator::new();

    let result = try_start_global_operation(&mut coordinator, GlobalOperation::Minting, 0);
    assert!(result.is_ok(), "Should allow idle → minting");
    assert_eq!(get_current_operation(&coordinator), GlobalOperation::Minting);
}

#[test]
fn test_idle_to_rebalancing_transition() {
    let mut coordinator = Coordinator::new();

    let result = try_start_global_operation(&mut coordinator, GlobalOperation::Rebalancing, 0);
    assert!(result.is_ok(), "Should allow idle → rebalancing");
    assert_eq!(get_current_operation(&coordinator), GlobalOperation::Rebalancing);
}

#[test]
fn test_minting_blocks_rebalancing() {
    let mut coordinator = Coordinator::new();

    try_start_global_operation(&mut coordinator, GlobalOperation::Minting, 0).unwrap();

    let result = try_start_global_operation(&mut coordinator, GlobalOperation::Rebalancing, 0);
    assert!(result.is_err(), "Minting should block rebalancing");
    assert!(matches!(
        result,
        Err(IcpiError::System(SystemError::CriticalOperationInProgress { .. }))
    ));
}

#[test]
fn test_rebalancing_blocks_minting() {
    let mut coordinator = Coordinator::new();

    try_start_global_operation(&mut coordinator, GlobalOperation::Rebalancing, 0).unwrap();

    let result = try_start_global_operation(&mut coordinator, GlobalOperation::Minting, 0);
    assert!(result.is_err(), "Rebalancing should block minting");
    assert!(matches!(result, Err(IcpiError::System(SystemError::RebalancingInProgress))));
}

#[test]
fn test_minting_and_burning_can_coexist() {
    let mut coordinator = Coordinator::new();

    try_start_global_operation(&mut coordinator, GlobalOperation::Minting, 0).unwrap();

    let result = try_start_global_operation(&mut coordinator, GlobalOperation::Burning, 0);
    assert!(result.is_ok(), "Minting and burning should coexist");

    let current = get_current_operation(&coordinator);
    assert!(current == GlobalOperation::Minting || current == GlobalOperation::Burning);
}

#[test]
fn test_multiple_mints_allowed() {
    let mut coordinator = Coordinator::new();

    try_start_global_operation(&mut coordinator, GlobalOperation::Minting, 0).unwrap();

    let result = try_start_global_operation(&mut coordinator, GlobalOperation::Minting, 0);
    assert!(result.is_ok(), "Multiple concurrent mints should be allowed");
}

#[test]
fn test_end_rebalancing_clears_state() {
    let mut coordinator = Coordinator::new();

    try_start_global_operation(&mut coordinator, GlobalOperation::Rebalancing, 0).unwrap();
    assert_eq!(get_current_operation(&coordinator), GlobalOperation::Rebalancing);

    end_global_operation(&mut coordinator, GlobalOperation::Rebalancing, 5);
    assert_eq!(get_current_operation(&coordinator), GlobalOperation::Idle);
}

#[test]
fn test_cannot_transition_to_idle_via_try_start() {
    let mut coordinator = Coordinator::new();
    try_start_global_operation(&mut coordinator, GlobalOperation::Minting, 0).unwrap();

    let result = try_start_global_operation(&mut coordinator, GlobalOperation::Idle, 0);
    assert!(result.is_err(), "Should not allow transitioning to Idle via try_start");
    assert!(matches!(result, Err(IcpiError::System(SystemError::StateCorrupted { .. }))));
}

#[test]
fn test_has_active_operations() {
    let mut coordinator = Coordinator::new();

    assert!(!has_active_operations(&coordinator));

    try_start_global_operation(&mut coordinator, GlobalOperation::Minting, 0).unwrap();
    assert!(has_active_operations(&coordinator));

    end_global_operation(&mut coordinator, GlobalOperation::Minting, 1);
    assert!(!has_active_operations(&coordinator));
}

#[test]
fn test_global_operation_enum_as_str() {
    assert_eq!(GlobalOperation::Idle.as_str(), "idle");
    assert_eq!(GlobalOperation::Minting.as_str(), "minting");
    assert_eq!(GlobalOperation::Burning.as_str(), "burning");
    assert_eq!(GlobalOperation::Rebalancing.as_str(), "rebalancing");
}

#[test]
fn idle_to_idle_is_a_no_op() {
    let mut coordinator = Coordinator::new();
    assert!(try_start_global_operation(&mut coordinator, GlobalOperation::Idle, 7).is_ok());
    assert_eq!(get_current_operation(&coordinator), GlobalOperation::Idle);
}

#[test]
fn guard_is_returned_when_the_global_state_refuses() {
    let mut coordinator = Coordinator::new();
    let user = Principal::from_text("2vxsx-fae").unwrap();
    coordinator.enter_rebalance(0).unwrap();

    let result = coordinator.enter_mint(user.clone(), 10);
    assert!(matches!(result, Err(IcpiError::System(SystemError::RebalancingInProgress))));
    assert!(!coordinator.is_minting(&user));
    assert_eq!(coordinator.active_mint_count(), 0);

    let result = coordinator.enter_burn(user.clone(), 10);
    assert!(matches!(result, Err(IcpiError::System(SystemError::RebalancingInProgress))));
    assert!(!coordinator.is_burning(&user));
}

#[test]
fn second_entry_of_the_same_user_is_refused() {
    let mut coordinator = Coordinator::new();
    let user = Principal::from_text("2vxsx-fae").unwrap();
    let guard = coordinator.enter_mint(user.clone(), 1).unwrap();

    match coordinator.enter_mint(user.clone(), 2) {
        Err(IcpiError::System(SystemError::OperationInProgress { operation, user: name })) => {
            assert_eq!(operation, "mint");
            assert_eq!(name, "2vxsx-fae");
        }
        other => panic!("unexpected: {:?}", other),
    }
    assert!(coordinator.is_minting(&user));

    coordinator.leave_mint(&guard, 3);
    assert!(!coordinator.is_minting(&user));
    assert_eq!(get_current_operation(&coordinator), GlobalOperation::Idle);
    assert!(!has_active_operations(&coordinator));
}

#[test]
fn mint_blocks_rebalance_and_grace_period_follows_a_switch() {
    let mut coordinator = Coordinator::new();
    let user = Principal::from_text("2vxsx-fae").unwrap();

    // A rebalance ends at second 100; a mint starts one second later.
    coordinator.enter_rebalance(99 * SECOND).unwrap();
    coordinator.leave_rebalance(100 * SECOND);
    let guard = coordinator.enter_mint(user.clone(), 101 * SECOND).unwrap();
    assert_eq!(get_current_operation(&coordinator), GlobalOperation::Minting);

    // Within the grace period a switch of type is refused with the time to wait.
    match coordinator.enter_rebalance(102 * SECOND) {
        Err(IcpiError::System(SystemError::GracePeriodActive { wait_seconds, current_operation })) => {
            assert_eq!(wait_seconds, 58);
            assert!(wait_seconds <= 60);
            assert_eq!(current_operation, "minting");
        }
        other => panic!("unexpected: {:?}", other),
    }

    // After it, the running mint is what stands in the way.
    match coordinator.enter_rebalance(161 * SECOND) {
        Err(IcpiError::System(SystemError::CriticalOperationInProgress { operation })) => {
            assert_eq!(operation, "minting");
        }
        other => panic!("unexpected: {:?}", other),
    }

    // Once the mint has ended the system is idle and a rebalance may start.
    coordinator.leave_mint(&guard, 162 * SECOND);
    assert_eq!(get_current_operation(&coordinator), GlobalOperation::Idle);
    assert!(coordinator.enter_rebalance(162 * SECOND).is_ok());
    assert_eq!(get_current_operation(&coordinator), GlobalOperation::Rebalancing);
}

#[test]
fn mints_and_burns_end_independently() {
    let mut coordinator = Coordinator::new();
    let a = Principal::from_text("2vxsx-fae").unwrap();
    let b = Principal::from_text("aaaaa-aa").unwrap();

    let mint = coordinator.enter_mint(a.clone(), 1).unwrap();
    let burn = coordinator.enter_burn(b.clone(), 2).unwrap();
    assert_eq!(get_current_operation(&coordinator), GlobalOperation::Minting);

    assert_eq!(coordinator.active_burn_count(), 1);
    coordinator.leave_burn(&burn, 3);
    assert_eq!(coordinator.active_burn_count(), 0);
    assert_eq!(get_current_operation(&coordinator), GlobalOperation::Minting);
    assert!(coordinator.is_minting(&a));
    assert!(!coordinator.is_burning(&b));

    coordinator.leave_mint(&mint, 4);
    assert_eq!(get_current_operation(&coordinator), GlobalOperation::Idle);
}

#[test]
fn last_guard_given_back_returns_to_idle_whichever_kind_started() {
    // A mint starts, a burn joins, the mint ends, the burn ends.
    let mut coordinator = Coordinator::new();
    let a = Principal::from_text("2vxsx-fae").unwrap();
    let b = Principal::from_text("aaaaa-aa").unwrap();
    let mint = coordinator.enter_mint(a.clone(), 1).unwrap();
    let burn = coordinator.enter_burn(b.clone(), 2).unwrap();
    assert_eq!(get_current_operation(&coordinator), GlobalOperation::Minting);
    coordinator.leave_mint(&mint, 3);
    assert_eq!(get_current_operation(&coordinator), GlobalOperation::Minting);
    coordinator.leave_burn(&burn, 4);
    assert_eq!(coordinator.active_mint_count() + coordinator.active_burn_count(), 0);
    assert_eq!(get_current_operation(&coordinator), GlobalOperation::Idle);
    assert!(!has_active_operations(&coordinator));

    // A burn starts, a mint joins, the burn ends, the mint ends.
    // More than a minute later a burn starts, a mint joins, the burn ends, the
    // mint ends.
    let burn = coordinator.enter_burn(b, 100 * SECOND).unwrap();
    let mint = coordinator.enter_mint(a, 101 * SECOND).unwrap();
    assert_eq!(get_current_operation(&coordinator), GlobalOperation::Burning);
    coordinator.leave_burn(&burn, 102 * SECOND);
    assert_eq!(get_current_operation(&coordinator), GlobalOperation::Burning);
    coordinator.leave_mint(&mint, 103 * SECOND);
    assert_eq!(get_current_operation(&coordinator), GlobalOperation::Idle);
    assert!(coordinator.enter_rebalance(103 * SECOND).is_ok());
}

#[test]
fn ending_an_operation_that_is_not_running_changes_nothing() {
    let mut coordinator = Coordinator::new();
    try_start_global_operation(&mut coordinator, GlobalOperation::Rebalancing, 1).unwrap();
    end_global_operation(&mut coordinator, GlobalOperation::Minting, 2);
    assert_eq!(get_current_operation(&coordinator), GlobalOperation::Rebalancing);
    end_global_operation(&mut coordinator, GlobalOperation::Idle, 3);
    assert_eq!(get_current_operation(&coordinator), GlobalOperation::Rebalancing);
    end_global_operation(&mut coordinator, GlobalOperation::Rebalancing, 4);
    assert_eq!(get_current_operation(&coordinator), GlobalOperation::Idle);
    try_start_global_operation(&mut coordinator, GlobalOperation::Minting, 5).unwrap();
    end_global_operation(&mut coordinator, GlobalOperation::Rebalancing, 6);
    assert_eq!(get_current_operation(&coordinator), GlobalOperation::Minting);
}

#[test]
fn grace_period_counts_from_the_very_moment_an_operation_ended() {
    let mut coordinator = Coordinator::new();
    let user = Principal::from_text("aaaaa-aa").unwrap();
    coordinator.enter_rebalance(99 * SECOND).unwrap();
    coordinator.leave_rebalance(100 * SECOND);
    let _guard = coordinator.enter_mint(user, 100 * SECOND).unwrap();
    // no time has passed since the rebalance ended: the full minute is to wait
    match coordinator.enter_rebalance(100 * SECOND) {
        Err(IcpiError::System(SystemError::GracePeriodActive { wait_seconds, .. })) => {
            assert_eq!(wait_seconds, 60)
        }
        other => panic!("unexpected: {:?}", other),
    }
    match coordinator.enter_rebalance(160 * SECOND - 1) {
        Err(IcpiError::System(SystemError::GracePeriodActive { wait_seconds, .. })) => {
            assert_eq!(wait_seconds, 0)
        }
        other => panic!("unexpected: {:?}", other),
    }
    assert!(matches!(
        coordinator.enter_rebalance(160 * SECOND),
        Err(IcpiError::System(SystemError::CriticalOperationInProgress { .. }))
    ));
}

#[test]
fn refusals_leave_the_guards_of_others_alone() {
    let mut coordinator = Coordinator::new();
    let a = Principal::from_text("2vxsx-fae").unwrap();
    let b = Principal::from_text("aaaaa-aa").unwrap();
    let _held = coordinator.enter_mint(a.clone(), 1).unwrap();
    assert!(coordinator.enter_mint(a.clone(), 2).is_err());
    assert!(coordinator.is_minting(&a));
    assert_eq!(coordinator.active_mint_count(), 1);
    let other = coordinator.enter_mint(b.clone(), 3).unwrap();
    coordinator.leave_mint(&other, 4);
    assert!(coordinator.is_minting(&a) && !coordinator.is_minting(&b));
    assert_eq!(get_current_operation(&coordinator), GlobalOperation::Minting);
}

#[test]
fn principal_set_holds_each_member_once() {
    let a = Principal::from_slice(&[1]).unwrap();
    let b = Principal::from_slice(&[2]).unwrap();
    let mut set = PrincipalSet::new();
    assert!(set.is_empty());
    set.insert(a.clone());
    set.insert(b.clone());
    assert_eq!(set.count(), 2);
    assert!(set.contains(&a) && set.contains(&b));
    set.remove(&a);
    assert!(!set.contains(&a) && set.contains(&b));
    set.remove(&a);
    assert_eq!(set.count(), 1);
}
