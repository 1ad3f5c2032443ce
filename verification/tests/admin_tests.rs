use icpi_backend::admin::{
    admin_principals, check_admin, check_not_paused, get_admin_log, is_paused, log_admin_action,
    require_admin, set_pause, AdminState,
};
use icpi_backend::errors::IcpiError;
use icpi_backend::principal::Principal;

#[test]
fn test_admin_principals_valid() {
    for principal_text in admin_principals() {
        assert!(
            Principal::from_text(principal_text).is_some(),
            "Invalid principal: {}",
            principal_text
        );
    }
}

#[test]
fn test_pause_state_default() {
    let state = AdminState::new();
    assert!(!is_paused(&state));
}

#[test]
fn test_pause_toggle() {
    let mut state = AdminState::new();
    set_pause(&mut state, true);
    assert!(is_paused(&state));

    set_pause(&mut state, false);
    assert!(!is_paused(&state));
}

#[test]
fn test_check_not_paused() {
    let mut state = AdminState::new();
    set_pause(&mut state, false);
    assert!(check_not_paused(&state).is_ok());

    set_pause(&mut state, true);
    assert!(check_not_paused(&state).is_err());

    set_pause(&mut state, false);
}

#[test]
fn paused_error_names_the_pause() {
    let mut state = AdminState::new();
    set_pause(&mut state, true);
    match check_not_paused(&state) {
        Err(IcpiError::Other(msg)) => assert_eq!(msg, "System is emergency paused"),
        other => panic!("unexpected: {:?}", other),
    }
}

#[test]
fn require_admin_accepts_only_the_allow_list() {
    let backend = Principal::from_text("ev6xm-haaaa-aaaap-qqcza-cai").unwrap();
    assert!(require_admin(&backend).is_ok());
    let deployer = Principal::from_text(
        "67ktx-ln42b-uzmo5-bdiyn-gu62c-cd4h4-a5qt3-2w3rs-cixdl-iaso2-mqe",
    )
    .unwrap();
    assert!(require_admin(&deployer).is_ok());
    assert!(matches!(require_admin(&Principal::anonymous()), Err(IcpiError::Other(_))));
    let stranger = Principal::from_text("aaaaa-aa").unwrap();
    assert!(require_admin(&stranger).is_err());
}

#[test]
fn admin_log_keeps_the_last_thousand() {
    let mut state = AdminState::new();
    let admin = Principal::from_text("ev6xm-haaaa-aaaap-qqcza-cai").unwrap();
    for i in 0..1005u64 {
        log_admin_action(&mut state, i, &admin, format!("ACTION_{}", i));
    }
    let log = get_admin_log(&state);
    assert_eq!(log.len(), 1000);
    assert_eq!(log[0].timestamp, 5);
    assert_eq!(log[0].action, "ACTION_5");
    assert_eq!(log[999].timestamp, 1004);
    assert!(log[999].admin.same(&admin));
    assert!(!is_paused(&state));
}

#[test]
fn only_a_parsed_principal_admits_its_caller() {
    let a = Principal::from_slice(&[1, 2, 3]).unwrap();
    let b = Principal::from_slice(&[4, 5]).unwrap();
    let list = vec![None, Some(a.clone())];
    assert!(check_admin(&list, &a).is_ok());
    match check_admin(&list, &b) {
        Err(IcpiError::Other(msg)) => {
            assert_eq!(msg, "Authorization failed: caller is not an admin principal")
        }
        other => panic!("unexpected: {:?}", other),
    }
    assert!(check_admin(&[], &a).is_err());
    assert!(check_admin(&[None], &a).is_err());
}
