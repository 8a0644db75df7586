use revora_revenue_share::{Address, Effect, RevoraError, RevoraRevenueShare, RoundingMode};

fn init_admin_safety(l: &mut RevoraRevenueShare) -> (Address, Address) {
    let admin: Address = 1_001;
    let safety: Address = 1_002;
    l.initialize(admin, Some(safety));
    (admin, safety)
}

fn setup_offering(l: &mut RevoraRevenueShare) -> (Address, Address) {
    let issuer: Address = 2_001;
    let token: Address = 2_002;
    l.register_offering(issuer, token, 1_000, token).unwrap();
    (issuer, token)
}

#[test]
fn pause_admin_unauthorized() {
    let mut l = RevoraRevenueShare::new();
    let (admin, _safety) = init_admin_safety(&mut l);
    let attacker: Address = 666;
    assert!(l.pause_admin(attacker).is_err());
    assert!(!l.is_paused());
    l.pause_admin(admin).unwrap();
    assert!(l.is_paused());
}

#[test]
fn unpause_admin_unauthorized() {
    let mut l = RevoraRevenueShare::new();
    let (admin, _safety) = init_admin_safety(&mut l);
    l.pause_admin(admin).unwrap();
    let attacker: Address = 666;
    assert!(l.unpause_admin(attacker).is_err());
    assert!(l.is_paused());
    l.unpause_admin(admin).unwrap();
    assert!(!l.is_paused());
}

#[test]
fn pause_safety_unauthorized() {
    let mut l = RevoraRevenueShare::new();
    let (_admin, safety) = init_admin_safety(&mut l);
    let attacker: Address = 666;
    assert!(l.pause_safety(attacker).is_err());
    assert!(!l.is_paused());
    l.pause_safety(safety).unwrap();
    assert!(l.is_paused());
}

#[test]
fn unpause_safety_unauthorized() {
    let mut l = RevoraRevenueShare::new();
    let (_admin, safety) = init_admin_safety(&mut l);
    l.pause_safety(safety).unwrap();
    let attacker: Address = 666;
    assert!(l.unpause_safety(attacker).is_err());
    assert!(l.is_paused());
    l.unpause_safety(safety).unwrap();
    assert!(!l.is_paused());
}

#[test]
fn pause_without_roles_fails() {
    let mut l = RevoraRevenueShare::new();
    assert_eq!(l.pause_admin(1), Err(RevoraError::LimitReached));
    assert_eq!(l.pause_safety(1), Err(RevoraError::LimitReached));
    l.initialize(5, None);
    assert_eq!(l.pause_safety(5), Err(RevoraError::LimitReached));
    assert_eq!(l.pause_admin(6), Err(RevoraError::Unauthorized));
}

#[test]
fn set_admin_success() {
    let mut l = RevoraRevenueShare::new();
    let admin: Address = 9;
    l.set_admin(admin).unwrap();
    assert_eq!(l.get_admin(), Some(admin));
    assert_eq!(l.set_admin(10), Err(RevoraError::LimitReached));
    assert_eq!(l.get_admin(), Some(admin));
}

#[test]
fn freeze_is_permanent_and_blocks_mutations() {
    let mut l = RevoraRevenueShare::new();
    assert_eq!(l.freeze(), Err(RevoraError::LimitReached));
    let (admin, _) = init_admin_safety(&mut l);
    let (issuer, token) = setup_offering(&mut l);
    l.freeze().unwrap();
    assert!(l.is_frozen());
    assert_eq!(l.register_offering(issuer, 7, 100, 7), Err(RevoraError::ContractFrozen));
    assert_eq!(
        l.deposit_revenue(issuer, token, token, 10, 1),
        Err(RevoraError::ContractFrozen)
    );
    assert_eq!(l.propose_issuer_transfer(token, 3), Err(RevoraError::ContractFrozen));
    l.unpause_admin(admin).unwrap();
    assert!(l.is_frozen());
}

#[test]
fn paused_blocks_mutations_until_unpaused() {
    let mut l = RevoraRevenueShare::new();
    let (admin, safety) = init_admin_safety(&mut l);
    let (issuer, token) = setup_offering(&mut l);
    l.pause_safety(safety).unwrap();
    assert_eq!(
        l.set_holder_share(issuer, token, 5, 10),
        Err(RevoraError::ContractPaused)
    );
    l.unpause_admin(admin).unwrap();
    assert_eq!(l.set_holder_share(issuer, token, 5, 10), Ok(()));
}

#[test]
fn testnet_mode_relaxes_bps_validation() {
    let mut l = RevoraRevenueShare::new();
    assert_eq!(l.set_testnet_mode(true), Err(RevoraError::LimitReached));
    let (admin, _) = init_admin_safety(&mut l);
    assert_eq!(
        l.register_offering(1, 2, 10_001, 3),
        Err(RevoraError::InvalidRevenueShareBps)
    );
    l.take_effects();
    l.set_testnet_mode(true).unwrap();
    assert!(l.is_testnet_mode());
    assert!(matches!(l.take_effects()[0], Effect::RequireAuth(a) if a == admin));
    assert_eq!(l.register_offering(1, 2, 10_001, 3), Ok(()));
    assert_eq!(l.get_offering(1, 2).unwrap().revenue_share_bps, 10_001);
}

#[test]
fn register_offering_requires_issuer_auth() {
    let mut l = RevoraRevenueShare::new();
    l.register_offering(7, 8, 1_000, 9).unwrap();
    let effects = l.take_effects();
    assert!(matches!(effects[0], Effect::RequireAuth(7)));
    assert_eq!(l.get_offering_count(7), 1);
    assert_eq!(l.get_current_issuer(8), Some(7));
}

#[test]
fn report_revenue_wrong_issuer_no_mutation() {
    let mut l = RevoraRevenueShare::new();
    let (issuer, token) = setup_offering(&mut l);
    let attacker: Address = 666;
    assert!(l.report_revenue(attacker, token, token, 100, 1, false).is_err());
    assert!(l.get_audit_summary(issuer, token).is_none());
}

#[test]
fn deposit_revenue_wrong_issuer_no_mutation() {
    let mut l = RevoraRevenueShare::new();
    let (_issuer, token) = setup_offering(&mut l);
    let attacker: Address = 666;
    let payment_token: Address = 667;
    assert!(l.deposit_revenue(attacker, token, payment_token, 100, 1).is_err());
    assert_eq!(l.get_period_count(token), 0);
}

#[test]
fn set_holder_share_wrong_issuer_no_mutation() {
    let mut l = RevoraRevenueShare::new();
    let (_issuer, token) = setup_offering(&mut l);
    let attacker: Address = 666;
    let holder: Address = 667;
    assert!(l.set_holder_share(attacker, token, holder, 100).is_err());
    assert_eq!(l.get_holder_share(token, holder), 0);
}

#[test]
fn set_concentration_limit_wrong_issuer_no_mutation() {
    let mut l = RevoraRevenueShare::new();
    let (issuer, token) = setup_offering(&mut l);
    let attacker: Address = 666;
    assert!(l.set_concentration_limit(attacker, token, 1_000, true).is_err());
    assert!(l.get_concentration_limit(issuer, token).is_none());
}

#[test]
fn set_rounding_mode_wrong_issuer_no_mutation() {
    let mut l = RevoraRevenueShare::new();
    let (issuer, token) = setup_offering(&mut l);
    let attacker: Address = 666;
    assert!(l.set_rounding_mode(attacker, token, RoundingMode::RoundHalfUp).is_err());
    assert_eq!(l.get_rounding_mode(issuer, token), RoundingMode::Truncation);
}

#[test]
fn set_min_revenue_threshold_wrong_issuer_no_mutation() {
    let mut l = RevoraRevenueShare::new();
    let (issuer, token) = setup_offering(&mut l);
    let attacker: Address = 666;
    assert!(l.set_min_revenue_threshold(attacker, token, 123).is_err());
    assert_eq!(l.get_min_revenue_threshold(issuer, token), 0);
}

#[test]
fn set_claim_delay_wrong_issuer_no_mutation() {
    let mut l = RevoraRevenueShare::new();
    let (_issuer, token) = setup_offering(&mut l);
    let attacker: Address = 666;
    assert!(l.set_claim_delay(attacker, token, 100).is_err());
    assert_eq!(l.get_claim_delay(token), 0);
}

#[test]
fn cross_offering_confusion_wrong_issuer_no_mutation() {
    let mut l = RevoraRevenueShare::new();
    let (issuer_a, issuer_b): (Address, Address) = (11, 12);
    let (token_a, token_b): (Address, Address) = (21, 22);
    let holder: Address = 31;
    l.register_offering(issuer_a, token_a, 1_000, token_a).unwrap();
    l.register_offering(issuer_b, token_b, 1_000, token_b).unwrap();
    assert!(l.set_holder_share(issuer_b, token_a, holder, 1_000).is_err());
    assert_eq!(l.get_holder_share(token_a, holder), 0);
}

#[test]
fn guardrail_setters_error_codes() {
    let mut l = RevoraRevenueShare::new();
    let (issuer, token) = setup_offering(&mut l);
    assert_eq!(
        l.set_concentration_limit(9, token, 10, true),
        Err(RevoraError::LimitReached)
    );
    assert_eq!(
        l.set_rounding_mode(9, token, RoundingMode::RoundHalfUp),
        Err(RevoraError::LimitReached)
    );
    assert_eq!(l.set_claim_delay(9, token, 5), Err(RevoraError::OfferingNotFound));
    assert_eq!(l.report_concentration(9, token, 5), Err(RevoraError::OfferingNotFound));
    assert_eq!(
        l.set_holder_share(issuer, token, 9, 10_001),
        Err(RevoraError::InvalidShareBps)
    );
}
