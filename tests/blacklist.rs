use revora_revenue_share::{Address, Effect, Event, RevoraError, RevoraRevenueShare};

fn setup() -> (RevoraRevenueShare, Address, Address, Address) {
    (RevoraRevenueShare::new(), 100, 200, 300)
}

#[test]
fn it_emits_events_on_register_and_report() {
    let mut l = RevoraRevenueShare::new();
    let issuer: Address = 1;
    let token: Address = 2;
    l.register_offering(issuer, token, 1_000, token).unwrap();
    l.report_revenue(issuer, token, token, 1_000_000, 1, false).unwrap();
    let published = l
        .take_effects()
        .iter()
        .filter(|e| matches!(e, Effect::Publish(_)))
        .count();
    assert!(published >= 2);
}

#[test]
fn add_marks_investor_as_blacklisted() {
    let (mut l, admin, token, investor) = setup();
    assert!(!l.is_blacklisted(token, investor));
    l.blacklist_add(admin, token, investor).unwrap();
    assert!(l.is_blacklisted(token, investor));
}

#[test]
fn remove_unmarks_investor() {
    let (mut l, admin, token, investor) = setup();
    l.blacklist_add(admin, token, investor).unwrap();
    l.blacklist_remove(admin, token, investor).unwrap();
    assert!(!l.is_blacklisted(token, investor));
}

#[test]
fn get_blacklist_returns_all_blocked_investors() {
    let (mut l, admin, token, _) = setup();
    let (inv_a, inv_b, inv_c): (Address, Address, Address) = (11, 12, 13);
    l.blacklist_add(admin, token, inv_a).unwrap();
    l.blacklist_add(admin, token, inv_b).unwrap();
    l.blacklist_add(admin, token, inv_c).unwrap();
    let list = l.get_blacklist(token);
    assert_eq!(list.len(), 3);
    assert!(list.contains(&inv_a));
    assert!(list.contains(&inv_b));
    assert!(list.contains(&inv_c));
}

#[test]
fn get_blacklist_empty_before_any_add() {
    let (l, _, token, _) = setup();
    assert_eq!(l.get_blacklist(token).len(), 0);
}

#[test]
fn double_add_is_idempotent() {
    let (mut l, admin, token, investor) = setup();
    l.blacklist_add(admin, token, investor).unwrap();
    l.blacklist_add(admin, token, investor).unwrap();
    assert_eq!(l.get_blacklist(token).len(), 1);
}

#[test]
fn remove_nonexistent_is_idempotent() {
    let (mut l, admin, token, investor) = setup();
    l.blacklist_remove(admin, token, investor).unwrap();
    assert!(!l.is_blacklisted(token, investor));
}

#[test]
fn blacklist_is_scoped_per_offering() {
    let (mut l, admin, token_a, investor) = setup();
    let token_b: Address = 201;
    l.blacklist_add(admin, token_a, investor).unwrap();
    assert!(l.is_blacklisted(token_a, investor));
    assert!(!l.is_blacklisted(token_b, investor));
}

#[test]
fn removing_from_one_offering_does_not_affect_another() {
    let (mut l, admin, token_a, investor) = setup();
    let token_b: Address = 201;
    l.blacklist_add(admin, token_a, investor).unwrap();
    l.blacklist_add(admin, token_b, investor).unwrap();
    l.blacklist_remove(admin, token_a, investor).unwrap();
    assert!(!l.is_blacklisted(token_a, investor));
    assert!(l.is_blacklisted(token_b, investor));
}

#[test]
fn blacklist_add_emits_event() {
    let (mut l, admin, token, investor) = setup();
    let before = l.take_effects().len();
    l.blacklist_add(admin, token, investor).unwrap();
    let effects = l.take_effects();
    assert!(effects.len() > before);
    assert!(effects.iter().any(|e| matches!(
        e,
        Effect::Publish(Event::BlacklistAdded { token: 200, caller: 100, investor: 300 })
    )));
}

#[test]
fn blacklist_remove_emits_event() {
    let (mut l, admin, token, investor) = setup();
    l.blacklist_add(admin, token, investor).unwrap();
    l.take_effects();
    l.blacklist_remove(admin, token, investor).unwrap();
    let effects = l.take_effects();
    assert!(effects.iter().any(|e| matches!(
        e,
        Effect::Publish(Event::BlacklistRemoved { token: 200, caller: 100, investor: 300 })
    )));
}

#[test]
fn blacklisted_investor_excluded_from_distribution_filter() {
    let (mut l, admin, token, _) = setup();
    let allowed: Address = 21;
    let blocked: Address = 22;
    l.blacklist_add(admin, token, blocked).unwrap();
    let investors = [allowed, blocked];
    let eligible = investors
        .iter()
        .filter(|inv| !l.is_blacklisted(token, **inv))
        .count();
    assert_eq!(eligible, 1);
}

#[test]
fn blacklist_takes_precedence_over_whitelist() {
    let (mut l, admin, token, investor) = setup();
    l.blacklist_add(admin, token, investor).unwrap();
    l.whitelist_add(admin, token, investor).unwrap();
    assert!(l.is_blacklisted(token, investor));
    assert!(!l.is_distribution_eligible(token, investor));
}

#[test]
fn blacklist_blocked_while_frozen_or_paused() {
    let (mut l, admin, token, investor) = setup();
    l.initialize(admin, None);
    l.pause_admin(admin).unwrap();
    assert_eq!(l.blacklist_add(admin, token, investor), Err(RevoraError::ContractPaused));
    l.freeze().unwrap();
    assert_eq!(l.blacklist_add(admin, token, investor), Err(RevoraError::ContractFrozen));
    assert!(!l.is_blacklisted(token, investor));
}
