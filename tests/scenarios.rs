use revora_revenue_share::{
    Address, Effect, Event, RevoraError, RevoraRevenueShare, RoundingMode,
};

const ISSUER: Address = 1;
const TOKEN: Address = 2;
const PAYOUT: Address = 3;
const HOLDER: Address = 4;
const NEW_ISSUER: Address = 5;

fn offering_with_deposit(delay: Option<u64>) -> RevoraRevenueShare {
    let mut l = RevoraRevenueShare::new();
    l.set_ledger_timestamp(1_000);
    l.register_offering(ISSUER, TOKEN, 5_000, PAYOUT).unwrap();
    if let Some(d) = delay {
        l.set_claim_delay(ISSUER, TOKEN, d).unwrap();
    }
    l.deposit_revenue(ISSUER, TOKEN, PAYOUT, 100, 1).unwrap();
    l.set_holder_share(ISSUER, TOKEN, HOLDER, 5_000).unwrap();
    l
}

#[test]
fn scenario_register_deposit_claim() {
    let mut l = offering_with_deposit(None);
    l.take_effects();
    assert_eq!(l.claim(HOLDER, TOKEN, 0), Ok(50));
    assert_eq!(l.get_claim_cursor(TOKEN, HOLDER), 1);
    let effects = l.take_effects();
    assert_eq!(effects.len(), 3);
    assert!(matches!(effects[0], Effect::RequireAuth(HOLDER)));
    assert!(matches!(effects[1], Effect::PayOut { asset: PAYOUT, to: HOLDER, amount: 50 }));
    match &effects[2] {
        Effect::Publish(Event::Claimed { holder, token, total_payout, periods }) => {
            assert_eq!((*holder, *token, *total_payout), (HOLDER, TOKEN, 50));
            assert_eq!(periods, &vec![1u64]);
        }
        other => panic!("unexpected effect {:?}", other),
    }
}

#[test]
fn scenario_claim_delay() {
    let mut l = offering_with_deposit(Some(3_600));
    assert_eq!(l.claim(HOLDER, TOKEN, 0), Err(RevoraError::ClaimDelayNotElapsed));
    assert_eq!(l.get_claim_cursor(TOKEN, HOLDER), 0);
    l.set_ledger_timestamp(1_000 + 3_599);
    assert_eq!(l.claim(HOLDER, TOKEN, 0), Err(RevoraError::ClaimDelayNotElapsed));
    l.set_ledger_timestamp(1_000 + 3_600);
    assert_eq!(l.claim(HOLDER, TOKEN, 0), Ok(50));
    assert_eq!(l.get_claim_cursor(TOKEN, HOLDER), 1);
}

#[test]
fn scenario_duplicate_deposit() {
    let mut l = offering_with_deposit(None);
    assert_eq!(
        l.deposit_revenue(ISSUER, TOKEN, PAYOUT, 100, 1),
        Err(RevoraError::PeriodAlreadyDeposited)
    );
    assert_eq!(
        l.deposit_revenue(ISSUER, TOKEN, PAYOUT, 999, 1),
        Err(RevoraError::PeriodAlreadyDeposited)
    );
    assert_eq!(l.get_period_count(TOKEN), 1);
    assert_eq!(l.get_period_revenue(TOKEN, 1), Some(100));
}

#[test]
fn scenario_issuer_transfer_reauthorizes() {
    let mut l = offering_with_deposit(None);
    l.propose_issuer_transfer(TOKEN, NEW_ISSUER).unwrap();
    l.accept_issuer_transfer(TOKEN).unwrap();
    assert_eq!(
        l.set_holder_share(ISSUER, TOKEN, HOLDER, 100),
        Err(RevoraError::OfferingNotFound)
    );
    assert_eq!(l.get_holder_share(TOKEN, HOLDER), 5_000);
    assert_eq!(l.set_holder_share(NEW_ISSUER, TOKEN, HOLDER, 100), Ok(()));
    assert_eq!(l.get_holder_share(TOKEN, HOLDER), 100);
}

#[test]
fn transfer_moves_offering_exactly_once() {
    let mut l = RevoraRevenueShare::new();
    l.register_offering(ISSUER, 10, 1_000, PAYOUT).unwrap();
    l.register_offering(ISSUER, TOKEN, 2_000, PAYOUT).unwrap();
    l.register_offering(ISSUER, 11, 3_000, PAYOUT).unwrap();
    l.propose_issuer_transfer(TOKEN, NEW_ISSUER).unwrap();
    assert_eq!(l.get_pending_issuer_transfer(TOKEN), Some(NEW_ISSUER));
    assert_eq!(
        l.propose_issuer_transfer(TOKEN, 77),
        Err(RevoraError::IssuerTransferPending)
    );
    l.accept_issuer_transfer(TOKEN).unwrap();
    assert_eq!(l.get_current_issuer(TOKEN), Some(NEW_ISSUER));
    assert_eq!(l.get_pending_issuer_transfer(TOKEN), None);
    // the last offering fills the removed slot
    assert_eq!(l.list_offerings(ISSUER), vec![10, 11]);
    assert_eq!(l.list_offerings(NEW_ISSUER), vec![TOKEN]);
    let moved = l.get_offering(NEW_ISSUER, TOKEN).unwrap();
    assert_eq!(moved.issuer, NEW_ISSUER);
    assert_eq!(moved.revenue_share_bps, 2_000);
    assert_eq!(l.get_offering(ISSUER, TOKEN), None);
    assert_eq!(l.accept_issuer_transfer(TOKEN), Err(RevoraError::NoTransferPending));
}

#[test]
fn cancel_keeps_issuer() {
    let mut l = RevoraRevenueShare::new();
    l.register_offering(ISSUER, TOKEN, 1_000, PAYOUT).unwrap();
    assert_eq!(l.cancel_issuer_transfer(TOKEN), Err(RevoraError::NoTransferPending));
    l.propose_issuer_transfer(TOKEN, NEW_ISSUER).unwrap();
    l.cancel_issuer_transfer(TOKEN).unwrap();
    assert_eq!(l.get_current_issuer(TOKEN), Some(ISSUER));
    assert_eq!(l.get_pending_issuer_transfer(TOKEN), None);
    assert_eq!(l.propose_issuer_transfer(99, NEW_ISSUER), Err(RevoraError::OfferingNotFound));
}

#[test]
fn repeated_claims_reach_no_pending() {
    let mut l = RevoraRevenueShare::new();
    l.register_offering(ISSUER, TOKEN, 10_000, PAYOUT).unwrap();
    for p in 0..5u64 {
        l.deposit_revenue(ISSUER, TOKEN, PAYOUT, 1_000, p).unwrap();
    }
    l.set_holder_share(ISSUER, TOKEN, HOLDER, 2_500).unwrap();
    let mut last = l.get_claim_cursor(TOKEN, HOLDER);
    assert_eq!(l.claim(HOLDER, TOKEN, 2), Ok(500));
    assert!(l.get_claim_cursor(TOKEN, HOLDER) > last);
    last = l.get_claim_cursor(TOKEN, HOLDER);
    assert_eq!(l.get_pending_periods(TOKEN, HOLDER), vec![2, 3, 4]);
    assert_eq!(l.claim(HOLDER, TOKEN, 2), Ok(500));
    assert!(l.get_claim_cursor(TOKEN, HOLDER) > last);
    assert_eq!(l.claim(HOLDER, TOKEN, 2), Ok(250));
    assert_eq!(l.get_claim_cursor(TOKEN, HOLDER), 5);
    assert_eq!(l.claim(HOLDER, TOKEN, 2), Err(RevoraError::NoPendingClaims));
    assert_eq!(l.get_claim_cursor(TOKEN, HOLDER), 5);
    assert!(l.get_pending_periods(TOKEN, HOLDER).is_empty());
}

#[test]
fn claim_batch_is_capped() {
    let mut l = RevoraRevenueShare::new();
    l.register_offering(ISSUER, TOKEN, 10_000, PAYOUT).unwrap();
    for p in 0..60u64 {
        l.deposit_revenue(ISSUER, TOKEN, PAYOUT, 10, p).unwrap();
    }
    l.set_holder_share(ISSUER, TOKEN, HOLDER, 10_000).unwrap();
    assert_eq!(l.claim(HOLDER, TOKEN, 0), Ok(500));
    assert_eq!(l.get_claim_cursor(TOKEN, HOLDER), 50);
    assert_eq!(l.claim(HOLDER, TOKEN, 1_000), Ok(100));
    assert_eq!(l.get_claim_cursor(TOKEN, HOLDER), 60);
}

#[test]
fn claim_stops_at_unready_period() {
    let mut l = RevoraRevenueShare::new();
    l.register_offering(ISSUER, TOKEN, 10_000, PAYOUT).unwrap();
    l.set_ledger_timestamp(100);
    l.deposit_revenue(ISSUER, TOKEN, PAYOUT, 1_000, 1).unwrap();
    l.set_ledger_timestamp(5_000);
    l.deposit_revenue(ISSUER, TOKEN, PAYOUT, 1_000, 2).unwrap();
    l.set_ledger_timestamp(50);
    l.deposit_revenue(ISSUER, TOKEN, PAYOUT, 1_000, 3).unwrap();
    l.set_holder_share(ISSUER, TOKEN, HOLDER, 10_000).unwrap();
    l.set_claim_delay(ISSUER, TOKEN, 1_000).unwrap();
    l.set_ledger_timestamp(2_000);
    // period 1 ready, period 2 not, period 3 ready: only period 1 is paid
    assert_eq!(l.claim(HOLDER, TOKEN, 0), Ok(1_000));
    assert_eq!(l.get_claim_cursor(TOKEN, HOLDER), 1);
    // period 3 must not jump the queue
    assert_eq!(l.claim(HOLDER, TOKEN, 0), Err(RevoraError::ClaimDelayNotElapsed));
    assert_eq!(l.get_claim_cursor(TOKEN, HOLDER), 1);
    // the preview counts every ready period
    assert_eq!(l.get_claimable(TOKEN, HOLDER), 1_000);
    l.set_ledger_timestamp(6_000);
    assert_eq!(l.get_claimable(TOKEN, HOLDER), 2_000);
    assert_eq!(l.claim(HOLDER, TOKEN, 0), Ok(2_000));
}

#[test]
fn blacklisted_holder_cannot_claim_even_if_whitelisted() {
    let mut l = offering_with_deposit(None);
    l.whitelist_add(ISSUER, TOKEN, HOLDER).unwrap();
    l.blacklist_add(ISSUER, TOKEN, HOLDER).unwrap();
    assert!(l.is_blacklisted(TOKEN, HOLDER));
    assert!(l.is_whitelisted(TOKEN, HOLDER));
    assert!(!l.is_distribution_eligible(TOKEN, HOLDER));
    assert_eq!(l.claim(HOLDER, TOKEN, 0), Err(RevoraError::HolderBlacklisted));
    assert_eq!(
        l.calculate_distribution(ISSUER, ISSUER, TOKEN, 1_000, 100, 10, HOLDER),
        Err(RevoraError::HolderBlacklisted)
    );
}

#[test]
fn whitelist_limits_eligibility() {
    let mut l = RevoraRevenueShare::new();
    assert!(!l.is_whitelist_enabled(TOKEN));
    assert!(l.is_distribution_eligible(TOKEN, HOLDER));
    l.whitelist_add(ISSUER, TOKEN, 8).unwrap();
    assert!(l.is_whitelist_enabled(TOKEN));
    assert!(!l.is_distribution_eligible(TOKEN, HOLDER));
    assert!(l.is_distribution_eligible(TOKEN, 8));
    l.whitelist_remove(ISSUER, TOKEN, 8).unwrap();
    assert!(!l.is_whitelist_enabled(TOKEN));
}

#[test]
fn claim_uses_offering_rounding_mode() {
    let mut l = RevoraRevenueShare::new();
    l.register_offering(ISSUER, TOKEN, 10_000, PAYOUT).unwrap();
    l.set_rounding_mode(ISSUER, TOKEN, RoundingMode::RoundHalfUp).unwrap();
    l.deposit_revenue(ISSUER, TOKEN, PAYOUT, 3, 1).unwrap();
    l.set_holder_share(ISSUER, TOKEN, HOLDER, 5_000).unwrap();
    assert_eq!(l.get_claimable(TOKEN, HOLDER), 2);
    assert_eq!(l.claim(HOLDER, TOKEN, 0), Ok(2));
}

#[test]
fn zero_payout_claim_moves_no_funds() {
    let mut l = RevoraRevenueShare::new();
    l.register_offering(ISSUER, TOKEN, 10_000, PAYOUT).unwrap();
    l.deposit_revenue(ISSUER, TOKEN, PAYOUT, 1, 1).unwrap();
    l.set_holder_share(ISSUER, TOKEN, HOLDER, 1).unwrap();
    l.take_effects();
    assert_eq!(l.claim(HOLDER, TOKEN, 0), Ok(0));
    let effects = l.take_effects();
    assert_eq!(effects.len(), 2);
    assert!(!effects.iter().any(|e| matches!(e, Effect::PayOut { .. })));
}

#[test]
fn claim_without_share_fails() {
    let mut l = offering_with_deposit(None);
    assert_eq!(l.claim(77, TOKEN, 0), Err(RevoraError::NoPendingClaims));
}

#[test]
fn claim_missing_auth_no_mutation() {
    let mut l = RevoraRevenueShare::new();
    let holder: Address = 40;
    let token: Address = 41;
    assert!(l.claim(holder, token, 0).is_err());
    assert!(l.take_effects().is_empty());
}
