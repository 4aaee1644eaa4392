use subly::accrual::SublyConfig;
use subly::catalog::SubscriptionRegistry;
use subly::constants::BILLING_PERIOD_SECONDS;
use subly::due::find_due_subscriptions;
use subly::error::ErrorCode;
use subly::keys::Pubkey;
use subly::position::UserStake;
use subly::staking::stake;
use subly::subscribing::{
    get_user_available_services, record_subscription_payment, register_payout_target, subscribe_service,
    unsubscribe_service,
};
use subly::subscriptions::{compute_monthly_budget, PayPalRecipientType, SubscriptionStatus, UserSubscriptions};

const T0: i64 = 1_000;

fn key(b: u8) -> Pubkey {
    Pubkey::new([b; 32])
}

struct World {
    config: SublyConfig,
    position: UserStake,
    subs: UserSubscriptions,
    registry: SubscriptionRegistry,
}

fn world(principal: u64) -> World {
    let mut config = SublyConfig::new(key(9), key(8), key(7), T0, 1, 2);
    let mut position = UserStake::empty();
    position.ensure_owner(key(1), 3);
    if principal > 0 {
        stake(&mut config, &mut position, key(1), principal, 0, T0).unwrap();
    }
    let mut subs = UserSubscriptions::empty();
    subs.ensure_owner(key(1), 4);
    register_payout_target(&mut subs, "EMAIL", "user@example.com").unwrap();
    let mut registry = SubscriptionRegistry::new(5);
    registry
        .register_service(key(6), "Basic".to_string(), 100_001, "d".to_string(), "l".to_string(), "p".to_string(), T0)
        .unwrap();
    registry
        .register_service(key(6), "Plus".to_string(), 100_000, "d".to_string(), "l".to_string(), "p".to_string(), T0)
        .unwrap();
    registry
        .register_service(key(6), "Mini".to_string(), 40_000, "d".to_string(), "l".to_string(), "p".to_string(), T0)
        .unwrap();
    World { config, position, subs, registry }
}

#[test]
fn monthly_budget_projection() {
    assert_eq!(compute_monthly_budget(12_000_000, 1_000), Ok(100_000));
    assert_eq!(compute_monthly_budget(0, 1_000), Ok(0));
    assert_eq!(compute_monthly_budget(12_000_000, 0), Ok(0));
    assert_eq!(compute_monthly_budget(u64::MAX, u16::MAX), Ok(((u64::MAX as u128 * 65_535 / 10_000) / 12) as u64));
}

#[test]
fn budget_admits_exactly_the_projection() {
    let mut w = world(12_000_000);
    let r = subscribe_service(&w.config, &w.position, &mut w.subs, &w.registry, 0, T0);
    assert_eq!(r, Err(ErrorCode::SubscriptionBudgetExceeded));
    let id = subscribe_service(&w.config, &w.position, &mut w.subs, &w.registry, 1, T0).unwrap();
    assert_eq!(id, 0);
    assert_eq!(w.subs.total_active_commitment, 100_000);
    assert_eq!(w.subs.subscriptions[0].next_billing_ts, T0 + BILLING_PERIOD_SECONDS);
    assert_eq!(w.subs.subscriptions[0].monthly_price_usdc, 100_000);
    let r = subscribe_service(&w.config, &w.position, &mut w.subs, &w.registry, 2, T0);
    assert_eq!(r, Err(ErrorCode::SubscriptionBudgetExceeded));
}

#[test]
fn subscribe_rejections() {
    let mut w = world(12_000_000);
    assert_eq!(
        subscribe_service(&w.config, &w.position, &mut w.subs, &w.registry, 42, T0),
        Err(ErrorCode::SubscriptionServiceNotFound)
    );
    subscribe_service(&w.config, &w.position, &mut w.subs, &w.registry, 2, T0).unwrap();
    assert_eq!(
        subscribe_service(&w.config, &w.position, &mut w.subs, &w.registry, 2, T0),
        Err(ErrorCode::SubscriptionAlreadyExists)
    );
    let mut bare = UserSubscriptions::empty();
    bare.ensure_owner(key(1), 4);
    assert_eq!(
        subscribe_service(&w.config, &w.position, &mut bare, &w.registry, 2, T0),
        Err(ErrorCode::PayPalInfoMissing)
    );
    let poor = world(0);
    let mut subs = poor.subs.duplicate();
    assert_eq!(
        subscribe_service(&poor.config, &poor.position, &mut subs, &poor.registry, 2, T0),
        Err(ErrorCode::SubscriptionBudgetExceeded)
    );
}

#[test]
fn cancellation_keeps_access_until_billing_date() {
    let mut w = world(12_000_000);
    let id = subscribe_service(&w.config, &w.position, &mut w.subs, &w.registry, 2, T0).unwrap();
    let (service_id, price, until) = unsubscribe_service(&mut w.subs, id, T0 + 10).unwrap();
    assert_eq!(service_id, 2);
    assert_eq!(price, 40_000);
    assert_eq!(until, T0 + BILLING_PERIOD_SECONDS);
    assert_eq!(w.subs.total_active_commitment, 0);
    assert_eq!(w.subs.total_pending_commitment, 40_000);
    assert_eq!(unsubscribe_service(&mut w.subs, id, T0 + 11), Err(ErrorCode::SubscriptionNotActive));
    w.subs.refresh(until - 1).unwrap();
    assert_eq!(w.subs.subscriptions[0].status, SubscriptionStatus::PendingCancellation);
    assert_eq!(w.subs.total_pending_commitment, 40_000);
    w.subs.refresh(until).unwrap();
    assert_eq!(w.subs.subscriptions[0].status, SubscriptionStatus::Cancelled);
    assert_eq!(w.subs.subscriptions[0].pending_until_ts, 0);
    assert_eq!(w.subs.total_pending_commitment, 0);
}

#[test]
fn cancellation_after_billing_date_grants_one_period() {
    let mut w = world(12_000_000);
    let id = subscribe_service(&w.config, &w.position, &mut w.subs, &w.registry, 2, T0).unwrap();
    let late = T0 + BILLING_PERIOD_SECONDS + 5;
    let (_, _, until) = unsubscribe_service(&mut w.subs, id, late).unwrap();
    assert_eq!(until, late + BILLING_PERIOD_SECONDS);
    assert_eq!(unsubscribe_service(&mut w.subs, 99, late), Err(ErrorCode::SubscriptionNotFound));
}

#[test]
fn payments_advance_billing() {
    let mut w = world(12_000_000);
    let id = subscribe_service(&w.config, &w.position, &mut w.subs, &w.registry, 2, T0).unwrap();
    let status = record_subscription_payment(&w.config, &mut w.subs, key(9), id, Some(T0 + 1), T0 + 2).unwrap();
    assert_eq!(status, SubscriptionStatus::Active);
    assert_eq!(status.as_str(), "ACTIVE");
    assert_eq!(w.subs.subscriptions[0].last_payment_ts, T0 + 1);
    assert_eq!(w.subs.subscriptions[0].next_billing_ts, T0 + 2 * BILLING_PERIOD_SECONDS);
    assert!(w.subs.subscriptions[0].initial_payment_recorded);
    assert_eq!(
        record_subscription_payment(&w.config, &mut w.subs, key(3), id, None, T0),
        Err(ErrorCode::UnauthorizedAuthority)
    );
    assert_eq!(
        record_subscription_payment(&w.config, &mut w.subs, key(9), 77, None, T0),
        Err(ErrorCode::SubscriptionNotFound)
    );
    let (_, _, until) = unsubscribe_service(&mut w.subs, id, T0 + 3).unwrap();
    let status = record_subscription_payment(&w.config, &mut w.subs, key(9), id, None, T0 + 4).unwrap();
    assert_eq!(status, SubscriptionStatus::PendingCancellation);
    w.subs.refresh(until).unwrap();
    assert_eq!(
        record_subscription_payment(&w.config, &mut w.subs, key(9), id, None, until),
        Err(ErrorCode::SubscriptionNotPayable)
    );
}

#[test]
fn due_scan_lists_unpaid_and_upcoming() {
    let mut w = world(12_000_000);
    let first = subscribe_service(&w.config, &w.position, &mut w.subs, &w.registry, 2, T0).unwrap();
    let ledgers = vec![w.subs.duplicate()];
    let due = find_due_subscriptions(&w.config, &w.registry, &ledgers, T0, 0).unwrap();
    assert_eq!(due.len(), 1);
    assert_eq!(due[0].subscription_id, first);
    assert_eq!(due[0].service_name, "Mini");
    assert_eq!(due[0].receiver, "user@example.com");
    assert!(!due[0].initial_payment_recorded);
    record_subscription_payment(&w.config, &mut w.subs, key(9), first, None, T0).unwrap();
    let ledgers = vec![w.subs.duplicate()];
    let due = find_due_subscriptions(&w.config, &w.registry, &ledgers, T0, 0).unwrap();
    assert_eq!(due.len(), 0);
    let due = find_due_subscriptions(&w.config, &w.registry, &ledgers, T0, 2 * BILLING_PERIOD_SECONDS).unwrap();
    assert_eq!(due.len(), 1);
    assert_eq!(due[0].due_ts, T0 + 2 * BILLING_PERIOD_SECONDS);
    assert_eq!(
        find_due_subscriptions(&w.config, &w.registry, &ledgers, i64::MAX, 1).map(|v| v.len()),
        Err(ErrorCode::MathOverflow)
    );
    let empty = SubscriptionRegistry::new(0);
    let mut fresh = world(12_000_000);
    subscribe_service(&fresh.config, &fresh.position, &mut fresh.subs, &fresh.registry, 2, T0).unwrap();
    let ledgers = vec![fresh.subs.duplicate()];
    assert_eq!(
        find_due_subscriptions(&fresh.config, &empty, &ledgers, T0, 0).map(|v| v.len()),
        Err(ErrorCode::SubscriptionServiceNotFound)
    );
}

#[test]
fn available_services_respect_budget_and_holdings() {
    let mut w = world(12_000_000);
    let a = get_user_available_services(&w.config, &w.position, &w.subs, &w.registry, T0).unwrap();
    assert_eq!(a.available_budget_usdc, 100_000);
    assert_eq!(a.service_positions, vec![1, 2]);
    subscribe_service(&w.config, &w.position, &mut w.subs, &w.registry, 2, T0).unwrap();
    let a = get_user_available_services(&w.config, &w.position, &w.subs, &w.registry, T0).unwrap();
    assert_eq!(a.available_budget_usdc, 60_000);
    assert_eq!(a.service_positions, Vec::<usize>::new());
}

#[test]
fn catalog_validates_lengths_and_assigns_ids() {
    let mut registry = SubscriptionRegistry::new(0);
    let long_name = "n".repeat(65);
    assert_eq!(
        registry.register_service(key(1), long_name, 1, String::new(), String::new(), String::new(), T0),
        Err(ErrorCode::StringTooLong)
    );
    assert_eq!(SubscriptionRegistry::validate_lengths(64, 512, 256, 128), Ok(()));
    assert_eq!(SubscriptionRegistry::validate_lengths(64, 513, 256, 128), Err(ErrorCode::StringTooLong));
    let id = registry
        .register_service(key(1), "a".to_string(), 5, "bb".to_string(), String::new(), String::new(), T0)
        .unwrap();
    assert_eq!(id, 0);
    assert_eq!(registry.next_service_id, 1);
    assert_eq!(registry.find_service(0), Some(0));
    assert_eq!(registry.services[0].space(), 56 + 16 + 3);
    assert_eq!(registry.current_size(), 21 + 56 + 16 + 3);
}

#[test]
fn payout_target_is_trimmed_and_validated() {
    let mut subs = UserSubscriptions::empty();
    subs.ensure_owner(key(1), 0);
    register_payout_target(&mut subs, "PAYPAL_ID", "  abc  ").unwrap();
    assert_eq!(subs.paypal_receiver, "abc");
    assert_eq!(subs.paypal_recipient_type, PayPalRecipientType::PaypalId);
    assert!(subs.paypal_configured);
    assert_eq!(register_payout_target(&mut subs, "FAX", "abc"), Err(ErrorCode::InvalidPayPalRecipientType));
    assert_eq!(register_payout_target(&mut subs, "PHONE", "   "), Err(ErrorCode::InvalidPayPalRecipientType));
    let long = "x".repeat(257);
    assert_eq!(register_payout_target(&mut subs, "EMAIL", &long), Err(ErrorCode::InvalidPayPalRecipientType));
    assert_eq!(subs.paypal_receiver, "abc");
    assert_eq!(PayPalRecipientType::from_label("PHONE"), Ok(PayPalRecipientType::Phone));
    assert_eq!(PayPalRecipientType::Email.as_str(), "EMAIL");
}

#[test]
fn due_scan_skips_ledgers_without_payout_target() {
    let mut w = world(12_000_000);
    subscribe_service(&w.config, &w.position, &mut w.subs, &w.registry, 2, T0).unwrap();
    let mut hidden = w.subs.duplicate();
    hidden.paypal_configured = false;
    let ledgers = vec![hidden, w.subs.duplicate()];
    let due = find_due_subscriptions(&w.config, &w.registry, &ledgers, T0, 0).unwrap();
    assert_eq!(due.len(), 1);
    let mut paused = w.config;
    paused.paused = true;
    assert_eq!(
        find_due_subscriptions(&paused, &w.registry, &ledgers, T0, 0).map(|v| v.len()),
        Err(ErrorCode::ProgramPaused)
    );
}

#[test]
fn refresh_without_matured_cancellations_changes_nothing() {
    let mut w = world(12_000_000);
    subscribe_service(&w.config, &w.position, &mut w.subs, &w.registry, 2, T0).unwrap();
    w.subs.refresh(T0 + 10 * BILLING_PERIOD_SECONDS).unwrap();
    assert_eq!(w.subs.subscriptions[0].status, SubscriptionStatus::Active);
    assert_eq!(w.subs.total_active_commitment, 40_000);
    assert_eq!(w.subs.total_committed(), Ok(40_000));
    assert!(w.subs.has_active_or_pending_for_service(2));
    assert!(!w.subs.has_active_or_pending_for_service(1));
}

#[test]
fn a_free_service_fits_a_zero_budget() {
    let mut w = world(0);
    let id = w
        .registry
        .register_service(key(6), "Free".to_string(), 0, "d".to_string(), "l".to_string(), "p".to_string(), T0)
        .unwrap();
    assert_eq!(subscribe_service(&w.config, &w.position, &mut w.subs, &w.registry, id, T0), Ok(0));
    assert_eq!(w.subs.total_active_commitment, 0);
}
