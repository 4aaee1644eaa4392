use subly::accrual::SublyConfig;
use subly::catalog::SubscriptionRegistry;
use subly::error::ErrorCode;
use subly::keys::Pubkey;
use subly::position::UserStake;
use subly::staking::stake;
use subly::subscribing::{register_payout_target, subscribe_service, unsubscribe_service};
use subly::subscriptions::{PayPalRecipientType, SubscriptionStatus, UserSubscriptions};
use subly::views::{get_paypal_recipient, get_subscription_services, get_user_stake, get_user_subscriptions};

const T0: i64 = 5_000;

fn key(b: u8) -> Pubkey {
    Pubkey::new([b; 32])
}

#[test]
fn user_stake_view_lists_tranches() {
    let mut config = SublyConfig::new(key(9), key(8), key(7), T0, 1, 2);
    let mut position = UserStake::empty();
    position.ensure_owner(key(1), 3);
    stake(&mut config, &mut position, key(1), 70, 1, T0).unwrap();
    stake(&mut config, &mut position, key(1), 30, 2, T0).unwrap();
    let view = get_user_stake(&position);
    assert_eq!(view.total_principal, 100);
    assert_eq!(view.stake_entries.len(), 2);
    assert_eq!(view.stake_entries[1].principal, 30);
    assert_eq!(view.stake_entries[1].tranche_id, 1);
    assert_eq!(view.user.bytes, [1u8; 32]);
}

#[test]
fn subscription_views_report_live_subscriptions() {
    let mut config = SublyConfig::new(key(9), key(8), key(7), T0, 1, 2);
    let mut position = UserStake::empty();
    position.ensure_owner(key(1), 3);
    stake(&mut config, &mut position, key(1), 12_000_000, 0, T0).unwrap();
    let mut registry = SubscriptionRegistry::new(0);
    registry
        .register_service(key(6), "Music".to_string(), 30_000, "songs".to_string(), "logo".to_string(), "acme".to_string(), T0)
        .unwrap();
    registry
        .register_service(key(6), "News".to_string(), 20_000, "daily".to_string(), "logo".to_string(), "acme".to_string(), T0)
        .unwrap();
    let services = get_subscription_services(&registry);
    assert_eq!(services.len(), 2);
    assert_eq!(services[1].name, "News");
    assert_eq!(services[1].monthly_price_usdc, 20_000);
    let mut subs = UserSubscriptions::empty();
    subs.ensure_owner(key(1), 0);
    register_payout_target(&mut subs, "EMAIL", "me@example.com").unwrap();
    let a = subscribe_service(&config, &position, &mut subs, &registry, 0, T0).unwrap();
    let b = subscribe_service(&config, &position, &mut subs, &registry, 1, T0).unwrap();
    let (_, _, until) = unsubscribe_service(&mut subs, a, T0 + 1).unwrap();
    let live = get_user_subscriptions(&subs, &registry, T0 + 2).unwrap();
    assert_eq!(live.len(), 2);
    assert_eq!(live[0].status, SubscriptionStatus::PendingCancellation);
    assert_eq!(live[0].service_details, "songs");
    let later = get_user_subscriptions(&subs, &registry, until).unwrap();
    assert_eq!(later.len(), 1);
    assert_eq!(later[0].subscription_id, b);
    assert_eq!(later[0].service_name, "News");
    let empty = SubscriptionRegistry::new(0);
    assert_eq!(get_user_subscriptions(&subs, &empty, T0).map(|v| v.len()), Err(ErrorCode::SubscriptionServiceNotFound));
    let target = get_paypal_recipient(&subs);
    assert!(target.configured);
    assert_eq!(target.recipient_type, PayPalRecipientType::Email);
    assert_eq!(target.receiver, "me@example.com");
}
