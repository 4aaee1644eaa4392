use vstd::prelude::*;

use crate::accrual::SublyConfig;
use crate::catalog::{first_with_id, lemma_first_service_unique, SubscriptionRegistry, SubscriptionService};
use crate::constants::BILLING_PERIOD_SECONDS;
use crate::due::has_service;
use crate::error::ErrorCode;
use crate::keys::Pubkey;
use crate::position::UserStake;
use crate::subscriptions::{
    cancellation_outcome, compute_monthly_budget, first_subscription, monthly_budget, payment_outcome, recipient_type_of,
    refreshed, released, PayPalRecipientType, SubscriptionStatus, UserSubscription, UserSubscriptions,
};

verus! {

/// The subscriptions of `s` after a refresh at `now`.
pub open spec fn refreshed_list(s: Seq<UserSubscription>, now: i64) -> Seq<UserSubscription> {
    s.map_values(|x: UserSubscription| refreshed(x, now))
}

/// Whether `s` holds an active or cancelling subscription to the service.
pub open spec fn holds_service(s: Seq<UserSubscription>, service_id: u64) -> bool {
    exists|i: int| 0 <= i < s.len() && (#[trigger] s[i]).service_id == service_id
        && s[i].status != SubscriptionStatus::Cancelled
}

/// Price of the first catalog entry with the given id.
pub open spec fn listed_price(services: Seq<SubscriptionService>, service_id: u64) -> int {
    services[choose|k: int| first_with_id(services, service_id, k)].monthly_price_usdc as int
}

/// Why subscribing is refused, if it is, in the order they are tested. The budget is
/// checked against the commitments left after the refresh.
pub open spec fn subscribe_error(c: SublyConfig, p: UserStake, l: UserSubscriptions, reg: SubscriptionRegistry, service_id: u64, now: i64) -> Option<ErrorCode> {
    let rs = refreshed_list(l.subscriptions@, now);
    let pending = l.total_pending_commitment - released(l.subscriptions@, now);
    let committed = l.total_active_commitment + pending;
    let price = listed_price(reg.services@, service_id);
    let budget = monthly_budget(p.total_principal, c.apy_bps);
    if c.paused {
        Some(ErrorCode::ProgramPaused)
    } else if released(l.subscriptions@, now) > l.total_pending_commitment {
        Some(ErrorCode::MathOverflow)
    } else if !l.paypal_configured {
        Some(ErrorCode::PayPalInfoMissing)
    } else if !has_service(reg.services@, service_id) {
        Some(ErrorCode::SubscriptionServiceNotFound)
    } else if holds_service(rs, service_id) {
        Some(ErrorCode::SubscriptionAlreadyExists)
    } else if committed > u64::MAX || committed + price > u64::MAX {
        Some(ErrorCode::MathOverflow)
    } else if committed + price > budget {
        Some(ErrorCode::SubscriptionBudgetExceeded)
    } else if now + BILLING_PERIOD_SECONDS > i64::MAX || l.total_active_commitment + price > u64::MAX
        || l.next_subscription_id == u64::MAX {
        Some(ErrorCode::MathOverflow)
    } else {
        None
    }
}

/// Enrols the subscriber in a catalog service: the ledger is refreshed
/// first, a payout target must be configured, the service must exist and
/// not already be held, and the commitments plus the service's price must
/// fit the monthly budget that the staked principal projects. The price is
/// snapshotted; the first billing date is one period after `now`. Returns
/// the new subscription's id. All or nothing.
pub fn subscribe_service(
    config: &SublyConfig,
    position: &UserStake,
    subs: &mut UserSubscriptions,
    registry: &SubscriptionRegistry,
    service_id: u64,
    now: i64,
) -> (r: Result<u64, ErrorCode>)
    ensures
        r is Err <==> subscribe_error(*config, *position, *old(subs), *registry, service_id, now) is Some,
        r matches Err(e) ==> Some(e) == subscribe_error(*config, *position, *old(subs), *registry, service_id, now)
            && *final(subs) == *old(subs),
        r matches Ok(id) ==> {
            let price = listed_price(registry.services@, service_id);
            &&& id == old(subs).next_subscription_id
            &&& final(subs).subscriptions@ == refreshed_list(old(subs).subscriptions@, now).push(UserSubscription {
                id,
                service_id,
                monthly_price_usdc: price as u64,
                started_at: now,
                last_payment_ts: now,
                next_billing_ts: (now + BILLING_PERIOD_SECONDS) as i64,
                pending_until_ts: 0,
                status: SubscriptionStatus::Active,
                initial_payment_recorded: false,
            })
            &&& final(subs).total_active_commitment == old(subs).total_active_commitment + price
            &&& final(subs).total_pending_commitment == old(subs).total_pending_commitment - released(old(subs).subscriptions@, now)
            &&& final(subs).total_active_commitment + final(subs).total_pending_commitment
                <= monthly_budget(position.total_principal, config.apy_bps)
            &&& final(subs).next_subscription_id == old(subs).next_subscription_id + 1
            &&& final(subs).owner == old(subs).owner
        },
        old(subs).wf() ==> final(subs).wf(),
{
    config.ensure_active()?;
    let mut w = subs.duplicate();
    w.refresh(now)?;
    proof {
        assert(w.subscriptions@ =~= refreshed_list(old(subs).subscriptions@, now));
    }
    if !w.paypal_configured {
        return Err(ErrorCode::PayPalInfoMissing);
    }
    let idx = match registry.find_service(service_id) {
        Some(k) => k,
        None => return Err(ErrorCode::SubscriptionServiceNotFound),
    };
    proof {
        lemma_first_service_unique(registry.services@, service_id, idx as int);
    }
    let price = registry.services[idx].monthly_price_usdc;
    if w.has_active_or_pending_for_service(service_id) {
        return Err(ErrorCode::SubscriptionAlreadyExists);
    }
    let budget = compute_monthly_budget(position.total_principal, config.apy_bps)?;
    let committed = w.total_committed()?;
    if committed > u64::MAX - price {
        return Err(ErrorCode::MathOverflow);
    }
    if committed + price > budget {
        return Err(ErrorCode::SubscriptionBudgetExceeded);
    }
    let id = w.record_subscription(service_id, price, now, BILLING_PERIOD_SECONDS)?;
    *subs = w;
    Ok(id)
}

/// Refreshes the ledger, then starts cancelling one of its subscriptions
/// (see `begin_cancellation`). Returns the service, the price and the end
/// of paid access. All or nothing.
pub fn unsubscribe_service(subs: &mut UserSubscriptions, subscription_id: u64, now: i64) -> (r: Result<(u64, u64, i64), ErrorCode>)
    ensures
        released(old(subs).subscriptions@, now) > old(subs).total_pending_commitment
            ==> r == Err::<(u64, u64, i64), ErrorCode>(ErrorCode::MathOverflow),
        released(old(subs).subscriptions@, now) <= old(subs).total_pending_commitment ==> {
            let rs = refreshed_list(old(subs).subscriptions@, now);
            let pending = (old(subs).total_pending_commitment - released(old(subs).subscriptions@, now)) as u64;
            &&& (forall|j: int| 0 <= j < rs.len() ==> #[trigger] rs[j].id != subscription_id)
                ==> r == Err::<(u64, u64, i64), ErrorCode>(ErrorCode::SubscriptionNotFound)
            &&& forall|k: int| #[trigger] first_subscription(rs, subscription_id, k)
                ==> cancellation_outcome(rs, old(subs).total_active_commitment, pending, k, now, BILLING_PERIOD_SECONDS, r, *final(subs))
        },
        r is Err ==> *final(subs) == *old(subs),
        final(subs).same_identity(&*old(subs)),
        old(subs).wf() ==> final(subs).wf(),
{
    let mut w = subs.duplicate();
    w.refresh(now)?;
    proof {
        assert(w.subscriptions@ =~= refreshed_list(old(subs).subscriptions@, now));
    }
    let out = w.begin_cancellation(subscription_id, now, BILLING_PERIOD_SECONDS)?;
    *subs = w;
    Ok(out)
}

/// The operator records a payment (at `payment_ts`, or `now` when absent)
/// for an active or cancelling subscription; see `record_payment`. Returns
/// the subscription's status.
pub fn record_subscription_payment(
    config: &SublyConfig,
    subs: &mut UserSubscriptions,
    operator: Pubkey,
    subscription_id: u64,
    payment_ts: Option<i64>,
    now: i64,
) -> (r: Result<SubscriptionStatus, ErrorCode>)
    ensures
        operator@ != config.authority@ ==> r == Err::<SubscriptionStatus, ErrorCode>(ErrorCode::UnauthorizedAuthority),
        operator@ == config.authority@ ==> {
            let paid = match payment_ts { Some(t) => t, None => now };
            &&& (forall|j: int| 0 <= j < old(subs).subscriptions@.len() ==> #[trigger] old(subs).subscriptions@[j].id != subscription_id)
                ==> r == Err::<SubscriptionStatus, ErrorCode>(ErrorCode::SubscriptionNotFound)
            &&& forall|k: int| #[trigger] first_subscription(old(subs).subscriptions@, subscription_id, k)
                ==> payment_outcome(*old(subs), k, paid, BILLING_PERIOD_SECONDS, r, *final(subs))
        },
        r is Err ==> *final(subs) == *old(subs),
        old(subs).wf() ==> final(subs).wf(),
{
    if !operator.same_as(&config.authority) {
        return Err(ErrorCode::UnauthorizedAuthority);
    }
    let paid = match payment_ts {
        Some(t) => t,
        None => now,
    };
    subs.record_payment(subscription_id, paid, BILLING_PERIOD_SECONDS)
}

/// Positions of the catalog services priced within `available` that `rs`
/// does not already hold, in catalog order.
pub open spec fn affordable(services: Seq<SubscriptionService>, rs: Seq<UserSubscription>, available: int) -> Seq<usize>
    decreases services.len(),
{
    if services.len() == 0 {
        Seq::empty()
    } else {
        let last = services.last();
        affordable(services.drop_last(), rs, available) + if last.monthly_price_usdc <= available
            && !holds_service(rs, last.id) {
            seq![(services.len() - 1) as usize]
        } else {
            Seq::empty()
        }
    }
}

/// The budget left to a subscriber and the services it can still take up.
#[derive(Clone, Debug)]
pub struct AvailableServices {
    pub available_budget_usdc: u64,
    pub service_positions: Vec<usize>,
}

/// Reports, without changing anything, the monthly budget left after the
/// subscriber's commitments (as they stand after a refresh at `now`) and
/// the catalog services priced within it that the subscriber does not
/// already hold.
pub fn get_user_available_services(
    config: &SublyConfig,
    position: &UserStake,
    subs: &UserSubscriptions,
    registry: &SubscriptionRegistry,
    now: i64,
) -> (r: Result<AvailableServices, ErrorCode>)
    ensures
        r is Err <==> released(subs.subscriptions@, now) > subs.total_pending_commitment
            || subs.total_active_commitment + subs.total_pending_commitment - released(subs.subscriptions@, now) > u64::MAX,
        r matches Err(e) ==> e == ErrorCode::MathOverflow,
        r matches Ok(a) ==> {
            let committed = subs.total_active_commitment + subs.total_pending_commitment - released(subs.subscriptions@, now);
            let budget = monthly_budget(position.total_principal, config.apy_bps);
            let available = if budget > committed { budget - committed } else { 0 };
            &&& a.available_budget_usdc == available
            &&& a.service_positions@ == affordable(registry.services@, refreshed_list(subs.subscriptions@, now), available)
        },
{
    let mut w = subs.duplicate();
    w.refresh(now)?;
    proof {
        assert(w.subscriptions@ =~= refreshed_list(subs.subscriptions@, now));
    }
    let budget = compute_monthly_budget(position.total_principal, config.apy_bps)?;
    let committed = w.total_committed()?;
    let available = budget.saturating_sub(committed);
    let ghost rs = w.subscriptions@;
    let ghost services = registry.services@;
    let mut found: Vec<usize> = Vec::new();
    let n = registry.services.len();
    let mut i: usize = 0;
    while i < n
        invariant
            services == registry.services@,
            rs == w.subscriptions@,
            n == services.len(),
            0 <= i <= n,
            found@ == affordable(services.take(i as int), rs, available as int),
        decreases n - i,
    {
        proof {
            assert(services.take(i + 1).drop_last() =~= services.take(i as int));
            assert(services.take(i + 1).last() == services[i as int]);
        }
        let service = &registry.services[i];
        if service.monthly_price_usdc <= available && !w.has_active_or_pending_for_service(service.id) {
            found.push(i);
        }
        i = i + 1;
    }
    assert(services.take(n as int) =~= services);
    Ok(AvailableServices { available_budget_usdc: available, service_positions: found })
}

/// Result of trimming white space from both ends of a text.
pub uninterp spec fn trimmed_text(s: Seq<char>) -> Seq<char>;

/// Relies on `str::trim`: the text without leading and trailing white
/// space, which depends on the text alone and is a slice of it,
/// so never longer.
#[verifier::external_body]
fn trim_text(s: &str) -> (r: String)
    ensures
        r@ == trimmed_text(s@),
        r@.len() <= s@.len(),
{
    s.trim().to_string()
}

/// Sets the subscriber's payout target from a recipient-kind label and a
/// receiver, which is trimmed and must then be non-empty and at most
/// `MAX_PAYPAL_RECEIVER_LEN` bytes (see `register_paypal_recipient`).
pub fn register_payout_target(subs: &mut UserSubscriptions, recipient_type: &str, receiver: &str) -> (r: Result<(), ErrorCode>)
    ensures
        recipient_type_of(vstd::utf8::encode_utf8(recipient_type@)) is None
            ==> r == Err::<(), ErrorCode>(ErrorCode::InvalidPayPalRecipientType),
        recipient_type_of(vstd::utf8::encode_utf8(recipient_type@)) matches Some(t) ==> {
            let trimmed = trimmed_text(receiver@);
            &&& (r is Ok <==> trimmed.len() > 0 && crate::catalog::byte_len(trimmed) <= crate::constants::MAX_PAYPAL_RECEIVER_LEN)
            &&& r is Ok ==> final(subs).paypal_configured && final(subs).paypal_recipient_type == t
                && final(subs).paypal_receiver@ == trimmed && final(subs).owner == old(subs).owner
                && final(subs).subscriptions@ == old(subs).subscriptions@
        },
        r matches Err(e) ==> e == ErrorCode::InvalidPayPalRecipientType && *final(subs) == *old(subs),
        old(subs).wf() ==> final(subs).wf(),
{
    let kind = PayPalRecipientType::from_label(recipient_type)?;
    let trimmed = trim_text(receiver);
    subs.register_paypal_recipient(kind, trimmed)
}

} // verus!
