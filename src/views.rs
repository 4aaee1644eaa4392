use vstd::prelude::*;

use crate::catalog::{first_with_id, SubscriptionRegistry, SubscriptionService};
use crate::due::has_service;
use crate::error::ErrorCode;
use crate::keys::Pubkey;
use crate::position::UserStake;
use crate::subscribing::refreshed_list;
use crate::subscriptions::{released, SubscriptionStatus, UserSubscription, UserSubscriptions};
use crate::tranche::StakeEntry;

verus! {

/// A tranche as reported to its depositor.
#[derive(Clone, Copy, Debug)]
pub struct StakeEntrySnapshot {
    pub tranche_id: u64,
    pub principal: u64,
    pub deposited_at: i64,
    pub lock_end_ts: i64,
    pub lock_duration: i64,
    pub claimed_operator: u64,
    pub claimed_user: u64,
    pub unrealized_yield: u64,
}

pub open spec fn snapshot_of(e: StakeEntry) -> StakeEntrySnapshot {
    StakeEntrySnapshot {
        tranche_id: e.tranche_id,
        principal: e.principal,
        deposited_at: e.deposited_at,
        lock_end_ts: e.lock_end_ts,
        lock_duration: e.lock_duration,
        claimed_operator: e.claimed_operator,
        claimed_user: e.claimed_user,
        unrealized_yield: e.unrealized_yield,
    }
}

impl StakeEntrySnapshot {
    pub fn from_entry(entry: &StakeEntry) -> (r: StakeEntrySnapshot)
        ensures
            r == snapshot_of(*entry),
    {
        StakeEntrySnapshot {
            tranche_id: entry.tranche_id,
            principal: entry.principal,
            deposited_at: entry.deposited_at,
            lock_end_ts: entry.lock_end_ts,
            lock_duration: entry.lock_duration,
            claimed_operator: entry.claimed_operator,
            claimed_user: entry.claimed_user,
            unrealized_yield: entry.unrealized_yield,
        }
    }
}

/// A depositor's ledger as reported to them.
#[derive(Clone, Debug)]
pub struct UserStakeFetched {
    pub user: Pubkey,
    pub total_principal: u64,
    pub stake_entries: Vec<StakeEntrySnapshot>,
}

/// Reports a depositor's tranches as stored, in storage order.
pub fn get_user_stake(position: &UserStake) -> (r: UserStakeFetched)
    ensures
        r.user == position.owner,
        r.total_principal == position.total_principal,
        r.stake_entries@ == position.entries@.map_values(|e: StakeEntry| snapshot_of(e)),
{
    let mut out: Vec<StakeEntrySnapshot> = Vec::new();
    let n = position.entries.len();
    let mut i: usize = 0;
    while i < n
        invariant
            n == position.entries@.len(),
            0 <= i <= n,
            out@ == position.entries@.take(i as int).map_values(|e: StakeEntry| snapshot_of(e)),
        decreases n - i,
    {
        out.push(StakeEntrySnapshot::from_entry(&position.entries[i]));
        i = i + 1;
        assert(out@ =~= position.entries@.take(i as int).map_values(|e: StakeEntry| snapshot_of(e)));
    }
    assert(position.entries@.take(n as int) =~= position.entries@);
    UserStakeFetched { user: position.owner, total_principal: position.total_principal, stake_entries: out }
}

/// A catalog entry as reported to subscribers.
#[derive(Clone, Debug)]
pub struct SubscriptionServiceInfo {
    pub id: u64,
    pub creator: Pubkey,
    pub name: String,
    pub monthly_price_usdc: u64,
    pub details: String,
    pub logo_url: String,
    pub provider: String,
    pub created_at: i64,
}

pub open spec fn describes_service(info: SubscriptionServiceInfo, s: SubscriptionService) -> bool {
    &&& info.id == s.id
    &&& info.creator == s.creator
    &&& info.name@ == s.name@
    &&& info.monthly_price_usdc == s.monthly_price_usdc
    &&& info.details@ == s.details@
    &&& info.logo_url@ == s.logo_url@
    &&& info.provider@ == s.provider@
    &&& info.created_at == s.created_at
}

impl SubscriptionServiceInfo {
    pub fn from_service(s: &SubscriptionService) -> (r: SubscriptionServiceInfo)
        ensures
            describes_service(r, *s),
    {
        SubscriptionServiceInfo {
            id: s.id,
            creator: s.creator,
            name: s.name.clone(),
            monthly_price_usdc: s.monthly_price_usdc,
            details: s.details.clone(),
            logo_url: s.logo_url.clone(),
            provider: s.provider.clone(),
            created_at: s.created_at,
        }
    }
}

/// The whole catalog, in listing order.
pub fn get_subscription_services(registry: &SubscriptionRegistry) -> (r: Vec<SubscriptionServiceInfo>)
    ensures
        r@.len() == registry.services@.len(),
        forall|i: int| 0 <= i < r@.len() ==> describes_service(#[trigger] r@[i], registry.services@[i]),
{
    let mut out: Vec<SubscriptionServiceInfo> = Vec::new();
    let n = registry.services.len();
    let mut i: usize = 0;
    while i < n
        invariant
            n == registry.services@.len(),
            0 <= i <= n,
            out@.len() == i,
            forall|j: int| 0 <= j < i ==> describes_service(#[trigger] out@[j], registry.services@[j]),
        decreases n - i,
    {
        out.push(SubscriptionServiceInfo::from_service(&registry.services[i]));
        i = i + 1;
    }
    out
}

/// A subscription as reported to its subscriber, with its service's texts.
#[derive(Clone, Debug)]
pub struct UserSubscriptionInfo {
    pub subscription_id: u64,
    pub service_id: u64,
    pub service_name: String,
    pub service_details: String,
    pub service_logo_url: String,
    pub service_provider: String,
    pub monthly_price_usdc: u64,
    pub status: SubscriptionStatus,
    pub started_at: i64,
    pub last_payment_ts: i64,
    pub next_billing_ts: i64,
    pub pending_until_ts: i64,
}

/// `info` reports `sub`, with the texts of its service's first catalog entry.
pub open spec fn describes_subscription(info: UserSubscriptionInfo, sub: UserSubscription, services: Seq<SubscriptionService>) -> bool {
    &&& info.subscription_id == sub.id
    &&& info.service_id == sub.service_id
    &&& info.monthly_price_usdc == sub.monthly_price_usdc
    &&& info.status == sub.status
    &&& info.started_at == sub.started_at
    &&& info.last_payment_ts == sub.last_payment_ts
    &&& info.next_billing_ts == sub.next_billing_ts
    &&& info.pending_until_ts == sub.pending_until_ts
    &&& forall|k: int| #[trigger] first_with_id(services, sub.service_id, k) ==> {
        &&& info.service_name@ == services[k].name@
        &&& info.service_details@ == services[k].details@
        &&& info.service_logo_url@ == services[k].logo_url@
        &&& info.service_provider@ == services[k].provider@
    }
}

/// Positions of the subscriptions of `s` that are not cancelled.
pub open spec fn live_positions(s: Seq<UserSubscription>) -> Seq<int>
    decreases s.len(),
{
    if s.len() == 0 {
        Seq::empty()
    } else {
        live_positions(s.drop_last()) + if s.last().status != SubscriptionStatus::Cancelled {
            seq![s.len() - 1]
        } else {
            Seq::empty()
        }
    }
}

/// Reports, without changing anything, the subscriber's active and
/// cancelling subscriptions as they stand after a refresh at `now`.
pub fn get_user_subscriptions(subs: &UserSubscriptions, registry: &SubscriptionRegistry, now: i64) -> (r: Result<Vec<UserSubscriptionInfo>, ErrorCode>)
    ensures
        released(subs.subscriptions@, now) > subs.total_pending_commitment ==> r == Err::<Vec<UserSubscriptionInfo>, ErrorCode>(ErrorCode::MathOverflow),
        r matches Err(e) ==> e == ErrorCode::MathOverflow || (e == ErrorCode::SubscriptionServiceNotFound
            && exists|i: int| 0 <= i < subs.subscriptions@.len()
                && (#[trigger] refreshed_list(subs.subscriptions@, now)[i]).status != SubscriptionStatus::Cancelled
                && !has_service(registry.services@, refreshed_list(subs.subscriptions@, now)[i].service_id)),
        released(subs.subscriptions@, now) <= subs.total_pending_commitment && (forall|i: int|
            0 <= i < subs.subscriptions@.len()
            && (#[trigger] refreshed_list(subs.subscriptions@, now)[i]).status != SubscriptionStatus::Cancelled
            ==> has_service(registry.services@, refreshed_list(subs.subscriptions@, now)[i].service_id)) ==> r is Ok,
        r matches Ok(v) ==> {
            let rs = refreshed_list(subs.subscriptions@, now);
            let live = live_positions(rs);
            &&& v@.len() == live.len()
            &&& forall|m: int| 0 <= m < live.len() ==> describes_subscription(#[trigger] v@[m], rs[live[m]], registry.services@)
        },
{
    let mut w = subs.duplicate();
    w.refresh(now)?;
    let ghost rs = w.subscriptions@;
    let ghost services = registry.services@;
    proof {
        assert(rs =~= refreshed_list(subs.subscriptions@, now));
    }
    let mut out: Vec<UserSubscriptionInfo> = Vec::new();
    let n = w.subscriptions.len();
    let mut i: usize = 0;
    while i < n
        invariant
            rs == w.subscriptions@,
            rs == refreshed_list(subs.subscriptions@, now),
            released(subs.subscriptions@, now) <= subs.total_pending_commitment,
            services == registry.services@,
            n == rs.len(),
            0 <= i <= n,
            out@.len() == live_positions(rs.take(i as int)).len(),
            forall|m: int| 0 <= m < out@.len() ==> describes_subscription(#[trigger] out@[m],
                rs[live_positions(rs.take(i as int))[m]], services),
        decreases n - i,
    {
        let sub = w.subscriptions[i];
        proof {
            assert(rs.take(i + 1).drop_last() =~= rs.take(i as int));
            assert(rs.take(i + 1).last() == rs[i as int]);
        }
        if sub.status != SubscriptionStatus::Cancelled {
            let k = match registry.find_service(sub.service_id) {
                Some(k) => k,
                None => {
                    proof {
                        assert(refreshed_list(subs.subscriptions@, now)[i as int] == sub);
                    }
                    return Err(ErrorCode::SubscriptionServiceNotFound);
                },
            };
            let service = &registry.services[k];
            let info = UserSubscriptionInfo {
                subscription_id: sub.id,
                service_id: sub.service_id,
                service_name: service.name.clone(),
                service_details: service.details.clone(),
                service_logo_url: service.logo_url.clone(),
                service_provider: service.provider.clone(),
                monthly_price_usdc: sub.monthly_price_usdc,
                status: sub.status,
                started_at: sub.started_at,
                last_payment_ts: sub.last_payment_ts,
                next_billing_ts: sub.next_billing_ts,
                pending_until_ts: sub.pending_until_ts,
            };
            proof {
                crate::catalog::lemma_first_service_unique(services, sub.service_id, k as int);
                assert(live_positions(rs.take(i + 1)) =~= live_positions(rs.take(i as int)).push(i as int));
            }
            out.push(info);
        } else {
            proof {
                assert(live_positions(rs.take(i + 1)) =~= live_positions(rs.take(i as int)));
            }
        }
        i = i + 1;
    }
    assert(rs.take(n as int) =~= rs);
    Ok(out)
}

/// A subscriber's payout target as reported to them.
#[derive(Clone, Debug)]
pub struct PayPalRecipientFetched {
    pub user: Pubkey,
    pub configured: bool,
    pub recipient_type: crate::subscriptions::PayPalRecipientType,
    pub receiver: String,
}

pub fn get_paypal_recipient(subs: &UserSubscriptions) -> (r: PayPalRecipientFetched)
    ensures
        r.user == subs.owner,
        r.configured == subs.paypal_configured,
        r.recipient_type == subs.paypal_recipient_type,
        r.receiver == subs.paypal_receiver,
{
    PayPalRecipientFetched {
        user: subs.owner,
        configured: subs.paypal_configured,
        recipient_type: subs.paypal_recipient_type,
        receiver: subs.paypal_receiver.clone(),
    }
}

} // verus!
