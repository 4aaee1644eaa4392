use vstd::prelude::*;

use crate::accrual::SublyConfig;
use crate::catalog::{first_with_id, SubscriptionRegistry, SubscriptionService};
use crate::error::ErrorCode;
use crate::keys::Pubkey;
use crate::subscriptions::{PayPalRecipientType, SubscriptionStatus, UserSubscription, UserSubscriptions};

verus! {

/// A payment that falls due, with what a payment executor needs to make it.
#[derive(Clone, Debug)]
pub struct DueSubscriptionInfo {
    pub user: Pubkey,
    pub subscription_id: u64,
    pub service_id: u64,
    pub service_name: String,
    pub monthly_price_usdc: u64,
    pub recipient_type: PayPalRecipientType,
    pub receiver: String,
    pub due_ts: i64,
    pub initial_payment_recorded: bool,
}

/// Whether `sub` owes a payment by `upper`: it is active and either its
/// first payment is unrecorded or its next billing date is not after `upper`.
pub open spec fn is_due(sub: UserSubscription, upper: int) -> bool {
    sub.status == SubscriptionStatus::Active && (!sub.initial_payment_recorded || sub.next_billing_ts <= upper)
}

/// Positions `(li, si)` of the due subscriptions among `subs`, which belong
/// to ledger `li`, in storage order.
pub open spec fn due_in(li: int, subs: Seq<UserSubscription>, upper: int) -> Seq<(int, int)>
    decreases subs.len(),
{
    if subs.len() == 0 {
        Seq::empty()
    } else {
        due_in(li, subs.drop_last(), upper) + if is_due(subs.last(), upper) {
            seq![(li, subs.len() - 1)]
        } else {
            Seq::empty()
        }
    }
}

/// Positions of the due subscriptions over all ledgers with a payout
/// target, ledger by ledger.
pub open spec fn due_pairs(ls: Seq<UserSubscriptions>, upper: int) -> Seq<(int, int)>
    decreases ls.len(),
{
    if ls.len() == 0 {
        Seq::empty()
    } else {
        due_pairs(ls.drop_last(), upper) + if ls.last().paypal_configured {
            due_in(ls.len() - 1, ls.last().subscriptions@, upper)
        } else {
            Seq::empty()
        }
    }
}

pub open spec fn has_service(services: Seq<SubscriptionService>, id: u64) -> bool {
    exists|k: int| 0 <= k < services.len() && #[trigger] services[k].id == id
}

/// `info` describes subscription `sub` of ledger `l`, priced and named from
/// the catalog.
pub open spec fn describes(info: DueSubscriptionInfo, l: UserSubscriptions, sub: UserSubscription, services: Seq<SubscriptionService>) -> bool {
    &&& info.user == l.owner
    &&& info.subscription_id == sub.id
    &&& info.service_id == sub.service_id
    &&& info.monthly_price_usdc == sub.monthly_price_usdc
    &&& info.due_ts == sub.next_billing_ts
    &&& info.initial_payment_recorded == sub.initial_payment_recorded
    &&& info.recipient_type == l.paypal_recipient_type
    &&& info.receiver@ == l.paypal_receiver@
    &&& forall|k: int| #[trigger] first_with_id(services, sub.service_id, k) ==> info.service_name@ == services[k].name@
}

/// Lists every payment due by `now + look_ahead_seconds` over the given
/// subscriber ledgers. Read-only; ledgers without a payout target are
/// skipped.
pub fn find_due_subscriptions(
    config: &SublyConfig,
    registry: &SubscriptionRegistry,
    ledgers: &Vec<UserSubscriptions>,
    now: i64,
    look_ahead_seconds: i64,
) -> (r: Result<Vec<DueSubscriptionInfo>, ErrorCode>)
    ensures
        !(i64::MIN <= now + look_ahead_seconds <= i64::MAX) ==> r == Err::<Vec<DueSubscriptionInfo>, ErrorCode>(ErrorCode::MathOverflow),
        i64::MIN <= now + look_ahead_seconds <= i64::MAX && config.paused
            ==> r == Err::<Vec<DueSubscriptionInfo>, ErrorCode>(ErrorCode::ProgramPaused),
        r matches Err(e) ==> e == ErrorCode::MathOverflow || e == ErrorCode::ProgramPaused
            || (e == ErrorCode::SubscriptionServiceNotFound && exists|li: int, si: int|
                0 <= li < ledgers@.len() && (#[trigger] ledgers@[li]).paypal_configured
                && 0 <= si < ledgers@[li].subscriptions@.len()
                && is_due(#[trigger] ledgers@[li].subscriptions@[si], now + look_ahead_seconds)
                && !has_service(registry.services@, ledgers@[li].subscriptions@[si].service_id)),
        i64::MIN <= now + look_ahead_seconds <= i64::MAX && !config.paused && (forall|li: int, si: int|
            0 <= li < ledgers@.len() && (#[trigger] ledgers@[li]).paypal_configured
            && 0 <= si < ledgers@[li].subscriptions@.len()
            && is_due(#[trigger] ledgers@[li].subscriptions@[si], now + look_ahead_seconds)
            ==> has_service(registry.services@, ledgers@[li].subscriptions@[si].service_id)) ==> r is Ok,
        i64::MIN <= now + look_ahead_seconds <= i64::MAX && !config.paused && (exists|li: int, si: int|
            0 <= li < ledgers@.len() && (#[trigger] ledgers@[li]).paypal_configured
            && 0 <= si < ledgers@[li].subscriptions@.len()
            && is_due(#[trigger] ledgers@[li].subscriptions@[si], now + look_ahead_seconds)
            && !has_service(registry.services@, ledgers@[li].subscriptions@[si].service_id))
            ==> r == Err::<Vec<DueSubscriptionInfo>, ErrorCode>(ErrorCode::SubscriptionServiceNotFound),
        r matches Ok(v) ==> {
            let pairs = due_pairs(ledgers@, now + look_ahead_seconds);
            &&& v@.len() == pairs.len()
            &&& forall|m: int| 0 <= m < pairs.len() ==> describes(#[trigger] v@[m], ledgers@[pairs[m].0],
                ledgers@[pairs[m].0].subscriptions@[pairs[m].1], registry.services@)
        },
{
    let upper = match now.checked_add(look_ahead_seconds) {
        Some(v) => v,
        None => return Err(ErrorCode::MathOverflow),
    };
    if config.paused {
        return Err(ErrorCode::ProgramPaused);
    }
    let ghost ls = ledgers@;
    let ghost services = registry.services@;
    let mut out: Vec<DueSubscriptionInfo> = Vec::new();
    let n = ledgers.len();
    let mut i: usize = 0;
    while i < n
        invariant
            ls == ledgers@,
            services == registry.services@,
            !config.paused,
            n == ls.len(),
            forall|li: int, si: int| 0 <= li < i && (#[trigger] ls[li]).paypal_configured
                && 0 <= si < ls[li].subscriptions@.len() && is_due(#[trigger] ls[li].subscriptions@[si], upper as int)
                ==> has_service(services, ls[li].subscriptions@[si].service_id),
            0 <= i <= n,
            upper == now + look_ahead_seconds,
            out@.len() == due_pairs(ls.take(i as int), upper as int).len(),
            forall|m: int| 0 <= m < out@.len() ==> describes(#[trigger] out@[m], ls[due_pairs(ls.take(i as int), upper as int)[m].0],
                ls[due_pairs(ls.take(i as int), upper as int)[m].0].subscriptions@[due_pairs(ls.take(i as int), upper as int)[m].1], services),
        decreases n - i,
    {
        let ledger = &ledgers[i];
        let ghost before = due_pairs(ls.take(i as int), upper as int);
        proof {
            assert(ls.take(i + 1).drop_last() =~= ls.take(i as int));
            assert(ls.take(i + 1).last() == ls[i as int]);
        }
        if ledger.paypal_configured {
            let ghost subs = ledger.subscriptions@;
            let k = ledger.subscriptions.len();
            let mut j: usize = 0;
            assert(subs.take(0) =~= Seq::<UserSubscription>::empty());
            assert(before + due_in(i as int, subs.take(0), upper as int) =~= before);
            while j < k
                invariant
                    ls == ledgers@,
                    services == registry.services@,
                    !config.paused,
                    ledger.paypal_configured,
                    0 <= i < n,
                    forall|li: int, si: int| 0 <= li < i && (#[trigger] ls[li]).paypal_configured
                        && 0 <= si < ls[li].subscriptions@.len() && is_due(#[trigger] ls[li].subscriptions@[si], upper as int)
                        ==> has_service(services, ls[li].subscriptions@[si].service_id),
                    forall|si: int| 0 <= si < j && is_due(#[trigger] subs[si], upper as int)
                        ==> has_service(services, subs[si].service_id),
                    n == ls.len(),
                    ledger == &ledgers@[i as int],
                    subs == ledger.subscriptions@,
                    k == subs.len(),
                    0 <= j <= k,
                    upper == now + look_ahead_seconds,
                    before == due_pairs(ls.take(i as int), upper as int),
                    out@.len() == (before + due_in(i as int, subs.take(j as int), upper as int)).len(),
                    forall|m: int| 0 <= m < out@.len() ==> describes(#[trigger] out@[m],
                        ls[(before + due_in(i as int, subs.take(j as int), upper as int))[m].0],
                        ls[(before + due_in(i as int, subs.take(j as int), upper as int))[m].0].subscriptions@[
                            (before + due_in(i as int, subs.take(j as int), upper as int))[m].1], services),
                decreases k - j,
            {
                let sub = ledger.subscriptions[j];
                proof {
                    assert(subs.take(j + 1).drop_last() =~= subs.take(j as int));
                    assert(subs.take(j + 1).last() == subs[j as int]);
                }
                if sub.status == SubscriptionStatus::Active
                    && (!sub.initial_payment_recorded || sub.next_billing_ts <= upper) {
                    let idx = match registry.find_service(sub.service_id) {
                        Some(idx) => idx,
                        None => {
                            proof {
                                assert(ledgers@[i as int].subscriptions@[j as int] == sub);
                                assert(is_due(ledgers@[i as int].subscriptions@[j as int], now + look_ahead_seconds));
                                assert(!has_service(registry.services@, sub.service_id));
                            }
                            return Err(ErrorCode::SubscriptionServiceNotFound);
                        },
                    };
                    let info = DueSubscriptionInfo {
                        user: ledger.owner,
                        subscription_id: sub.id,
                        service_id: sub.service_id,
                        service_name: registry.services[idx].name.clone(),
                        monthly_price_usdc: sub.monthly_price_usdc,
                        recipient_type: ledger.paypal_recipient_type,
                        receiver: ledger.paypal_receiver.clone(),
                        due_ts: sub.next_billing_ts,
                        initial_payment_recorded: sub.initial_payment_recorded,
                    };
                    proof {
                        let p_old = before + due_in(i as int, subs.take(j as int), upper as int);
                        let p_new = before + due_in(i as int, subs.take(j + 1), upper as int);
                        assert(p_new =~= p_old.push((i as int, j as int)));
                        assert forall|k2: int| #[trigger] first_with_id(services, sub.service_id, k2) implies
                            info.service_name@ == services[k2].name@ by {
                            if k2 < idx {
                                assert(services[k2].id != sub.service_id);
                            } else if k2 > idx {
                                assert(services[idx as int].id != sub.service_id);
                            }
                        }
                        assert(describes(info, ls[i as int], subs[j as int], services));
                    }
                    out.push(info);
                } else {
                    proof {
                        let p_old = before + due_in(i as int, subs.take(j as int), upper as int);
                        let p_new = before + due_in(i as int, subs.take(j + 1), upper as int);
                        assert(p_new =~= p_old);
                    }
                }
                j = j + 1;
            }
            proof {
                assert(subs.take(k as int) =~= subs);
                assert(due_pairs(ls.take(i + 1), upper as int) =~= before + due_in(i as int, subs, upper as int));
            }
        } else {
            proof {
                assert(due_pairs(ls.take(i + 1), upper as int) =~= before);
            }
        }
        i = i + 1;
    }
    proof {
        assert(ls.take(n as int) =~= ls);
    }
    Ok(out)
}

} // verus!
