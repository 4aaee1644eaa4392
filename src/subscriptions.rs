use vstd::prelude::*;

use crate::catalog::byte_len;
use crate::constants::{BASIS_POINTS_DIVISOR, MAX_PAYPAL_RECEIVER_LEN};
use crate::error::ErrorCode;
use crate::keys::Pubkey;

verus! {

#[derive(Clone, Copy, Debug, PartialEq, Eq, Structural)]
pub enum SubscriptionStatus {
    Active,
    PendingCancellation,
    Cancelled,
}

impl Default for SubscriptionStatus {
    fn default() -> (r: SubscriptionStatus)
        ensures
            r == SubscriptionStatus::Active,
    {
        SubscriptionStatus::Active
    }
}

impl SubscriptionStatus {
    /// The status as an upper-case label.
    pub fn as_str(&self) -> (r: &'static str)
        ensures
            *self == SubscriptionStatus::Active ==> r@ == "ACTIVE"@,
            *self == SubscriptionStatus::PendingCancellation ==> r@ == "PENDING_CANCELLATION"@,
            *self == SubscriptionStatus::Cancelled ==> r@ == "CANCELLED"@,
    {
        match self {
            SubscriptionStatus::Active => "ACTIVE",
            SubscriptionStatus::PendingCancellation => "PENDING_CANCELLATION",
            SubscriptionStatus::Cancelled => "CANCELLED",
        }
    }
}

/// How a payout receiver is addressed.
#[derive(Clone, Copy, Debug, PartialEq, Eq, Structural)]
pub enum PayPalRecipientType {
    Email,
    Phone,
    PaypalId,
}

/// The recipient kind that a label names, if any: `EMAIL`, `PHONE` or
/// `PAYPAL_ID`, by their ASCII bytes.
pub open spec fn recipient_type_of(b: Seq<u8>) -> Option<PayPalRecipientType> {
    if b == seq![69u8, 77u8, 65u8, 73u8, 76u8] {
        Some(PayPalRecipientType::Email)
    } else if b == seq![80u8, 72u8, 79u8, 78u8, 69u8] {
        Some(PayPalRecipientType::Phone)
    } else if b == seq![80u8, 65u8, 89u8, 80u8, 65u8, 76u8, 95u8, 73u8, 68u8] {
        Some(PayPalRecipientType::PaypalId)
    } else {
        None
    }
}

fn bytes_match(b: &[u8], expected: &[u8]) -> (r: bool)
    ensures
        r == (b@ == expected@),
{
    if b.len() != expected.len() {
        return false;
    }
    let mut i: usize = 0;
    while i < b.len()
        invariant
            b@.len() == expected@.len(),
            0 <= i <= b@.len(),
            forall|j: int| 0 <= j < i ==> b@[j] == expected@[j],
        decreases b@.len() - i,
    {
        if b[i] != expected[i] {
            return false;
        }
        i = i + 1;
    }
    assert(b@ =~= expected@);
    true
}

impl PayPalRecipientType {
    /// Reads a recipient kind from its label; an unknown label is refused
    /// with `InvalidPayPalRecipientType`.
    pub fn from_label(label: &str) -> (r: Result<PayPalRecipientType, ErrorCode>)
        ensures
            recipient_type_of(vstd::utf8::encode_utf8(label@)) matches Some(t) ==> r == Ok::<PayPalRecipientType, ErrorCode>(t),
            recipient_type_of(vstd::utf8::encode_utf8(label@)) is None ==> r == Err::<PayPalRecipientType, ErrorCode>(ErrorCode::InvalidPayPalRecipientType),
    {
        let b = label.as_bytes();
        let email: [u8; 5] = [69u8, 77u8, 65u8, 73u8, 76u8];
        let phone: [u8; 5] = [80u8, 72u8, 79u8, 78u8, 69u8];
        let paypal_id: [u8; 9] = [80u8, 65u8, 89u8, 80u8, 65u8, 76u8, 95u8, 73u8, 68u8];
        assert(email@ =~= seq![69u8, 77u8, 65u8, 73u8, 76u8]);
        assert(phone@ =~= seq![80u8, 72u8, 79u8, 78u8, 69u8]);
        assert(paypal_id@ =~= seq![80u8, 65u8, 89u8, 80u8, 65u8, 76u8, 95u8, 73u8, 68u8]);
        if bytes_match(b, email.as_slice()) {
            Ok(PayPalRecipientType::Email)
        } else if bytes_match(b, phone.as_slice()) {
            Ok(PayPalRecipientType::Phone)
        } else if bytes_match(b, paypal_id.as_slice()) {
            Ok(PayPalRecipientType::PaypalId)
        } else {
            Err(ErrorCode::InvalidPayPalRecipientType)
        }
    }

    /// The kind's label.
    pub fn as_str(&self) -> (r: &'static str)
        ensures
            *self == PayPalRecipientType::Email ==> r@ == "EMAIL"@,
            *self == PayPalRecipientType::Phone ==> r@ == "PHONE"@,
            *self == PayPalRecipientType::PaypalId ==> r@ == "PAYPAL_ID"@,
    {
        match self {
            PayPalRecipientType::Email => "EMAIL",
            PayPalRecipientType::Phone => "PHONE",
            PayPalRecipientType::PaypalId => "PAYPAL_ID",
        }
    }
}

/// One subscription of a subscriber to a service, at the price of the day
/// it began.
#[derive(Clone, Copy, Debug)]
pub struct UserSubscription {
    pub id: u64,
    pub service_id: u64,
    pub monthly_price_usdc: u64,
    pub started_at: i64,
    pub last_payment_ts: i64,
    pub next_billing_ts: i64,
    pub pending_until_ts: i64,
    pub status: SubscriptionStatus,
    pub initial_payment_recorded: bool,
}

/// Price that `sub` counts against the bucket of status `st`.
pub open spec fn commitment(sub: UserSubscription, st: SubscriptionStatus) -> int {
    if sub.status == st { sub.monthly_price_usdc as int } else { 0 }
}

/// Sum of the prices of the subscriptions of `s` in status `st`.
pub open spec fn committed(s: Seq<UserSubscription>, st: SubscriptionStatus) -> int
    decreases s.len(),
{
    if s.len() == 0 {
        0
    } else {
        commitment(s[0], st) + committed(s.skip(1), st)
    }
}

/// Whether a cancelling subscription has reached the end of its paid access.
pub open spec fn matured(sub: UserSubscription, now: i64) -> bool {
    sub.status == SubscriptionStatus::PendingCancellation && sub.pending_until_ts > 0 && now >= sub.pending_until_ts
}

pub open spec fn refreshed(sub: UserSubscription, now: i64) -> UserSubscription {
    if matured(sub, now) {
        UserSubscription { status: SubscriptionStatus::Cancelled, pending_until_ts: 0, ..sub }
    } else {
        sub
    }
}

/// Prices released from the pending bucket by refreshing `s` at `now`.
pub open spec fn released(s: Seq<UserSubscription>, now: i64) -> int
    decreases s.len(),
{
    if s.len() == 0 {
        0
    } else {
        (if matured(s[0], now) { s[0].monthly_price_usdc as int } else { 0 }) + released(s.skip(1), now)
    }
}

/// Whether position `k` holds the first subscription of `s` with id `id`.
pub open spec fn first_subscription(s: Seq<UserSubscription>, id: u64, k: int) -> bool {
    &&& 0 <= k < s.len()
    &&& s[k].id == id
    &&& forall|j: int| 0 <= j < k ==> #[trigger] s[j].id != id
}

/// Monthly spending allowance projected from principal and rate.
pub open spec fn monthly_budget(total_principal: u64, apy_bps: u16) -> int {
    ((total_principal as int * apy_bps as int) / (BASIS_POINTS_DIVISOR as int)) / 12
}

/// The monthly spending allowance that `total_principal` staked at
/// `apy_bps` basis points a year projects.
pub fn compute_monthly_budget(total_principal: u64, apy_bps: u16) -> (r: Result<u64, ErrorCode>)
    ensures
        r == Ok::<u64, ErrorCode>(monthly_budget(total_principal, apy_bps) as u64),
        monthly_budget(total_principal, apy_bps) <= total_principal,
{
    if total_principal == 0 || apy_bps == 0 {
        return Ok(0);
    }
    let p = total_principal as u128;
    let a = apy_bps as u128;
    assert(p * a <= 0xffff_ffff_ffff_ffffu128 * 0xffffu128) by (nonlinear_arith)
        requires p <= 0xffff_ffff_ffff_ffffu128, a <= 0xffffu128;
    let annual = (p * a) / (BASIS_POINTS_DIVISOR as u128);
    let monthly = annual / 12;
    assert(monthly * 120_000 <= p * a) by (nonlinear_arith)
        requires annual == (p * a) / 10_000, monthly == annual / 12, p * a >= 0;
    assert(p * a <= p * 0xffff) by (nonlinear_arith)
        requires a <= 0xffff, p >= 0;
    assert(monthly <= p) by (nonlinear_arith)
        requires monthly * 120_000 <= p * 0xffff, p >= 0, monthly >= 0;
    Ok(monthly as u64)
}

/// A subscriber's subscriptions, commitment counters and payout target.
#[derive(Clone, Debug)]
pub struct UserSubscriptions {
    pub owner: Pubkey,
    pub next_subscription_id: u64,
    pub total_active_commitment: u64,
    pub total_pending_commitment: u64,
    pub bump: u8,
    pub subscriptions: Vec<UserSubscription>,
    pub paypal_configured: bool,
    pub paypal_recipient_type: PayPalRecipientType,
    pub paypal_receiver: String,
}

/// Persisted size of a subscription.
pub const USER_SUBSCRIPTION_SIZE: usize = 8 + 8 + 8 + 8 + 8 + 8 + 8 + 1 + 1;

/// Persisted size of a subscriber ledger without subscriptions or receiver.
pub const USER_SUBSCRIPTIONS_BASE_SIZE: usize = 8 + 32 + 8 + 8 + 8 + 1 + 4 + 1 + 1 + 4;

/// Number of subscriptions a fresh ledger has room for.
pub const INITIAL_SUBSCRIPTION_CAPACITY: usize = 8;

impl UserSubscriptions {
    /// The counters equal the sums over the subscriptions in each status,
    /// and subscription ids are distinct and below the next id.
    pub open spec fn wf(&self) -> bool {
        &&& self.total_active_commitment == committed(self.subscriptions@, SubscriptionStatus::Active)
        &&& self.total_pending_commitment == committed(self.subscriptions@, SubscriptionStatus::PendingCancellation)
        &&& forall|i: int| 0 <= i < self.subscriptions@.len()
            ==> #[trigger] self.subscriptions@[i].id < self.next_subscription_id
        &&& forall|i: int, j: int| 0 <= i < j < self.subscriptions@.len()
            ==> #[trigger] self.subscriptions@[i].id != #[trigger] self.subscriptions@[j].id
    }

    /// Fields other than the subscriptions and the counters.
    pub open spec fn same_identity(&self, other: &UserSubscriptions) -> bool {
        &&& self.owner == other.owner
        &&& self.next_subscription_id == other.next_subscription_id
        &&& self.bump == other.bump
        &&& self.paypal_configured == other.paypal_configured
        &&& self.paypal_recipient_type == other.paypal_recipient_type
        &&& self.paypal_receiver == other.paypal_receiver
    }

    /// An empty ledger owned by nobody yet.
    pub fn empty() -> (r: UserSubscriptions)
        ensures
            r.owner.is_zero_spec(),
            r.subscriptions@.len() == 0,
            !r.paypal_configured,
            r.wf(),
    {
        UserSubscriptions {
            owner: Pubkey::zero(),
            next_subscription_id: 0,
            total_active_commitment: 0,
            total_pending_commitment: 0,
            bump: 0,
            subscriptions: Vec::new(),
            paypal_configured: false,
            paypal_recipient_type: PayPalRecipientType::Email,
            paypal_receiver: String::new(),
        }
    }

    /// Claims an unowned ledger for `owner`, resetting it; an owned ledger is
    /// left as it is.
    pub fn ensure_owner(&mut self, owner: Pubkey, bump: u8)
        ensures
            old(self).owner.is_zero_spec() ==> final(self).owner == owner && final(self).bump == bump
                && final(self).next_subscription_id == 0 && final(self).total_active_commitment == 0
                && final(self).total_pending_commitment == 0 && final(self).subscriptions@.len() == 0
                && !final(self).paypal_configured,
            !old(self).owner.is_zero_spec() ==> *final(self) == *old(self),
            old(self).wf() ==> final(self).wf(),
    {
        if self.owner.is_zero() {
            self.owner = owner;
            self.bump = bump;
            self.next_subscription_id = 0;
            self.total_active_commitment = 0;
            self.total_pending_commitment = 0;
            self.subscriptions = Vec::new();
            self.paypal_configured = false;
            self.paypal_receiver = String::new();
        }
    }

    /// A copy of the ledger, subscription by subscription.
    pub fn duplicate(&self) -> (r: UserSubscriptions)
        ensures
            r.subscriptions@ == self.subscriptions@,
            r.total_active_commitment == self.total_active_commitment,
            r.total_pending_commitment == self.total_pending_commitment,
            r.same_identity(self),
    {
        let mut subscriptions: Vec<UserSubscription> = Vec::new();
        let n = self.subscriptions.len();
        let mut i: usize = 0;
        while i < n
            invariant
                n == self.subscriptions@.len(),
                0 <= i <= n,
                subscriptions@ == self.subscriptions@.take(i as int),
            decreases n - i,
        {
            subscriptions.push(self.subscriptions[i]);
            i = i + 1;
            assert(subscriptions@ =~= self.subscriptions@.take(i as int));
        }
        assert(self.subscriptions@.take(n as int) =~= self.subscriptions@);
        UserSubscriptions {
            owner: self.owner,
            next_subscription_id: self.next_subscription_id,
            total_active_commitment: self.total_active_commitment,
            total_pending_commitment: self.total_pending_commitment,
            bump: self.bump,
            subscriptions,
            paypal_configured: self.paypal_configured,
            paypal_recipient_type: self.paypal_recipient_type,
            paypal_receiver: self.paypal_receiver.clone(),
        }
    }

    /// Persisted size of a ledger with `subscription_count` subscriptions and
    /// a receiver of `receiver_len` bytes.
    pub fn required_size(subscription_count: usize, receiver_len: usize) -> (r: usize)
        requires
            USER_SUBSCRIPTIONS_BASE_SIZE + subscription_count * USER_SUBSCRIPTION_SIZE + receiver_len <= usize::MAX,
        ensures
            r == USER_SUBSCRIPTIONS_BASE_SIZE + subscription_count * USER_SUBSCRIPTION_SIZE + receiver_len,
    {
        USER_SUBSCRIPTIONS_BASE_SIZE + subscription_count * USER_SUBSCRIPTION_SIZE + receiver_len
    }

    /// Byte length of the stored receiver.
    pub fn receiver_len(&self) -> (r: usize)
        ensures
            r == byte_len(self.paypal_receiver@),
    {
        self.paypal_receiver.as_str().len()
    }

    /// Stores a payout target as given.
    pub fn set_paypal_recipient(&mut self, recipient_type: PayPalRecipientType, receiver: String)
        ensures
            final(self).paypal_configured,
            final(self).paypal_recipient_type == recipient_type,
            final(self).paypal_receiver == receiver,
            final(self).owner == old(self).owner,
            final(self).subscriptions@ == old(self).subscriptions@,
            final(self).next_subscription_id == old(self).next_subscription_id,
            final(self).total_active_commitment == old(self).total_active_commitment,
            final(self).total_pending_commitment == old(self).total_pending_commitment,
            old(self).wf() ==> final(self).wf(),
    {
        self.paypal_configured = true;
        self.paypal_recipient_type = recipient_type;
        self.paypal_receiver = receiver;
    }

    /// Stores a payout target whose receiver is non-empty and at most
    /// `MAX_PAYPAL_RECEIVER_LEN` bytes; another is refused with
    /// `InvalidPayPalRecipientType`, changing nothing.
    pub fn register_paypal_recipient(&mut self, recipient_type: PayPalRecipientType, receiver: String) -> (r: Result<(), ErrorCode>)
        ensures
            r is Ok <==> receiver@.len() > 0 && byte_len(receiver@) <= MAX_PAYPAL_RECEIVER_LEN,
            r matches Err(e) ==> e == ErrorCode::InvalidPayPalRecipientType && *final(self) == *old(self),
            r is Ok ==> final(self).paypal_configured && final(self).paypal_recipient_type == recipient_type
                && final(self).paypal_receiver == receiver && final(self).owner == old(self).owner
                && final(self).subscriptions@ == old(self).subscriptions@,
            old(self).wf() ==> final(self).wf(),
    {
        if receiver.as_str().is_empty() {
            return Err(ErrorCode::InvalidPayPalRecipientType);
        }
        if receiver.as_str().len() > MAX_PAYPAL_RECEIVER_LEN {
            return Err(ErrorCode::InvalidPayPalRecipientType);
        }
        self.set_paypal_recipient(recipient_type, receiver);
        Ok(())
    }

    /// Ends the access of every cancelling subscription whose paid period is
    /// over at `now` and releases their prices from the pending bucket.
    /// All or nothing.
    pub fn refresh(&mut self, now: i64) -> (r: Result<(), ErrorCode>)
        ensures
            r is Err <==> released(old(self).subscriptions@, now) > old(self).total_pending_commitment,
            r matches Err(e) ==> e == ErrorCode::MathOverflow && *final(self) == *old(self),
            r is Ok ==> final(self).subscriptions@ == old(self).subscriptions@.map_values(|s: UserSubscription| refreshed(s, now))
                && final(self).total_pending_commitment == old(self).total_pending_commitment - released(old(self).subscriptions@, now)
                && final(self).total_active_commitment == old(self).total_active_commitment
                && final(self).same_identity(&*old(self)),
            old(self).wf() ==> r is Ok && final(self).wf(),
    {
        let ghost s = self.subscriptions@;
        let n = self.subscriptions.len();
        let mut out: Vec<UserSubscription> = Vec::new();
        let mut acc: u64 = 0;
        let mut i: usize = 0;
        assert(s.skip(0) =~= s);
        proof {
            lemma_released_bound(s, now);
        }
        while i < n
            invariant
                s == self.subscriptions@,
                n == s.len(),
                0 <= i <= n,
                out@.len() == i,
                forall|j: int| 0 <= j < i ==> out@[j] == refreshed(#[trigger] s[j], now),
                acc + released(s.skip(i as int), now) == released(s, now),
                released(s, now) <= committed(s, SubscriptionStatus::PendingCancellation),
                self.total_pending_commitment == old(self).total_pending_commitment,
                s == old(self).subscriptions@,
            decreases n - i,
        {
            let mut sub = self.subscriptions[i];
            proof {
                assert(s.skip(i as int).skip(1) =~= s.skip(i + 1));
                assert(s.skip(i as int)[0] == sub);
                lemma_released_nonneg(s.skip(i + 1), now);
            }
            if sub.status == SubscriptionStatus::PendingCancellation && sub.pending_until_ts > 0
                && now >= sub.pending_until_ts {
                sub.status = SubscriptionStatus::Cancelled;
                sub.pending_until_ts = 0;
                if acc > u64::MAX - sub.monthly_price_usdc {
                    return Err(ErrorCode::MathOverflow);
                }
                acc = acc + sub.monthly_price_usdc;
            }
            out.push(sub);
            i = i + 1;
        }
        if acc > self.total_pending_commitment {
            return Err(ErrorCode::MathOverflow);
        }
        proof {
            assert(out@ =~= s.map_values(|x: UserSubscription| refreshed(x, now)));
            lemma_refresh_commitments(s, now);
            assert forall|a: int| 0 <= a < out@.len() implies #[trigger] out@[a].id == s[a].id by {}
        }
        self.subscriptions = out;
        self.total_pending_commitment = self.total_pending_commitment - acc;
        Ok(())
    }

    /// Active plus pending commitments.
    pub fn total_committed(&self) -> (r: Result<u64, ErrorCode>)
        ensures
            r is Ok <==> self.total_active_commitment + self.total_pending_commitment <= u64::MAX,
            r matches Ok(v) ==> v == self.total_active_commitment + self.total_pending_commitment,
            r matches Err(e) ==> e == ErrorCode::MathOverflow,
    {
        if self.total_active_commitment > u64::MAX - self.total_pending_commitment {
            return Err(ErrorCode::MathOverflow);
        }
        Ok(self.total_active_commitment + self.total_pending_commitment)
    }

    /// Whether an active or cancelling subscription to the service exists.
    pub fn has_active_or_pending_for_service(&self, service_id: u64) -> (r: bool)
        ensures
            r == exists|i: int| 0 <= i < self.subscriptions@.len()
                && (#[trigger] self.subscriptions@[i]).service_id == service_id
                && self.subscriptions@[i].status != SubscriptionStatus::Cancelled,
    {
        let n = self.subscriptions.len();
        let mut i: usize = 0;
        while i < n
            invariant
                n == self.subscriptions@.len(),
                0 <= i <= n,
                forall|j: int| 0 <= j < i ==> !((#[trigger] self.subscriptions@[j]).service_id == service_id
                    && self.subscriptions@[j].status != SubscriptionStatus::Cancelled),
            decreases n - i,
        {
            let sub = self.subscriptions[i];
            if sub.service_id == service_id && (sub.status == SubscriptionStatus::Active
                || sub.status == SubscriptionStatus::PendingCancellation) {
                return true;
            }
            i = i + 1;
        }
        false
    }

    /// Appends an active subscription to the service at `monthly_price`,
    /// first billed one period after `now`; returns its id. All or nothing.
    pub fn record_subscription(&mut self, service_id: u64, monthly_price: u64, now: i64, billing_period: i64) -> (r: Result<u64, ErrorCode>)
        ensures
            r is Err <==> !(i64::MIN <= now + billing_period <= i64::MAX)
                || old(self).total_active_commitment + monthly_price > u64::MAX
                || old(self).next_subscription_id == u64::MAX,
            r matches Err(e) ==> e == ErrorCode::MathOverflow && *final(self) == *old(self),
            r matches Ok(id) ==> id == old(self).next_subscription_id
                && final(self).subscriptions@ == old(self).subscriptions@.push(UserSubscription {
                    id,
                    service_id,
                    monthly_price_usdc: monthly_price,
                    started_at: now,
                    last_payment_ts: now,
                    next_billing_ts: (now + billing_period) as i64,
                    pending_until_ts: 0,
                    status: SubscriptionStatus::Active,
                    initial_payment_recorded: false,
                })
                && final(self).total_active_commitment == old(self).total_active_commitment + monthly_price
                && final(self).total_pending_commitment == old(self).total_pending_commitment
                && final(self).next_subscription_id == old(self).next_subscription_id + 1
                && final(self).owner == old(self).owner
                && final(self).paypal_configured == old(self).paypal_configured
                && final(self).paypal_receiver == old(self).paypal_receiver
                && final(self).paypal_recipient_type == old(self).paypal_recipient_type,
            old(self).wf() ==> final(self).wf(),
    {
        let next_billing_ts = match now.checked_add(billing_period) {
            Some(v) => v,
            None => return Err(ErrorCode::MathOverflow),
        };
        if self.total_active_commitment > u64::MAX - monthly_price {
            return Err(ErrorCode::MathOverflow);
        }
        if self.next_subscription_id == u64::MAX {
            return Err(ErrorCode::MathOverflow);
        }
        let id = self.next_subscription_id;
        let subscription = UserSubscription {
            id,
            service_id,
            monthly_price_usdc: monthly_price,
            started_at: now,
            last_payment_ts: now,
            next_billing_ts,
            pending_until_ts: 0,
            status: SubscriptionStatus::Active,
            initial_payment_recorded: false,
        };
        proof {
            lemma_committed_push(self.subscriptions@, subscription, SubscriptionStatus::Active);
            lemma_committed_push(self.subscriptions@, subscription, SubscriptionStatus::PendingCancellation);
        }
        self.subscriptions.push(subscription);
        self.total_active_commitment = self.total_active_commitment + monthly_price;
        self.next_subscription_id = self.next_subscription_id + 1;
        Ok(id)
    }

    /// Position of the first subscription with the given id.
    pub fn find_subscription(&self, subscription_id: u64) -> (r: Option<usize>)
        ensures
            r matches Some(k) ==> first_subscription(self.subscriptions@, subscription_id, k as int),
            r is None ==> forall|j: int| 0 <= j < self.subscriptions@.len()
                ==> #[trigger] self.subscriptions@[j].id != subscription_id,
    {
        let n = self.subscriptions.len();
        let mut i: usize = 0;
        while i < n
            invariant
                n == self.subscriptions@.len(),
                0 <= i <= n,
                forall|j: int| 0 <= j < i ==> #[trigger] self.subscriptions@[j].id != subscription_id,
            decreases n - i,
        {
            if self.subscriptions[i].id == subscription_id {
                return Some(i);
            }
            i = i + 1;
        }
        None
    }
}

/// What cancelling subscription `k` of the list `s`, with counters `active`
/// and `pending`, at `now` yields: the service, the price moved to the
/// pending bucket, and the end of paid access.
pub open spec fn cancellation_outcome(
    s: Seq<UserSubscription>,
    active: u64,
    pending: u64,
    k: int,
    now: i64,
    billing_period: i64,
    r: Result<(u64, u64, i64), ErrorCode>,
    new: UserSubscriptions,
) -> bool {
    let sub = s[k];
    let until = if sub.next_billing_ts > now { sub.next_billing_ts as int } else { now + billing_period };
    if sub.status != SubscriptionStatus::Active {
        r == Err::<(u64, u64, i64), ErrorCode>(ErrorCode::SubscriptionNotActive)
    } else if active < sub.monthly_price_usdc || until > i64::MAX || until < i64::MIN
        || pending + sub.monthly_price_usdc > u64::MAX {
        r == Err::<(u64, u64, i64), ErrorCode>(ErrorCode::MathOverflow)
    } else {
        &&& r == Ok::<(u64, u64, i64), ErrorCode>((sub.service_id, sub.monthly_price_usdc, until as i64))
        &&& new.subscriptions@ == s.update(k, UserSubscription {
            status: SubscriptionStatus::PendingCancellation,
            pending_until_ts: until as i64,
            ..sub
        })
        &&& new.total_active_commitment == active - sub.monthly_price_usdc
        &&& new.total_pending_commitment == pending + sub.monthly_price_usdc
    }
}

/// What recording a payment at `paid_ts` for subscription `k` of `old` yields.
pub open spec fn payment_outcome(
    old: UserSubscriptions,
    k: int,
    paid_ts: i64,
    billing_period: i64,
    r: Result<SubscriptionStatus, ErrorCode>,
    new: UserSubscriptions,
) -> bool {
    let sub = old.subscriptions@[k];
    if sub.status == SubscriptionStatus::Cancelled {
        r == Err::<SubscriptionStatus, ErrorCode>(ErrorCode::SubscriptionNotPayable)
    } else if sub.next_billing_ts + billing_period > i64::MAX || sub.next_billing_ts + billing_period < i64::MIN {
        r == Err::<SubscriptionStatus, ErrorCode>(ErrorCode::MathOverflow)
    } else {
        &&& r == Ok::<SubscriptionStatus, ErrorCode>(sub.status)
        &&& new.subscriptions@ == old.subscriptions@.update(k, UserSubscription {
            last_payment_ts: paid_ts,
            next_billing_ts: (sub.next_billing_ts + billing_period) as i64,
            initial_payment_recorded: true,
            ..sub
        })
        &&& new.total_active_commitment == old.total_active_commitment
        &&& new.total_pending_commitment == old.total_pending_commitment
        &&& new.same_identity(&old)
    }
}

impl UserSubscriptions {
    /// Starts cancelling an active subscription: its price moves from the
    /// active to the pending bucket and access lasts until the already
    /// committed billing date, or one period from `now` if that has passed.
    /// Returns the service, the price and the end of access.
    pub fn begin_cancellation(&mut self, subscription_id: u64, now: i64, billing_period: i64) -> (r: Result<(u64, u64, i64), ErrorCode>)
        ensures
            (forall|j: int| 0 <= j < old(self).subscriptions@.len() ==> #[trigger] old(self).subscriptions@[j].id != subscription_id)
                ==> r == Err::<(u64, u64, i64), ErrorCode>(ErrorCode::SubscriptionNotFound),
            forall|k: int| #[trigger] first_subscription(old(self).subscriptions@, subscription_id, k)
                ==> cancellation_outcome(old(self).subscriptions@, old(self).total_active_commitment,
                    old(self).total_pending_commitment, k, now, billing_period, r, *final(self)),
            final(self).same_identity(&*old(self)),
            r is Err ==> *final(self) == *old(self),
            old(self).wf() ==> final(self).wf(),
    {
        let k = match self.find_subscription(subscription_id) {
            Some(k) => k,
            None => return Err(ErrorCode::SubscriptionNotFound),
        };
        proof {
            lemma_first_subscription_unique(self.subscriptions@, subscription_id, k as int);
        }
        let mut sub = self.subscriptions[k];
        if sub.status != SubscriptionStatus::Active {
            return Err(ErrorCode::SubscriptionNotActive);
        }
        if self.total_active_commitment < sub.monthly_price_usdc {
            return Err(ErrorCode::MathOverflow);
        }
        let pending_until = if sub.next_billing_ts > now {
            sub.next_billing_ts
        } else {
            match now.checked_add(billing_period) {
                Some(v) => v,
                None => return Err(ErrorCode::MathOverflow),
            }
        };
        if self.total_pending_commitment > u64::MAX - sub.monthly_price_usdc {
            return Err(ErrorCode::MathOverflow);
        }
        let ghost prior = sub;
        sub.status = SubscriptionStatus::PendingCancellation;
        sub.pending_until_ts = pending_until;
        proof {
            lemma_committed_update(self.subscriptions@, k as int, sub, SubscriptionStatus::Active);
            lemma_committed_update(self.subscriptions@, k as int, sub, SubscriptionStatus::PendingCancellation);
        }
        self.subscriptions.set(k, sub);
        self.total_active_commitment = self.total_active_commitment - sub.monthly_price_usdc;
        self.total_pending_commitment = self.total_pending_commitment + sub.monthly_price_usdc;
        Ok((sub.service_id, sub.monthly_price_usdc, pending_until))
    }

    /// Records a payment at `paid_ts` for an active or cancelling
    /// subscription: the payment time is stored and the next billing date
    /// moves one period on. Returns the subscription's status.
    pub fn record_payment(&mut self, subscription_id: u64, paid_ts: i64, billing_period: i64) -> (r: Result<SubscriptionStatus, ErrorCode>)
        ensures
            (forall|j: int| 0 <= j < old(self).subscriptions@.len() ==> #[trigger] old(self).subscriptions@[j].id != subscription_id)
                ==> r == Err::<SubscriptionStatus, ErrorCode>(ErrorCode::SubscriptionNotFound),
            forall|k: int| #[trigger] first_subscription(old(self).subscriptions@, subscription_id, k)
                ==> payment_outcome(*old(self), k, paid_ts, billing_period, r, *final(self)),
            r is Err ==> *final(self) == *old(self),
            old(self).wf() ==> final(self).wf(),
    {
        let k = match self.find_subscription(subscription_id) {
            Some(k) => k,
            None => return Err(ErrorCode::SubscriptionNotFound),
        };
        proof {
            lemma_first_subscription_unique(self.subscriptions@, subscription_id, k as int);
        }
        let mut sub = self.subscriptions[k];
        if sub.status == SubscriptionStatus::Cancelled {
            return Err(ErrorCode::SubscriptionNotPayable);
        }
        let next = match sub.next_billing_ts.checked_add(billing_period) {
            Some(v) => v,
            None => return Err(ErrorCode::MathOverflow),
        };
        sub.last_payment_ts = paid_ts;
        sub.next_billing_ts = next;
        sub.initial_payment_recorded = true;
        proof {
            lemma_committed_update(self.subscriptions@, k as int, sub, SubscriptionStatus::Active);
            lemma_committed_update(self.subscriptions@, k as int, sub, SubscriptionStatus::PendingCancellation);
        }
        self.subscriptions.set(k, sub);
        Ok(sub.status)
    }
}

pub proof fn lemma_first_subscription_unique(s: Seq<UserSubscription>, id: u64, k: int)
    requires
        first_subscription(s, id, k),
    ensures
        forall|k2: int| #[trigger] first_subscription(s, id, k2) ==> k2 == k,
{
    assert forall|k2: int| #[trigger] first_subscription(s, id, k2) implies k2 == k by {
        if k2 < k {
            assert(s[k2].id != id);
        } else if k2 > k {
            assert(s[k].id != id);
        }
    }
}

pub proof fn lemma_released_nonneg(s: Seq<UserSubscription>, now: i64)
    ensures
        released(s, now) >= 0,
    decreases s.len(),
{
    if s.len() > 0 {
        lemma_released_nonneg(s.skip(1), now);
    }
}

/// What a refresh releases is part of what is pending.
pub proof fn lemma_released_bound(s: Seq<UserSubscription>, now: i64)
    ensures
        released(s, now) <= committed(s, SubscriptionStatus::PendingCancellation),
    decreases s.len(),
{
    if s.len() > 0 {
        lemma_released_bound(s.skip(1), now);
    }
}

pub proof fn lemma_committed_push(s: Seq<UserSubscription>, x: UserSubscription, st: SubscriptionStatus)
    ensures
        committed(s.push(x), st) == committed(s, st) + commitment(x, st),
    decreases s.len(),
{
    if s.len() == 0 {
        assert(s.push(x).skip(1) =~= s);
    } else {
        assert(s.push(x).skip(1) =~= s.skip(1).push(x));
        lemma_committed_push(s.skip(1), x, st);
    }
}

pub proof fn lemma_committed_update(s: Seq<UserSubscription>, i: int, x: UserSubscription, st: SubscriptionStatus)
    requires
        0 <= i < s.len(),
    ensures
        committed(s.update(i, x), st) == committed(s, st) - commitment(s[i], st) + commitment(x, st),
    decreases s.len(),
{
    if i == 0 {
        assert(s.update(i, x).skip(1) =~= s.skip(1));
    } else {
        assert(s.update(i, x).skip(1) =~= s.skip(1).update(i - 1, x));
        lemma_committed_update(s.skip(1), i - 1, x, st);
    }
}

/// Refreshing moves exactly the released prices out of the pending bucket
/// and leaves the active bucket as it was.
pub proof fn lemma_refresh_commitments(s: Seq<UserSubscription>, now: i64)
    ensures
        committed(s.map_values(|x: UserSubscription| refreshed(x, now)), SubscriptionStatus::PendingCancellation)
            == committed(s, SubscriptionStatus::PendingCancellation) - released(s, now),
        committed(s.map_values(|x: UserSubscription| refreshed(x, now)), SubscriptionStatus::Active)
            == committed(s, SubscriptionStatus::Active),
    decreases s.len(),
{
    if s.len() > 0 {
        lemma_refresh_commitments(s.skip(1), now);
        let m = s.map_values(|x: UserSubscription| refreshed(x, now));
        assert(m.skip(1) =~= s.skip(1).map_values(|x: UserSubscription| refreshed(x, now)));
    }
}

/// Cancelling a subscription before its next billing date keeps its paid
/// access until that date: it stays cancelling, and a refresh at any moment
/// before the date leaves it as it is; a refresh at exactly that date ends
/// it and takes it out of the pending bucket.
pub proof fn cancellation_keeps_paid_access(
    s: Seq<UserSubscription>,
    active: u64,
    pending: u64,
    k: int,
    now: i64,
    billing_period: i64,
    r: Result<(u64, u64, i64), ErrorCode>,
    new: UserSubscriptions,
    t: i64,
)
    requires
        0 <= k < s.len(),
        cancellation_outcome(s, active, pending, k, now, billing_period, r, new),
        r is Ok,
        s[k].next_billing_ts > now,
        s[k].next_billing_ts > 0,
    ensures
        new.subscriptions@[k].pending_until_ts == s[k].next_billing_ts,
        new.subscriptions@[k].status == SubscriptionStatus::PendingCancellation,
        t < s[k].next_billing_ts ==> refreshed(new.subscriptions@[k], t) == new.subscriptions@[k],
        refreshed(new.subscriptions@[k], s[k].next_billing_ts).status == SubscriptionStatus::Cancelled,
        commitment(refreshed(new.subscriptions@[k], s[k].next_billing_ts), SubscriptionStatus::PendingCancellation) == 0,
{
}

/// A refresh at the moment one cancelling subscription's paid access ends,
/// when no other subscription ends then, releases exactly that
/// subscription's price from the pending bucket.
pub proof fn refresh_releases_exactly_the_price(s: Seq<UserSubscription>, k: int, now: i64)
    requires
        0 <= k < s.len(),
        matured(s[k], now),
        forall|j: int| 0 <= j < s.len() && j != k ==> !matured(#[trigger] s[j], now),
    ensures
        released(s, now) == s[k].monthly_price_usdc,
    decreases s.len(),
{
    if k == 0 {
        lemma_released_none(s.skip(1), now);
    } else {
        assert forall|j: int| 0 <= j < s.skip(1).len() && j != k - 1 implies !matured(#[trigger] s.skip(1)[j], now) by {
            assert(s.skip(1)[j] == s[j + 1]);
        }
        refresh_releases_exactly_the_price(s.skip(1), k - 1, now);
    }
}

pub proof fn lemma_released_none(s: Seq<UserSubscription>, now: i64)
    requires
        forall|j: int| 0 <= j < s.len() ==> !matured(#[trigger] s[j], now),
    ensures
        released(s, now) == 0,
    decreases s.len(),
{
    if s.len() > 0 {
        assert forall|j: int| 0 <= j < s.skip(1).len() implies !matured(#[trigger] s.skip(1)[j], now) by {
            assert(s.skip(1)[j] == s[j + 1]);
        }
        lemma_released_none(s.skip(1), now);
    }
}

} // verus!
