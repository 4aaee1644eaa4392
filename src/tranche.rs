use vstd::prelude::*;

use crate::constants::INDEX_SCALE;
use crate::error::ErrorCode;

verus! {

/// One locked deposit with its own lock timer and yield checkpoint.
#[derive(Clone, Copy, Debug)]
pub struct StakeEntry {
    pub tranche_id: u64,
    pub principal: u64,
    pub deposited_at: i64,
    pub lock_end_ts: i64,
    pub lock_duration: i64,
    pub start_acc_index: u128,
    pub last_acc_index: u128,
    pub claimed_operator: u64,
    pub claimed_user: u64,
    pub unrealized_yield: u64,
}

/// Who draws yield from a tranche: the operator (no lock restriction) or the
/// depositor, the subscriber (only once the lock has ended).
#[derive(Clone, Copy, Debug, PartialEq, Eq, Structural)]
pub enum Claimant {
    Operator,
    Subscriber,
}

/// Yield that syncing `e` to `acc_index` settles.
pub open spec fn sync_accrual(e: StakeEntry, acc_index: u128) -> int {
    if acc_index <= e.last_acc_index || e.principal == 0 {
        0
    } else {
        (e.principal * (acc_index - e.last_acc_index)) / (INDEX_SCALE as int)
    }
}

/// Whether syncing `e` to `acc_index` cannot be represented.
pub open spec fn sync_overflows(e: StakeEntry, acc_index: u128) -> bool {
    acc_index > e.last_acc_index && e.principal != 0 && (
        e.principal * (acc_index - e.last_acc_index) > u128::MAX
        || sync_accrual(e, acc_index) > u64::MAX
        || e.unrealized_yield + sync_accrual(e, acc_index) > u64::MAX)
}

/// The tranche after syncing it to `acc_index` (where that does not overflow).
pub open spec fn synced(e: StakeEntry, acc_index: u128) -> StakeEntry {
    if acc_index <= e.last_acc_index || e.principal == 0 {
        e
    } else {
        StakeEntry {
            unrealized_yield: (e.unrealized_yield + sync_accrual(e, acc_index)) as u64,
            last_acc_index: acc_index,
            ..e
        }
    }
}

/// Total yield the tranche has produced: paid to either claimant or still
/// waiting to be claimed.
pub open spec fn generated(e: StakeEntry) -> int {
    e.claimed_operator + e.claimed_user + e.unrealized_yield
}

/// Yield the claimant may draw from `e` at `now`.
pub open spec fn available_to(e: StakeEntry, who: Claimant, now: i64) -> int {
    if who == Claimant::Subscriber && now < e.lock_end_ts {
        0
    } else {
        e.unrealized_yield as int
    }
}

/// How much a claim of `amount` takes from `e`; zero asks for everything.
pub open spec fn claim_take(e: StakeEntry, amount: u64) -> int {
    let want = if amount == 0 { e.unrealized_yield } else { amount };
    if want <= e.unrealized_yield { want as int } else { e.unrealized_yield as int }
}

/// Why a claim of `amount` on `e` at `now` is refused, if it is.
pub open spec fn claim_error(e: StakeEntry, who: Claimant, now: i64, amount: u64) -> Option<ErrorCode> {
    if who == Claimant::Subscriber && now < e.lock_end_ts {
        Some(ErrorCode::StakeLocked)
    } else if claim_take(e, amount) > 0 && (
        (who == Claimant::Operator && e.claimed_operator + claim_take(e, amount) > u64::MAX)
        || (who == Claimant::Subscriber && e.claimed_user + claim_take(e, amount) > u64::MAX)) {
        Some(ErrorCode::MathOverflow)
    } else {
        None
    }
}

/// The tranche after the claimant took `take` of its unrealized yield.
pub open spec fn after_claim(e: StakeEntry, who: Claimant, take: int) -> StakeEntry {
    if who == Claimant::Operator {
        StakeEntry {
            unrealized_yield: (e.unrealized_yield - take) as u64,
            claimed_operator: (e.claimed_operator + take) as u64,
            ..e
        }
    } else {
        StakeEntry {
            unrealized_yield: (e.unrealized_yield - take) as u64,
            claimed_user: (e.claimed_user + take) as u64,
            ..e
        }
    }
}

/// Why withdrawing the principal of `e` at `now` is refused, if it is.
pub open spec fn withdraw_error(e: StakeEntry, now: i64) -> Option<ErrorCode> {
    if now < e.lock_end_ts {
        Some(ErrorCode::StakeLocked)
    } else if e.principal == 0 {
        Some(ErrorCode::NothingToUnstake)
    } else if e.unrealized_yield != 0 {
        Some(ErrorCode::OutstandingYield)
    } else {
        None
    }
}

impl StakeEntry {
    /// A new tranche locked from `deposited_at` for `lock_duration` seconds,
    /// checkpointed at `start_acc_index`.
    pub fn new(
        tranche_id: u64,
        principal: u64,
        deposited_at: i64,
        lock_duration: i64,
        start_acc_index: u128,
    ) -> (r: Result<StakeEntry, ErrorCode>)
        ensures
            r is Ok <==> i64::MIN <= deposited_at + lock_duration <= i64::MAX,
            r matches Err(e) ==> e == ErrorCode::MathOverflow,
            r matches Ok(t) ==> t == (StakeEntry {
                tranche_id,
                principal,
                deposited_at,
                lock_end_ts: (deposited_at + lock_duration) as i64,
                lock_duration,
                start_acc_index,
                last_acc_index: start_acc_index,
                claimed_operator: 0,
                claimed_user: 0,
                unrealized_yield: 0,
            }),
    {
        let lock_end_ts = match deposited_at.checked_add(lock_duration) {
            Some(v) => v,
            None => return Err(ErrorCode::MathOverflow),
        };
        Ok(StakeEntry {
            tranche_id,
            principal,
            deposited_at,
            lock_end_ts,
            lock_duration,
            start_acc_index,
            last_acc_index: start_acc_index,
            claimed_operator: 0,
            claimed_user: 0,
            unrealized_yield: 0,
        })
    }

    /// Settles the yield earned since the checkpoint into `unrealized_yield`
    /// and moves the checkpoint to `acc_index`; returns the amount settled.
    pub fn sync_to_index(&mut self, acc_index: u128) -> (r: Result<u64, ErrorCode>)
        ensures
            r is Err <==> sync_overflows(*old(self), acc_index),
            r matches Ok(a) ==> a == sync_accrual(*old(self), acc_index) && *final(self) == synced(*old(self), acc_index),
            r matches Err(e) ==> e == ErrorCode::MathOverflow && *final(self) == *old(self),
    {
        if acc_index <= self.last_acc_index || self.principal == 0 {
            return Ok(0);
        }
        let delta_index = acc_index - self.last_acc_index;
        let product = match (self.principal as u128).checked_mul(delta_index) {
            Some(v) => v,
            None => return Err(ErrorCode::MathOverflow),
        };
        let accrual = product / INDEX_SCALE;
        if accrual > u64::MAX as u128 {
            return Err(ErrorCode::MathOverflow);
        }
        let accrual_u64 = accrual as u64;
        if self.unrealized_yield > u64::MAX - accrual_u64 {
            return Err(ErrorCode::MathOverflow);
        }
        self.unrealized_yield = self.unrealized_yield + accrual_u64;
        self.last_acc_index = acc_index;
        Ok(accrual_u64)
    }

    /// Yield the operator may draw: all of it, whatever the lock.
    pub fn available_for_operator(&self) -> (r: u64)
        ensures
            r == available_to(*self, Claimant::Operator, 0),
    {
        self.unrealized_yield
    }

    /// Yield the depositor may draw at `now`: all of it once the lock has ended.
    pub fn available_for_user(&self, now: i64) -> (r: u64)
        ensures
            r == available_to(*self, Claimant::Subscriber, now),
    {
        if now >= self.lock_end_ts {
            self.unrealized_yield
        } else {
            0
        }
    }

    /// Takes up to `amount` (zero: everything) of the unrealized yield for
    /// `who`; returns the amount taken, which may be zero.
    pub fn claim(&mut self, who: Claimant, now: i64, amount: u64) -> (r: Result<u64, ErrorCode>)
        ensures
            r is Err <==> claim_error(*old(self), who, now, amount).is_some(),
            r matches Err(e) ==> Some(e) == claim_error(*old(self), who, now, amount) && *final(self) == *old(self),
            r matches Ok(t) ==> t == claim_take(*old(self), amount)
                && *final(self) == after_claim(*old(self), who, t as int),
    {
        if who == Claimant::Subscriber && now < self.lock_end_ts {
            return Err(ErrorCode::StakeLocked);
        }
        let want = if amount == 0 { self.unrealized_yield } else { amount };
        let take = if want <= self.unrealized_yield { want } else { self.unrealized_yield };
        if take == 0 {
            return Ok(0);
        }
        match who {
            Claimant::Operator => {
                if self.claimed_operator > u64::MAX - take {
                    return Err(ErrorCode::MathOverflow);
                }
                self.unrealized_yield = self.unrealized_yield - take;
                self.claimed_operator = self.claimed_operator + take;
            },
            Claimant::Subscriber => {
                if self.claimed_user > u64::MAX - take {
                    return Err(ErrorCode::MathOverflow);
                }
                self.unrealized_yield = self.unrealized_yield - take;
                self.claimed_user = self.claimed_user + take;
            },
        }
        Ok(take)
    }

    /// Operator claim: no lock restriction.
    pub fn claim_operator(&mut self, amount: u64) -> (r: Result<u64, ErrorCode>)
        ensures
            r is Err <==> claim_error(*old(self), Claimant::Operator, 0, amount).is_some(),
            r matches Err(e) ==> e == ErrorCode::MathOverflow && *final(self) == *old(self),
            r matches Ok(t) ==> t == claim_take(*old(self), amount)
                && *final(self) == after_claim(*old(self), Claimant::Operator, t as int),
    {
        self.claim(Claimant::Operator, 0, amount)
    }

    /// Depositor claim: refused with `StakeLocked` before the lock ends.
    pub fn claim_user(&mut self, now: i64, amount: u64) -> (r: Result<u64, ErrorCode>)
        ensures
            r is Err <==> claim_error(*old(self), Claimant::Subscriber, now, amount).is_some(),
            r matches Err(e) ==> Some(e) == claim_error(*old(self), Claimant::Subscriber, now, amount)
                && *final(self) == *old(self),
            r matches Ok(t) ==> t == claim_take(*old(self), amount)
                && *final(self) == after_claim(*old(self), Claimant::Subscriber, t as int),
    {
        self.claim(Claimant::Subscriber, now, amount)
    }

    pub fn ensure_no_unclaimed_yield(&self) -> (r: Result<(), ErrorCode>)
        ensures
            r is Ok <==> self.unrealized_yield == 0,
            r matches Err(e) ==> e == ErrorCode::OutstandingYield,
    {
        if self.unrealized_yield == 0 {
            Ok(())
        } else {
            Err(ErrorCode::OutstandingYield)
        }
    }

    /// Returns the whole principal and zeroes it; needs the lock to have
    /// ended, principal left, and no unclaimed yield.
    pub fn withdraw_principal(&mut self, now: i64) -> (r: Result<u64, ErrorCode>)
        ensures
            r is Err <==> withdraw_error(*old(self), now).is_some(),
            r matches Err(e) ==> Some(e) == withdraw_error(*old(self), now) && *final(self) == *old(self),
            r matches Ok(p) ==> p == old(self).principal && p > 0
                && *final(self) == (StakeEntry { principal: 0, ..*old(self) }),
    {
        if now < self.lock_end_ts {
            return Err(ErrorCode::StakeLocked);
        }
        if self.principal == 0 {
            return Err(ErrorCode::NothingToUnstake);
        }
        self.ensure_no_unclaimed_yield()?;
        let principal = self.principal;
        self.principal = 0;
        Ok(principal)
    }

    /// An all-zero tranche, marking an unused slot of a fixed-size table.
    pub fn zeroed() -> (r: StakeEntry)
        ensures
            r == zero_entry(),
    {
        StakeEntry {
            tranche_id: 0,
            principal: 0,
            deposited_at: 0,
            lock_end_ts: 0,
            lock_duration: 0,
            start_acc_index: 0,
            last_acc_index: 0,
            claimed_operator: 0,
            claimed_user: 0,
            unrealized_yield: 0,
        }
    }

    /// Clears the tranche to the all-zero slot.
    pub fn reset(&mut self)
        ensures
            *final(self) == zero_entry(),
    {
        *self = StakeEntry::zeroed();
    }

    /// Claimed by both parties plus still unclaimed.
    pub fn total_yield_generated(&self) -> (r: Result<u64, ErrorCode>)
        ensures
            r is Ok <==> generated(*self) <= u64::MAX,
            r matches Ok(v) ==> v == generated(*self),
            r matches Err(e) ==> e == ErrorCode::MathOverflow,
    {
        if self.claimed_operator > u64::MAX - self.claimed_user {
            return Err(ErrorCode::MathOverflow);
        }
        let claimed = self.claimed_operator + self.claimed_user;
        if claimed > u64::MAX - self.unrealized_yield {
            return Err(ErrorCode::MathOverflow);
        }
        Ok(claimed + self.unrealized_yield)
    }
}

/// The all-zero tranche.
pub open spec fn zero_entry() -> StakeEntry {
    StakeEntry {
        tranche_id: 0,
        principal: 0,
        deposited_at: 0,
        lock_end_ts: 0,
        lock_duration: 0,
        start_acc_index: 0,
        last_acc_index: 0,
        claimed_operator: 0,
        claimed_user: 0,
        unrealized_yield: 0,
    }
}

/// One tranche sync as the confidential engine performs it: a sync that
/// cannot be represented leaves the tranche as it was.
pub open spec fn sync_step(e: StakeEntry, acc_index: u128) -> StakeEntry {
    if sync_overflows(e, acc_index) { e } else { synced(e, acc_index) }
}

/// Syncing is idempotent: a second sync to the same index changes nothing
/// and settles nothing more; a sync that is carried out settles exactly
/// its accrual into the tranche's generated total.
pub proof fn sync_is_idempotent(e: StakeEntry, acc_index: u128)
    ensures
        sync_step(sync_step(e, acc_index), acc_index) == sync_step(e, acc_index),
        !sync_overflows(e, acc_index) ==> sync_accrual(synced(e, acc_index), acc_index) == 0,
        !sync_overflows(e, acc_index) ==> generated(synced(e, acc_index)) == generated(e) + sync_accrual(e, acc_index),
{
}

/// A claim never takes more than was asked for (when an amount is given)
/// nor more than the tranche holds unclaimed, and moves value between the
/// tranche's buckets without creating any: the generated total is unchanged.
pub proof fn claim_creates_no_value(e: StakeEntry, who: Claimant, now: i64, amount: u64)
    requires
        claim_error(e, who, now, amount).is_none(),
    ensures
        0 <= claim_take(e, amount) <= e.unrealized_yield,
        amount > 0 ==> claim_take(e, amount) <= amount,
        generated(after_claim(e, who, claim_take(e, amount))) == generated(e),
{
}

/// Withdrawing principal is refused with `OutstandingYield` whenever the
/// lock has ended, principal remains, and yield is still unclaimed.
pub proof fn withdraw_refused_while_yield_outstanding(e: StakeEntry, now: i64)
    requires
        e.unrealized_yield > 0,
    ensures
        withdraw_error(e, now).is_some(),
        now >= e.lock_end_ts && e.principal > 0 ==> withdraw_error(e, now) == Some(ErrorCode::OutstandingYield),
{
}

} // verus!
