use vstd::prelude::*;

use crate::accrual::{accrue_overflows, accrued, SublyConfig};
use crate::constants::{lock_duration_for_index, lock_option};
use crate::error::ErrorCode;
use crate::keys::Pubkey;
use crate::position::{
    any_sync_overflows, claim_request, drain, drain_error, drain_taken, ledger_claim_creates_no_value, total_accrual,
    total_of, Measure, UserStake,
};
use crate::tranche::{synced, withdraw_error, Claimant, StakeEntry};

verus! {

/// The tranches of `s` synced to `acc_index`.
pub open spec fn synced_entries(s: Seq<StakeEntry>, acc_index: u128) -> Seq<StakeEntry> {
    s.map_values(|e: StakeEntry| synced(e, acc_index))
}

/// Whether syncing the tranches of `s` to `acc_index` is refused.
pub open spec fn sync_fails(s: Seq<StakeEntry>, acc_index: u128) -> bool {
    any_sync_overflows(s, acc_index) || total_accrual(s, acc_index) > u64::MAX
}

/// The tranche a stake of `amount` opens.
pub open spec fn opened_tranche(id: u64, amount: u64, now: i64, duration: i64, acc_index: u128) -> StakeEntry {
    StakeEntry {
        tranche_id: id,
        principal: amount,
        deposited_at: now,
        lock_end_ts: (now + duration) as i64,
        lock_duration: duration,
        start_acc_index: acc_index,
        last_acc_index: acc_index,
        claimed_operator: 0,
        claimed_user: 0,
        unrealized_yield: 0,
    }
}

/// Why staking is refused, if it is, in the order the checks are made.
pub open spec fn stake_error(c: SublyConfig, p: UserStake, user: Pubkey, amount: u64, option: u8, now: i64) -> Option<ErrorCode> {
    let c1 = accrued(c, now);
    let duration = lock_option(option as int)->0;
    if amount == 0 {
        Some(ErrorCode::AmountTooSmall)
    } else if lock_option(option as int) is None {
        Some(ErrorCode::InvalidLockOption)
    } else if c.paused {
        Some(ErrorCode::ProgramPaused)
    } else if accrue_overflows(c, now) {
        Some(ErrorCode::MathOverflow)
    } else if p.owner@ != user@ {
        Some(ErrorCode::InvalidPositionOwner)
    } else if sync_fails(p.entries@, c1.acc_index) {
        Some(ErrorCode::MathOverflow)
    } else if c1.total_principal + amount > u64::MAX {
        Some(ErrorCode::MathOverflow)
    } else if !(i64::MIN <= now + duration <= i64::MAX) || p.total_principal + amount > u64::MAX
        || p.next_tranche_id == u64::MAX {
        Some(ErrorCode::MathOverflow)
    } else {
        None
    }
}

/// Locks `amount` for the lock option's duration in a new tranche of the
/// depositor's ledger, after accruing the index and syncing the ledger to
/// it; the ledger's and the global principal grow together. Returns the new
/// tranche's id. All or nothing; the value transfer backing the deposit is
/// the caller's.
pub fn stake(config: &mut SublyConfig, position: &mut UserStake, user: Pubkey, amount: u64, lock_option: u8, now: i64) -> (r: Result<u64, ErrorCode>)
    ensures
        r is Err <==> stake_error(*old(config), *old(position), user, amount, lock_option, now).is_some(),
        r matches Err(e) ==> Some(e) == stake_error(*old(config), *old(position), user, amount, lock_option, now)
            && *final(config) == *old(config) && *final(position) == *old(position),
        r matches Ok(id) ==> {
            let c1 = accrued(*old(config), now);
            &&& *final(config) == (SublyConfig { total_principal: (c1.total_principal + amount) as u64, ..c1 })
            &&& id == old(position).next_tranche_id
            &&& final(position).entries@ == synced_entries(old(position).entries@, c1.acc_index).push(
                opened_tranche(id, amount, now, crate::constants::lock_option(lock_option as int)->0, c1.acc_index))
            &&& final(position).total_principal == old(position).total_principal + amount
            &&& final(position).next_tranche_id == old(position).next_tranche_id + 1
            &&& final(position).last_updated_ts == now
            &&& final(position).owner == old(position).owner
        },
        old(position).wf() ==> final(position).wf(),
{
    if amount == 0 {
        return Err(ErrorCode::AmountTooSmall);
    }
    let duration = match lock_duration_for_index(lock_option) {
        Some(d) => d,
        None => return Err(ErrorCode::InvalidLockOption),
    };
    config.ensure_active()?;
    let mut c = *config;
    c.accrue_to(now)?;
    if !position.owner.same_as(&user) {
        return Err(ErrorCode::InvalidPositionOwner);
    }
    let mut w = position.duplicate();
    w.sync_against_index(c.acc_index, now)?;
    if c.total_principal > u64::MAX - amount {
        return Err(ErrorCode::MathOverflow);
    }
    c.total_principal = c.total_principal + amount;
    let id = w.record_stake(amount, now, duration, c.acc_index)?;
    *config = c;
    *position = w;
    Ok(id)
}

/// What a claim of `amount` for `who` asks of the synced tranches: all
/// available when zero, else no more than is available.
pub open spec fn desired_claim(s1: Seq<StakeEntry>, who: Claimant, now: i64, amount: u64) -> int {
    let avail = claim_request(s1, who, now, 0);
    if amount == 0 || avail < amount { avail } else { amount as int }
}

/// Why a claim is refused once its caller is accepted, in the order they are tested.
pub open spec fn claim_error(c: SublyConfig, p: UserStake, who: Claimant, amount: u64, now: i64) -> Option<ErrorCode> {
    let c1 = accrued(c, now);
    let s1 = synced_entries(p.entries@, c1.acc_index);
    let desired = desired_claim(s1, who, now, amount);
    if accrue_overflows(c, now) || sync_fails(p.entries@, c1.acc_index) || claim_request(s1, who, now, 0) > u64::MAX {
        Some(ErrorCode::MathOverflow)
    } else if desired == 0 {
        Some(ErrorCode::NothingToClaim)
    } else if drain_error(s1, who, now, desired) is Some {
        drain_error(s1, who, now, desired)
    } else if drain_taken(s1, who, now, desired) == 0 {
        Some(ErrorCode::NothingToClaim)
    } else if c1.reward_pool < drain_taken(s1, who, now, desired) {
        Some(ErrorCode::InsufficientRewardPool)
    } else {
        None
    }
}

/// The states after a successful claim paying `claimed`.
pub open spec fn claim_applied(c: SublyConfig, p: UserStake, who: Claimant, amount: u64, now: i64, claimed: u64, config_after: SublyConfig, after: UserStake) -> bool {
    let c1 = accrued(c, now);
    let s1 = synced_entries(p.entries@, c1.acc_index);
    let desired = desired_claim(s1, who, now, amount);
    &&& claimed == drain_taken(s1, who, now, desired)
    &&& config_after == (SublyConfig { reward_pool: (c1.reward_pool - claimed) as u64, ..c1 })
    &&& after.entries@ == drain(s1, who, now, desired)
    &&& after.last_updated_ts == now
    &&& after.owner == p.owner
    &&& after.total_principal == p.total_principal
    &&& after.next_tranche_id == p.next_tranche_id
}

fn claim_yield(config: &mut SublyConfig, position: &mut UserStake, who: Claimant, amount: u64, now: i64) -> (r: Result<u64, ErrorCode>)
    ensures
        r is Err <==> claim_error(*old(config), *old(position), who, amount, now).is_some(),
        r matches Err(e) ==> Some(e) == claim_error(*old(config), *old(position), who, amount, now)
            && *final(config) == *old(config) && *final(position) == *old(position),
        r matches Ok(claimed) ==> claim_applied(*old(config), *old(position), who, amount, now, claimed, *final(config), *final(position))
            && claimed > 0 && (amount > 0 ==> claimed <= amount) && claimed <= old(config).reward_pool,
        old(position).wf() ==> final(position).wf(),
{
    let mut c = *config;
    c.accrue_to(now)?;
    let mut w = position.duplicate();
    w.sync_against_index(c.acc_index, now)?;
    proof {
        assert(w.entries@ =~= synced_entries(old(position).entries@, c.acc_index));
    }
    let available = match who {
        Claimant::Operator => w.available_yield_for_operator()?,
        Claimant::Subscriber => w.available_yield_for_user(now)?,
    };
    let desired = if amount == 0 || available < amount { available } else { amount };
    if desired == 0 {
        return Err(ErrorCode::NothingToClaim);
    }
    let ghost s1 = w.entries@;
    let claimed = w.claim_for(who, now, desired)?;
    if claimed == 0 {
        return Err(ErrorCode::NothingToClaim);
    }
    proof {
        ledger_claim_creates_no_value(s1, who, now, desired as int);
    }
    c.decrease_reward_pool(claimed)?;
    *config = c;
    *position = w;
    Ok(claimed)
}

/// The operator draws `amount` (zero: all) of the depositor's unrealized
/// yield, tranche by tranche in storage order, paid from the reward pool.
/// Only the configured authority may claim. The amount paid never exceeds
/// the amount asked for nor the pool. All or nothing; the transfer of the
/// payout is the caller's.
pub fn claim_operator(config: &mut SublyConfig, position: &mut UserStake, authority: Pubkey, amount: u64, now: i64) -> (r: Result<u64, ErrorCode>)
    ensures
        old(config).paused ==> r == Err::<u64, ErrorCode>(ErrorCode::ProgramPaused),
        !old(config).paused && authority@ != old(config).authority@ ==> r == Err::<u64, ErrorCode>(ErrorCode::UnauthorizedAuthority),
        !old(config).paused && authority@ == old(config).authority@ ==> (r is Err <==> claim_error(*old(config), *old(position), Claimant::Operator, amount, now).is_some()),
        !old(config).paused && authority@ == old(config).authority@ ==> (r matches Err(e) ==> Some(e) == claim_error(*old(config), *old(position), Claimant::Operator, amount, now)),
        r is Err ==> *final(config) == *old(config) && *final(position) == *old(position),
        r matches Ok(claimed) ==> claim_applied(*old(config), *old(position), Claimant::Operator, amount, now, claimed, *final(config), *final(position))
            && claimed > 0 && (amount > 0 ==> claimed <= amount) && claimed <= old(config).reward_pool,
        old(position).wf() ==> final(position).wf(),
{
    config.ensure_active()?;
    if !authority.same_as(&config.authority) {
        return Err(ErrorCode::UnauthorizedAuthority);
    }
    claim_yield(config, position, Claimant::Operator, amount, now)
}

/// The depositor draws `amount` (zero: all available) of yield from tranches
/// whose lock has ended, in storage order, paid from the reward pool; a
/// locked tranche reached before the request is met refuses the claim with
/// `StakeLocked`. All or nothing; the transfer of the payout is the caller's.
pub fn claim_user(config: &mut SublyConfig, position: &mut UserStake, user: Pubkey, amount: u64, now: i64) -> (r: Result<u64, ErrorCode>)
    ensures
        old(position).owner@ != user@ ==> r == Err::<u64, ErrorCode>(ErrorCode::InvalidPositionOwner),
        old(position).owner@ == user@ && old(config).paused ==> r == Err::<u64, ErrorCode>(ErrorCode::ProgramPaused),
        old(position).owner@ == user@ && !old(config).paused ==> (r is Err <==> claim_error(*old(config), *old(position), Claimant::Subscriber, amount, now).is_some()),
        old(position).owner@ == user@ && !old(config).paused ==> (r matches Err(e) ==> Some(e) == claim_error(*old(config), *old(position), Claimant::Subscriber, amount, now)),
        r is Err ==> *final(config) == *old(config) && *final(position) == *old(position),
        r matches Ok(claimed) ==> claim_applied(*old(config), *old(position), Claimant::Subscriber, amount, now, claimed, *final(config), *final(position))
            && claimed > 0 && (amount > 0 ==> claimed <= amount) && claimed <= old(config).reward_pool,
        old(position).wf() ==> final(position).wf(),
{
    if !position.owner.same_as(&user) {
        return Err(ErrorCode::InvalidPositionOwner);
    }
    config.ensure_active()?;
    claim_yield(config, position, Claimant::Subscriber, amount, now)
}

/// Adds `amount` to the reward pool; the transfer funding it is the caller's.
pub fn fund_rewards(config: &mut SublyConfig, amount: u64) -> (r: Result<(), ErrorCode>)
    ensures
        amount == 0 ==> r == Err::<(), ErrorCode>(ErrorCode::AmountTooSmall),
        amount > 0 ==> (r is Ok <==> old(config).reward_pool + amount <= u64::MAX),
        r matches Err(e) ==> (e == ErrorCode::AmountTooSmall || e == ErrorCode::MathOverflow) && *final(config) == *old(config),
        r is Ok ==> *final(config) == (SublyConfig { reward_pool: (old(config).reward_pool + amount) as u64, ..*old(config) }),
{
    if amount == 0 {
        return Err(ErrorCode::AmountTooSmall);
    }
    config.increase_reward_pool(amount)
}

/// Whether tranche `k` is the first of `s` with id `id`.
pub open spec fn first_tranche(s: Seq<StakeEntry>, id: u64, k: int) -> bool {
    &&& 0 <= k < s.len()
    &&& s[k].tranche_id == id
    &&& forall|j: int| 0 <= j < k ==> #[trigger] s[j].tranche_id != id
}

/// The outcome of unstaking tranche `k` (the first with the requested id)
/// once the index is accrued and the ledger synced.
pub open spec fn unstake_found(c: SublyConfig, p: UserStake, k: int, now: i64, r: Result<u64, ErrorCode>, config_after: SublyConfig, after: UserStake) -> bool {
    let c1 = accrued(c, now);
    let s1 = synced_entries(p.entries@, c1.acc_index);
    let e = s1[k];
    match withdraw_error(e, now) {
        Some(err) => r == Err::<u64, ErrorCode>(err),
        None => if p.total_principal < e.principal || c1.total_principal < e.principal {
            r == Err::<u64, ErrorCode>(ErrorCode::MathOverflow)
        } else {
            &&& r == Ok::<u64, ErrorCode>(e.principal)
            &&& config_after == (SublyConfig { total_principal: (c1.total_principal - e.principal) as u64, ..c1 })
            &&& after.entries@ == s1.update(k, StakeEntry { principal: 0, ..e })
            &&& after.total_principal == p.total_principal - e.principal
            &&& after.last_updated_ts == now
            &&& after.owner == p.owner
            &&& after.next_tranche_id == p.next_tranche_id
        },
    }
}

/// Returns the whole principal of one tranche, whose lock must have ended
/// and whose yield must all have been claimed; the ledger's and the global
/// principal fall together. All or nothing; the transfer is the caller's.
pub fn unstake(config: &mut SublyConfig, position: &mut UserStake, user: Pubkey, tranche_id: u64, now: i64) -> (r: Result<u64, ErrorCode>)
    ensures
        old(position).owner@ != user@ ==> r == Err::<u64, ErrorCode>(ErrorCode::InvalidPositionOwner),
        old(position).owner@ == user@ && old(config).paused ==> r == Err::<u64, ErrorCode>(ErrorCode::ProgramPaused),
        old(position).owner@ == user@ && !old(config).paused && (accrue_overflows(*old(config), now)
            || sync_fails(old(position).entries@, accrued(*old(config), now).acc_index))
            ==> r == Err::<u64, ErrorCode>(ErrorCode::MathOverflow),
        old(position).owner@ == user@ && !old(config).paused && !accrue_overflows(*old(config), now)
            && !sync_fails(old(position).entries@, accrued(*old(config), now).acc_index) ==> {
            &&& (forall|j: int| 0 <= j < old(position).entries@.len() ==> #[trigger] old(position).entries@[j].tranche_id != tranche_id)
                ==> r == Err::<u64, ErrorCode>(ErrorCode::InvalidTranche)
            &&& forall|k: int| #[trigger] first_tranche(old(position).entries@, tranche_id, k)
                ==> unstake_found(*old(config), *old(position), k, now, r, *final(config), *final(position))
        },
        r is Err ==> *final(config) == *old(config) && *final(position) == *old(position),
        old(position).wf() ==> final(position).wf(),
{
    if !position.owner.same_as(&user) {
        return Err(ErrorCode::InvalidPositionOwner);
    }
    config.ensure_active()?;
    let mut c = *config;
    c.accrue_to(now)?;
    let mut w = position.duplicate();
    w.sync_against_index(c.acc_index, now)?;
    let ghost s1 = w.entries@;
    proof {
        assert(s1 =~= synced_entries(old(position).entries@, c.acc_index));
        assert forall|k: int| #[trigger] first_tranche(old(position).entries@, tranche_id, k)
            implies first_tranche(s1, tranche_id, k) by {
            assert forall|j: int| 0 <= j < k implies #[trigger] s1[j].tranche_id != tranche_id by {
                assert(old(position).entries@[j].tranche_id != tranche_id);
            }
        }
    }
    let principal = w.unstake_tranche(tranche_id, now)?;
    if principal == 0 {
        return Err(ErrorCode::NothingToUnstake);
    }
    if c.total_principal < principal {
        return Err(ErrorCode::MathOverflow);
    }
    c.total_principal = c.total_principal - principal;
    *config = c;
    *position = w;
    Ok(principal)
}

/// A read-out of a depositor's ledger after syncing it.
#[derive(Clone, Copy, Debug)]
pub struct YieldSnapshot {
    pub owner: Pubkey,
    pub total_principal: u64,
    pub total_unrealized_yield: u64,
    pub total_generated_yield: u64,
    pub operator_claimed: u64,
    pub user_claimed: u64,
    pub tranche_count: u32,
    pub last_updated_ts: i64,
}

/// Accrues the index, syncs the depositor's ledger to it, and reports the
/// ledger's totals. The sync is kept; on refusal nothing changes.
pub fn sync_yield(config: &mut SublyConfig, position: &mut UserStake, user: Pubkey, now: i64) -> (r: Result<YieldSnapshot, ErrorCode>)
    ensures
        old(position).owner@ != user@ ==> r == Err::<YieldSnapshot, ErrorCode>(ErrorCode::InvalidPositionOwner),
        old(position).owner@ == user@ && old(config).paused ==> r == Err::<YieldSnapshot, ErrorCode>(ErrorCode::ProgramPaused),
        old(position).owner@ == user@ && !old(config).paused ==> (r is Err <==> {
            let c1 = accrued(*old(config), now);
            let s1 = synced_entries(old(position).entries@, c1.acc_index);
            accrue_overflows(*old(config), now) || sync_fails(old(position).entries@, c1.acc_index)
                || total_of(s1, Measure::Unrealized) > u64::MAX || total_of(s1, Measure::Generated) > u64::MAX
                || total_of(s1, Measure::ClaimedOperator) > u64::MAX || total_of(s1, Measure::ClaimedUser) > u64::MAX
        }),
        r is Err ==> *final(config) == *old(config) && *final(position) == *old(position),
        r matches Ok(snap) ==> {
            let c1 = accrued(*old(config), now);
            let s1 = synced_entries(old(position).entries@, c1.acc_index);
            &&& *final(config) == c1
            &&& final(position).entries@ == s1
            &&& final(position).last_updated_ts == now
            &&& final(position).owner == old(position).owner
            &&& final(position).total_principal == old(position).total_principal
            &&& final(position).next_tranche_id == old(position).next_tranche_id
            &&& snap.owner == old(position).owner
            &&& snap.total_principal == old(position).total_principal
            &&& snap.total_unrealized_yield == total_of(s1, Measure::Unrealized)
            &&& snap.total_generated_yield == total_of(s1, Measure::Generated)
            &&& snap.operator_claimed == total_of(s1, Measure::ClaimedOperator)
            &&& snap.user_claimed == total_of(s1, Measure::ClaimedUser)
            &&& snap.tranche_count == s1.len() as u32
            &&& snap.last_updated_ts == now
        },
        old(position).wf() ==> final(position).wf(),
{
    if !position.owner.same_as(&user) {
        return Err(ErrorCode::InvalidPositionOwner);
    }
    config.ensure_active()?;
    let mut c = *config;
    c.accrue_to(now)?;
    let mut w = position.duplicate();
    w.sync_against_index(c.acc_index, now)?;
    proof {
        assert(w.entries@ =~= synced_entries(old(position).entries@, c.acc_index));
    }
    let total_unrealized_yield = w.total(Measure::Unrealized)?;
    let total_generated_yield = w.total(Measure::Generated)?;
    let operator_claimed = w.total(Measure::ClaimedOperator)?;
    let user_claimed = w.total(Measure::ClaimedUser)?;
    let snap = YieldSnapshot {
        owner: w.owner,
        total_principal: w.total_principal,
        total_unrealized_yield,
        total_generated_yield,
        operator_claimed,
        user_claimed,
        tranche_count: w.entries.len() as u32,
        last_updated_ts: w.last_updated_ts,
    };
    *config = c;
    *position = w;
    Ok(snap)
}

/// Tranche checkpoints never pass the global index: when every checkpoint
/// is at most the index, accruing and then syncing the tranches keeps every
/// checkpoint at most the accrued index, and a tranche opened then is
/// checkpointed exactly at it.
pub proof fn checkpoints_stay_behind_the_index(c: SublyConfig, s: Seq<StakeEntry>, now: i64)
    requires
        forall|i: int| 0 <= i < s.len() ==> #[trigger] s[i].last_acc_index <= c.acc_index,
        !accrue_overflows(c, now),
    ensures
        forall|i: int| 0 <= i < s.len() ==> (#[trigger] synced_entries(s, accrued(c, now).acc_index)[i]).last_acc_index
            <= accrued(c, now).acc_index,
        forall|id: u64, amount: u64, d: i64| #[trigger] opened_tranche(id, amount, now, d, accrued(c, now).acc_index).last_acc_index
            == accrued(c, now).acc_index,
{
    crate::accrual::accrue_is_monotonic(c, now);
}

/// The two rounding steps of yield, the index step and then the tranche
/// step, never create yield and lose at most one unit against the exact
/// yield `principal * rate * elapsed / (10_000 * SECONDS_PER_YEAR)`, for a
/// principal of at most `INDEX_SCALE`.
pub proof fn accrual_rounding_loses_at_most_one_unit(e: StakeEntry, apy_bps: u16, elapsed: int)
    requires
        0 < e.principal <= crate::constants::INDEX_SCALE,
        elapsed > 0,
        e.last_acc_index + crate::accrual::index_delta(apy_bps as int, elapsed) <= u128::MAX,
    ensures
        ({
            let exact = (e.principal * apy_bps * elapsed)
                / (crate::constants::BASIS_POINTS_DIVISOR * crate::constants::SECONDS_PER_YEAR);
            let idx = (e.last_acc_index + crate::accrual::index_delta(apy_bps as int, elapsed)) as u128;
            exact - 1 <= crate::tranche::sync_accrual(e, idx) <= exact
        }),
{
    let n = apy_bps * elapsed;
    let d: int = 315_360_000_000;
    let sc: int = 1_000_000_000_000;
    let p = e.principal as int;
    let delta = crate::accrual::index_delta(apy_bps as int, elapsed);
    assert(crate::constants::BASIS_POINTS_DIVISOR * crate::constants::SECONDS_PER_YEAR == d);
    assert(apy_bps * elapsed * crate::constants::INDEX_SCALE == n * sc) by (nonlinear_arith)
        requires n == apy_bps * elapsed, sc == 1_000_000_000_000;
    assert(delta == (n * sc) / d);
    assert(n >= 0) by (nonlinear_arith)
        requires n == apy_bps * elapsed, apy_bps >= 0, elapsed > 0;
    assert(delta * d <= n * sc && n * sc < delta * d + d) by (nonlinear_arith)
        requires delta == (n * sc) / d, d > 0, n * sc >= 0;
    assert(delta >= 0) by (nonlinear_arith)
        requires delta == (n * sc) / d, d > 0, n >= 0, sc > 0;
    let idx = (e.last_acc_index + delta) as u128;
    let a = crate::tranche::sync_accrual(e, idx);
    if delta == 0 {
        assert(n * sc < d);
        assert(p * n < d) by (nonlinear_arith)
            requires n * sc < d, p <= sc, p > 0, n >= 0, sc > 0;
        assert((p * n) / d == 0) by (nonlinear_arith)
            requires 0 <= p * n < d;
        assert(e.principal * apy_bps * elapsed == p * n) by (nonlinear_arith)
            requires n == apy_bps * elapsed, p == e.principal;
    } else {
        assert(a == (p * delta) / sc);
        assert(a * sc <= p * delta && p * delta < a * sc + sc) by (nonlinear_arith)
            requires a == (p * delta) / sc, sc > 0, p * delta >= 0;
        let y = (p * n) / d;
        assert(y * d <= p * n && p * n < y * d + d) by (nonlinear_arith)
            requires y == (p * n) / d, d > 0, p * n >= 0;
        assert(a <= y) by (nonlinear_arith)
            requires a * sc <= p * delta, delta * d <= n * sc, p > 0, p * n < y * d + d, sc > 0, d > 0, a >= 0;
        assert(y <= a + 1) by (nonlinear_arith)
            requires p * delta < a * sc + sc, n * sc < delta * d + d, p <= sc, p > 0, y * d <= p * n, sc > 0, d > 0;
        assert(e.principal * apy_bps * elapsed == p * n) by (nonlinear_arith)
            requires n == apy_bps * elapsed, p == e.principal;
    }
}

} // verus!
