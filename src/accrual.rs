use vstd::prelude::*;

use crate::constants::{BASIS_POINTS_DIVISOR, DEFAULT_APY_BPS, INDEX_SCALE, SECONDS_PER_YEAR};
use crate::error::ErrorCode;
use crate::keys::Pubkey;

verus! {

/// The global accrual record: principal under management, the reward pool
/// that pays all yield, and the index of yield earned per unit of principal.
#[derive(Clone, Copy, Debug)]
pub struct SublyConfig {
    pub authority: Pubkey,
    pub usdc_mint: Pubkey,
    pub vault: Pubkey,
    pub total_principal: u64,
    pub reward_pool: u64,
    pub acc_index: u128,
    pub apy_bps: u16,
    pub last_update_ts: i64,
    pub paused: bool,
    pub bump: u8,
    pub vault_bump: u8,
}

/// Growth of the index over `elapsed` seconds at `apy_bps` basis points a year.
pub open spec fn index_delta(apy_bps: int, elapsed: int) -> int {
    (apy_bps * elapsed * INDEX_SCALE) / (BASIS_POINTS_DIVISOR * SECONDS_PER_YEAR)
}

/// Whether accruing from `last_update_ts` up to `now` cannot be
/// represented in the record's integer widths.
pub open spec fn accrual_fails(acc_index: u128, last_update_ts: i64, total_principal: u64, apy_bps: u16, now: i64) -> bool {
    now > last_update_ts && (now - last_update_ts > i64::MAX || (total_principal > 0
        && acc_index + index_delta(apy_bps as int, now - last_update_ts) > u128::MAX))
}

/// The index after accruing from `last_update_ts` up to `now` (where that
/// does not overflow): it grows only while principal is staked.
pub open spec fn accrued_index(acc_index: u128, last_update_ts: i64, total_principal: u64, apy_bps: u16, now: i64) -> u128 {
    if now <= last_update_ts || total_principal == 0 {
        acc_index
    } else {
        (acc_index + index_delta(apy_bps as int, now - last_update_ts)) as u128
    }
}

/// Whether accruing `c` up to `now` cannot be represented in the record's
/// integer widths.
pub open spec fn accrue_overflows(c: SublyConfig, now: i64) -> bool {
    accrual_fails(c.acc_index, c.last_update_ts, c.total_principal, c.apy_bps, now)
}

/// The record after accruing up to `now` (where that does not overflow).
pub open spec fn accrued(c: SublyConfig, now: i64) -> SublyConfig {
    if now <= c.last_update_ts {
        c
    } else {
        SublyConfig {
            acc_index: accrued_index(c.acc_index, c.last_update_ts, c.total_principal, c.apy_bps, now),
            last_update_ts: now,
            ..c
        }
    }
}

/// The accrual index advanced from `last_update_ts` to `now` at `apy_bps`
/// over `total_principal`; refused when that cannot be represented.
pub fn accrue_index(acc_index: u128, last_update_ts: i64, total_principal: u64, apy_bps: u16, now: i64) -> (r: Result<u128, ErrorCode>)
    ensures
        r is Err <==> accrual_fails(acc_index, last_update_ts, total_principal, apy_bps, now),
        r matches Ok(v) ==> v == accrued_index(acc_index, last_update_ts, total_principal, apy_bps, now),
        r matches Err(e) ==> e == ErrorCode::MathOverflow,
{
    if now <= last_update_ts {
        return Ok(acc_index);
    }
    if last_update_ts < 0 && now > i64::MAX + last_update_ts {
        return Err(ErrorCode::MathOverflow);
    }
    let elapsed: u64 = (now - last_update_ts) as u64;
    if total_principal == 0 {
        return Ok(acc_index);
    }
    let apy = apy_bps as u128;
    assert(apy * (elapsed as u128) <= 0x1_0000u128 * 0x8000_0000_0000_0000u128) by (nonlinear_arith)
        requires apy < 0x1_0000, elapsed < 0x8000_0000_0000_0000;
    let step = apy * (elapsed as u128);
    assert(step * INDEX_SCALE <= 0x1_0000u128 * 0x8000_0000_0000_0000u128 * INDEX_SCALE) by (nonlinear_arith)
        requires step <= 0x1_0000u128 * 0x8000_0000_0000_0000u128;
    let numerator = step * INDEX_SCALE;
    let bps = BASIS_POINTS_DIVISOR as u128;
    let year = SECONDS_PER_YEAR as u128;
    assert(bps * year == 315_360_000_000u128) by (nonlinear_arith)
        requires bps == 10_000u128, year == 31_536_000u128;
    let denominator: u128 = bps * year;
    let delta_index = numerator / denominator;
    if acc_index > u128::MAX - delta_index {
        return Err(ErrorCode::MathOverflow);
    }
    Ok(acc_index + delta_index)
}

/// One accrual step as the ledger performs it: an overflowing step is
/// refused and leaves the record as it was.
pub open spec fn accrue_step(c: SublyConfig, now: i64) -> SublyConfig {
    if accrue_overflows(c, now) {
        c
    } else {
        accrued(c, now)
    }
}

/// The record after accruing at each timestamp of `ts` in turn.
pub open spec fn accrue_all(c: SublyConfig, ts: Seq<i64>) -> SublyConfig
    decreases ts.len(),
{
    if ts.len() == 0 {
        c
    } else {
        accrue_step(accrue_all(c, ts.drop_last()), ts.last())
    }
}

impl SublyConfig {
    /// A fresh record: index at one unit of scale, default rate, empty pools.
    pub fn new(authority: Pubkey, usdc_mint: Pubkey, vault: Pubkey, now: i64, bump: u8, vault_bump: u8) -> (r: SublyConfig)
        ensures
            r.authority == authority,
            r.usdc_mint == usdc_mint,
            r.vault == vault,
            r.total_principal == 0,
            r.reward_pool == 0,
            r.acc_index == INDEX_SCALE,
            r.apy_bps == DEFAULT_APY_BPS,
            r.last_update_ts == now,
            !r.paused,
            r.bump == bump,
            r.vault_bump == vault_bump,
    {
        SublyConfig {
            authority,
            usdc_mint,
            vault,
            total_principal: 0,
            reward_pool: 0,
            acc_index: INDEX_SCALE,
            apy_bps: DEFAULT_APY_BPS,
            last_update_ts: now,
            paused: false,
            bump,
            vault_bump,
        }
    }

    /// Refuses every mutating operation while the ledger is paused.
    pub fn ensure_active(&self) -> (r: Result<(), ErrorCode>)
        ensures
            r is Ok <==> !self.paused,
            r matches Err(e) ==> e == ErrorCode::ProgramPaused,
    {
        if self.paused {
            Err(ErrorCode::ProgramPaused)
        } else {
            Ok(())
        }
    }

    /// Advances the index to `now`. A timestamp not after the last update
    /// changes nothing; otherwise the index grows by `index_delta` (only while
    /// principal is staked) and the last update moves to `now`.
    pub fn accrue_to(&mut self, now: i64) -> (r: Result<(), ErrorCode>)
        ensures
            r is Err <==> accrue_overflows(*old(self), now),
            r is Ok ==> *final(self) == accrued(*old(self), now),
            r is Err ==> *final(self) == *old(self) && r == Err::<(), ErrorCode>(ErrorCode::MathOverflow),
    {
        let idx = accrue_index(self.acc_index, self.last_update_ts, self.total_principal, self.apy_bps, now)?;
        if now > self.last_update_ts {
            self.acc_index = idx;
            self.last_update_ts = now;
        }
        Ok(())
    }

    /// Whether the pool can pay `amount`.
    pub fn ensure_reward_pool(&self, amount: u64) -> (r: Result<(), ErrorCode>)
        ensures
            r is Ok <==> self.reward_pool >= amount,
            r matches Err(e) ==> e == ErrorCode::InsufficientRewardPool,
    {
        if self.reward_pool >= amount {
            Ok(())
        } else {
            Err(ErrorCode::InsufficientRewardPool)
        }
    }

    /// Adds funding to the reward pool.
    pub fn increase_reward_pool(&mut self, amount: u64) -> (r: Result<(), ErrorCode>)
        ensures
            r is Ok <==> old(self).reward_pool + amount <= u64::MAX,
            r is Ok ==> *final(self) == (SublyConfig { reward_pool: (old(self).reward_pool + amount) as u64, ..*old(self) }),
            r is Err ==> *final(self) == *old(self) && r == Err::<(), ErrorCode>(ErrorCode::MathOverflow),
    {
        if self.reward_pool > u64::MAX - amount {
            return Err(ErrorCode::MathOverflow);
        }
        self.reward_pool = self.reward_pool + amount;
        Ok(())
    }

    /// Pays `amount` out of the reward pool.
    pub fn decrease_reward_pool(&mut self, amount: u64) -> (r: Result<(), ErrorCode>)
        ensures
            r is Ok <==> old(self).reward_pool >= amount,
            r is Ok ==> *final(self) == (SublyConfig { reward_pool: (old(self).reward_pool - amount) as u64, ..*old(self) }),
            r is Err ==> *final(self) == *old(self) && r == Err::<(), ErrorCode>(ErrorCode::InsufficientRewardPool),
    {
        self.ensure_reward_pool(amount)?;
        self.reward_pool = self.reward_pool - amount;
        Ok(())
    }
}

/// Accrual never moves the index or the last update time backwards, and a
/// timestamp after the last update becomes the new last update time.
pub proof fn accrue_is_monotonic(c: SublyConfig, now: i64)
    ensures
        accrue_step(c, now).acc_index >= c.acc_index,
        accrue_step(c, now).last_update_ts >= c.last_update_ts,
        !accrue_overflows(c, now) && now > c.last_update_ts ==> accrue_step(c, now).last_update_ts == now,
{
    if !accrue_overflows(c, now) && now > c.last_update_ts && c.total_principal > 0 {
        assert(index_delta(c.apy_bps as int, now - c.last_update_ts) >= 0) by (nonlinear_arith)
            requires c.apy_bps >= 0, now - c.last_update_ts > 0;
    }
}

/// Over any sequence of timestamps, repeated accrual keeps the index and
/// the last update time non-decreasing: every later state is at least every
/// earlier one.
pub proof fn accrue_sequence_is_monotonic(c: SublyConfig, ts: Seq<i64>, i: int, j: int)
    requires
        0 <= i <= j <= ts.len(),
    ensures
        accrue_all(c, ts.take(i)).acc_index <= accrue_all(c, ts.take(j)).acc_index,
        accrue_all(c, ts.take(i)).last_update_ts <= accrue_all(c, ts.take(j)).last_update_ts,
    decreases j - i,
{
    if i < j {
        accrue_sequence_is_monotonic(c, ts, i, j - 1);
        let prefix = ts.take(j);
        assert(prefix.drop_last() =~= ts.take(j - 1));
        accrue_is_monotonic(accrue_all(c, ts.take(j - 1)), prefix.last());
    }
}

} // verus!
