use vstd::prelude::*;

verus! {

/// Fixed-point scale of the accrual index: one unit of principal earns
/// `delta / INDEX_SCALE` when the index grows by `delta`.
pub const INDEX_SCALE: u128 = 1_000_000_000_000;

pub const BASIS_POINTS_DIVISOR: u64 = 10_000;

pub const SECONDS_PER_YEAR: u64 = 31_536_000;

pub const DEFAULT_APY_BPS: u16 = 1_000;

pub const SECONDS_PER_DAY: i64 = 86_400;

pub const DEFAULT_LOCK_INDEX: u8 = 3;

pub const MAX_SERVICE_NAME_LEN: usize = 64;

pub const MAX_SERVICE_DETAILS_LEN: usize = 512;

pub const MAX_SERVICE_LOGO_URL_LEN: usize = 256;

pub const MAX_SERVICE_PROVIDER_LEN: usize = 128;

/// Length of one billing cycle of a subscription.
pub const BILLING_PERIOD_SECONDS: i64 = 30 * SECONDS_PER_DAY;

pub const MAX_PAYPAL_RECEIVER_LEN: usize = 256;

/// Capacity of the fixed-size tranche table used by the confidential engine.
pub const MAX_STAKE_ENTRIES: usize = 16;

pub const LOCK_30_DAYS: i64 = 30 * SECONDS_PER_DAY;

pub const LOCK_90_DAYS: i64 = 90 * SECONDS_PER_DAY;

pub const LOCK_180_DAYS: i64 = 180 * SECONDS_PER_DAY;

pub const LOCK_365_DAYS: i64 = 365 * SECONDS_PER_DAY;

/// The lock durations a depositor may choose from, by option index.
pub open spec fn lock_option(index: int) -> Option<i64> {
    if index == 0 {
        Some(LOCK_30_DAYS)
    } else if index == 1 {
        Some(LOCK_90_DAYS)
    } else if index == 2 {
        Some(LOCK_180_DAYS)
    } else if index == 3 {
        Some(LOCK_365_DAYS)
    } else {
        None
    }
}

/// Lock duration in seconds for a lock option index, or `None` for an
/// index outside the offered options.
pub fn lock_duration_for_index(index: u8) -> (r: Option<i64>)
    ensures
        r == lock_option(index as int),
        r.is_some() <==> index <= 3,
        r matches Some(d) ==> d > 0,
{
    match index {
        0 => Some(LOCK_30_DAYS),
        1 => Some(LOCK_90_DAYS),
        2 => Some(LOCK_180_DAYS),
        3 => Some(LOCK_365_DAYS),
        _ => None,
    }
}

} // verus!
