use subly::accrual::SublyConfig;
use subly::constants::{lock_duration_for_index, INDEX_SCALE, SECONDS_PER_DAY, SECONDS_PER_YEAR};
use subly::error::ErrorCode;
use subly::keys::Pubkey;
use subly::position::{Measure, UserStake};
use subly::staking::{claim_operator, claim_user, fund_rewards, stake, sync_yield, unstake};
use subly::tranche::StakeEntry;

const T0: i64 = 1_000;

fn key(b: u8) -> Pubkey {
    Pubkey::new([b; 32])
}

fn setup() -> (SublyConfig, UserStake) {
    let config = SublyConfig::new(key(9), key(8), key(7), T0, 1, 2);
    let mut position = UserStake::empty();
    position.ensure_owner(key(1), 3);
    (config, position)
}

#[test]
fn lock_options_map_to_durations() {
    assert_eq!(lock_duration_for_index(0), Some(30 * SECONDS_PER_DAY));
    assert_eq!(lock_duration_for_index(1), Some(90 * SECONDS_PER_DAY));
    assert_eq!(lock_duration_for_index(2), Some(180 * SECONDS_PER_DAY));
    assert_eq!(lock_duration_for_index(3), Some(365 * SECONDS_PER_DAY));
    assert_eq!(lock_duration_for_index(4), None);
}

#[test]
fn one_year_at_ten_percent_accrues_ten_percent() {
    let (mut config, mut position) = setup();
    let id = stake(&mut config, &mut position, key(1), 1_000_000_000, 0, T0).unwrap();
    assert_eq!(id, 0);
    let snap = sync_yield(&mut config, &mut position, key(1), T0 + SECONDS_PER_YEAR as i64).unwrap();
    assert!(snap.total_unrealized_yield >= 99_999_999 && snap.total_unrealized_yield <= 100_000_000);
    assert_eq!(snap.total_unrealized_yield, 100_000_000);
    assert_eq!(config.acc_index, INDEX_SCALE + 100_000_000_000);
    assert_eq!(snap.total_generated_yield, 100_000_000);
    assert_eq!(snap.tranche_count, 1);
    assert_eq!(snap.total_principal, 1_000_000_000);
}

#[test]
fn accrue_never_moves_backwards() {
    let (mut config, mut position) = setup();
    stake(&mut config, &mut position, key(1), 5_000, 1, T0).unwrap();
    let mut last_index = config.acc_index;
    let mut last_ts = config.last_update_ts;
    for t in [T0, T0 + 10, T0 + 10, T0 + 5_000, T0 + 86_400, T0 + 86_400 * 40] {
        config.accrue_to(t).unwrap();
        assert!(config.acc_index >= last_index);
        assert!(config.last_update_ts >= last_ts);
        assert_eq!(config.last_update_ts, t);
        last_index = config.acc_index;
        last_ts = config.last_update_ts;
    }
    config.accrue_to(T0).unwrap();
    assert_eq!(config.acc_index, last_index);
    assert_eq!(config.last_update_ts, last_ts);
}

#[test]
fn accrue_without_principal_only_moves_time() {
    let (mut config, _) = setup();
    config.accrue_to(T0 + 1_000_000).unwrap();
    assert_eq!(config.acc_index, INDEX_SCALE);
    assert_eq!(config.last_update_ts, T0 + 1_000_000);
}

#[test]
fn accrue_overflow_changes_nothing() {
    let (mut config, _) = setup();
    config.total_principal = 1;
    config.acc_index = u128::MAX - 1;
    let before = config;
    assert_eq!(config.accrue_to(T0 + 1_000), Err(ErrorCode::MathOverflow));
    assert_eq!(config.acc_index, before.acc_index);
    assert_eq!(config.last_update_ts, before.last_update_ts);
}

#[test]
fn sync_twice_at_same_index_adds_nothing() {
    let mut e = StakeEntry::new(0, 1_000_000, T0, 100, INDEX_SCALE).unwrap();
    let first = e.sync_to_index(INDEX_SCALE * 2).unwrap();
    assert_eq!(first, 1_000_000);
    let second = e.sync_to_index(INDEX_SCALE * 2).unwrap();
    assert_eq!(second, 0);
    assert_eq!(e.unrealized_yield, 1_000_000);
    assert_eq!(e.last_acc_index, INDEX_SCALE * 2);
}

#[test]
fn tranche_claims_split_without_creating_value() {
    let mut e = StakeEntry::new(0, 1_000_000, T0, 100, INDEX_SCALE).unwrap();
    e.sync_to_index(INDEX_SCALE * 2).unwrap();
    assert_eq!(e.claim_operator(300_000).unwrap(), 300_000);
    assert_eq!(e.claim_user(T0 + 50, 1), Err(ErrorCode::StakeLocked));
    assert_eq!(e.claim_user(T0 + 100, 0).unwrap(), 700_000);
    assert_eq!(e.claim_operator(5).unwrap(), 0);
    assert_eq!(e.claimed_operator + e.claimed_user + e.unrealized_yield, 1_000_000);
    assert_eq!(e.total_yield_generated().unwrap(), 1_000_000);
}

#[test]
fn withdraw_refused_while_yield_outstanding() {
    let mut e = StakeEntry::new(0, 1_000_000, T0, 100, INDEX_SCALE).unwrap();
    e.sync_to_index(INDEX_SCALE * 2).unwrap();
    assert_eq!(e.withdraw_principal(T0 + 100), Err(ErrorCode::OutstandingYield));
    assert_eq!(e.withdraw_principal(T0 + 99), Err(ErrorCode::StakeLocked));
    e.claim_operator(0).unwrap();
    assert_eq!(e.withdraw_principal(T0 + 100), Ok(1_000_000));
    assert_eq!(e.withdraw_principal(T0 + 100), Err(ErrorCode::NothingToUnstake));
}

#[test]
fn stake_rejects_bad_input() {
    let (mut config, mut position) = setup();
    assert_eq!(stake(&mut config, &mut position, key(1), 0, 0, T0), Err(ErrorCode::AmountTooSmall));
    assert_eq!(stake(&mut config, &mut position, key(1), 10, 4, T0), Err(ErrorCode::InvalidLockOption));
    assert_eq!(stake(&mut config, &mut position, key(2), 10, 0, T0), Err(ErrorCode::InvalidPositionOwner));
    config.paused = true;
    assert_eq!(stake(&mut config, &mut position, key(1), 10, 0, T0), Err(ErrorCode::ProgramPaused));
    assert_eq!(position.entries.len(), 0);
    assert_eq!(config.total_principal, 0);
}

#[test]
fn stake_opens_tranches_in_order() {
    let (mut config, mut position) = setup();
    assert_eq!(stake(&mut config, &mut position, key(1), 100, 0, T0), Ok(0));
    assert_eq!(stake(&mut config, &mut position, key(1), 250, 3, T0 + 5), Ok(1));
    assert_eq!(position.total_principal, 350);
    assert_eq!(config.total_principal, 350);
    assert_eq!(position.entries[1].lock_end_ts, T0 + 5 + 365 * SECONDS_PER_DAY);
    assert_eq!(position.entries[1].deposited_at, T0 + 5);
    assert_eq!(position.next_tranche_id, 2);
    assert_eq!(position.find_entry(1), Some(1));
    assert_eq!(position.find_entry(7), None);
}

fn staked_with_yield() -> (SublyConfig, UserStake) {
    let (mut config, mut position) = setup();
    stake(&mut config, &mut position, key(1), 1_000_000_000, 0, T0).unwrap();
    stake(&mut config, &mut position, key(1), 1_000_000_000, 3, T0).unwrap();
    fund_rewards(&mut config, 1_000_000_000).unwrap();
    (config, position)
}

#[test]
fn operator_claim_is_bounded_by_request_and_pool() {
    let (mut config, mut position) = staked_with_yield();
    let now = T0 + SECONDS_PER_YEAR as i64;
    let claimed = claim_operator(&mut config, &mut position, key(9), 150_000_000, now).unwrap();
    assert_eq!(claimed, 150_000_000);
    assert_eq!(position.entries[0].claimed_operator, 100_000_000);
    assert_eq!(position.entries[1].claimed_operator, 50_000_000);
    assert_eq!(config.reward_pool, 850_000_000);
    let rest = claim_operator(&mut config, &mut position, key(9), 0, now).unwrap();
    assert_eq!(rest, 50_000_000);
    assert_eq!(position.total(Measure::Generated).unwrap(), 200_000_000);
    assert_eq!(claim_operator(&mut config, &mut position, key(9), 0, now), Err(ErrorCode::NothingToClaim));
}

#[test]
fn operator_claim_needs_authority_and_pool() {
    let (mut config, mut position) = staked_with_yield();
    let now = T0 + SECONDS_PER_YEAR as i64;
    assert_eq!(claim_operator(&mut config, &mut position, key(1), 0, now), Err(ErrorCode::UnauthorizedAuthority));
    config.reward_pool = 10;
    let before = position.entries[0];
    assert_eq!(claim_operator(&mut config, &mut position, key(9), 0, now), Err(ErrorCode::InsufficientRewardPool));
    assert_eq!(position.entries[0].unrealized_yield, before.unrealized_yield);
    assert_eq!(config.reward_pool, 10);
}

#[test]
fn user_claim_waits_for_the_lock() {
    let (mut config, mut position) = staked_with_yield();
    let early = T0 + 10 * SECONDS_PER_DAY;
    assert_eq!(claim_user(&mut config, &mut position, key(1), 0, early), Err(ErrorCode::NothingToClaim));
    let later = T0 + 31 * SECONDS_PER_DAY;
    let claimed = claim_user(&mut config, &mut position, key(1), 0, later).unwrap();
    assert_eq!(claimed, position.entries[0].claimed_user);
    assert!(claimed > 0);
    assert_eq!(position.entries[1].claimed_user, 0);
    assert_eq!(claim_user(&mut config, &mut position, key(2), 0, later), Err(ErrorCode::InvalidPositionOwner));
}

#[test]
fn user_claim_stops_at_a_locked_tranche() {
    let (mut config, mut position) = setup();
    stake(&mut config, &mut position, key(1), 1_000_000_000, 3, T0).unwrap();
    stake(&mut config, &mut position, key(1), 1_000_000_000, 0, T0).unwrap();
    fund_rewards(&mut config, 1_000_000_000).unwrap();
    let later = T0 + 31 * SECONDS_PER_DAY;
    assert_eq!(claim_user(&mut config, &mut position, key(1), 0, later), Err(ErrorCode::StakeLocked));
}

#[test]
fn unstake_returns_principal_after_lock_and_claims() {
    let (mut config, mut position) = staked_with_yield();
    let now = T0 + 31 * SECONDS_PER_DAY;
    assert_eq!(unstake(&mut config, &mut position, key(1), 5, now), Err(ErrorCode::InvalidTranche));
    assert_eq!(unstake(&mut config, &mut position, key(1), 1, now), Err(ErrorCode::StakeLocked));
    assert_eq!(unstake(&mut config, &mut position, key(1), 0, now), Err(ErrorCode::OutstandingYield));
    claim_operator(&mut config, &mut position, key(9), 0, now).unwrap();
    assert_eq!(unstake(&mut config, &mut position, key(1), 0, now), Ok(1_000_000_000));
    assert_eq!(config.total_principal, 1_000_000_000);
    assert_eq!(position.total_principal, 1_000_000_000);
    assert_eq!(position.entries[0].principal, 0);
    assert_eq!(unstake(&mut config, &mut position, key(1), 0, now), Err(ErrorCode::NothingToUnstake));
}

#[test]
fn fund_rewards_rejects_zero_and_overflow() {
    let (mut config, _) = setup();
    assert_eq!(fund_rewards(&mut config, 0), Err(ErrorCode::AmountTooSmall));
    fund_rewards(&mut config, 500).unwrap();
    assert_eq!(config.reward_pool, 500);
    assert_eq!(fund_rewards(&mut config, u64::MAX), Err(ErrorCode::MathOverflow));
    assert_eq!(config.reward_pool, 500);
    assert_eq!(config.decrease_reward_pool(501), Err(ErrorCode::InsufficientRewardPool));
    assert_eq!(config.decrease_reward_pool(200), Ok(()));
    assert_eq!(config.reward_pool, 300);
}

#[test]
fn ledger_sizes() {
    assert_eq!(UserStake::required_size(0), 69);
    assert_eq!(UserStake::required_size(2), 69 + 2 * 96);
}

#[test]
fn error_messages_are_readable() {
    assert_eq!(ErrorCode::StakeLocked.message(), "Stake position is still locked");
}

#[test]
fn claims_on_an_empty_ledger_find_nothing() {
    let (mut config, mut position) = setup();
    fund_rewards(&mut config, 1_000).unwrap();
    assert_eq!(claim_operator(&mut config, &mut position, key(9), 0, T0 + 100), Err(ErrorCode::NothingToClaim));
    assert_eq!(claim_user(&mut config, &mut position, key(1), 5, T0 + 100), Err(ErrorCode::NothingToClaim));
    assert_eq!(config.reward_pool, 1_000);
}

#[test]
fn exhausted_tranche_ids_refuse_new_stakes() {
    let (mut config, mut position) = setup();
    position.next_tranche_id = u64::MAX;
    assert_eq!(stake(&mut config, &mut position, key(1), 10, 0, T0), Err(ErrorCode::MathOverflow));
    assert_eq!(position.entries.len(), 0);
    assert_eq!(config.total_principal, 0);
    assert_eq!(position.record_stake(10, i64::MAX, 5, INDEX_SCALE), Err(ErrorCode::MathOverflow));
}

#[test]
fn ledger_totals_follow_the_tranches() {
    let (mut config, mut position) = staked_with_yield();
    let now = T0 + SECONDS_PER_YEAR as i64;
    let snap = sync_yield(&mut config, &mut position, key(1), now).unwrap();
    assert_eq!(snap.total_unrealized_yield, 200_000_000);
    assert_eq!(position.total_unrealized_yield().unwrap(), 200_000_000);
    assert_eq!(position.available_yield_for_operator().unwrap(), 200_000_000);
    assert_eq!(position.available_yield_for_user(T0 + 31 * SECONDS_PER_DAY).unwrap(), 100_000_000);
    assert_eq!(position.total_yield_generated().unwrap(), 200_000_000);
    assert_eq!(sync_yield(&mut config, &mut position, key(2), now).map(|s| s.tranche_count), Err(ErrorCode::InvalidPositionOwner));
}
