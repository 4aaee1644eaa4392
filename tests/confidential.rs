use subly::circuits::{initialize_subly, stake_subly, unstake_subly, InitializeInput, StakeInput, UnstakeInput, UserStakeSecrets};
use subly::confidential::{
    initialize_callback, queue_stake, queue_unstake, stake_callback, unstake_callback, ComputationOutcome, EncryptedState,
    InitializeOutput, StakeOutput, SublyConfig, SubscriptionRegistry, UnstakeOutput, UserStakeAccount,
};
use subly::constants::{INDEX_SCALE, MAX_STAKE_ENTRIES, SECONDS_PER_YEAR};
use subly::error::ErrorCode;
use subly::keys::Pubkey;
use subly::tranche::StakeEntry;

fn key(b: u8) -> Pubkey {
    Pubkey::new([b; 32])
}

fn state(nonce: u128, len: usize) -> EncryptedState {
    let mut s = EncryptedState::blank(len);
    s.nonce = nonce;
    s
}

fn ready() -> (SublyConfig, SubscriptionRegistry, UserStakeAccount) {
    let mut config = SublyConfig::new(key(9), key(8), key(7), 1, 0, 0);
    let mut registry = SubscriptionRegistry { encrypted_registry: SubscriptionRegistry::blank_state(), bump: 0 };
    let out = InitializeOutput { config_state: state(5, 6), registry_state: state(6, 3) };
    initialize_callback(&mut config, &mut registry, 1, ComputationOutcome::Success(out)).unwrap();
    let mut account = UserStakeAccount {
        owner: Pubkey::zero(),
        entry_count: 0,
        encrypted_state: UserStakeAccount::blank_state(),
        pending_computation_offset: None,
        bump: 0,
    };
    account.ensure_owner(key(1), 2);
    (config, registry, account)
}

fn stake_output(nonce: u128) -> StakeOutput {
    StakeOutput { config_state: state(nonce, 6), stake_state: state(nonce, 164), entry_count: 1, next_tranche_id: 1 }
}

#[test]
fn callback_while_idle_is_rejected() {
    let (mut config, _, mut account) = ready();
    let r = stake_callback(&mut config, &mut account, 3, ComputationOutcome::Success(stake_output(11)));
    assert_eq!(r, Err(ErrorCode::PendingComputationMismatch));
    assert_eq!(account.entry_count, 0);
    assert_eq!(account.encrypted_state.nonce, 0);
}

#[test]
fn one_callback_per_request_applies() {
    let (mut config, _, mut account) = ready();
    let q = queue_stake(&mut config, &mut account, key(1), 50, 100, 3).unwrap();
    assert_eq!(q.computation_offset, 3);
    assert_eq!(
        queue_unstake(&mut config, &mut account, key(1), 100, 4).map(|q| q.computation_offset),
        Err(ErrorCode::PendingComputationInProgress)
    );
    assert_eq!(
        stake_callback(&mut config, &mut account, 4, ComputationOutcome::Success(stake_output(11))),
        Err(ErrorCode::PendingComputationMismatch)
    );
    assert_eq!(stake_callback(&mut config, &mut account, 3, ComputationOutcome::Success(stake_output(11))), Ok(()));
    assert_eq!(account.entry_count, 1);
    assert_eq!(account.encrypted_state.nonce, 11);
    assert_eq!(config.pending_config_offset, None);
    assert_eq!(account.pending_computation_offset, None);
    assert_eq!(
        stake_callback(&mut config, &mut account, 3, ComputationOutcome::Success(stake_output(12))),
        Err(ErrorCode::PendingComputationMismatch)
    );
    assert_eq!(account.encrypted_state.nonce, 11);
}

#[test]
fn failed_computation_clears_and_applies_nothing() {
    let (mut config, _, mut account) = ready();
    queue_stake(&mut config, &mut account, key(1), 50, 100, 3).unwrap();
    assert_eq!(stake_callback(&mut config, &mut account, 3, ComputationOutcome::Failure), Err(ErrorCode::AbortedComputation));
    assert_eq!(account.pending_computation_offset, None);
    assert_eq!(config.pending_config_offset, None);
    assert_eq!(account.entry_count, 0);
    assert!(queue_stake(&mut config, &mut account, key(1), 50, 100, 4).is_ok());
}

#[test]
fn replayed_state_is_rejected() {
    let (mut config, _, mut account) = ready();
    queue_stake(&mut config, &mut account, key(1), 50, 100, 3).unwrap();
    let out = StakeOutput {
        config_state: state(20, 6),
        stake_state: UserStakeAccount::blank_state(),
        entry_count: 1,
        next_tranche_id: 1,
    };
    assert_eq!(
        stake_callback(&mut config, &mut account, 3, ComputationOutcome::Success(out)),
        Err(ErrorCode::ComputationValidationFailed)
    );
    assert_eq!(account.entry_count, 0);
    assert_eq!(account.pending_computation_offset, None);
}

#[test]
fn queue_refusals() {
    let (mut config, _, mut account) = ready();
    assert_eq!(queue_stake(&mut config, &mut account, key(1), 0, 100, 3).map(|q| q.now_ts), Err(ErrorCode::AmountTooSmall));
    assert_eq!(queue_stake(&mut config, &mut account, key(1), 5, -1, 3).map(|q| q.now_ts), Err(ErrorCode::ComputationValidationFailed));
    assert_eq!(queue_stake(&mut config, &mut account, key(2), 5, 1, 3).map(|q| q.now_ts), Err(ErrorCode::InvalidPositionOwner));
    account.entry_count = MAX_STAKE_ENTRIES as u8;
    assert_eq!(queue_stake(&mut config, &mut account, key(1), 5, 1, 3).map(|q| q.now_ts), Err(ErrorCode::ComputationValidationFailed));
    config.paused = true;
    assert_eq!(queue_unstake(&mut config, &mut account, key(1), 1, 3).map(|q| q.now_ts), Err(ErrorCode::ProgramPaused));
}

#[test]
fn unstake_callback_pays_out_principal() {
    let (mut config, _, mut account) = ready();
    queue_unstake(&mut config, &mut account, key(1), 100, 8).unwrap();
    let none = UnstakeOutput { config_state: state(30, 6), stake_state: state(30, 164), withdrawn_principal: 0, entry_count: 0 };
    assert_eq!(unstake_callback(&mut config, &mut account, 8, ComputationOutcome::Success(none)), Err(ErrorCode::NothingToUnstake));
    queue_unstake(&mut config, &mut account, key(1), 100, 9).unwrap();
    let out = UnstakeOutput { config_state: state(31, 6), stake_state: state(31, 164), withdrawn_principal: 70, entry_count: 0 };
    assert_eq!(unstake_callback(&mut config, &mut account, 9, ComputationOutcome::Success(out)), Ok(70));
    assert_eq!(account.encrypted_state.nonce, 31);
}

#[test]
fn initialize_callback_needs_the_pending_request() {
    let mut config = SublyConfig::new(key(9), key(8), key(7), 1, 0, 0);
    let mut registry = SubscriptionRegistry { encrypted_registry: SubscriptionRegistry::blank_state(), bump: 0 };
    let out = InitializeOutput { config_state: state(5, 6), registry_state: state(6, 3) };
    assert_eq!(
        initialize_callback(&mut config, &mut registry, 2, ComputationOutcome::Success(out.clone())),
        Err(ErrorCode::PendingComputationMismatch)
    );
    assert_eq!(initialize_callback(&mut config, &mut registry, 1, ComputationOutcome::Success(out.clone())), Ok(()));
    assert_eq!(registry.encrypted_registry.nonce, 6);
    assert_eq!(
        initialize_callback(&mut config, &mut registry, 1, ComputationOutcome::Success(out)),
        Err(ErrorCode::PendingComputationMismatch)
    );
}

fn empty_table() -> UserStakeSecrets {
    let mut entries = Vec::new();
    for _ in 0..MAX_STAKE_ENTRIES {
        entries.push(StakeEntry::zeroed());
    }
    UserStakeSecrets { total_principal: 0, last_updated_ts: 0, next_tranche_id: 0, entry_count: 0, entries }
}

#[test]
fn confidential_stake_and_unstake_compute_like_the_ledger() {
    let (config, registry) = initialize_subly(InitializeInput { clock_unix_ts: 1_000 });
    assert_eq!(config.acc_index, INDEX_SCALE);
    assert_eq!(registry.next_service_id, 0);
    let (config, table, count, next) =
        stake_subly(config, empty_table(), StakeInput { amount: 1_000_000_000, lock_option: 0, now_ts: 1_000 });
    assert_eq!((count, next), (1, 1));
    assert_eq!(config.total_principal, 1_000_000_000);
    let (config, table, count, next) =
        stake_subly(config, table, StakeInput { amount: 500, lock_option: 9, now_ts: 1_000 });
    assert_eq!((count, next), (1, 1));
    let year = 1_000 + SECONDS_PER_YEAR;
    let (config, table, withdrawn, count) = unstake_subly(config, table, UnstakeInput { tranche_id: 0, now_ts: year });
    assert_eq!(withdrawn, 0);
    assert_eq!(count, 1);
    assert_eq!(table.entries[0].unrealized_yield, 100_000_000);
    let mut table = table;
    table.entries[0].unrealized_yield = 0;
    let (config, table, withdrawn, count) =
        unstake_subly(config, table, UnstakeInput { tranche_id: 0, now_ts: year });
    assert_eq!(withdrawn, 1_000_000_000);
    assert_eq!(count, 0);
    assert_eq!(config.total_principal, 0);
    assert_eq!(table.total_principal, 0);
    assert_eq!(table.entries[0].principal, 0);
}

#[test]
fn a_full_table_places_nothing() {
    let (config, _) = initialize_subly(InitializeInput { clock_unix_ts: 1_000 });
    let mut table = empty_table();
    table.entry_count = MAX_STAKE_ENTRIES as u8;
    table.next_tranche_id = 16;
    let (config, table, count, next) =
        stake_subly(config, table, StakeInput { amount: 10, lock_option: 0, now_ts: 1_000 });
    assert_eq!((count, next), (MAX_STAKE_ENTRIES as u8, 16));
    assert_eq!(config.total_principal, 0);
    assert_eq!(table.total_principal, 0);
}

#[test]
fn confidential_unstake_keeps_the_order_of_the_other_tranches() {
    let (config, _) = initialize_subly(InitializeInput { clock_unix_ts: 1_000 });
    let (config, table, _, _) = stake_subly(config, empty_table(), StakeInput { amount: 100, lock_option: 0, now_ts: 1_000 });
    let (config, table, _, _) = stake_subly(config, table, StakeInput { amount: 200, lock_option: 0, now_ts: 1_000 });
    let (config, table, count, _) = stake_subly(config, table, StakeInput { amount: 300, lock_option: 0, now_ts: 1_000 });
    assert_eq!(count, 3);
    let (config, table, withdrawn, count) = unstake_subly(config, table, UnstakeInput { tranche_id: 0, now_ts: 1_000 });
    assert_eq!((withdrawn, count), (0, 3));
    let mut table = table;
    table.entries[0].lock_end_ts = 1_000;
    let (config, table, withdrawn, count) = unstake_subly(config, table, UnstakeInput { tranche_id: 0, now_ts: 1_000 });
    assert_eq!((withdrawn, count), (100, 2));
    assert_eq!(table.entries[0].tranche_id, 1);
    assert_eq!(table.entries[1].tranche_id, 2);
    assert_eq!(table.entries[1].principal, 300);
    assert_eq!(table.entries[2].principal, 0);
    assert_eq!(table.entries[2].tranche_id, 0);
    assert_eq!(config.total_principal, 500);
}

#[test]
fn encrypted_block_sizes() {
    assert_eq!(subly::confidential::encrypted_block_len(6), 208);
    assert_eq!(subly::confidential::encrypted_block_len(164), 16 + 164 * 32);
    let blank = EncryptedState::blank(3);
    assert!(blank.same_as(&EncryptedState::blank(3)));
    assert!(!blank.same_as(&state(1, 3)));
}

#[test]
fn a_replayed_unstake_result_is_refused_before_its_amount() {
    let (mut config, _, mut account) = ready();
    queue_unstake(&mut config, &mut account, key(1), 100, 8).unwrap();
    let replay = UnstakeOutput {
        config_state: state(30, 6),
        stake_state: UserStakeAccount::blank_state(),
        withdrawn_principal: 0,
        entry_count: 0,
    };
    assert_eq!(
        unstake_callback(&mut config, &mut account, 8, ComputationOutcome::Success(replay)),
        Err(ErrorCode::ComputationValidationFailed)
    );
}
