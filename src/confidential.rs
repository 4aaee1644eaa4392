use vstd::prelude::*;

use crate::constants::MAX_STAKE_ENTRIES;
use crate::error::ErrorCode;
use crate::keys::Pubkey;

verus! {

/// Number of ciphertext blocks of the encrypted global record.
pub const CONFIG_CT_LEN: usize = 6;

/// Number of ciphertext blocks of the encrypted catalog record.
pub const REGISTRY_CT_LEN: usize = 3;

/// Number of ciphertext blocks of an encrypted tranche ledger.
pub const USER_STAKE_CT_LEN: usize = 164;

/// Persisted size of an encrypted block of `ciphertexts` blocks.
pub open spec fn encrypted_block_len_spec(ciphertexts: int) -> int {
    16 + ciphertexts * 32
}

pub fn encrypted_block_len(ciphertexts: usize) -> (r: usize)
    requires
        encrypted_block_len_spec(ciphertexts as int) <= usize::MAX,
    ensures
        r == encrypted_block_len_spec(ciphertexts as int),
{
    16 + ciphertexts * 32
}

/// State held encrypted by the computation network: a nonce and opaque
/// 32-byte blocks.
#[derive(Clone, Debug)]
pub struct EncryptedState {
    pub nonce: u128,
    pub ciphertexts: Vec<[u8; 32]>,
}

impl EncryptedState {
    /// A zero nonce and `len` zero blocks.
    pub fn blank(len: usize) -> (r: EncryptedState)
        ensures
            r.nonce == 0,
            r.ciphertexts@.len() == len,
            forall|i: int, j: int| 0 <= i < len && 0 <= j < 32 ==> #[trigger] r.ciphertexts@[i]@[j] == 0u8,
    {
        let mut ciphertexts: Vec<[u8; 32]> = Vec::new();
        let mut i: usize = 0;
        while i < len
            invariant
                0 <= i <= len,
                ciphertexts@.len() == i,
                forall|a: int, j: int| 0 <= a < i && 0 <= j < 32 ==> #[trigger] ciphertexts@[a]@[j] == 0u8,
            decreases len - i,
        {
            let block: [u8; 32] = [0u8; 32];
            ciphertexts.push(block);
            i = i + 1;
        }
        EncryptedState { nonce: 0, ciphertexts }
    }

    /// Whether two states are byte-identical.
    pub fn same_as(&self, other: &EncryptedState) -> (r: bool)
        ensures
            r == (self.nonce == other.nonce && self.ciphertexts@ == other.ciphertexts@),
    {
        if self.nonce != other.nonce || self.ciphertexts.len() != other.ciphertexts.len() {
            return false;
        }
        let n = self.ciphertexts.len();
        let mut i: usize = 0;
        while i < n
            invariant
                n == self.ciphertexts@.len(),
                n == other.ciphertexts@.len(),
                0 <= i <= n,
                forall|j: int| 0 <= j < i ==> self.ciphertexts@[j] == other.ciphertexts@[j],
            decreases n - i,
        {
            if !blocks_equal(&self.ciphertexts[i], &other.ciphertexts[i]) {
                return false;
            }
            i = i + 1;
        }
        assert(self.ciphertexts@ =~= other.ciphertexts@);
        true
    }
}

fn blocks_equal(a: &[u8; 32], b: &[u8; 32]) -> (r: bool)
    ensures
        r == (*a == *b),
{
    let mut i: usize = 0;
    while i < 32
        invariant
            0 <= i <= 32,
            forall|j: int| 0 <= j < i ==> a@[j] == b@[j],
        decreases 32 - i,
    {
        if a[i] != b[i] {
            return false;
        }
        i = i + 1;
    }
    proof {
        vstd::array::axiom_array_ext_equal(*a, *b);
    }
    true
}

/// The global record of the confidential engine.
#[derive(Clone, Debug)]
pub struct SublyConfig {
    pub authority: Pubkey,
    pub usdc_mint: Pubkey,
    pub vault: Pubkey,
    pub encrypted_state: EncryptedState,
    pub pending_initialize_offset: Option<u64>,
    pub pending_config_offset: Option<u64>,
    pub paused: bool,
    pub bump: u8,
    pub vault_bump: u8,
}

/// The catalog record of the confidential engine.
#[derive(Clone, Debug)]
pub struct SubscriptionRegistry {
    pub encrypted_registry: EncryptedState,
    pub bump: u8,
}

/// A depositor's ledger in the confidential engine.
#[derive(Clone, Debug)]
pub struct UserStakeAccount {
    pub owner: Pubkey,
    pub entry_count: u8,
    pub encrypted_state: EncryptedState,
    pub pending_computation_offset: Option<u64>,
    pub bump: u8,
}

impl SublyConfig {
    pub fn blank_state() -> (r: EncryptedState)
        ensures
            r.nonce == 0,
            r.ciphertexts@.len() == CONFIG_CT_LEN,
    {
        EncryptedState::blank(CONFIG_CT_LEN)
    }

    /// A global record whose initial encrypted state has been requested
    /// under `computation_offset` and awaits its callback.
    pub fn new(authority: Pubkey, usdc_mint: Pubkey, vault: Pubkey, computation_offset: u64, bump: u8, vault_bump: u8) -> (r: SublyConfig)
        ensures
            r.authority == authority,
            r.usdc_mint == usdc_mint,
            r.vault == vault,
            r.pending_initialize_offset == Some(computation_offset),
            r.pending_config_offset is None,
            !r.paused,
            r.bump == bump,
            r.vault_bump == vault_bump,
            r.encrypted_state.nonce == 0,
    {
        SublyConfig {
            authority,
            usdc_mint,
            vault,
            encrypted_state: Self::blank_state(),
            pending_initialize_offset: Some(computation_offset),
            pending_config_offset: None,
            paused: false,
            bump,
            vault_bump,
        }
    }
}

impl SubscriptionRegistry {
    pub fn blank_state() -> (r: EncryptedState)
        ensures
            r.nonce == 0,
            r.ciphertexts@.len() == REGISTRY_CT_LEN,
    {
        EncryptedState::blank(REGISTRY_CT_LEN)
    }
}

impl UserStakeAccount {
    pub fn blank_state() -> (r: EncryptedState)
        ensures
            r.nonce == 0,
            r.ciphertexts@.len() == USER_STAKE_CT_LEN,
    {
        EncryptedState::blank(USER_STAKE_CT_LEN)
    }

    /// Claims an unowned ledger for `owner`, resetting it to a blank, idle
    /// state; an owned ledger is left as it is.
    pub fn ensure_owner(&mut self, owner: Pubkey, bump: u8)
        ensures
            old(self).owner.is_zero_spec() ==> final(self).owner == owner && final(self).entry_count == 0
                && final(self).pending_computation_offset is None && final(self).bump == bump
                && final(self).encrypted_state.nonce == 0,
            !old(self).owner.is_zero_spec() ==> *final(self) == *old(self),
    {
        if self.owner.is_zero() {
            self.owner = owner;
            self.entry_count = 0;
            self.pending_computation_offset = None;
            self.bump = bump;
            self.encrypted_state = Self::blank_state();
        }
    }
}

/// What the computation network hands back for a request.
#[derive(Clone, Debug)]
pub enum ComputationOutcome<T> {
    Success(T),
    Failure,
}

/// Result of the initialisation computation.
#[derive(Clone, Debug)]
pub struct InitializeOutput {
    pub config_state: EncryptedState,
    pub registry_state: EncryptedState,
}

/// Result of a stake computation.
#[derive(Clone, Debug)]
pub struct StakeOutput {
    pub config_state: EncryptedState,
    pub stake_state: EncryptedState,
    pub entry_count: u8,
    pub next_tranche_id: u64,
}

/// Result of an unstake computation.
#[derive(Clone, Debug)]
pub struct UnstakeOutput {
    pub config_state: EncryptedState,
    pub stake_state: EncryptedState,
    pub withdrawn_principal: u64,
    pub entry_count: u8,
}

/// What a queued stake or unstake computation is handed, besides the
/// encrypted records themselves.
#[derive(Clone, Copy, Debug)]
pub struct QueuedRequest {
    pub computation_offset: u64,
    pub config_nonce: u128,
    pub user_stake_nonce: u128,
    pub now_ts: u64,
}

/// The pending marker after a callback for `request` arrives: a matching
/// request clears it; any other leaves it as it is.
pub open spec fn marker_after_callback(marker: Option<u64>, request: u64) -> Option<u64> {
    if marker == Some(request) { None } else { marker }
}

/// Whether a callback for `request` is accepted by a record whose pending
/// marker is `marker`.
pub open spec fn callback_accepted(marker: Option<u64>, request: u64) -> bool {
    marker == Some(request)
}

/// Why queuing a stake or unstake computation is refused, if it is, in the
/// order the conditions are tested (a stake's amount is tested before all
/// of them).
pub open spec fn queue_error(c: SublyConfig, a: UserStakeAccount, user: Pubkey, now: i64, for_stake: bool) -> Option<ErrorCode> {
    if now < 0 {
        Some(ErrorCode::ComputationValidationFailed)
    } else if c.paused {
        Some(ErrorCode::ProgramPaused)
    } else if c.pending_initialize_offset is Some {
        Some(ErrorCode::PendingComputationMismatch)
    } else if c.pending_config_offset is Some {
        Some(ErrorCode::PendingComputationInProgress)
    } else if a.owner@ != user@ {
        Some(ErrorCode::InvalidPositionOwner)
    } else if a.pending_computation_offset is Some {
        Some(ErrorCode::PendingComputationInProgress)
    } else if for_stake && a.entry_count >= MAX_STAKE_ENTRIES {
        Some(ErrorCode::ComputationValidationFailed)
    } else {
        None
    }
}

/// Marks the global record and the depositor's ledger as awaiting one
/// computation, identified by `computation_offset`.
fn mark_pending(config: &mut SublyConfig, account: &mut UserStakeAccount, user: Pubkey, now: i64, computation_offset: u64, for_stake: bool) -> (r: Result<QueuedRequest, ErrorCode>)
    ensures
        r is Err <==> queue_error(*old(config), *old(account), user, now, for_stake) is Some,
        r matches Err(e) ==> Some(e) == queue_error(*old(config), *old(account), user, now, for_stake)
            && *final(config) == *old(config) && *final(account) == *old(account),
        r matches Ok(q) ==> q.computation_offset == computation_offset && q.now_ts == now
            && q.config_nonce == old(config).encrypted_state.nonce
            && q.user_stake_nonce == old(account).encrypted_state.nonce
            && *final(config) == (SublyConfig { pending_config_offset: Some(computation_offset), ..*old(config) })
            && *final(account) == (UserStakeAccount { pending_computation_offset: Some(computation_offset), ..*old(account) }),
{
    if now < 0 {
        return Err(ErrorCode::ComputationValidationFailed);
    }
    if config.paused {
        return Err(ErrorCode::ProgramPaused);
    }
    if config.pending_initialize_offset.is_some() {
        return Err(ErrorCode::PendingComputationMismatch);
    }
    if config.pending_config_offset.is_some() {
        return Err(ErrorCode::PendingComputationInProgress);
    }
    if !account.owner.same_as(&user) {
        return Err(ErrorCode::InvalidPositionOwner);
    }
    if account.pending_computation_offset.is_some() {
        return Err(ErrorCode::PendingComputationInProgress);
    }
    if for_stake && account.entry_count as usize >= MAX_STAKE_ENTRIES {
        return Err(ErrorCode::ComputationValidationFailed);
    }
    config.pending_config_offset = Some(computation_offset);
    account.pending_computation_offset = Some(computation_offset);
    Ok(QueuedRequest {
        computation_offset,
        config_nonce: config.encrypted_state.nonce,
        user_stake_nonce: account.encrypted_state.nonce,
        now_ts: now as u64,
    })
}

/// Queues a confidential stake of `amount`: both records must be idle, and
/// are then marked as awaiting the computation. The deposit transfer and
/// the submission to the network are the caller's.
pub fn queue_stake(config: &mut SublyConfig, account: &mut UserStakeAccount, user: Pubkey, amount: u64, now: i64, computation_offset: u64) -> (r: Result<QueuedRequest, ErrorCode>)
    ensures
        amount == 0 ==> r == Err::<QueuedRequest, ErrorCode>(ErrorCode::AmountTooSmall),
        amount > 0 ==> (r is Err <==> queue_error(*old(config), *old(account), user, now, true) is Some),
        amount > 0 ==> (r matches Err(e) ==> Some(e) == queue_error(*old(config), *old(account), user, now, true)),
        r is Err ==> *final(config) == *old(config) && *final(account) == *old(account),
        r matches Ok(q) ==> q.computation_offset == computation_offset && q.now_ts == now
            && *final(config) == (SublyConfig { pending_config_offset: Some(computation_offset), ..*old(config) })
            && *final(account) == (UserStakeAccount { pending_computation_offset: Some(computation_offset), ..*old(account) }),
{
    if amount == 0 {
        return Err(ErrorCode::AmountTooSmall);
    }
    mark_pending(config, account, user, now, computation_offset, true)
}

/// Queues a confidential unstake: the ledger must belong to `user`, and
/// both records must be idle; they are then marked as awaiting the
/// computation. The submission to the network is the caller's.
pub fn queue_unstake(config: &mut SublyConfig, account: &mut UserStakeAccount, user: Pubkey, now: i64, computation_offset: u64) -> (r: Result<QueuedRequest, ErrorCode>)
    ensures
        r is Err <==> queue_error(*old(config), *old(account), user, now, false) is Some,
        r matches Err(e) ==> Some(e) == queue_error(*old(config), *old(account), user, now, false)
            && *final(config) == *old(config) && *final(account) == *old(account),
        r matches Ok(q) ==> q.computation_offset == computation_offset && q.now_ts == now
            && *final(config) == (SublyConfig { pending_config_offset: Some(computation_offset), ..*old(config) })
            && *final(account) == (UserStakeAccount { pending_computation_offset: Some(computation_offset), ..*old(account) }),
{
    mark_pending(config, account, user, now, computation_offset, false)
}

/// Applies the initialisation result requested under `request`. A callback
/// that does not match the pending request changes nothing and is refused;
/// a matching one clears the marker, then a failed computation applies
/// nothing and is reported as `AbortedComputation`.
pub fn initialize_callback(config: &mut SublyConfig, registry: &mut SubscriptionRegistry, request: u64, output: ComputationOutcome<InitializeOutput>) -> (r: Result<(), ErrorCode>)
    ensures
        !callback_accepted(old(config).pending_initialize_offset, request)
            ==> r == Err::<(), ErrorCode>(ErrorCode::PendingComputationMismatch) && *final(config) == *old(config)
                && *final(registry) == *old(registry),
        callback_accepted(old(config).pending_initialize_offset, request) ==> {
            &&& final(config).pending_initialize_offset is None
            &&& match output {
                ComputationOutcome::Failure => r == Err::<(), ErrorCode>(ErrorCode::AbortedComputation)
                    && *final(config) == (SublyConfig { pending_initialize_offset: None, ..*old(config) })
                    && *final(registry) == *old(registry),
                ComputationOutcome::Success(out) => r is Ok
                    && *final(config) == (SublyConfig {
                        encrypted_state: out.config_state,
                        pending_initialize_offset: None,
                        pending_config_offset: None,
                        paused: false,
                        ..*old(config)
                    })
                    && *final(registry) == (SubscriptionRegistry { encrypted_registry: out.registry_state, ..*old(registry) }),
            }
        },
{
    if config.pending_initialize_offset != Some(request) {
        return Err(ErrorCode::PendingComputationMismatch);
    }
    config.pending_initialize_offset = None;
    match output {
        ComputationOutcome::Failure => Err(ErrorCode::AbortedComputation),
        ComputationOutcome::Success(out) => {
            config.encrypted_state = out.config_state;
            config.paused = false;
            config.pending_config_offset = None;
            registry.encrypted_registry = out.registry_state;
            Ok(())
        },
    }
}

/// Whether a stake or unstake callback for `request` matches the request
/// both records await.
pub open spec fn pair_accepts(c: SublyConfig, a: UserStakeAccount, request: u64) -> bool {
    callback_accepted(c.pending_config_offset, request) && callback_accepted(a.pending_computation_offset, request)
}

/// Applies the result of the stake computation requested under `request`.
/// Unless both records await exactly that request nothing changes and the
/// callback is refused. Otherwise both markers are cleared together, before
/// anything else; then a failed computation applies nothing
/// (`AbortedComputation`), a ledger state byte-identical to the one before
/// the request applies nothing (`ComputationValidationFailed`), and any other
/// result replaces both encrypted states.
pub fn stake_callback(config: &mut SublyConfig, account: &mut UserStakeAccount, request: u64, output: ComputationOutcome<StakeOutput>) -> (r: Result<(), ErrorCode>)
    ensures
        !pair_accepts(*old(config), *old(account), request) ==> r == Err::<(), ErrorCode>(ErrorCode::PendingComputationMismatch)
            && *final(config) == *old(config) && *final(account) == *old(account),
        pair_accepts(*old(config), *old(account), request) ==> {
            let c0 = SublyConfig { pending_config_offset: None, ..*old(config) };
            let a0 = UserStakeAccount { pending_computation_offset: None, ..*old(account) };
            match output {
                ComputationOutcome::Failure => r == Err::<(), ErrorCode>(ErrorCode::AbortedComputation)
                    && *final(config) == c0 && *final(account) == a0,
                ComputationOutcome::Success(out) => if out.stake_state.nonce == old(account).encrypted_state.nonce
                    && out.stake_state.ciphertexts@ == old(account).encrypted_state.ciphertexts@ {
                    r == Err::<(), ErrorCode>(ErrorCode::ComputationValidationFailed)
                        && *final(config) == c0 && *final(account) == a0
                } else {
                    r is Ok
                    && *final(config) == (SublyConfig { encrypted_state: out.config_state, paused: false, ..c0 })
                    && *final(account) == (UserStakeAccount { encrypted_state: out.stake_state, entry_count: out.entry_count, ..a0 })
                },
            }
        },
        final(config).pending_config_offset == marker_after_callback(old(config).pending_config_offset, request)
            || !pair_accepts(*old(config), *old(account), request),
{
    if config.pending_config_offset != Some(request) || account.pending_computation_offset != Some(request) {
        return Err(ErrorCode::PendingComputationMismatch);
    }
    config.pending_config_offset = None;
    account.pending_computation_offset = None;
    match output {
        ComputationOutcome::Failure => Err(ErrorCode::AbortedComputation),
        ComputationOutcome::Success(out) => {
            if out.stake_state.same_as(&account.encrypted_state) {
                return Err(ErrorCode::ComputationValidationFailed);
            }
            config.encrypted_state = out.config_state;
            config.paused = false;
            account.encrypted_state = out.stake_state;
            account.entry_count = out.entry_count;
            Ok(())
        },
    }
}

/// Applies the result of the unstake computation requested under
/// `request`, as `stake_callback` does; a result that is not a replay but
/// withdrew nothing applies nothing (`NothingToUnstake`). On success returns the principal
/// to pay out, which is the caller's to transfer.
pub fn unstake_callback(config: &mut SublyConfig, account: &mut UserStakeAccount, request: u64, output: ComputationOutcome<UnstakeOutput>) -> (r: Result<u64, ErrorCode>)
    ensures
        !pair_accepts(*old(config), *old(account), request) ==> r == Err::<u64, ErrorCode>(ErrorCode::PendingComputationMismatch)
            && *final(config) == *old(config) && *final(account) == *old(account),
        pair_accepts(*old(config), *old(account), request) ==> {
            let c0 = SublyConfig { pending_config_offset: None, ..*old(config) };
            let a0 = UserStakeAccount { pending_computation_offset: None, ..*old(account) };
            match output {
                ComputationOutcome::Failure => r == Err::<u64, ErrorCode>(ErrorCode::AbortedComputation)
                    && *final(config) == c0 && *final(account) == a0,
                ComputationOutcome::Success(out) => if out.stake_state.nonce == old(account).encrypted_state.nonce
                    && out.stake_state.ciphertexts@ == old(account).encrypted_state.ciphertexts@ {
                    r == Err::<u64, ErrorCode>(ErrorCode::ComputationValidationFailed)
                        && *final(config) == c0 && *final(account) == a0
                } else if out.withdrawn_principal == 0 {
                    r == Err::<u64, ErrorCode>(ErrorCode::NothingToUnstake) && *final(config) == c0 && *final(account) == a0
                } else {
                    r == Ok::<u64, ErrorCode>(out.withdrawn_principal)
                    && *final(config) == (SublyConfig { encrypted_state: out.config_state, paused: false, ..c0 })
                    && *final(account) == (UserStakeAccount { encrypted_state: out.stake_state, entry_count: out.entry_count, ..a0 })
                },
            }
        },
{
    if config.pending_config_offset != Some(request) || account.pending_computation_offset != Some(request) {
        return Err(ErrorCode::PendingComputationMismatch);
    }
    config.pending_config_offset = None;
    account.pending_computation_offset = None;
    match output {
        ComputationOutcome::Failure => Err(ErrorCode::AbortedComputation),
        ComputationOutcome::Success(out) => {
            if out.stake_state.same_as(&account.encrypted_state) {
                return Err(ErrorCode::ComputationValidationFailed);
            }
            if out.withdrawn_principal == 0 {
                return Err(ErrorCode::NothingToUnstake);
            }
            config.encrypted_state = out.config_state;
            config.paused = false;
            account.encrypted_state = out.stake_state;
            account.entry_count = out.entry_count;
            Ok(out.withdrawn_principal)
        },
    }
}

/// Number of callbacks among `requests` (in arrival order) that a record
/// starting with pending marker `marker` accepts.
pub open spec fn accepted_callbacks(marker: Option<u64>, requests: Seq<u64>) -> nat
    decreases requests.len(),
{
    if requests.len() == 0 {
        0
    } else {
        let rest = accepted_callbacks(marker_after_callback(marker, requests[0]), requests.skip(1));
        if callback_accepted(marker, requests[0]) { rest + 1 } else { rest }
    }
}

/// A record that is idle accepts no callback, whatever arrives; one request
/// queued is answered by at most one accepted callback, so any duplicate
/// after it is refused.
pub proof fn callbacks_apply_at_most_once(marker: Option<u64>, requests: Seq<u64>)
    ensures
        marker is None ==> accepted_callbacks(marker, requests) == 0,
        accepted_callbacks(marker, requests) <= 1,
    decreases requests.len(),
{
    if requests.len() > 0 {
        callbacks_apply_at_most_once(marker_after_callback(marker, requests[0]), requests.skip(1));
    }
}

} // verus!
