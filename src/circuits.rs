use vstd::prelude::*;

use crate::accrual::{accrual_fails, accrue_index, accrued_index};
use crate::constants::{lock_duration_for_index, lock_option, DEFAULT_APY_BPS, INDEX_SCALE, MAX_STAKE_ENTRIES};
use crate::staking::opened_tranche;
use crate::tranche::{sync_step, zero_entry, StakeEntry};

verus! {

/// Plaintext of the encrypted global record, as the computation network
/// sees it.
#[derive(Clone, Copy, Debug)]
pub struct ConfigSecrets {
    pub total_principal: u64,
    pub reward_pool: u64,
    pub acc_index: u128,
    pub apy_bps: u16,
    pub last_update_ts: i64,
    pub paused: bool,
}

/// Plaintext of the encrypted catalog record.
#[derive(Clone, Copy, Debug)]
pub struct RegistrySecrets {
    pub next_service_id: u64,
    pub services_root_low: u128,
    pub services_root_high: u128,
}

/// A tranche as the confidential engine stores it: the same record as the
/// plaintext engine's.
pub type StakeEntrySecrets = StakeEntry;

/// Plaintext of an encrypted tranche ledger: a fixed table of
/// `MAX_STAKE_ENTRIES` slots of which the first `entry_count` are in use.
#[derive(Clone, Debug)]
pub struct UserStakeSecrets {
    pub total_principal: u64,
    pub last_updated_ts: i64,
    pub next_tranche_id: u64,
    pub entry_count: u8,
    pub entries: Vec<StakeEntrySecrets>,
}

impl UserStakeSecrets {
    pub open spec fn wf(&self) -> bool {
        self.entries@.len() == MAX_STAKE_ENTRIES && self.entry_count <= MAX_STAKE_ENTRIES
    }
}

#[derive(Clone, Copy, Debug)]
pub struct InitializeInput {
    pub clock_unix_ts: u64,
}

#[derive(Clone, Copy, Debug)]
pub struct StakeInput {
    pub amount: u64,
    pub lock_option: u8,
    pub now_ts: u64,
}

#[derive(Clone, Copy, Debug)]
pub struct UnstakeInput {
    pub tranche_id: u64,
    pub now_ts: u64,
}

/// The global plaintext after accruing to `now`; an accrual that cannot be
/// represented leaves it as it was.
pub open spec fn accrue_secrets(c: ConfigSecrets, now: i64) -> ConfigSecrets {
    if accrual_fails(c.acc_index, c.last_update_ts, c.total_principal, c.apy_bps, now) || now <= c.last_update_ts {
        c
    } else {
        ConfigSecrets {
            acc_index: accrued_index(c.acc_index, c.last_update_ts, c.total_principal, c.apy_bps, now),
            last_update_ts: now,
            ..c
        }
    }
}

/// The table's slots synced to `acc_index`.
pub open spec fn synced_slots(s: Seq<StakeEntry>, acc_index: u128) -> Seq<StakeEntry> {
    s.map_values(|e: StakeEntry| sync_step(e, acc_index))
}

/// The initial plaintexts: index at one unit of scale, default rate, empty
/// pools and catalog.
pub fn initialize_subly(input: InitializeInput) -> (r: (ConfigSecrets, RegistrySecrets))
    ensures
        r.0 == (ConfigSecrets {
            total_principal: 0,
            reward_pool: 0,
            acc_index: INDEX_SCALE,
            apy_bps: DEFAULT_APY_BPS,
            last_update_ts: input.clock_unix_ts as i64,
            paused: false,
        }),
        r.1 == (RegistrySecrets { next_service_id: 0, services_root_low: 0, services_root_high: 0 }),
{
    let config = ConfigSecrets {
        total_principal: 0,
        reward_pool: 0,
        acc_index: INDEX_SCALE,
        apy_bps: DEFAULT_APY_BPS,
        last_update_ts: input.clock_unix_ts as i64,
        paused: false,
    };
    let registry = RegistrySecrets { next_service_id: 0, services_root_low: 0, services_root_high: 0 };
    (config, registry)
}

/// Accrues the global plaintext to `now` with the ledger's own accrual.
pub fn accrue_config(config: &mut ConfigSecrets, now: i64)
    ensures
        *final(config) == accrue_secrets(*old(config), now),
{
    match accrue_index(config.acc_index, config.last_update_ts, config.total_principal, config.apy_bps, now) {
        Ok(idx) => {
            if now > config.last_update_ts {
                config.acc_index = idx;
                config.last_update_ts = now;
            }
        },
        Err(_) => {},
    }
}

/// Syncs every slot of the table to `acc_index` with the ledger's own
/// tranche sync, and stamps the table with `now`.
pub fn sync_entries(stake: &mut UserStakeSecrets, acc_index: u128, now: i64)
    ensures
        final(stake).entries@ == synced_slots(old(stake).entries@, acc_index),
        final(stake).last_updated_ts == now,
        final(stake).total_principal == old(stake).total_principal,
        final(stake).next_tranche_id == old(stake).next_tranche_id,
        final(stake).entry_count == old(stake).entry_count,
{
    let ghost s = stake.entries@;
    let n = stake.entries.len();
    let mut i: usize = 0;
    while i < n
        invariant
            n == s.len(),
            stake.entries@.len() == n,
            0 <= i <= n,
            forall|j: int| 0 <= j < i ==> stake.entries@[j] == sync_step(#[trigger] s[j], acc_index),
            forall|j: int| i <= j < n ==> stake.entries@[j] == s[j],
            stake.total_principal == old(stake).total_principal,
            stake.next_tranche_id == old(stake).next_tranche_id,
            stake.entry_count == old(stake).entry_count,
            s == old(stake).entries@,
        decreases n - i,
    {
        let mut e = stake.entries[i];
        let _ = e.sync_to_index(acc_index);
        stake.entries.set(i, e);
        i = i + 1;
    }
    assert(stake.entries@ =~= synced_slots(s, acc_index));
    stake.last_updated_ts = now;
}

/// Fills a slot with a new tranche; the caller has checked that its lock
/// end is representable.
pub fn populate_entry(entry: &mut StakeEntrySecrets, tranche_id: u64, amount: u64, now: i64, lock_duration: i64, acc_index: u128)
    requires
        i64::MIN <= now + lock_duration <= i64::MAX,
    ensures
        *final(entry) == opened_tranche(tranche_id, amount, now, lock_duration, acc_index),
{
    entry.tranche_id = tranche_id;
    entry.principal = amount;
    entry.deposited_at = now;
    entry.lock_duration = lock_duration;
    entry.lock_end_ts = now + lock_duration;
    entry.start_acc_index = acc_index;
    entry.last_acc_index = acc_index;
    entry.claimed_operator = 0;
    entry.claimed_user = 0;
    entry.unrealized_yield = 0;
}

/// Whether a stake can be placed into the synced table `s1` under the
/// accrued global plaintext `c1`.
pub open spec fn stake_placeable(c1: ConfigSecrets, s: UserStakeSecrets, input: StakeInput) -> bool {
    let now = input.now_ts as i64;
    &&& input.amount > 0
    &&& lock_option(input.lock_option as int) is Some
    &&& s.entry_count < MAX_STAKE_ENTRIES
    &&& s.next_tranche_id < u64::MAX
    &&& i64::MIN <= now + lock_option(input.lock_option as int)->0 <= i64::MAX
    &&& s.total_principal + input.amount <= u64::MAX
    &&& c1.total_principal + input.amount <= u64::MAX
}

/// The confidential stake computation: accrue, sync the table, then place
/// the new tranche in the first free slot. A stake that cannot be placed
/// (zero amount, unknown lock option, full table, or arithmetic that cannot
/// be represented) leaves the synced state unchanged. Also returns the
/// resulting slot count and next tranche id, which are made public.
pub fn stake_subly(config: ConfigSecrets, stake: UserStakeSecrets, input: StakeInput) -> (r: (ConfigSecrets, UserStakeSecrets, u8, u64))
    requires
        stake.wf(),
    ensures
        ({
            let now = input.now_ts as i64;
            let c1 = accrue_secrets(config, now);
            let s1 = synced_slots(stake.entries@, c1.acc_index);
            &&& r.1.wf()
            &&& r.1.last_updated_ts == now
            &&& r.2 == r.1.entry_count
            &&& r.3 == r.1.next_tranche_id
            &&& stake_placeable(c1, stake, input) ==> {
                &&& r.0 == (ConfigSecrets { total_principal: (c1.total_principal + input.amount) as u64, ..c1 })
                &&& r.1.entries@ == s1.update(stake.entry_count as int, opened_tranche(stake.next_tranche_id,
                    input.amount, now, lock_option(input.lock_option as int)->0, c1.acc_index))
                &&& r.1.total_principal == stake.total_principal + input.amount
                &&& r.1.entry_count == stake.entry_count + 1
                &&& r.1.next_tranche_id == stake.next_tranche_id + 1
            }
            &&& !stake_placeable(c1, stake, input) ==> {
                &&& r.0 == c1
                &&& r.1.entries@ == s1
                &&& r.1.total_principal == stake.total_principal
                &&& r.1.entry_count == stake.entry_count
                &&& r.1.next_tranche_id == stake.next_tranche_id
            }
        }),
{
    let now = input.now_ts as i64;
    let mut config = config;
    let mut stake = stake;
    accrue_config(&mut config, now);
    sync_entries(&mut stake, config.acc_index, now);
    let count = stake.entry_count as usize;
    if input.amount > 0 && count < MAX_STAKE_ENTRIES && stake.next_tranche_id < u64::MAX
        && stake.total_principal <= u64::MAX - input.amount && config.total_principal <= u64::MAX - input.amount {
        if let Some(lock_duration) = lock_duration_for_index(input.lock_option) {
            if now.checked_add(lock_duration).is_some() {
                let tranche_id = stake.next_tranche_id;
                let mut entry = stake.entries[count];
                populate_entry(&mut entry, tranche_id, input.amount, now, lock_duration, config.acc_index);
                stake.entries.set(count, entry);
                stake.total_principal = stake.total_principal + input.amount;
                stake.entry_count = (count + 1) as u8;
                stake.next_tranche_id = tranche_id + 1;
                config.total_principal = config.total_principal + input.amount;
            }
        }
    }
    let entry_count = stake.entry_count;
    let next_tranche_id = stake.next_tranche_id;
    (config, stake, entry_count, next_tranche_id)
}

/// Whether slot `e` may be withdrawn for `tranche_id` at `now`.
pub open spec fn withdrawable(e: StakeEntry, tranche_id: u64, now: i64) -> bool {
    e.tranche_id == tranche_id && e.principal > 0 && now >= e.lock_end_ts && e.unrealized_yield == 0
}

/// Whether slot `k` is the first used slot of `s` that may be withdrawn.
pub open spec fn first_withdrawable(s: Seq<StakeEntry>, count: int, tranche_id: u64, now: i64, k: int) -> bool {
    &&& 0 <= k < count
    &&& withdrawable(s[k], tranche_id, now)
    &&& forall|j: int| 0 <= j < k ==> !withdrawable(#[trigger] s[j], tranche_id, now)
}

/// The table `s`, whose first `count` slots are in use, after slot `k` is
/// taken out: the later used slots move down by one in order, the slot
/// freed at the end of the used part is cleared, and the unused slots stay.
pub open spec fn without_slot(s: Seq<StakeEntry>, count: int, k: int) -> Seq<StakeEntry> {
    s.subrange(0, k) + s.subrange(k + 1, count) + seq![zero_entry()] + s.subrange(count, s.len() as int)
}

/// The confidential unstake computation: accrue, sync the table, then find
/// the first used slot holding the tranche with principal left, its lock
/// over and no unclaimed yield; its principal is withdrawn and the later
/// used slots move down by one, keeping their storage order. Returns the principal withdrawn (zero when
/// none was, leaving the synced state unchanged) and the slot count, which
/// are made public.
pub fn unstake_subly(config: ConfigSecrets, stake: UserStakeSecrets, input: UnstakeInput) -> (r: (ConfigSecrets, UserStakeSecrets, u64, u8))
    requires
        stake.wf(),
    ensures
        ({
            let now = input.now_ts as i64;
            let c1 = accrue_secrets(config, now);
            let s1 = synced_slots(stake.entries@, c1.acc_index);
            let count = stake.entry_count as int;
            &&& r.1.wf()
            &&& r.1.last_updated_ts == now
            &&& r.3 == r.1.entry_count
            &&& r.1.next_tranche_id == stake.next_tranche_id
            &&& (forall|j: int| 0 <= j < count ==> !withdrawable(#[trigger] s1[j], input.tranche_id, now)) ==> {
                &&& r.2 == 0 && r.0 == c1 && r.1.entries@ == s1
                &&& r.1.total_principal == stake.total_principal && r.1.entry_count == stake.entry_count
            }
            &&& forall|k: int| #[trigger] first_withdrawable(s1, count, input.tranche_id, now, k) ==> {
                let p = s1[k].principal;
                if stake.total_principal < p || c1.total_principal < p {
                    &&& r.2 == 0 && r.0 == c1 && r.1.entries@ == s1
                    &&& r.1.total_principal == stake.total_principal && r.1.entry_count == stake.entry_count
                } else {
                    &&& r.2 == p
                    &&& r.0 == (ConfigSecrets { total_principal: (c1.total_principal - p) as u64, ..c1 })
                    &&& r.1.entries@ == without_slot(s1, count, k)
                    &&& r.1.total_principal == stake.total_principal - p
                    &&& r.1.entry_count == count - 1
                }
            }
        }),
{
    let now = input.now_ts as i64;
    let mut config = config;
    let mut stake = stake;
    accrue_config(&mut config, now);
    sync_entries(&mut stake, config.acc_index, now);
    let ghost s1 = stake.entries@;
    let active = stake.entry_count as usize;
    let mut found: usize = MAX_STAKE_ENTRIES;
    let mut i: usize = 0;
    while i < active && found == MAX_STAKE_ENTRIES
        invariant
            s1 == stake.entries@,
            s1.len() == MAX_STAKE_ENTRIES,
            active <= MAX_STAKE_ENTRIES,
            active == stake.entry_count,
            0 <= i <= active,
            found == MAX_STAKE_ENTRIES ==> forall|j: int| 0 <= j < i ==> !withdrawable(#[trigger] s1[j], input.tranche_id, now),
            found != MAX_STAKE_ENTRIES ==> found < active && withdrawable(s1[found as int], input.tranche_id, now)
                && forall|j: int| 0 <= j < found ==> !withdrawable(#[trigger] s1[j], input.tranche_id, now),
        decreases active - i,
    {
        let e = stake.entries[i];
        if e.tranche_id == input.tranche_id && e.principal > 0 && now >= e.lock_end_ts && e.unrealized_yield == 0 {
            found = i;
        }
        i = i + 1;
    }
    proof {
        assert forall|k: int| #[trigger] first_withdrawable(s1, active as int, input.tranche_id, now, k)
            implies k == found by {
            if k < found {
                assert(withdrawable(s1[k], input.tranche_id, now));
            } else if k > found {
                assert(!withdrawable(s1[found as int], input.tranche_id, now));
            }
        }
    }
    let mut withdrawn: u64 = 0;
    if found < active {
        let principal = stake.entries[found].principal;
        if stake.total_principal >= principal && config.total_principal >= principal {
            let last = active - 1;
            let ghost before = stake;
            let mut j: usize = found;
            while j < last
                invariant
                    found <= j <= last,
                    last + 1 == active,
                    active <= MAX_STAKE_ENTRIES,
                    s1.len() == MAX_STAKE_ENTRIES,
                    stake.entries@.len() == MAX_STAKE_ENTRIES,
                    stake.total_principal == before.total_principal,
                    stake.entry_count == before.entry_count,
                    stake.last_updated_ts == before.last_updated_ts,
                    stake.next_tranche_id == before.next_tranche_id,
                    forall|a: int| 0 <= a < found ==> stake.entries@[a] == s1[a],
                    forall|a: int| found <= a < j ==> stake.entries@[a] == s1[a + 1],
                    forall|a: int| j <= a < MAX_STAKE_ENTRIES ==> stake.entries@[a] == s1[a],
                decreases last - j,
            {
                let next = stake.entries[j + 1];
                stake.entries.set(j, next);
                j = j + 1;
            }
            let mut cleared = stake.entries[last];
            cleared.reset();
            stake.entries.set(last, cleared);
            stake.entry_count = last as u8;
            stake.total_principal = stake.total_principal - principal;
            config.total_principal = config.total_principal - principal;
            withdrawn = principal;
            proof {
                assert(stake.entries@ =~= without_slot(s1, active as int, found as int));
            }
        }
    }
    let entry_count = stake.entry_count;
    (config, stake, withdrawn, entry_count)
}

} // verus!
