use vstd::prelude::*;

use crate::error::ErrorCode;
use crate::keys::Pubkey;
use crate::tranche::{claim_creates_no_value, withdraw_error, after_claim, available_to, claim_error, claim_take, generated, sync_accrual, sync_overflows, synced, Claimant, StakeEntry};

verus! {

/// A per-tranche quantity that the ledger totals over a depositor's tranches.
#[derive(Clone, Copy, Debug, PartialEq, Eq, Structural)]
pub enum Measure {
    Principal,
    Unrealized,
    Generated,
    ClaimedOperator,
    ClaimedUser,
    AvailableUser(i64),
}

pub open spec fn measure_of(e: StakeEntry, m: Measure) -> int {
    match m {
        Measure::Principal => e.principal as int,
        Measure::Unrealized => e.unrealized_yield as int,
        Measure::Generated => generated(e),
        Measure::ClaimedOperator => e.claimed_operator as int,
        Measure::ClaimedUser => e.claimed_user as int,
        Measure::AvailableUser(now) => available_to(e, Claimant::Subscriber, now),
    }
}

/// Sum of a measure over a list of tranches.
pub open spec fn total_of(s: Seq<StakeEntry>, m: Measure) -> int
    decreases s.len(),
{
    if s.len() == 0 {
        0
    } else {
        measure_of(s[0], m) + total_of(s.skip(1), m)
    }
}

/// The tranches after a ledger-wide claim of `remaining` for `who`: drained
/// greedily in storage order until the request is met.
pub open spec fn drain(s: Seq<StakeEntry>, who: Claimant, now: i64, remaining: int) -> Seq<StakeEntry>
    decreases s.len(),
{
    if s.len() == 0 || remaining <= 0 {
        s
    } else {
        let t = claim_take(s[0], remaining as u64);
        seq![after_claim(s[0], who, t)] + drain(s.skip(1), who, now, remaining - t)
    }
}

/// Amount a ledger-wide claim of `remaining` takes in total.
pub open spec fn drain_taken(s: Seq<StakeEntry>, who: Claimant, now: i64, remaining: int) -> int
    decreases s.len(),
{
    if s.len() == 0 || remaining <= 0 {
        0
    } else {
        let t = claim_take(s[0], remaining as u64);
        t + drain_taken(s.skip(1), who, now, remaining - t)
    }
}

/// Why a ledger-wide claim is refused: the first tranche reached that
/// refuses its part.
pub open spec fn drain_error(s: Seq<StakeEntry>, who: Claimant, now: i64, remaining: int) -> Option<ErrorCode>
    decreases s.len(),
{
    if s.len() == 0 || remaining <= 0 {
        None
    } else if claim_error(s[0], who, now, remaining as u64).is_some() {
        claim_error(s[0], who, now, remaining as u64)
    } else {
        drain_error(s.skip(1), who, now, remaining - claim_take(s[0], remaining as u64))
    }
}

/// Index of the first tranche with the given id.
pub open spec fn tranche_position(s: Seq<StakeEntry>, tranche_id: u64) -> Option<int> {
    if exists|i: int| 0 <= i < s.len() && s[i].tranche_id == tranche_id {
        Some(choose|i: int| 0 <= i < s.len() && s[i].tranche_id == tranche_id
            && forall|j: int| 0 <= j < i ==> s[j].tranche_id != tranche_id)
    } else {
        None
    }
}

pub proof fn lemma_total_nonneg(s: Seq<StakeEntry>, m: Measure)
    ensures
        total_of(s, m) >= 0,
    decreases s.len(),
{
    if s.len() > 0 {
        lemma_total_nonneg(s.skip(1), m);
    }
}

pub proof fn lemma_total_push(s: Seq<StakeEntry>, e: StakeEntry, m: Measure)
    ensures
        total_of(s.push(e), m) == total_of(s, m) + measure_of(e, m),
    decreases s.len(),
{
    if s.len() == 0 {
        assert(s.push(e).skip(1) =~= s);
    } else {
        assert(s.push(e).skip(1) =~= s.skip(1).push(e));
        lemma_total_push(s.skip(1), e, m);
    }
}

pub proof fn lemma_total_update(s: Seq<StakeEntry>, i: int, e: StakeEntry, m: Measure)
    requires
        0 <= i < s.len(),
    ensures
        total_of(s.update(i, e), m) == total_of(s, m) - measure_of(s[i], m) + measure_of(e, m),
    decreases s.len(),
{
    if i == 0 {
        assert(s.update(i, e).skip(1) =~= s.skip(1));
    } else {
        assert(s.update(i, e).skip(1) =~= s.skip(1).update(i - 1, e));
        lemma_total_update(s.skip(1), i - 1, e, m);
    }
}

pub proof fn lemma_total_pointwise(a: Seq<StakeEntry>, b: Seq<StakeEntry>, m: Measure)
    requires
        a.len() == b.len(),
        forall|i: int| 0 <= i < a.len() ==> measure_of(#[trigger] a[i], m) == measure_of(b[i], m),
    ensures
        total_of(a, m) == total_of(b, m),
    decreases a.len(),
{
    if a.len() > 0 {
        assert forall|i: int| 0 <= i < a.skip(1).len() implies measure_of(#[trigger] a.skip(1)[i], m)
            == measure_of(b.skip(1)[i], m) by {
            assert(a.skip(1)[i] == a[i + 1]);
        }
        lemma_total_pointwise(a.skip(1), b.skip(1), m);
    }
}

/// A drained list keeps each tranche's id and principal, tranche by tranche.
pub proof fn lemma_drain_shape(s: Seq<StakeEntry>, who: Claimant, now: i64, remaining: int)
    ensures
        drain(s, who, now, remaining).len() == s.len(),
        forall|i: int| 0 <= i < s.len() ==> (#[trigger] drain(s, who, now, remaining)[i]).tranche_id == s[i].tranche_id
            && drain(s, who, now, remaining)[i].principal == s[i].principal,
    decreases s.len(),
{
    if s.len() > 0 && remaining > 0 {
        let t = claim_take(s[0], remaining as u64);
        lemma_drain_shape(s.skip(1), who, now, remaining - t);
        assert forall|i: int| 0 <= i < s.len() implies (#[trigger] drain(s, who, now, remaining)[i]).tranche_id
            == s[i].tranche_id && drain(s, who, now, remaining)[i].principal == s[i].principal by {
            if i > 0 {
                assert(s.skip(1)[i - 1] == s[i]);
            }
        }
    }
}

/// A depositor's tranche ledger.
#[derive(Clone, Debug)]
pub struct UserStake {
    pub owner: Pubkey,
    pub total_principal: u64,
    pub last_updated_ts: i64,
    pub next_tranche_id: u64,
    pub entries: Vec<StakeEntry>,
    pub bump: u8,
}

/// Space the persisted ledger needs beside its tranches.
pub const USER_STAKE_BASE_SIZE: usize = 8 + 32 + 8 + 8 + 8 + 4 + 1;

/// Persisted size of one tranche.
pub const STAKE_ENTRY_SIZE: usize = 8 + 8 + 8 + 8 + 8 + 16 + 16 + 8 + 8 + 8;

/// Number of tranches a fresh ledger has room for.
pub const INITIAL_ENTRY_CAPACITY: usize = 4;

impl UserStake {
    /// The ledger's principal total matches its tranches, and tranche ids are
    /// distinct and below the next id to hand out.
    pub open spec fn wf(&self) -> bool {
        &&& self.total_principal == total_of(self.entries@, Measure::Principal)
        &&& forall|i: int| 0 <= i < self.entries@.len() ==> #[trigger] self.entries@[i].tranche_id < self.next_tranche_id
        &&& forall|i: int, j: int| 0 <= i < j < self.entries@.len()
            ==> #[trigger] self.entries@[i].tranche_id != #[trigger] self.entries@[j].tranche_id
    }

    /// An empty ledger owned by nobody yet.
    pub fn empty() -> (r: UserStake)
        ensures
            r.owner.is_zero_spec(),
            r.entries@.len() == 0,
            r.total_principal == 0,
            r.next_tranche_id == 0,
            r.wf(),
    {
        UserStake {
            owner: Pubkey::zero(),
            total_principal: 0,
            last_updated_ts: 0,
            next_tranche_id: 0,
            entries: Vec::new(),
            bump: 0,
        }
    }

    /// A copy of the ledger, tranche by tranche.
    pub fn duplicate(&self) -> (r: UserStake)
        ensures
            r.entries@ == self.entries@,
            r.owner == self.owner,
            r.total_principal == self.total_principal,
            r.last_updated_ts == self.last_updated_ts,
            r.next_tranche_id == self.next_tranche_id,
            r.bump == self.bump,
    {
        let mut entries: Vec<StakeEntry> = Vec::new();
        let n = self.entries.len();
        let mut i: usize = 0;
        while i < n
            invariant
                n == self.entries@.len(),
                0 <= i <= n,
                entries@ == self.entries@.take(i as int),
            decreases n - i,
        {
            entries.push(self.entries[i]);
            i = i + 1;
            assert(entries@ =~= self.entries@.take(i as int));
        }
        assert(self.entries@.take(n as int) =~= self.entries@);
        UserStake {
            owner: self.owner,
            total_principal: self.total_principal,
            last_updated_ts: self.last_updated_ts,
            next_tranche_id: self.next_tranche_id,
            entries,
            bump: self.bump,
        }
    }

    /// Persisted size of a ledger with `entry_count` tranches.
    pub fn required_size(entry_count: usize) -> (r: usize)
        requires
            USER_STAKE_BASE_SIZE + entry_count * STAKE_ENTRY_SIZE <= usize::MAX,
        ensures
            r == USER_STAKE_BASE_SIZE + entry_count * STAKE_ENTRY_SIZE,
    {
        USER_STAKE_BASE_SIZE + entry_count * STAKE_ENTRY_SIZE
    }

    pub fn is_initialized(&self) -> (r: bool)
        ensures
            r == !self.owner.is_zero_spec(),
    {
        !self.owner.is_zero()
    }

    /// Claims an unowned ledger for `owner`, resetting it; an owned ledger is
    /// left as it is.
    pub fn ensure_owner(&mut self, owner: Pubkey, bump: u8)
        ensures
            old(self).owner.is_zero_spec() ==> final(self).owner == owner && final(self).bump == bump
                && final(self).total_principal == 0 && final(self).last_updated_ts == 0
                && final(self).next_tranche_id == 0 && final(self).entries@.len() == 0,
            !old(self).owner.is_zero_spec() ==> *final(self) == *old(self),
            old(self).wf() ==> final(self).wf(),
    {
        if !self.is_initialized() {
            self.owner = owner;
            self.bump = bump;
            self.total_principal = 0;
            self.last_updated_ts = 0;
            self.next_tranche_id = 0;
            self.entries = Vec::new();
        }
    }

    /// Sum of a measure over the tranches, refused if it does not fit a u64.
    pub fn total(&self, m: Measure) -> (r: Result<u64, ErrorCode>)
        ensures
            r is Ok <==> total_of(self.entries@, m) <= u64::MAX,
            r matches Ok(v) ==> v == total_of(self.entries@, m),
            r matches Err(e) ==> e == ErrorCode::MathOverflow,
    {
        let n = self.entries.len();
        let mut acc: u64 = 0;
        let mut i: usize = 0;
        assert(self.entries@.skip(0) =~= self.entries@);
        while i < n
            invariant
                n == self.entries@.len(),
                0 <= i <= n,
                acc + total_of(self.entries@.skip(i as int), m) == total_of(self.entries@, m),
            decreases n - i,
        {
            let e = self.entries[i];
            proof {
                assert(self.entries@.skip(i as int).skip(1) =~= self.entries@.skip(i + 1));
                assert(self.entries@.skip(i as int)[0] == e);
            }
            let x: u64 = match m {
                Measure::Principal => e.principal,
                Measure::Unrealized => e.unrealized_yield,
                Measure::Generated => match e.total_yield_generated() {
                    Ok(v) => v,
                    Err(err) => {
                        proof {
                            lemma_total_nonneg(self.entries@.skip(i + 1), m);
                        }
                        return Err(err);
                    },
                },
                Measure::ClaimedOperator => e.claimed_operator,
                Measure::ClaimedUser => e.claimed_user,
                Measure::AvailableUser(now) => e.available_for_user(now),
            };
            proof {
                assert(self.entries@.skip(i as int).skip(1) =~= self.entries@.skip(i + 1));
                lemma_total_nonneg(self.entries@.skip(i + 1), m);
            }
            if acc > u64::MAX - x {
                return Err(ErrorCode::MathOverflow);
            }
            acc = acc + x;
            i = i + 1;
        }
        Ok(acc)
    }

    /// Unclaimed yield over all tranches.
    pub fn total_unrealized_yield(&self) -> (r: Result<u64, ErrorCode>)
        ensures
            r is Ok <==> total_of(self.entries@, Measure::Unrealized) <= u64::MAX,
            r matches Ok(v) ==> v == total_of(self.entries@, Measure::Unrealized),
            r matches Err(e) ==> e == ErrorCode::MathOverflow,
    {
        self.total(Measure::Unrealized)
    }

    /// Yield generated over all tranches: claimed by either party or unclaimed.
    pub fn total_yield_generated(&self) -> (r: Result<u64, ErrorCode>)
        ensures
            r is Ok <==> total_of(self.entries@, Measure::Generated) <= u64::MAX,
            r matches Ok(v) ==> v == total_of(self.entries@, Measure::Generated),
            r matches Err(e) ==> e == ErrorCode::MathOverflow,
    {
        self.total(Measure::Generated)
    }

    /// Yield the operator may draw now.
    pub fn available_yield_for_operator(&self) -> (r: Result<u64, ErrorCode>)
        ensures
            r is Ok <==> total_of(self.entries@, Measure::Unrealized) <= u64::MAX,
            r matches Ok(v) ==> v == total_of(self.entries@, Measure::Unrealized),
            r matches Err(e) ==> e == ErrorCode::MathOverflow,
    {
        self.total(Measure::Unrealized)
    }

    /// Yield the depositor may draw at `now`: that of tranches whose lock ended.
    pub fn available_yield_for_user(&self, now: i64) -> (r: Result<u64, ErrorCode>)
        ensures
            r is Ok <==> total_of(self.entries@, Measure::AvailableUser(now)) <= u64::MAX,
            r matches Ok(v) ==> v == total_of(self.entries@, Measure::AvailableUser(now)),
            r matches Err(e) ==> e == ErrorCode::MathOverflow,
    {
        self.total(Measure::AvailableUser(now))
    }

    /// Settles every tranche against the global index and stamps the ledger
    /// with `now`; returns the yield settled. All or nothing.
    pub fn sync_against_index(&mut self, acc_index: u128, now: i64) -> (r: Result<u64, ErrorCode>)
        ensures
            r is Err <==> any_sync_overflows(old(self).entries@, acc_index)
                || total_accrual(old(self).entries@, acc_index) > u64::MAX,
            r matches Err(e) ==> e == ErrorCode::MathOverflow && *final(self) == *old(self),
            r matches Ok(a) ==> a == total_accrual(old(self).entries@, acc_index)
                && final(self).entries@ == old(self).entries@.map_values(|e: StakeEntry| synced(e, acc_index))
                && final(self).last_updated_ts == now
                && same_header(*final(self), *old(self)),
            old(self).wf() ==> final(self).wf(),
    {
        let n = self.entries.len();
        let mut out: Vec<StakeEntry> = Vec::new();
        let mut acc: u64 = 0;
        let mut i: usize = 0;
        assert(self.entries@.skip(0) =~= self.entries@);
        while i < n
            invariant
                n == self.entries@.len(),
                0 <= i <= n,
                out@.len() == i,
                forall|j: int| 0 <= j < i ==> out@[j] == synced(#[trigger] self.entries@[j], acc_index),
                forall|j: int| 0 <= j < i ==> !sync_overflows(#[trigger] self.entries@[j], acc_index),
                acc + total_accrual(self.entries@.skip(i as int), acc_index) == total_accrual(self.entries@, acc_index),
            decreases n - i,
        {
            let mut e = self.entries[i];
            proof {
                assert(self.entries@.skip(i as int).skip(1) =~= self.entries@.skip(i + 1));
                assert(self.entries@.skip(i as int)[0] == self.entries@[i as int]);
                lemma_accrual_nonneg(self.entries@.skip(i + 1), acc_index);
            }
            let a = match e.sync_to_index(acc_index) {
                Ok(v) => v,
                Err(err) => return Err(err),
            };
            if acc > u64::MAX - a {
                return Err(ErrorCode::MathOverflow);
            }
            acc = acc + a;
            out.push(e);
            i = i + 1;
        }
        proof {
            assert(out@ =~= self.entries@.map_values(|e: StakeEntry| synced(e, acc_index)));
            assert forall|j: int| 0 <= j < out@.len() implies measure_of(#[trigger] out@[j], Measure::Principal)
                == measure_of(self.entries@[j], Measure::Principal) by {}
            lemma_total_pointwise(out@, self.entries@, Measure::Principal);
        }
        self.entries = out;
        self.last_updated_ts = now;
        Ok(acc)
    }

    /// Appends a tranche of `amount` locked for `lock_duration` from `now`,
    /// checkpointed at `start_index`; returns its id. All or nothing.
    pub fn record_stake(&mut self, amount: u64, now: i64, lock_duration: i64, start_index: u128) -> (r: Result<u64, ErrorCode>)
        ensures
            r is Err <==> !(i64::MIN <= now + lock_duration <= i64::MAX)
                || old(self).total_principal + amount > u64::MAX
                || old(self).next_tranche_id == u64::MAX,
            r matches Err(e) ==> e == ErrorCode::MathOverflow && *final(self) == *old(self),
            r matches Ok(id) ==> id == old(self).next_tranche_id
                && final(self).entries@ == old(self).entries@.push(StakeEntry {
                    tranche_id: id,
                    principal: amount,
                    deposited_at: now,
                    lock_end_ts: (now + lock_duration) as i64,
                    lock_duration,
                    start_acc_index: start_index,
                    last_acc_index: start_index,
                    claimed_operator: 0,
                    claimed_user: 0,
                    unrealized_yield: 0,
                })
                && final(self).total_principal == old(self).total_principal + amount
                && final(self).next_tranche_id == old(self).next_tranche_id + 1
                && final(self).last_updated_ts == now
                && final(self).owner == old(self).owner
                && final(self).bump == old(self).bump,
            old(self).wf() ==> final(self).wf(),
    {
        let tranche_id = self.next_tranche_id;
        let entry = match StakeEntry::new(tranche_id, amount, now, lock_duration, start_index) {
            Ok(e) => e,
            Err(err) => return Err(err),
        };
        if self.total_principal > u64::MAX - amount {
            return Err(ErrorCode::MathOverflow);
        }
        if self.next_tranche_id == u64::MAX {
            return Err(ErrorCode::MathOverflow);
        }
        proof {
            lemma_total_push(self.entries@, entry, Measure::Principal);
        }
        self.entries.push(entry);
        self.total_principal = self.total_principal + amount;
        self.last_updated_ts = now;
        self.next_tranche_id = self.next_tranche_id + 1;
        Ok(tranche_id)
    }

    /// Draws `amount` (zero: everything available) of yield for `who` from
    /// the tranches in storage order; returns the amount drawn. All or nothing.
    pub fn claim_for(&mut self, who: Claimant, now: i64, amount: u64) -> (r: Result<u64, ErrorCode>)
        ensures
            r is Err <==> ledger_claim_error(old(self).entries@, who, now, amount).is_some(),
            r matches Err(e) ==> Some(e) == ledger_claim_error(old(self).entries@, who, now, amount)
                && *final(self) == *old(self),
            r matches Ok(c) ==> c == drain_taken(old(self).entries@, who, now, claim_request(old(self).entries@, who, now, amount))
                && final(self).entries@ == drain(old(self).entries@, who, now, claim_request(old(self).entries@, who, now, amount))
                && final(self).last_updated_ts == old(self).last_updated_ts
                && same_header(*final(self), *old(self)),
            old(self).wf() ==> final(self).wf(),
    {
        let want = if amount == 0 {
            let avail = match who {
                Claimant::Operator => self.available_yield_for_operator(),
                Claimant::Subscriber => self.available_yield_for_user(now),
            };
            match avail {
                Ok(v) => v,
                Err(err) => return Err(err),
            }
        } else {
            amount
        };
        let ghost s = self.entries@;
        let n = self.entries.len();
        let mut out: Vec<StakeEntry> = Vec::new();
        let mut remaining: u64 = want;
        let mut claimed: u64 = 0;
        let mut i: usize = 0;
        assert(s.skip(0) =~= s);
        while i < n
            invariant
                s == self.entries@,
                claim_request(s, who, now, amount) == want as int,
                n == s.len(),
                0 <= i <= n,
                out@.len() == i,
                out@ + drain(s.skip(i as int), who, now, remaining as int) == drain(s, who, now, want as int),
                claimed + drain_taken(s.skip(i as int), who, now, remaining as int) == drain_taken(s, who, now, want as int),
                drain_error(s.skip(i as int), who, now, remaining as int) == drain_error(s, who, now, want as int),
                claimed + remaining == want,
            decreases n - i,
        {
            let mut e = self.entries[i];
            proof {
                assert(s.skip(i as int).skip(1) =~= s.skip(i + 1));
                assert(s.skip(i as int)[0] == e);
            }
            if remaining == 0 {
                proof {
                    assert(s.skip(i as int) =~= seq![e] + s.skip(i + 1));
                    assert(out@.push(e) + s.skip(i + 1) =~= out@ + s.skip(i as int));
                }
                out.push(e);
            } else {
                let ghost e0 = e;
                let t = match e.claim(who, now, remaining) {
                    Ok(v) => v,
                    Err(err) => {
                        proof {
                            assert(drain_error(s.skip(i as int), who, now, remaining as int)
                                == claim_error(e0, who, now, remaining));
                        }
                        return Err(err);
                    },
                };
                proof {
                    assert(out@.push(e) + drain(s.skip(i + 1), who, now, remaining - t)
                        =~= out@ + drain(s.skip(i as int), who, now, remaining as int));
                }
                out.push(e);
                remaining = remaining - t;
                claimed = claimed + t;
            }
            i = i + 1;
        }
        proof {
            assert(out@ + drain(s.skip(n as int), who, now, remaining as int) =~= out@);
            lemma_drain_shape(s, who, now, want as int);
            assert forall|j: int| 0 <= j < out@.len() implies measure_of(#[trigger] out@[j], Measure::Principal)
                == measure_of(s[j], Measure::Principal) by {}
            lemma_total_pointwise(out@, s, Measure::Principal);
        }
        self.entries = out;
        Ok(claimed)
    }

    /// Operator claim over the whole ledger.
    pub fn claim_for_operator(&mut self, amount: u64) -> (r: Result<u64, ErrorCode>)
        ensures
            r is Err <==> ledger_claim_error(old(self).entries@, Claimant::Operator, 0, amount).is_some(),
            r matches Err(e) ==> Some(e) == ledger_claim_error(old(self).entries@, Claimant::Operator, 0, amount)
                && *final(self) == *old(self),
            r matches Ok(c) ==> c == drain_taken(old(self).entries@, Claimant::Operator, 0,
                    claim_request(old(self).entries@, Claimant::Operator, 0, amount))
                && final(self).entries@ == drain(old(self).entries@, Claimant::Operator, 0,
                    claim_request(old(self).entries@, Claimant::Operator, 0, amount))
                && final(self).last_updated_ts == old(self).last_updated_ts
                && same_header(*final(self), *old(self)),
            old(self).wf() ==> final(self).wf(),
    {
        self.claim_for(Claimant::Operator, 0, amount)
    }

    /// Depositor claim over the whole ledger at `now`.
    pub fn claim_for_user(&mut self, now: i64, amount: u64) -> (r: Result<u64, ErrorCode>)
        ensures
            r is Err <==> ledger_claim_error(old(self).entries@, Claimant::Subscriber, now, amount).is_some(),
            r matches Err(e) ==> Some(e) == ledger_claim_error(old(self).entries@, Claimant::Subscriber, now, amount)
                && *final(self) == *old(self),
            r matches Ok(c) ==> c == drain_taken(old(self).entries@, Claimant::Subscriber, now,
                    claim_request(old(self).entries@, Claimant::Subscriber, now, amount))
                && final(self).entries@ == drain(old(self).entries@, Claimant::Subscriber, now,
                    claim_request(old(self).entries@, Claimant::Subscriber, now, amount))
                && final(self).last_updated_ts == old(self).last_updated_ts
                && same_header(*final(self), *old(self)),
            old(self).wf() ==> final(self).wf(),
    {
        self.claim_for(Claimant::Subscriber, now, amount)
    }

    /// Position of the first tranche with id `tranche_id`.
    pub fn find_entry(&self, tranche_id: u64) -> (r: Option<usize>)
        ensures
            r matches Some(k) ==> k < self.entries@.len() && self.entries@[k as int].tranche_id == tranche_id
                && forall|j: int| 0 <= j < k ==> #[trigger] self.entries@[j].tranche_id != tranche_id,
            r is None ==> forall|j: int| 0 <= j < self.entries@.len() ==> #[trigger] self.entries@[j].tranche_id != tranche_id,
    {
        let n = self.entries.len();
        let mut i: usize = 0;
        while i < n
            invariant
                n == self.entries@.len(),
                0 <= i <= n,
                forall|j: int| 0 <= j < i ==> #[trigger] self.entries@[j].tranche_id != tranche_id,
            decreases n - i,
        {
            if self.entries[i].tranche_id == tranche_id {
                return Some(i);
            }
            i = i + 1;
        }
        None
    }

    /// Withdraws the whole principal of one tranche and lowers the ledger's
    /// principal total by it; returns the principal.
    pub fn unstake_tranche(&mut self, tranche_id: u64, now: i64) -> (r: Result<u64, ErrorCode>)
        ensures
            (forall|j: int| 0 <= j < old(self).entries@.len() ==> #[trigger] old(self).entries@[j].tranche_id != tranche_id)
                ==> r == Err::<u64, ErrorCode>(ErrorCode::InvalidTranche),
            forall|k: int| 0 <= k < old(self).entries@.len() && #[trigger] old(self).entries@[k].tranche_id == tranche_id
                && (forall|j: int| 0 <= j < k ==> #[trigger] old(self).entries@[j].tranche_id != tranche_id)
                ==> unstake_outcome(*old(self), k, now, r, *final(self)),
            r is Err ==> *final(self) == *old(self),
            old(self).wf() ==> final(self).wf(),
    {
        let k = match self.find_entry(tranche_id) {
            Some(k) => k,
            None => return Err(ErrorCode::InvalidTranche),
        };
        let mut e = self.entries[k];
        let principal = match e.withdraw_principal(now) {
            Ok(p) => p,
            Err(err) => return Err(err),
        };
        if self.total_principal < principal {
            proof {
                lemma_total_update(self.entries@, k as int, e, Measure::Principal);
                lemma_total_nonneg(self.entries@.update(k as int, e), Measure::Principal);
            }
            return Err(ErrorCode::MathOverflow);
        }
        proof {
            lemma_total_update(self.entries@, k as int, e, Measure::Principal);
        }
        self.entries.set(k, e);
        self.total_principal = self.total_principal - principal;
        Ok(principal)
    }
}

/// Identity fields of the ledger that syncing and claiming leave alone.
pub open spec fn same_header(a: UserStake, b: UserStake) -> bool {
    &&& a.owner == b.owner
    &&& a.total_principal == b.total_principal
    &&& a.next_tranche_id == b.next_tranche_id
    &&& a.bump == b.bump
}

/// Yield settled by syncing every tranche of `s` to `acc_index`.
pub open spec fn total_accrual(s: Seq<StakeEntry>, acc_index: u128) -> int
    decreases s.len(),
{
    if s.len() == 0 {
        0
    } else {
        sync_accrual(s[0], acc_index) + total_accrual(s.skip(1), acc_index)
    }
}

pub open spec fn any_sync_overflows(s: Seq<StakeEntry>, acc_index: u128) -> bool {
    exists|i: int| 0 <= i < s.len() && sync_overflows(#[trigger] s[i], acc_index)
}

pub proof fn lemma_accrual_nonneg(s: Seq<StakeEntry>, acc_index: u128)
    ensures
        total_accrual(s, acc_index) >= 0,
    decreases s.len(),
{
    if s.len() > 0 {
        lemma_accrual_nonneg(s.skip(1), acc_index);
        let e = s[0];
        if !(acc_index <= e.last_acc_index || e.principal == 0) {
            assert(e.principal * (acc_index - e.last_acc_index) >= 0) by (nonlinear_arith)
                requires e.principal >= 0, acc_index - e.last_acc_index > 0;
        }
    }
}

/// The amount a ledger-wide claim asks for: `amount`, or all that `who` may
/// draw when `amount` is zero.
pub open spec fn claim_request(s: Seq<StakeEntry>, who: Claimant, now: i64, amount: u64) -> int {
    if amount != 0 {
        amount as int
    } else if who == Claimant::Operator {
        total_of(s, Measure::Unrealized)
    } else {
        total_of(s, Measure::AvailableUser(now))
    }
}

/// Why a ledger-wide claim is refused, if it is.
pub open spec fn ledger_claim_error(s: Seq<StakeEntry>, who: Claimant, now: i64, amount: u64) -> Option<ErrorCode> {
    if claim_request(s, who, now, amount) > u64::MAX {
        Some(ErrorCode::MathOverflow)
    } else {
        drain_error(s, who, now, claim_request(s, who, now, amount))
    }
}

/// What unstaking tranche `k` of `old` at `now` yields.
pub open spec fn unstake_outcome(old: UserStake, k: int, now: i64, r: Result<u64, ErrorCode>, new: UserStake) -> bool {
    let e = old.entries@[k];
    match withdraw_error(e, now) {
        Some(err) => r == Err::<u64, ErrorCode>(err),
        None => if old.total_principal < e.principal {
            r == Err::<u64, ErrorCode>(ErrorCode::MathOverflow) && !old.wf()
        } else {
            r == Ok::<u64, ErrorCode>(e.principal)
                && new.entries@ == old.entries@.update(k, StakeEntry { principal: 0, ..e })
                && new.total_principal == old.total_principal - e.principal
                && new.owner == old.owner
                && new.next_tranche_id == old.next_tranche_id
                && new.last_updated_ts == old.last_updated_ts
        },
    }
}

/// A ledger-wide claim that is not refused takes exactly the smaller of the
/// amount asked for and the yield left unclaimed, so never more than either,
/// and only moves value between buckets: the yield generated over the
/// tranches is unchanged.
pub proof fn ledger_claim_creates_no_value(s: Seq<StakeEntry>, who: Claimant, now: i64, remaining: int)
    requires
        0 <= remaining <= u64::MAX,
        drain_error(s, who, now, remaining).is_none(),
    ensures
        drain_taken(s, who, now, remaining) == if remaining <= total_of(s, Measure::Unrealized) {
            remaining
        } else {
            total_of(s, Measure::Unrealized)
        },
        total_of(drain(s, who, now, remaining), Measure::Generated) == total_of(s, Measure::Generated),
    decreases s.len(),
{
    lemma_total_nonneg(s, Measure::Unrealized);
    if s.len() > 0 && remaining > 0 {
        let t = claim_take(s[0], remaining as u64);
        ledger_claim_creates_no_value(s.skip(1), who, now, remaining - t);
        claim_creates_no_value(s[0], who, now, remaining as u64);
        let d = drain(s, who, now, remaining);
        assert(d.skip(1) =~= drain(s.skip(1), who, now, remaining - t));
    } else if s.len() > 0 {
        lemma_total_nonneg(s.skip(1), Measure::Unrealized);
    }
}

/// A depositor's ledger-wide claim that is not refused leaves every
/// still-locked tranche as it was, and takes no more than the yield of the
/// tranches whose lock has ended.
pub proof fn subscriber_claim_leaves_locked_tranches(s: Seq<StakeEntry>, now: i64, remaining: int)
    requires
        0 <= remaining <= u64::MAX,
        drain_error(s, Claimant::Subscriber, now, remaining).is_none(),
    ensures
        forall|i: int| 0 <= i < s.len() && now < (#[trigger] s[i]).lock_end_ts
            ==> drain(s, Claimant::Subscriber, now, remaining)[i] == s[i],
        drain_taken(s, Claimant::Subscriber, now, remaining) <= total_of(s, Measure::AvailableUser(now)),
    decreases s.len(),
{
    lemma_total_nonneg(s, Measure::AvailableUser(now));
    if s.len() > 0 && remaining > 0 {
        let t = claim_take(s[0], remaining as u64);
        subscriber_claim_leaves_locked_tranches(s.skip(1), now, remaining - t);
        lemma_drain_shape(s, Claimant::Subscriber, now, remaining);
        let d = drain(s, Claimant::Subscriber, now, remaining);
        assert(d.skip(1) =~= drain(s.skip(1), Claimant::Subscriber, now, remaining - t));
        assert forall|i: int| 0 <= i < s.len() && now < (#[trigger] s[i]).lock_end_ts implies d[i] == s[i] by {
            if i > 0 {
                assert(s.skip(1)[i - 1] == s[i]);
                assert(d.skip(1)[i - 1] == d[i]);
            }
        }
    } else if s.len() > 0 {
        lemma_total_nonneg(s.skip(1), Measure::AvailableUser(now));
    }
}

} // verus!
