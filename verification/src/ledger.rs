use vstd::hash_map::HashMapWithView;
use vstd::prelude::*;

use crate::errors::ErrorCode;
use crate::record::AgentReputation;
use crate::record::AgentRole;
use crate::record::apply_update;
use crate::record::fresh_record;
use crate::record::initial_record;
use crate::record::updated_record;

verus! {

/// The abstract state of the whole system: the configured authority, the
/// reputation record and stake vault of each registered agent, and the
/// general balance of every account. Records and vaults live in separate
/// namespaces, each keyed by the agent's identity, so an agent has at most
/// one of each. An account absent from `balances` holds balance 0.
#[verifier::ext_equal]
pub ghost struct LedgerView {
    pub authority: u64,
    pub records: Map<u64, AgentReputation>,
    pub vaults: Map<u64, u64>,
    pub balances: Map<u64, u64>,
}

/// The general balance of an account; accounts never funded hold 0.
pub open spec fn balance_of(s: LedgerView, who: u64) -> int {
    if s.balances.dom().contains(who) {
        s.balances[who] as int
    } else {
        0
    }
}

/// Registration without stake: fails with `AlreadyRegistered` if a record
/// for the agent exists, otherwise stores a fresh record.
pub open spec fn spec_initialize_agent(
    s: LedgerView,
    agent: u64,
    role: AgentRole,
    now: i64,
) -> (LedgerView, Result<(), ErrorCode>) {
    if s.records.dom().contains(agent) {
        (s, Err(ErrorCode::AlreadyRegistered))
    } else {
        (
            LedgerView {
                records: s.records.insert(agent, fresh_record(agent, role, now)),
                ..s
            },
            Ok(()),
        )
    }
}

/// Registration with stake: creates the record, opens the agent's vault
/// holding `stake_amount`, and debits the payer, all together or not at
/// all. Fails with `AlreadyRegistered` if a record exists, and with
/// `InsufficientFunds` if the payer cannot cover the deposit.
pub open spec fn spec_initialize_agent_with_stake(
    s: LedgerView,
    agent: u64,
    role: AgentRole,
    payer: u64,
    stake_amount: u64,
    now: i64,
) -> (LedgerView, Result<(), ErrorCode>) {
    if s.records.dom().contains(agent) {
        (s, Err(ErrorCode::AlreadyRegistered))
    } else if balance_of(s, payer) < stake_amount {
        (s, Err(ErrorCode::InsufficientFunds))
    } else {
        (
            LedgerView {
                records: s.records.insert(agent, fresh_record(agent, role, now)),
                vaults: s.vaults.insert(agent, stake_amount),
                balances: s.balances.insert(payer, (balance_of(s, payer) - stake_amount) as u64),
                ..s
            },
            Ok(()),
        )
    }
}

/// Reporting a job result: only the authority may call; fails with
/// `RecordNotFound` if the agent is unregistered, with `Overflow` if a
/// counter or accumulator would leave the `u64` range, and otherwise
/// replaces the record by its update.
pub open spec fn spec_update_reputation(
    s: LedgerView,
    caller: u64,
    agent: u64,
    success: bool,
    amount_earned: u64,
    now: i64,
) -> (LedgerView, Result<(), ErrorCode>) {
    if caller != s.authority {
        (s, Err(ErrorCode::Unauthorized))
    } else if !s.records.dom().contains(agent) {
        (s, Err(ErrorCode::RecordNotFound))
    } else {
        match updated_record(s.records[agent], success, amount_earned, now) {
            Ok(r2) => (LedgerView { records: s.records.insert(agent, r2), ..s }, Ok(())),
            Err(e) => (s, Err(e)),
        }
    }
}

/// Slashing: only the authority may call; moves `amount` from the agent's
/// vault to the authority's own balance. Fails with `RecordNotFound` if no
/// vault exists, with `InsufficientStake` if the vault cannot cover the
/// amount (the balance never goes negative), and with `Overflow` if the
/// credit would leave the `u64` range. The reputation record is untouched.
pub open spec fn spec_slash_stake(
    s: LedgerView,
    caller: u64,
    agent: u64,
    amount: u64,
) -> (LedgerView, Result<(), ErrorCode>) {
    if caller != s.authority {
        (s, Err(ErrorCode::Unauthorized))
    } else if !s.vaults.dom().contains(agent) {
        (s, Err(ErrorCode::RecordNotFound))
    } else if amount > s.vaults[agent] {
        (s, Err(ErrorCode::InsufficientStake))
    } else if balance_of(s, s.authority) + amount > u64::MAX {
        (s, Err(ErrorCode::Overflow))
    } else {
        (
            LedgerView {
                vaults: s.vaults.insert(agent, (s.vaults[agent] - amount) as u64),
                balances: s.balances.insert(
                    s.authority,
                    (balance_of(s, s.authority) + amount) as u64,
                ),
                ..s
            },
            Ok(()),
        )
    }
}

/// Withdrawal: the agent moves `amount` from its own vault to its own
/// general balance. Fails with `RecordNotFound` if no vault exists, with
/// `InsufficientStake` if the vault cannot cover the amount, and with
/// `Overflow` if the credit would leave the `u64` range.
pub open spec fn spec_withdraw_stake(
    s: LedgerView,
    agent: u64,
    amount: u64,
) -> (LedgerView, Result<(), ErrorCode>) {
    if !s.vaults.dom().contains(agent) {
        (s, Err(ErrorCode::RecordNotFound))
    } else if amount > s.vaults[agent] {
        (s, Err(ErrorCode::InsufficientStake))
    } else if balance_of(s, agent) + amount > u64::MAX {
        (s, Err(ErrorCode::Overflow))
    } else {
        (
            LedgerView {
                vaults: s.vaults.insert(agent, (s.vaults[agent] - amount) as u64),
                balances: s.balances.insert(agent, (balance_of(s, agent) + amount) as u64),
                ..s
            },
            Ok(()),
        )
    }
}

/// Funding an account's general balance from outside the system; fails
/// with `Overflow` if the balance would leave the `u64` range.
pub open spec fn spec_fund(
    s: LedgerView,
    who: u64,
    amount: u64,
) -> (LedgerView, Result<(), ErrorCode>) {
    if balance_of(s, who) + amount > u64::MAX {
        (s, Err(ErrorCode::Overflow))
    } else {
        (
            LedgerView { balances: s.balances.insert(who, (balance_of(s, who) + amount) as u64), ..s },
            Ok(()),
        )
    }
}

/// The in-memory system of record. Every public operation is one atomic
/// transition of the [`LedgerView`]: it either applies in full, or fails
/// with an [`ErrorCode`] and leaves the state exactly as it was.
pub struct Ledger {
    authority: u64,
    records: HashMapWithView<u64, AgentReputation>,
    vaults: HashMapWithView<u64, u64>,
    balances: HashMapWithView<u64, u64>,
}

impl View for Ledger {
    type V = LedgerView;

    closed spec fn view(&self) -> LedgerView {
        LedgerView {
            authority: self.authority,
            records: self.records@,
            vaults: self.vaults@,
            balances: self.balances@,
        }
    }
}

impl Ledger {
    /// Creates an empty ledger configured with the identity of the one
    /// authority allowed to report job results and slash stake.
    pub fn new(authority: u64) -> (l: Ledger)
        ensures
            l@.authority == authority,
            l@.records == Map::<u64, AgentReputation>::empty(),
            l@.vaults == Map::<u64, u64>::empty(),
            l@.balances == Map::<u64, u64>::empty(),
    {
        Ledger {
            authority,
            records: HashMapWithView::new(),
            vaults: HashMapWithView::new(),
            balances: HashMapWithView::new(),
        }
    }

    /// The identity of the configured authority.
    pub fn authority_id(&self) -> (a: u64)
        ensures
            a == self@.authority,
    {
        self.authority
    }

    /// Registers `agent` with `role` and no stake; the new record starts
    /// with zeroed counters and the neutral trust score 50.
    pub fn initialize_agent(&mut self, agent: u64, role: AgentRole, now: i64) -> (r: Result<
        (),
        ErrorCode,
    >)
        ensures
            final(self)@ == spec_initialize_agent(old(self)@, agent, role, now).0,
            r == spec_initialize_agent(old(self)@, agent, role, now).1,
            old(self)@.records.dom().contains(agent) <==> r == Err::<(), ErrorCode>(
                ErrorCode::AlreadyRegistered,
            ),
            r is Err ==> final(self)@ == old(self)@,
    {
        if self.records.contains_key(&agent) {
            return Err(ErrorCode::AlreadyRegistered);
        }
        let rec = initial_record(agent, role, now);
        self.records.insert(agent, rec);
        Ok(())
    }

    /// Registers `agent` with `role`, and atomically moves `stake_amount`
    /// from `payer`'s balance into the agent's new vault; on any failure
    /// neither the record nor any balance changes.
    pub fn initialize_agent_with_stake(
        &mut self,
        agent: u64,
        role: AgentRole,
        payer: u64,
        stake_amount: u64,
        now: i64,
    ) -> (r: Result<(), ErrorCode>)
        ensures
            final(self)@ == spec_initialize_agent_with_stake(
                old(self)@,
                agent,
                role,
                payer,
                stake_amount,
                now,
            ).0,
            r == spec_initialize_agent_with_stake(
                old(self)@,
                agent,
                role,
                payer,
                stake_amount,
                now,
            ).1,
            r is Err ==> final(self)@ == old(self)@,
    {
        if self.records.contains_key(&agent) {
            return Err(ErrorCode::AlreadyRegistered);
        }
        let payer_balance = self.get_balance(payer);
        if payer_balance < stake_amount {
            return Err(ErrorCode::InsufficientFunds);
        }
        let rec = initial_record(agent, role, now);
        self.records.insert(agent, rec);
        self.vaults.insert(agent, stake_amount);
        self.balances.insert(payer, payer_balance - stake_amount);
        Ok(())
    }

    /// Records one job result for `agent`: on success the completion
    /// counter and earnings grow, otherwise the failure counter grows
    /// (`amount_earned` is ignored then); the trust score is recomputed
    /// with truncating division and `last_updated` is set to `now`. Only
    /// the configured authority may call.
    pub fn update_reputation(
        &mut self,
        caller: u64,
        agent: u64,
        success: bool,
        amount_earned: u64,
        now: i64,
    ) -> (r: Result<(), ErrorCode>)
        ensures
            final(self)@ == spec_update_reputation(
                old(self)@,
                caller,
                agent,
                success,
                amount_earned,
                now,
            ).0,
            r == spec_update_reputation(old(self)@, caller, agent, success, amount_earned, now).1,
            caller != old(self)@.authority ==> r == Err::<(), ErrorCode>(ErrorCode::Unauthorized),
            r is Err ==> final(self)@ == old(self)@,
    {
        if caller != self.authority {
            return Err(ErrorCode::Unauthorized);
        }
        let rec = match self.records.get(&agent) {
            Some(r) => *r,
            None => {
                return Err(ErrorCode::RecordNotFound);
            },
        };
        let updated = match apply_update(&rec, success, amount_earned, now) {
            Ok(u) => u,
            Err(e) => {
                return Err(e);
            },
        };
        self.records.insert(agent, updated);
        Ok(())
    }

    /// Moves `amount` from `agent`'s vault to the authority's balance as a
    /// penalty. Only the configured authority may call; the vault balance
    /// never goes negative, and the reputation record is untouched.
    pub fn slash_stake(&mut self, caller: u64, agent: u64, amount: u64) -> (r: Result<
        (),
        ErrorCode,
    >)
        ensures
            final(self)@ == spec_slash_stake(old(self)@, caller, agent, amount).0,
            r == spec_slash_stake(old(self)@, caller, agent, amount).1,
            caller == old(self)@.authority && old(self)@.vaults.dom().contains(agent) && amount
                > old(self)@.vaults[agent] ==> r == Err::<(), ErrorCode>(
                ErrorCode::InsufficientStake,
            ),
            r is Err ==> final(self)@ == old(self)@,
            final(self)@.records == old(self)@.records,
    {
        if caller != self.authority {
            return Err(ErrorCode::Unauthorized);
        }
        let vault_balance = match self.vaults.get(&agent) {
            Some(v) => *v,
            None => {
                return Err(ErrorCode::RecordNotFound);
            },
        };
        if amount > vault_balance {
            return Err(ErrorCode::InsufficientStake);
        }
        let authority = self.authority;
        let authority_balance = self.get_balance(authority);
        if authority_balance > u64::MAX - amount {
            return Err(ErrorCode::Overflow);
        }
        self.vaults.insert(agent, vault_balance - amount);
        self.balances.insert(authority, authority_balance + amount);
        Ok(())
    }

    /// Moves `amount` from `agent`'s vault back to the agent's own general
    /// balance. Only the agent itself spends its vault, so the caller's
    /// identity is the vault owner's; the vault balance never goes
    /// negative.
    pub fn withdraw_stake(&mut self, agent: u64, amount: u64) -> (r: Result<(), ErrorCode>)
        ensures
            final(self)@ == spec_withdraw_stake(old(self)@, agent, amount).0,
            r == spec_withdraw_stake(old(self)@, agent, amount).1,
            old(self)@.vaults.dom().contains(agent) && amount > old(self)@.vaults[agent] ==> r
                == Err::<(), ErrorCode>(ErrorCode::InsufficientStake),
            r is Err ==> final(self)@ == old(self)@,
            final(self)@.records == old(self)@.records,
    {
        let vault_balance = match self.vaults.get(&agent) {
            Some(v) => *v,
            None => {
                return Err(ErrorCode::RecordNotFound);
            },
        };
        if amount > vault_balance {
            return Err(ErrorCode::InsufficientStake);
        }
        let agent_balance = self.get_balance(agent);
        if agent_balance > u64::MAX - amount {
            return Err(ErrorCode::Overflow);
        }
        self.vaults.insert(agent, vault_balance - amount);
        self.balances.insert(agent, agent_balance + amount);
        Ok(())
    }

    /// Credits `amount` to `who`'s general balance from outside the
    /// system (how an account comes to hold funds is the host's concern).
    pub fn fund(&mut self, who: u64, amount: u64) -> (r: Result<(), ErrorCode>)
        ensures
            final(self)@ == spec_fund(old(self)@, who, amount).0,
            r == spec_fund(old(self)@, who, amount).1,
            r is Err ==> final(self)@ == old(self)@,
    {
        let balance = self.get_balance(who);
        if balance > u64::MAX - amount {
            return Err(ErrorCode::Overflow);
        }
        self.balances.insert(who, balance + amount);
        Ok(())
    }

    /// Looks up `agent`'s reputation record.
    pub fn get_record(&self, agent: u64) -> (r: Option<AgentReputation>)
        ensures
            match r {
                Some(rec) => self@.records.dom().contains(agent) && rec == self@.records[agent],
                None => !self@.records.dom().contains(agent),
            },
    {
        match self.records.get(&agent) {
            Some(rec) => Some(*rec),
            None => None,
        }
    }

    /// Looks up `agent`'s stake vault balance; `None` when no vault was
    /// ever opened for the agent.
    pub fn get_stake_balance(&self, agent: u64) -> (b: Option<u64>)
        ensures
            match b {
                Some(v) => self@.vaults.dom().contains(agent) && v == self@.vaults[agent],
                None => !self@.vaults.dom().contains(agent),
            },
    {
        match self.vaults.get(&agent) {
            Some(v) => Some(*v),
            None => None,
        }
    }

    /// The general balance of an account; 0 for accounts never funded.
    pub fn get_balance(&self, who: u64) -> (b: u64)
        ensures
            b as int == balance_of(self@, who),
    {
        match self.balances.get(&who) {
            Some(b) => *b,
            None => 0,
        }
    }
}

} // verus!
