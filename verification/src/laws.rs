use vstd::prelude::*;

use crate::errors::ErrorCode;
use crate::ledger::LedgerView;
use crate::ledger::balance_of;
use crate::ledger::spec_fund;
use crate::ledger::spec_initialize_agent;
use crate::ledger::spec_initialize_agent_with_stake;
use crate::ledger::spec_slash_stake;
use crate::ledger::spec_update_reputation;
use crate::ledger::spec_withdraw_stake;
use crate::record::AgentReputation;
use crate::record::AgentRole;
use crate::record::lemma_trust_of_bounds;
use crate::record::record_wf;

verus! {

/// The system invariant: every stored record carries the trust score
/// derived from its own counters and sits under its own agent's key, and
/// a vault exists only for a registered agent.
pub open spec fn ledger_wf(s: LedgerView) -> bool {
    &&& forall|a: u64| #[trigger]
        s.records.dom().contains(a) ==> record_wf(s.records[a]) && s.records[a].agent == a
    &&& forall|a: u64| #[trigger] s.vaults.dom().contains(a) ==> s.records.dom().contains(a)
}

/// A ledger with no records and no vaults is well formed; this is how a
/// ledger starts.
pub proof fn lemma_empty_wf(s: LedgerView)
    requires
        s.records == Map::<u64, AgentReputation>::empty(),
        s.vaults == Map::<u64, u64>::empty(),
    ensures
        ledger_wf(s),
{
}

/// Registration preserves the invariant, gives the new record the neutral
/// trust score 50 and zeroed counters, and on failure changes nothing.
pub proof fn lemma_initialize_agent_wf(s: LedgerView, agent: u64, role: AgentRole, now: i64)
    requires
        ledger_wf(s),
    ensures
        ledger_wf(spec_initialize_agent(s, agent, role, now).0),
        spec_initialize_agent(s, agent, role, now).1 is Err ==> spec_initialize_agent(
            s,
            agent,
            role,
            now,
        ).0 == s,
        spec_initialize_agent(s, agent, role, now).1 is Ok ==> {
            let r = spec_initialize_agent(s, agent, role, now).0.records[agent];
            r.trust_score == 50 && r.jobs_completed == 0 && r.jobs_failed == 0 && r.total_earned
                == 0
        },
{
}

/// Registration with stake preserves the invariant; on success the new
/// vault holds exactly the deposit and the payer's balance shrinks by it,
/// and on failure nothing changes.
pub proof fn lemma_initialize_agent_with_stake_wf(
    s: LedgerView,
    agent: u64,
    role: AgentRole,
    payer: u64,
    stake_amount: u64,
    now: i64,
)
    requires
        ledger_wf(s),
    ensures
        ledger_wf(spec_initialize_agent_with_stake(s, agent, role, payer, stake_amount, now).0),
        spec_initialize_agent_with_stake(s, agent, role, payer, stake_amount, now).1 is Err
            ==> spec_initialize_agent_with_stake(s, agent, role, payer, stake_amount, now).0 == s,
        spec_initialize_agent_with_stake(s, agent, role, payer, stake_amount, now).1 is Ok ==> {
            let s2 = spec_initialize_agent_with_stake(s, agent, role, payer, stake_amount, now).0;
            s2.vaults[agent] == stake_amount && balance_of(s2, payer) == balance_of(s, payer)
                - stake_amount
        },
{
}

/// Reporting a job result preserves the invariant; after every accepted
/// report the stored trust score equals the truncating division
/// `jobs_completed * 100 / (jobs_completed + jobs_failed)` over the
/// updated counters, and every rejected report changes nothing.
pub proof fn lemma_update_reputation_wf(
    s: LedgerView,
    caller: u64,
    agent: u64,
    success: bool,
    amount_earned: u64,
    now: i64,
)
    requires
        ledger_wf(s),
    ensures
        ledger_wf(spec_update_reputation(s, caller, agent, success, amount_earned, now).0),
        spec_update_reputation(s, caller, agent, success, amount_earned, now).1 is Err
            ==> spec_update_reputation(s, caller, agent, success, amount_earned, now).0 == s,
        spec_update_reputation(s, caller, agent, success, amount_earned, now).1 is Ok ==> {
            let r = spec_update_reputation(s, caller, agent, success, amount_earned, now).0
                .records[agent];
            r.jobs_completed + r.jobs_failed > 0 && r.trust_score as int == (
            r.jobs_completed as int * 100) / (r.jobs_completed + r.jobs_failed)
        },
{
    if caller == s.authority && s.records.dom().contains(agent) {
        let r = s.records[agent];
        let completed = if success { r.jobs_completed + 1 } else { r.jobs_completed as int };
        let failed = if success { r.jobs_failed as int } else { r.jobs_failed + 1 };
        lemma_trust_of_bounds(completed, failed);
    }
}

/// Slashing preserves the invariant, never drives the vault negative,
/// moves value only from the agent's vault to the authority's balance,
/// leaves every reputation record untouched, and on failure changes
/// nothing.
pub proof fn lemma_slash_stake_wf(s: LedgerView, caller: u64, agent: u64, amount: u64)
    requires
        ledger_wf(s),
    ensures
        ledger_wf(spec_slash_stake(s, caller, agent, amount).0),
        spec_slash_stake(s, caller, agent, amount).0.records == s.records,
        spec_slash_stake(s, caller, agent, amount).1 is Err ==> spec_slash_stake(
            s,
            caller,
            agent,
            amount,
        ).0 == s,
        spec_slash_stake(s, caller, agent, amount).1 is Ok ==> {
            let s2 = spec_slash_stake(s, caller, agent, amount).0;
            s2.vaults[agent] == s.vaults[agent] - amount && balance_of(s2, s.authority)
                == balance_of(s, s.authority) + amount
        },
{
}

/// Withdrawal preserves the invariant, never drives the vault negative,
/// moves value only from the agent's vault to the agent's own balance,
/// and on failure changes nothing.
pub proof fn lemma_withdraw_stake_wf(s: LedgerView, agent: u64, amount: u64)
    requires
        ledger_wf(s),
    ensures
        ledger_wf(spec_withdraw_stake(s, agent, amount).0),
        spec_withdraw_stake(s, agent, amount).0.records == s.records,
        spec_withdraw_stake(s, agent, amount).1 is Err ==> spec_withdraw_stake(
            s,
            agent,
            amount,
        ).0 == s,
        spec_withdraw_stake(s, agent, amount).1 is Ok ==> {
            let s2 = spec_withdraw_stake(s, agent, amount).0;
            s2.vaults[agent] == s.vaults[agent] - amount && balance_of(s2, agent) == balance_of(
                s,
                agent,
            ) + amount
        },
{
}

/// Funding a balance preserves the invariant and touches neither records
/// nor vaults.
pub proof fn lemma_fund_wf(s: LedgerView, who: u64, amount: u64)
    requires
        ledger_wf(s),
    ensures
        ledger_wf(spec_fund(s, who, amount).0),
        spec_fund(s, who, amount).0.records == s.records,
        spec_fund(s, who, amount).0.vaults == s.vaults,
{
}

/// Registering the same agent twice fails the second time with
/// `AlreadyRegistered`, whichever registration form is used for the
/// second call, and the failed call leaves the state exactly as the
/// first call left it.
pub proof fn lemma_register_twice(
    s: LedgerView,
    agent: u64,
    role1: AgentRole,
    now1: i64,
    role2: AgentRole,
    payer: u64,
    stake_amount: u64,
    now2: i64,
)
    requires
        spec_initialize_agent(s, agent, role1, now1).1 is Ok,
    ensures
        ({
            let s1 = spec_initialize_agent(s, agent, role1, now1).0;
            &&& spec_initialize_agent(s1, agent, role2, now2) == (
                s1,
                Err::<(), ErrorCode>(ErrorCode::AlreadyRegistered),
            )
            &&& spec_initialize_agent_with_stake(s1, agent, role2, payer, stake_amount, now2) == (
                s1,
                Err::<(), ErrorCode>(ErrorCode::AlreadyRegistered),
            )
        }),
{
}

/// Slashing more than the vault holds fails with `InsufficientStake` and
/// changes nothing.
pub proof fn lemma_slash_insufficient(s: LedgerView, caller: u64, agent: u64, amount: u64)
    requires
        caller == s.authority,
        s.vaults.dom().contains(agent),
        amount > s.vaults[agent],
    ensures
        spec_slash_stake(s, caller, agent, amount) == (
            s,
            Err::<(), ErrorCode>(ErrorCode::InsufficientStake),
        ),
{
}

/// Withdrawing more than the vault holds fails with `InsufficientStake`
/// and changes nothing.
pub proof fn lemma_withdraw_insufficient(s: LedgerView, agent: u64, amount: u64)
    requires
        s.vaults.dom().contains(agent),
        amount > s.vaults[agent],
    ensures
        spec_withdraw_stake(s, agent, amount) == (
            s,
            Err::<(), ErrorCode>(ErrorCode::InsufficientStake),
        ),
{
}

/// A job report from anyone but the configured authority fails with
/// `Unauthorized` and changes no field of any record.
pub proof fn lemma_update_unauthorized(
    s: LedgerView,
    caller: u64,
    agent: u64,
    success: bool,
    amount_earned: u64,
    now: i64,
)
    requires
        caller != s.authority,
    ensures
        spec_update_reputation(s, caller, agent, success, amount_earned, now) == (
            s,
            Err::<(), ErrorCode>(ErrorCode::Unauthorized),
        ),
{
}

/// Slashing requested by anyone but the configured authority fails with
/// `Unauthorized` and changes nothing.
pub proof fn lemma_slash_unauthorized(s: LedgerView, caller: u64, agent: u64, amount: u64)
    requires
        caller != s.authority,
    ensures
        spec_slash_stake(s, caller, agent, amount) == (
            s,
            Err::<(), ErrorCode>(ErrorCode::Unauthorized),
        ),
{
}

} // verus!
