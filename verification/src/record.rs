use vstd::prelude::*;

use crate::errors::ErrorCode;

verus! {

/// The closed set of roles an agent can register under.
/// Immutable after creation.
#[derive(Clone, Copy, Debug, PartialEq, Eq, Structural)]
pub enum AgentRole {
    Scout,
    Evaluator,
    Negotiator,
    Supplier,
}

/// One agent's reputation record.
///
/// `jobs_completed`, `jobs_failed`, and `total_earned` are monotonically
/// non-decreasing. `trust_score` is always in `[0, 100]` and is recomputed
/// from the counters on every update; it starts at the neutral value 50
/// before any job history exists.
#[derive(Clone, Copy, Debug, PartialEq, Eq, Structural)]
pub struct AgentReputation {
    /// Identity of the owning agent. Immutable after creation.
    pub agent: u64,
    /// Role assigned at registration. Immutable after creation.
    pub role: AgentRole,
    /// Number of jobs reported as successful.
    pub jobs_completed: u64,
    /// Number of jobs reported as failed.
    pub jobs_failed: u64,
    /// Sum of the earnings credited on successful jobs.
    pub total_earned: u64,
    /// Derived trust score in `[0, 100]`.
    pub trust_score: u8,
    /// Creation timestamp. Immutable after creation.
    pub created_at: i64,
    /// Timestamp of the most recent mutation.
    pub last_updated: i64,
}

/// Whether `x` fits in a `u64`.
pub open spec fn fits_u64(x: int) -> bool {
    0 <= x <= u64::MAX
}

/// The trust score derived from the job counters: the truncating division
/// `completed * 100 / (completed + failed)` once any history exists, and
/// the neutral value 50 before that.
pub open spec fn trust_of(completed: int, failed: int) -> int {
    if completed + failed > 0 {
        (completed * 100) / (completed + failed)
    } else {
        50
    }
}

/// A record is well formed when its stored trust score agrees with the
/// score derived from its counters.
pub open spec fn record_wf(r: AgentReputation) -> bool {
    r.trust_score as int == trust_of(r.jobs_completed as int, r.jobs_failed as int)
}

/// The record created at registration: zeroed counters, neutral trust,
/// both timestamps set to the registration time.
pub open spec fn fresh_record(agent: u64, role: AgentRole, now: i64) -> AgentReputation {
    AgentReputation {
        agent: agent,
        role: role,
        jobs_completed: 0,
        jobs_failed: 0,
        total_earned: 0,
        trust_score: 50,
        created_at: now,
        last_updated: now,
    }
}

/// The outcome of reporting one job result against a record: on success
/// the completion counter and earnings grow, otherwise the failure counter
/// grows; the trust score is recomputed and `last_updated` is set. If any
/// counter, the earnings accumulator, or an intermediate of the score
/// computation would exceed the `u64` range, the update fails closed with
/// `Overflow` instead of wrapping.
pub open spec fn updated_record(
    r: AgentReputation,
    success: bool,
    amount_earned: u64,
    now: i64,
) -> Result<AgentReputation, ErrorCode> {
    let completed = if success { r.jobs_completed + 1 } else { r.jobs_completed as int };
    let failed = if success { r.jobs_failed as int } else { r.jobs_failed + 1 };
    let earned = if success { r.total_earned + amount_earned } else { r.total_earned as int };
    if fits_u64(completed) && fits_u64(failed) && fits_u64(earned) && fits_u64(completed + failed)
        && fits_u64(completed * 100) {
        Ok(
            AgentReputation {
                agent: r.agent,
                role: r.role,
                jobs_completed: completed as u64,
                jobs_failed: failed as u64,
                total_earned: earned as u64,
                trust_score: trust_of(completed, failed) as u8,
                created_at: r.created_at,
                last_updated: now,
            },
        )
    } else {
        Err(ErrorCode::Overflow)
    }
}

/// The derived trust score always lies in `[0, 100]`.
pub proof fn lemma_trust_of_bounds(completed: int, failed: int)
    requires
        completed >= 0,
        failed >= 0,
    ensures
        0 <= trust_of(completed, failed) <= 100,
{
    if completed + failed > 0 {
        assert(0 <= (completed * 100) / (completed + failed) <= 100) by (nonlinear_arith)
            requires
                completed >= 0,
                failed >= 0,
                completed + failed > 0,
        ;
    }
}

/// A successful update keeps every counter at least as large as before.
pub proof fn lemma_update_monotone(r: AgentReputation, success: bool, amount_earned: u64, now: i64)
    ensures
        updated_record(r, success, amount_earned, now) matches Ok(r2) ==> {
            &&& r2.jobs_completed >= r.jobs_completed
            &&& r2.jobs_failed >= r.jobs_failed
            &&& r2.total_earned >= r.total_earned
            &&& r2.agent == r.agent
            &&& r2.role == r.role
            &&& r2.created_at == r.created_at
        },
{
}

/// Builds the record stored at registration time.
pub fn initial_record(agent: u64, role: AgentRole, now: i64) -> (r: AgentReputation)
    ensures
        r == fresh_record(agent, role, now),
        record_wf(r),
{
    AgentReputation {
        agent: agent,
        role: role,
        jobs_completed: 0,
        jobs_failed: 0,
        total_earned: 0,
        trust_score: 50,
        created_at: now,
        last_updated: now,
    }
}

/// Applies one job report to a record, failing closed on any overflow.
pub fn apply_update(r: &AgentReputation, success: bool, amount_earned: u64, now: i64) -> (res:
    Result<AgentReputation, ErrorCode>)
    ensures
        res == updated_record(*r, success, amount_earned, now),
        res matches Ok(r2) ==> record_wf(r2),
{
    let mut completed: u64 = r.jobs_completed;
    let mut failed: u64 = r.jobs_failed;
    let mut earned: u64 = r.total_earned;
    if success {
        if completed == u64::MAX {
            return Err(ErrorCode::Overflow);
        }
        completed = completed + 1;
        if earned > u64::MAX - amount_earned {
            return Err(ErrorCode::Overflow);
        }
        earned = earned + amount_earned;
    } else {
        if failed == u64::MAX {
            return Err(ErrorCode::Overflow);
        }
        failed = failed + 1;
    }
    if completed > u64::MAX - failed {
        return Err(ErrorCode::Overflow);
    }
    if completed > u64::MAX / 100 {
        return Err(ErrorCode::Overflow);
    }
    let total: u64 = completed + failed;
    let score: u64 = (completed * 100) / total;
    proof {
        lemma_trust_of_bounds(completed as int, failed as int);
    }
    Ok(
        AgentReputation {
            agent: r.agent,
            role: r.role,
            jobs_completed: completed,
            jobs_failed: failed,
            total_earned: earned,
            trust_score: score as u8,
            created_at: r.created_at,
            last_updated: now,
        },
    )
}

} // verus!
