use vstd::prelude::*;

verus! {

/// Why an operation was refused. Every failure is terminal for the
/// triggering call and leaves all records, vaults, and balances exactly
/// as they were.
#[derive(Clone, Copy, Debug, PartialEq, Eq, Structural)]
pub enum ErrorCode {
    /// A reputation record already exists for this agent.
    AlreadyRegistered,
    /// No reputation record, or no stake vault, exists for this agent.
    RecordNotFound,
    /// The caller is not the configured authority.
    Unauthorized,
    /// The payer cannot cover the requested stake deposit.
    InsufficientFunds,
    /// The requested amount exceeds the current vault balance.
    InsufficientStake,
    /// A counter, accumulator, or balance would exceed its machine bound.
    Overflow,
}

} // verus!
