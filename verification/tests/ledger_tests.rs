use agent_reputation::AgentRole;
use agent_reputation::ErrorCode;
use agent_reputation::Ledger;

const AUTHORITY: u64 = 9;
const AGENT_A: u64 = 1;
const AGENT_B: u64 = 2;
const PAYER: u64 = 5;

#[test]
fn fresh_record_starts_neutral() {
    let mut ledger = Ledger::new(AUTHORITY);
    assert_eq!(ledger.authority_id(), AUTHORITY);
    assert_eq!(ledger.initialize_agent(AGENT_A, AgentRole::Scout, 1000), Ok(()));
    let rec = ledger.get_record(AGENT_A).unwrap();
    assert_eq!(rec.agent, AGENT_A);
    assert_eq!(rec.role, AgentRole::Scout);
    assert_eq!(rec.jobs_completed, 0);
    assert_eq!(rec.jobs_failed, 0);
    assert_eq!(rec.total_earned, 0);
    assert_eq!(rec.trust_score, 50);
    assert_eq!(rec.created_at, 1000);
    assert_eq!(rec.last_updated, 1000);
    // Registration without stake opens no vault.
    assert_eq!(ledger.get_stake_balance(AGENT_A), None);
}

#[test]
fn update_then_failure_recomputes_trust() {
    let mut ledger = Ledger::new(AUTHORITY);
    ledger.initialize_agent(AGENT_A, AgentRole::Scout, 1000).unwrap();
    assert_eq!(ledger.update_reputation(AUTHORITY, AGENT_A, true, 100, 1001), Ok(()));
    let rec = ledger.get_record(AGENT_A).unwrap();
    assert_eq!(rec.jobs_completed, 1);
    assert_eq!(rec.total_earned, 100);
    assert_eq!(rec.trust_score, 100);
    assert_eq!(rec.last_updated, 1001);
    assert_eq!(ledger.update_reputation(AUTHORITY, AGENT_A, false, 0, 1002), Ok(()));
    let rec = ledger.get_record(AGENT_A).unwrap();
    assert_eq!(rec.jobs_completed, 1);
    assert_eq!(rec.jobs_failed, 1);
    assert_eq!(rec.trust_score, 50);
}

#[test]
fn trust_division_truncates() {
    let mut ledger = Ledger::new(AUTHORITY);
    ledger.initialize_agent(AGENT_A, AgentRole::Evaluator, 0).unwrap();
    ledger.update_reputation(AUTHORITY, AGENT_A, true, 10, 1).unwrap();
    ledger.update_reputation(AUTHORITY, AGENT_A, false, 0, 2).unwrap();
    ledger.update_reputation(AUTHORITY, AGENT_A, false, 0, 3).unwrap();
    // 1 success out of 3 jobs: floor(100 / 3) = 33.
    assert_eq!(ledger.get_record(AGENT_A).unwrap().trust_score, 33);
    ledger.update_reputation(AUTHORITY, AGENT_A, true, 10, 4).unwrap();
    // 2 out of 4: exactly 50.
    assert_eq!(ledger.get_record(AGENT_A).unwrap().trust_score, 50);
}

#[test]
fn earned_amount_ignored_on_failure() {
    let mut ledger = Ledger::new(AUTHORITY);
    ledger.initialize_agent(AGENT_A, AgentRole::Negotiator, 0).unwrap();
    assert_eq!(ledger.update_reputation(AUTHORITY, AGENT_A, false, 12345, 1), Ok(()));
    let rec = ledger.get_record(AGENT_A).unwrap();
    assert_eq!(rec.total_earned, 0);
    assert_eq!(rec.jobs_failed, 1);
}

#[test]
fn register_twice_fails_and_preserves_state() {
    let mut ledger = Ledger::new(AUTHORITY);
    ledger.initialize_agent(AGENT_A, AgentRole::Scout, 1000).unwrap();
    ledger.update_reputation(AUTHORITY, AGENT_A, true, 7, 1001).unwrap();
    let before = ledger.get_record(AGENT_A).unwrap();
    assert_eq!(
        ledger.initialize_agent(AGENT_A, AgentRole::Supplier, 2000),
        Err(ErrorCode::AlreadyRegistered)
    );
    assert_eq!(ledger.get_record(AGENT_A).unwrap(), before);
    // The staked form of registration is refused the same way.
    ledger.fund(PAYER, 10_000).unwrap();
    assert_eq!(
        ledger.initialize_agent_with_stake(AGENT_A, AgentRole::Supplier, PAYER, 10, 2000),
        Err(ErrorCode::AlreadyRegistered)
    );
    assert_eq!(ledger.get_record(AGENT_A).unwrap(), before);
    assert_eq!(ledger.get_balance(PAYER), 10_000);
    assert_eq!(ledger.get_stake_balance(AGENT_A), None);
}

#[test]
fn unauthorized_update_changes_nothing() {
    let mut ledger = Ledger::new(AUTHORITY);
    ledger.initialize_agent(AGENT_A, AgentRole::Scout, 1000).unwrap();
    let before = ledger.get_record(AGENT_A).unwrap();
    let intruder: u64 = 77;
    assert_eq!(
        ledger.update_reputation(intruder, AGENT_A, true, 100, 1001),
        Err(ErrorCode::Unauthorized)
    );
    assert_eq!(ledger.get_record(AGENT_A).unwrap(), before);
    // The agent may not report its own results either.
    assert_eq!(
        ledger.update_reputation(AGENT_A, AGENT_A, true, 100, 1001),
        Err(ErrorCode::Unauthorized)
    );
    assert_eq!(ledger.get_record(AGENT_A).unwrap(), before);
}

#[test]
fn update_unknown_agent_not_found() {
    let mut ledger = Ledger::new(AUTHORITY);
    assert_eq!(
        ledger.update_reputation(AUTHORITY, AGENT_A, true, 100, 1),
        Err(ErrorCode::RecordNotFound)
    );
}

#[test]
fn stake_lifecycle_moves_funds_atomically() {
    let mut ledger = Ledger::new(AUTHORITY);
    ledger.fund(PAYER, 1500).unwrap();
    assert_eq!(
        ledger.initialize_agent_with_stake(AGENT_B, AgentRole::Supplier, PAYER, 1000, 10),
        Ok(())
    );
    assert_eq!(ledger.get_stake_balance(AGENT_B), Some(1000));
    assert_eq!(ledger.get_balance(PAYER), 500);
    assert_eq!(ledger.get_record(AGENT_B).unwrap().trust_score, 50);

    assert_eq!(ledger.slash_stake(AUTHORITY, AGENT_B, 300), Ok(()));
    assert_eq!(ledger.get_stake_balance(AGENT_B), Some(700));
    assert_eq!(ledger.get_balance(AUTHORITY), 300);

    assert_eq!(ledger.withdraw_stake(AGENT_B, 700), Ok(()));
    assert_eq!(ledger.get_stake_balance(AGENT_B), Some(0));
    assert_eq!(ledger.get_balance(AGENT_B), 700);
}

#[test]
fn insufficient_payer_funds_rolls_back() {
    let mut ledger = Ledger::new(AUTHORITY);
    ledger.fund(PAYER, 999).unwrap();
    assert_eq!(
        ledger.initialize_agent_with_stake(AGENT_B, AgentRole::Supplier, PAYER, 1000, 10),
        Err(ErrorCode::InsufficientFunds)
    );
    assert_eq!(ledger.get_record(AGENT_B), None);
    assert_eq!(ledger.get_stake_balance(AGENT_B), None);
    assert_eq!(ledger.get_balance(PAYER), 999);
}

#[test]
fn slash_more_than_vault_fails() {
    let mut ledger = Ledger::new(AUTHORITY);
    ledger.fund(PAYER, 1000).unwrap();
    ledger
        .initialize_agent_with_stake(AGENT_B, AgentRole::Supplier, PAYER, 400, 10)
        .unwrap();
    assert_eq!(
        ledger.slash_stake(AUTHORITY, AGENT_B, 401),
        Err(ErrorCode::InsufficientStake)
    );
    assert_eq!(ledger.get_stake_balance(AGENT_B), Some(400));
    assert_eq!(ledger.get_balance(AUTHORITY), 0);
}

#[test]
fn withdraw_more_than_vault_fails() {
    let mut ledger = Ledger::new(AUTHORITY);
    ledger.fund(PAYER, 1000).unwrap();
    ledger
        .initialize_agent_with_stake(AGENT_B, AgentRole::Supplier, PAYER, 400, 10)
        .unwrap();
    assert_eq!(ledger.withdraw_stake(AGENT_B, 401), Err(ErrorCode::InsufficientStake));
    assert_eq!(ledger.get_stake_balance(AGENT_B), Some(400));
    assert_eq!(ledger.get_balance(AGENT_B), 0);
}

#[test]
fn withdraw_from_empty_vault_fails() {
    let mut ledger = Ledger::new(AUTHORITY);
    ledger.fund(PAYER, 1000).unwrap();
    ledger
        .initialize_agent_with_stake(AGENT_B, AgentRole::Supplier, PAYER, 1000, 10)
        .unwrap();
    ledger.withdraw_stake(AGENT_B, 1000).unwrap();
    assert_eq!(ledger.get_stake_balance(AGENT_B), Some(0));
    assert_eq!(ledger.withdraw_stake(AGENT_B, 1), Err(ErrorCode::InsufficientStake));
    assert_eq!(ledger.get_stake_balance(AGENT_B), Some(0));
}

#[test]
fn slash_unauthorized_or_unknown() {
    let mut ledger = Ledger::new(AUTHORITY);
    ledger.fund(PAYER, 1000).unwrap();
    ledger
        .initialize_agent_with_stake(AGENT_B, AgentRole::Supplier, PAYER, 400, 10)
        .unwrap();
    assert_eq!(ledger.slash_stake(AGENT_B, AGENT_B, 100), Err(ErrorCode::Unauthorized));
    assert_eq!(ledger.get_stake_balance(AGENT_B), Some(400));
    assert_eq!(
        ledger.slash_stake(AUTHORITY, AGENT_A, 100),
        Err(ErrorCode::RecordNotFound)
    );
    // An agent registered without stake has no vault to slash or drain.
    ledger.initialize_agent(AGENT_A, AgentRole::Scout, 11).unwrap();
    assert_eq!(
        ledger.slash_stake(AUTHORITY, AGENT_A, 100),
        Err(ErrorCode::RecordNotFound)
    );
    assert_eq!(ledger.withdraw_stake(AGENT_A, 100), Err(ErrorCode::RecordNotFound));
}

#[test]
fn earnings_overflow_fails_closed() {
    let mut ledger = Ledger::new(AUTHORITY);
    ledger.initialize_agent(AGENT_A, AgentRole::Supplier, 0).unwrap();
    ledger
        .update_reputation(AUTHORITY, AGENT_A, true, u64::MAX, 1)
        .unwrap();
    let before = ledger.get_record(AGENT_A).unwrap();
    assert_eq!(before.total_earned, u64::MAX);
    assert_eq!(
        ledger.update_reputation(AUTHORITY, AGENT_A, true, 1, 2),
        Err(ErrorCode::Overflow)
    );
    assert_eq!(ledger.get_record(AGENT_A).unwrap(), before);
}

#[test]
fn balance_overflow_fails_closed() {
    let mut ledger = Ledger::new(AUTHORITY);
    ledger.fund(PAYER, u64::MAX).unwrap();
    assert_eq!(ledger.fund(PAYER, 1), Err(ErrorCode::Overflow));
    assert_eq!(ledger.get_balance(PAYER), u64::MAX);
}

#[test]
fn slash_credit_overflow_fails_closed() {
    let mut ledger = Ledger::new(AUTHORITY);
    ledger.fund(PAYER, 500).unwrap();
    ledger.fund(AUTHORITY, u64::MAX).unwrap();
    ledger
        .initialize_agent_with_stake(AGENT_B, AgentRole::Supplier, PAYER, 400, 10)
        .unwrap();
    assert_eq!(ledger.slash_stake(AUTHORITY, AGENT_B, 100), Err(ErrorCode::Overflow));
    assert_eq!(ledger.get_stake_balance(AGENT_B), Some(400));
    assert_eq!(ledger.get_balance(AUTHORITY), u64::MAX);
}

#[test]
fn zero_stake_registration_opens_empty_vault() {
    let mut ledger = Ledger::new(AUTHORITY);
    assert_eq!(
        ledger.initialize_agent_with_stake(AGENT_B, AgentRole::Scout, PAYER, 0, 10),
        Ok(())
    );
    assert_eq!(ledger.get_stake_balance(AGENT_B), Some(0));
    assert_eq!(ledger.get_balance(PAYER), 0);
}
