use boxmeout::{AuthContext, Error, OracleEvent, OracleManager};

fn proving(ids: &[u64]) -> AuthContext {
    AuthContext { proven: ids.to_vec() }
}

const ADMIN1: u64 = 100;
const ADMIN2: u64 = 101;
const MARKET_A: u64 = 7001;
const MARKET_B: u64 = 7002;

/// Threshold 2, four oracles, resolution at 1000, voting at 1001: two YES and
/// two NO is a tie at threshold, so no consensus.
#[test]
fn scenario_tie_at_threshold() {
    let a = proving(&[ADMIN1]);
    let mut engine = OracleManager::initialize(ADMIN1, 2, &a).unwrap();
    for i in 1..=4u64 {
        engine.register_oracle(i, format!("Oracle{}", i), &a, 10).unwrap();
    }
    engine.register_market(MARKET_A, 1000, &a).unwrap();
    engine.submit_attestation(1, MARKET_A, 1, 0, &proving(&[1]), 1001).unwrap();
    engine.submit_attestation(2, MARKET_A, 1, 0, &proving(&[2]), 1001).unwrap();
    engine.submit_attestation(3, MARKET_A, 0, 0, &proving(&[3]), 1001).unwrap();
    engine.submit_attestation(4, MARKET_A, 0, 0, &proving(&[4]), 1001).unwrap();
    assert_eq!(engine.check_consensus(MARKET_A), (false, 0));
}

/// Same setup, but only two YES votes: consensus reached with outcome YES.
#[test]
fn scenario_majority_yes() {
    let a = proving(&[ADMIN1]);
    let mut engine = OracleManager::initialize(ADMIN1, 2, &a).unwrap();
    for i in 1..=4u64 {
        engine.register_oracle(i, format!("Oracle{}", i), &a, 10).unwrap();
    }
    engine.register_market(MARKET_A, 1000, &a).unwrap();
    engine.submit_attestation(1, MARKET_A, 1, 0, &proving(&[1]), 1001).unwrap();
    engine.submit_attestation(2, MARKET_A, 1, 0, &proving(&[2]), 1001).unwrap();
    assert_eq!(engine.check_consensus(MARKET_A), (true, 1));
}

/// Two admins with the default two required signatures and 86400-second
/// cooldown: an override by both force-sets the outcome and marks the market.
#[test]
fn scenario_override_multisig() {
    let a1 = proving(&[ADMIN1]);
    let mut engine = OracleManager::initialize(ADMIN1, 2, &a1).unwrap();
    engine.add_admin_signer(ADMIN1, ADMIN2, &a1).unwrap();
    assert_eq!(engine.get_required_signatures(), 2);
    assert_eq!(engine.get_override_cooldown(), 86400);
    engine.register_market(MARKET_A, 1000, &a1).unwrap();
    let both = proving(&[ADMIN1, ADMIN2]);
    engine.emergency_override(vec![ADMIN1, ADMIN2], MARKET_A, 0, 0x5EED, &both, 2000).unwrap();
    assert_eq!(engine.get_consensus_result(MARKET_A), Some(0));
    assert!(engine.is_manual_override(MARKET_A));
    assert_eq!(engine.get_last_override_time(), 2000);
}

/// Continuing the multi-sig scenario: the cooldown clock is global, so an
/// override of a different market 1800 seconds later fails; once the full
/// 86400 seconds have elapsed it succeeds.
#[test]
fn scenario_override_cooldown_global() {
    let a1 = proving(&[ADMIN1]);
    let mut engine = OracleManager::initialize(ADMIN1, 2, &a1).unwrap();
    engine.add_admin_signer(ADMIN1, ADMIN2, &a1).unwrap();
    engine.register_market(MARKET_A, 1000, &a1).unwrap();
    engine.register_market(MARKET_B, 1000, &a1).unwrap();
    let both = proving(&[ADMIN1, ADMIN2]);
    engine.emergency_override(vec![ADMIN1, ADMIN2], MARKET_A, 0, 0x5EED, &both, 2000).unwrap();
    let r = engine.emergency_override(vec![ADMIN1, ADMIN2], MARKET_B, 1, 0x5EED, &both, 3800);
    assert_eq!(r, Err(Error::CooldownActive));
    assert!(!engine.is_manual_override(MARKET_B));
    // 2000 + 86400 = 88400: the cooldown has elapsed exactly
    let r = engine.emergency_override(vec![ADMIN1, ADMIN2], MARKET_B, 1, 0x5EED, &both, 88400);
    assert!(r.is_ok());
    assert_eq!(engine.get_consensus_result(MARKET_B), Some(1));
}

/// A second vote by the same oracle on the same market fails with any outcome
/// and leaves tallies and the voter list unchanged.
#[test]
fn duplicate_vote_rejected() {
    let a = proving(&[ADMIN1]);
    let mut engine = OracleManager::initialize(ADMIN1, 2, &a).unwrap();
    engine.register_oracle(1, "Oracle1".to_string(), &a, 10).unwrap();
    engine.register_market(MARKET_A, 1000, &a).unwrap();
    engine.submit_attestation(1, MARKET_A, 1, 0, &proving(&[1]), 1001).unwrap();
    for outcome in [0u32, 1u32] {
        let r = engine.submit_attestation(1, MARKET_A, outcome, 0, &proving(&[1]), 1002);
        assert_eq!(r, Err(Error::DuplicateVote));
    }
    assert_eq!(engine.get_attestation_counts(MARKET_A), (1, 0));
    assert_eq!(engine.markets[0].attestations.len(), 1);
}

/// A submission to a market with no resolution time on file is rejected.
#[test]
fn unregistered_market_vote_rejected() {
    let a = proving(&[ADMIN1]);
    let mut engine = OracleManager::initialize(ADMIN1, 2, &a).unwrap();
    engine.register_oracle(1, "Oracle1".to_string(), &a, 10).unwrap();
    let r = engine.submit_attestation(1, MARKET_A, 1, 0, &proving(&[1]), 1001);
    assert_eq!(r, Err(Error::MarketNotRegistered));
}

/// A caller who has not proven the needed identity is turned away before any
/// other check.
#[test]
fn missing_proof_rejected() {
    let nobody = proving(&[]);
    assert_eq!(
        OracleManager::initialize(ADMIN1, 2, &nobody).err(),
        Some(Error::NotAuthorized)
    );
    let a = proving(&[ADMIN1]);
    let mut engine = OracleManager::initialize(ADMIN1, 2, &a).unwrap();
    assert_eq!(
        engine.register_oracle(1, "Oracle1".to_string(), &nobody, 10),
        Err(Error::NotAuthorized)
    );
    assert_eq!(engine.register_market(MARKET_A, 1000, &nobody), Err(Error::NotAuthorized));
    engine.register_oracle(1, "Oracle1".to_string(), &a, 10).unwrap();
    engine.register_market(MARKET_A, 1000, &a).unwrap();
    // the oracle itself, not the admin, must prove control for a submission
    assert_eq!(
        engine.submit_attestation(1, MARKET_A, 1, 0, &a, 1001),
        Err(Error::NotAuthorized)
    );
    assert_eq!(engine.add_admin_signer(ADMIN1, ADMIN2, &nobody), Err(Error::NotAuthorized));
    assert_eq!(engine.set_required_signatures(ADMIN1, 1, &nobody), Err(Error::NotAuthorized));
    assert_eq!(engine.set_override_cooldown(ADMIN1, 7200, &nobody), Err(Error::NotAuthorized));
    // an approver listed without proof fails the override
    engine.add_admin_signer(ADMIN1, ADMIN2, &a).unwrap();
    let r = engine.emergency_override(vec![ADMIN1, ADMIN2], MARKET_A, 1, 0x5EED, &a, 2000);
    assert_eq!(r, Err(Error::NotAuthorized));
}

/// An approver listed twice is rejected even when every listed identity is a
/// proven admin.
#[test]
fn duplicate_approver_rejected() {
    let a1 = proving(&[ADMIN1]);
    let mut engine = OracleManager::initialize(ADMIN1, 2, &a1).unwrap();
    engine.add_admin_signer(ADMIN1, ADMIN2, &a1).unwrap();
    engine.register_market(MARKET_A, 1000, &a1).unwrap();
    let r = engine.emergency_override(vec![ADMIN1, ADMIN1], MARKET_A, 1, 0x5EED, &a1, 2000);
    assert_eq!(r, Err(Error::DuplicateApprover));
    assert!(!engine.is_manual_override(MARKET_A));
    assert_eq!(engine.get_last_override_time(), 0);
}

/// Re-registering a market silently resets the tally counters while the
/// attestation ledger survives, so the evaluator's re-derived verdict stands.
#[test]
fn reregistration_resets_tallies_only() {
    let a = proving(&[ADMIN1]);
    let mut engine = OracleManager::initialize(ADMIN1, 2, &a).unwrap();
    engine.register_oracle(1, "O1".to_string(), &a, 10).unwrap();
    engine.register_oracle(2, "O2".to_string(), &a, 10).unwrap();
    engine.register_market(MARKET_A, 1000, &a).unwrap();
    engine.submit_attestation(1, MARKET_A, 1, 0, &proving(&[1]), 1001).unwrap();
    engine.submit_attestation(2, MARKET_A, 1, 0, &proving(&[2]), 1001).unwrap();
    assert_eq!(engine.get_attestation_counts(MARKET_A), (2, 0));
    engine.register_market(MARKET_A, 1200, &a).unwrap();
    assert_eq!(engine.get_market_resolution_time(MARKET_A), Some(1200));
    assert_eq!(engine.get_attestation_counts(MARKET_A), (0, 0));
    // the ledger is the source of truth: consensus is still reached
    assert_eq!(engine.check_consensus(MARKET_A), (true, 1));
}

/// Repeated evaluator calls with no intervening write return identical pairs.
#[test]
fn check_consensus_repeatable() {
    let a = proving(&[ADMIN1]);
    let mut engine = OracleManager::initialize(ADMIN1, 2, &a).unwrap();
    engine.register_oracle(1, "O1".to_string(), &a, 10).unwrap();
    engine.register_oracle(2, "O2".to_string(), &a, 10).unwrap();
    engine.register_market(MARKET_A, 1000, &a).unwrap();
    engine.submit_attestation(1, MARKET_A, 0, 0, &proving(&[1]), 1001).unwrap();
    engine.submit_attestation(2, MARKET_A, 0, 0, &proving(&[2]), 1001).unwrap();
    let first = engine.check_consensus(MARKET_A);
    assert_eq!(first, (true, 0));
    assert_eq!(engine.check_consensus(MARKET_A), first);
    assert_eq!(engine.check_consensus(MARKET_A), first);
}

/// A second override of the same market replaces the persisted outcome and
/// the audit record.
#[test]
fn override_wins_over_prior_override() {
    let a1 = proving(&[ADMIN1]);
    let mut engine = OracleManager::initialize(ADMIN1, 2, &a1).unwrap();
    engine.add_admin_signer(ADMIN1, ADMIN2, &a1).unwrap();
    engine.set_override_cooldown(ADMIN1, 3600, &a1).unwrap();
    engine.register_market(MARKET_A, 1000, &a1).unwrap();
    let both = proving(&[ADMIN1, ADMIN2]);
    engine.emergency_override(vec![ADMIN1, ADMIN2], MARKET_A, 1, 0x11, &both, 2000).unwrap();
    assert_eq!(engine.get_consensus_result(MARKET_A), Some(1));
    engine.emergency_override(vec![ADMIN1, ADMIN2], MARKET_A, 0, 0x22, &both, 6000).unwrap();
    assert_eq!(engine.get_consensus_result(MARKET_A), Some(0));
    let record = engine.get_override_record(MARKET_A).unwrap();
    assert_eq!(record.justification_hash, 0x22);
    assert_eq!(record.timestamp, 6000);
    assert_eq!(engine.get_last_override_time(), 6000);
    assert!(engine.is_manual_override(MARKET_A));
}

/// Every state-changing call appends its audit event in order.
#[test]
fn audit_log_records_each_action() {
    let a1 = proving(&[ADMIN1]);
    let mut engine = OracleManager::initialize(ADMIN1, 3, &a1).unwrap();
    engine.register_oracle(1, "Oracle1".to_string(), &a1, 42).unwrap();
    engine.register_market(MARKET_A, 1000, &a1).unwrap();
    engine.submit_attestation(1, MARKET_A, 0, 0, &proving(&[1]), 1001).unwrap();
    engine.add_admin_signer(ADMIN1, ADMIN2, &a1).unwrap();
    engine.set_required_signatures(ADMIN1, 1, &a1).unwrap();
    engine.set_override_cooldown(ADMIN1, 7200, &a1).unwrap();
    let both = proving(&[ADMIN1]);
    engine.emergency_override(vec![ADMIN1], MARKET_A, 1, 0x77, &both, 5000).unwrap();
    let expected = vec![
        OracleEvent::OracleInitialized { admin: ADMIN1, required_consensus: 3 },
        OracleEvent::OracleRegistered { oracle: 1, name: "Oracle1".to_string(), timestamp: 42 },
        OracleEvent::MarketRegistered { market_id: MARKET_A, resolution_time: 1000 },
        OracleEvent::AttestationSubmitted { market_id: MARKET_A, oracle: 1, outcome: 0 },
        OracleEvent::AdminSignerAdded { new_admin: ADMIN2 },
        OracleEvent::RequiredSignaturesUpdated { required_signatures: 1 },
        OracleEvent::OverrideCooldownUpdated { cooldown_seconds: 7200 },
        OracleEvent::EmergencyOverride {
            market_id: MARKET_A,
            forced_outcome: 1,
            justification_hash: 0x77,
            approvers: vec![ADMIN1],
            timestamp: 5000,
        },
    ];
    assert_eq!(engine.events, expected);
}

/// The evaluator returns (false, 0) for a market nobody voted on and for an
/// unknown market, and the persisted result stays absent without an override.
#[test]
fn empty_and_unknown_market_reads() {
    let a = proving(&[ADMIN1]);
    let mut engine = OracleManager::initialize(ADMIN1, 2, &a).unwrap();
    assert_eq!(engine.check_consensus(MARKET_A), (false, 0));
    assert_eq!(engine.get_market_resolution_time(MARKET_A), None);
    assert_eq!(engine.get_attestation_counts(MARKET_A), (0, 0));
    assert_eq!(engine.get_attestation(MARKET_A, 1), None);
    engine.register_market(MARKET_A, 1000, &a).unwrap();
    assert_eq!(engine.check_consensus(MARKET_A), (false, 0));
    assert_eq!(engine.get_consensus_result(MARKET_A), None);
}
