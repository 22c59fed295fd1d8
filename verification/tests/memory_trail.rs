//! Agent registry, decision logging, attestation and reputation.

use agent_memory::account::Address;
use agent_memory::errors::ErrorCode;
use agent_memory::hashing::hash_payload;
use agent_memory::state::AgentMemory;

fn addr(id: u64) -> Address {
    Address { id }
}

fn store_with_agent() -> AgentMemory {
    let mut s = AgentMemory::new();
    s.initialize_agent("agent-1".to_string(), addr(10)).unwrap();
    s
}

#[test]
fn agent_registration_checks_length_and_replay() {
    let mut s = AgentMemory::new();
    let long_id: String = "a".repeat(65);
    assert_eq!(
        s.initialize_agent(long_id, addr(10)),
        Err(ErrorCode::AgentIdTooLong)
    );
    let max_id: String = "a".repeat(64);
    assert_eq!(s.initialize_agent(max_id, addr(10)), Ok(()));
    assert_eq!(
        s.initialize_agent("a".repeat(64), addr(11)),
        Err(ErrorCode::AlreadyExists)
    );
    assert_eq!(s.agents.len(), 1);
    assert_eq!(s.agents[0].reputation, 0);
    assert_eq!(s.agents[0].total_logs, 0);
    assert_eq!(s.agents[0].total_attestations, 0);
    assert_eq!(s.agents[0].authority, addr(10));
}

#[test]
fn log_decision_requires_known_agent_and_its_authority() {
    let mut s = store_with_agent();
    assert_eq!(
        s.log_decision(&"missing".to_string(), addr(10), "in", "logic", 1),
        Err(ErrorCode::NotFound)
    );
    assert_eq!(
        s.log_decision(&"agent-1".to_string(), addr(99), "in", "logic", 1),
        Err(ErrorCode::Unauthorized)
    );
    assert!(s.logs.is_empty());
    assert!(s
        .log_decision(&"agent-1".to_string(), addr(10), "in", "logic", 1)
        .is_ok());
    assert_eq!(s.agents[0].total_logs, 1);
}

#[test]
fn log_decision_rejects_oversized_payloads() {
    let mut s = store_with_agent();
    let long_payload: String = "x".repeat(257);
    assert_eq!(
        s.log_decision(&"agent-1".to_string(), addr(10), &long_payload, "logic", 1),
        Err(ErrorCode::InputTooLong)
    );
    assert_eq!(
        s.log_decision(&"agent-1".to_string(), addr(10), "in", &long_payload, 1),
        Err(ErrorCode::LogicTooLong)
    );
    let max_payload: String = "x".repeat(256);
    assert!(s
        .log_decision(&"agent-1".to_string(), addr(10), &max_payload, &max_payload, 1)
        .is_ok());
}

#[test]
fn log_decision_rejects_colliding_key() {
    let mut s = store_with_agent();
    s.log_decision(&"agent-1".to_string(), addr(10), "in", "logic", 42)
        .unwrap();
    assert_eq!(
        s.log_decision(&"agent-1".to_string(), addr(10), "other", "other", 42),
        Err(ErrorCode::AlreadyExists)
    );
    assert!(s
        .log_decision(&"agent-1".to_string(), addr(10), "other", "other", 43)
        .is_ok());
    assert_eq!(s.agents[0].total_logs, 2);
}

#[test]
fn decision_hashes_commit_to_the_payloads() {
    let mut s = store_with_agent();
    let ev = s
        .log_decision(&"agent-1".to_string(), addr(10), "buy", "if price<X", 42)
        .unwrap();
    let expected_input = anchor_lang::solana_program::keccak::hash("buy".as_bytes()).to_bytes();
    let expected_logic =
        anchor_lang::solana_program::keccak::hash("if price<X".as_bytes()).to_bytes();
    let mut combined = Vec::new();
    combined.extend_from_slice(&expected_input);
    combined.extend_from_slice(&expected_logic);
    let expected_root = anchor_lang::solana_program::keccak::hash(&combined).to_bytes();

    assert_eq!(s.logs[0].input_hash, expected_input);
    assert_eq!(s.logs[0].logic_hash, expected_logic);
    assert_eq!(s.logs[0].merkle_root, expected_root);
    assert_eq!(ev.merkle_root, expected_root);
    assert_eq!(ev.timestamp, 42);
    assert!(!s.logs[0].is_attested);

    // A fresh agent attesting a profitable outcome lands at reputation 50.
    let at = s
        .attest_outcome(&"agent-1".to_string(), 42, "profit", true, 50, 60)
        .unwrap();
    assert_eq!(at.new_reputation, 50);
    assert_eq!(s.agents[0].reputation, 50);
    let expected_outcome =
        anchor_lang::solana_program::keccak::hash("profit".as_bytes()).to_bytes();
    assert_eq!(s.attestations[0].outcome_hash, expected_outcome);
    assert!(s.attestations[0].success);
}

#[test]
fn keccak_has_the_standard_empty_digest() {
    // The Keccak-256 digest of the empty input, as published for the
    // algorithm; this fails if the hash were anything else (in particular
    // an identity function or SHA3-256).
    let expected: [u8; 32] = [
        0xc5, 0xd2, 0x46, 0x01, 0x86, 0xf7, 0x23, 0x3c, 0x92, 0x7e, 0x7d, 0xb2, 0xdc, 0xc7,
        0x03, 0xc0, 0xe5, 0x00, 0xb6, 0x53, 0xca, 0x82, 0x27, 0x3b, 0x7b, 0xfa, 0xd8, 0x04,
        0x5d, 0x85, 0xa4, 0x70,
    ];
    assert_eq!(hash_payload(""), expected);
}

#[test]
fn attesting_twice_fails_and_leaves_the_log_attested() {
    let mut s = store_with_agent();
    s.log_decision(&"agent-1".to_string(), addr(10), "in", "logic", 42)
        .unwrap();
    assert!(s
        .attest_outcome(&"agent-1".to_string(), 42, "outcome", true, 5, 50)
        .is_ok());
    assert!(s.logs[0].is_attested);
    assert_eq!(
        s.attest_outcome(&"agent-1".to_string(), 42, "outcome", true, 5, 51),
        Err(ErrorCode::AlreadyAttested)
    );
    assert!(s.logs[0].is_attested);
    assert_eq!(s.attestations.len(), 1);
    assert_eq!(s.agents[0].total_attestations, 1);
}

#[test]
fn attest_requires_existing_log_and_bounded_outcome() {
    let mut s = store_with_agent();
    assert_eq!(
        s.attest_outcome(&"agent-1".to_string(), 42, "outcome", true, 5, 50),
        Err(ErrorCode::NotFound)
    );
    assert_eq!(
        s.attest_outcome(&"missing".to_string(), 42, "outcome", true, 5, 50),
        Err(ErrorCode::NotFound)
    );
    s.log_decision(&"agent-1".to_string(), addr(10), "in", "logic", 42)
        .unwrap();
    let long_outcome: String = "x".repeat(257);
    assert_eq!(
        s.attest_outcome(&"agent-1".to_string(), 42, &long_outcome, true, 5, 50),
        Err(ErrorCode::OutcomeTooLong)
    );
    assert!(!s.logs[0].is_attested);
}

#[test]
fn reputation_clamps_at_zero_per_step() {
    let mut s = store_with_agent();
    let agent = "agent-1".to_string();
    let auth = addr(10);
    // Step 1: -10 on a zero reputation clamps to 0, not -10.
    s.log_decision(&agent, auth, "a", "b", 1).unwrap();
    s.attest_outcome(&agent, 1, "down", false, -10, 2).unwrap();
    assert_eq!(s.agents[0].reputation, 0);
    // Step 2: +50 lands at 50, not 40 — the clamp applied per step.
    s.log_decision(&agent, auth, "a", "b", 3).unwrap();
    s.attest_outcome(&agent, 3, "up", true, 50, 4).unwrap();
    assert_eq!(s.agents[0].reputation, 50);
    // Step 3: -20 lands at 30.
    s.log_decision(&agent, auth, "a", "b", 5).unwrap();
    s.attest_outcome(&agent, 5, "down", false, -20, 6).unwrap();
    assert_eq!(s.agents[0].reputation, 30);
    // Step 4: -100 clamps at 0 again.
    s.log_decision(&agent, auth, "a", "b", 7).unwrap();
    s.attest_outcome(&agent, 7, "down", false, -100, 8).unwrap();
    assert_eq!(s.agents[0].reputation, 0);
    assert_eq!(s.agents[0].total_attestations, 4);
}

#[test]
fn reputation_overflow_is_rejected_not_wrapped() {
    let mut s = store_with_agent();
    let agent = "agent-1".to_string();
    let auth = addr(10);
    s.log_decision(&agent, auth, "a", "b", 1).unwrap();
    s.attest_outcome(&agent, 1, "up", true, i64::MAX, 2).unwrap();
    assert_eq!(s.agents[0].reputation, i64::MAX as u64);
    s.log_decision(&agent, auth, "a", "b", 3).unwrap();
    assert_eq!(
        s.attest_outcome(&agent, 3, "up", true, 1, 4),
        Err(ErrorCode::ReputationOverflow)
    );
    assert_eq!(s.agents[0].reputation, i64::MAX as u64);
    assert!(!s.logs[1].is_attested);
    assert_eq!(s.attestations.len(), 1);
}
