//! Unit tests of the hash construction, the ledger, the proof mock and the
//! legacy endpoints.

use popai::engine::{AuditLog, LivenessOutcome};
use popai::hashing::{compute_evidence_digest, compute_verification_hash};
use popai::ledger::CredentialLedger;
use popai::legacy::{greet, Counter};
use popai::zkproof::generate_zk_proof_mock;

#[test]
fn evidence_digest_matches_reference_sha256() {
    let liveness = vec![1u8, 2, 3];
    let behavioral = "steady-cursor".to_string();
    let got = compute_evidence_digest(&liveness, &behavioral);
    let joined = format!("{}|{}", hex::encode(&liveness), behavioral);
    let expected = hex::encode(<sha2::Sha256 as sha2::Digest>::digest(joined.as_bytes()));
    assert_eq!(got, expected);
}

#[test]
fn verification_hash_matches_reference_sha256() {
    let challenge_id = "100-identity-a".to_string();
    let identity = "identity-a".to_string();
    let digest = "00ff".to_string();
    let got = compute_verification_hash(&challenge_id, &identity, 4242, &digest, true);
    let input = format!("{}|{}|{}|{}|{}", challenge_id, identity, 4242, digest, "true");
    let expected = hex::encode(<sha2::Sha256 as sha2::Digest>::digest(input.as_bytes()));
    assert_eq!(got, expected);
}

#[test]
fn verification_hash_is_deterministic() {
    let challenge_id = "1-a".to_string();
    let identity = "a".to_string();
    let digest = compute_evidence_digest(&vec![9u8], &"b".to_string());
    let h1 = compute_verification_hash(&challenge_id, &identity, 7, &digest, false);
    let h2 = compute_verification_hash(&challenge_id, &identity, 7, &digest, false);
    assert_eq!(h1, h2);
}

#[test]
fn verification_hash_changes_with_each_input() {
    let challenge_id = "1-a".to_string();
    let identity = "a".to_string();
    let digest = "d0".to_string();
    let base = compute_verification_hash(&challenge_id, &identity, 7, &digest, false);
    let other_id = compute_verification_hash(&"2-a".to_string(), &identity, 7, &digest, false);
    let other_identity = compute_verification_hash(&challenge_id, &"b".to_string(), 7, &digest, false);
    let other_ts = compute_verification_hash(&challenge_id, &identity, 8, &digest, false);
    let other_digest = compute_verification_hash(&challenge_id, &identity, 7, &"d1".to_string(), false);
    let other_outcome = compute_verification_hash(&challenge_id, &identity, 7, &digest, true);
    assert_ne!(base, other_id);
    assert_ne!(base, other_identity);
    assert_ne!(base, other_ts);
    assert_ne!(base, other_digest);
    assert_ne!(base, other_outcome);
}

#[test]
fn mint_or_get_is_idempotent() {
    let mut ledger = CredentialLedger::new();
    let identity = "identity-x".to_string();
    let hash = "abcd".to_string();
    let (first, existed_first) = ledger.mint_or_get(&identity, &hash, 11);
    assert!(!existed_first);
    assert_eq!(first.token_id, "T0");
    let (second, existed_second) = ledger.mint_or_get(&identity, &"other-hash".to_string(), 12);
    assert!(existed_second);
    assert_eq!(second.token_id, "T0");
    assert_eq!(second.verification_hash, hash);
    assert_eq!(second.issued_at, 11);
    assert_eq!(ledger.minted_count(), 1);
}

#[test]
fn token_numbers_increase_and_are_not_reused() {
    let mut ledger = CredentialLedger::new();
    let hash = "h".to_string();
    let (a, _) = ledger.mint_or_get(&"ida".to_string(), &hash, 1);
    let (b, _) = ledger.mint_or_get(&"idb".to_string(), &hash, 2);
    let (c, _) = ledger.mint_or_get(&"idc".to_string(), &hash, 3);
    assert_eq!(a.token_id, "T0");
    assert_eq!(b.token_id, "T1");
    assert_eq!(c.token_id, "T2");
    assert_eq!(ledger.minted_count(), 3);
    let (a_again, existed) = ledger.mint_or_get(&"ida".to_string(), &hash, 4);
    assert!(existed);
    assert_eq!(a_again.token_id, "T0");
    assert_eq!(ledger.minted_count(), 3);
}

#[test]
fn get_nft_metadata_unknown_token_is_none() {
    let mut ledger = CredentialLedger::new();
    assert!(ledger.get_nft_metadata(&"T0".to_string()).is_none());
    let _ = ledger.mint_or_get(&"id".to_string(), &"h".to_string(), 1);
    assert!(ledger.get_nft_metadata(&"T1".to_string()).is_none());
    assert!(ledger.get_nft_metadata(&"T0".to_string()).is_some());
}

#[test]
fn audit_log_keeps_insertion_order() {
    let mut audit = AuditLog::new();
    assert_eq!(audit.len(), 0);
    audit.append(&"h0".to_string());
    audit.append(&"h1".to_string());
    assert_eq!(audit.len(), 2);
    assert_eq!(audit.entry(0), Some("h0".to_string()));
    assert_eq!(audit.entry(1), Some("h1".to_string()));
    assert_eq!(audit.entry(2), None);
}

#[test]
fn zk_proof_mock_binds_public_input() {
    let p = generate_zk_proof_mock(&"cafe".to_string());
    assert_eq!(p.public_input, "verification_hash:cafe,model_hash:mock_model_hash_abc123");
    assert_eq!(
        p.proof_data,
        "mock_zk_proof_for_verification_hash:cafe,model_hash:mock_model_hash_abc123"
    );
}

#[test]
fn liveness_outcomes_are_distinct() {
    assert_ne!(LivenessOutcome::Live, LivenessOutcome::NotLive);
    assert_ne!(LivenessOutcome::Live, LivenessOutcome::Unavailable);
}

#[test]
fn greet_formats_name() {
    assert_eq!(greet(&"World".to_string()), "Hello, World!");
}

#[test]
fn counter_increments_and_sets() {
    let mut counter = Counter::new();
    assert_eq!(counter.get_count(), 0);
    assert_eq!(counter.increment(), 1);
    assert_eq!(counter.increment(), 2);
    assert_eq!(counter.set_count(41), 41);
    assert_eq!(counter.increment(), 42);
    assert_eq!(counter.get_count(), 42);
}
