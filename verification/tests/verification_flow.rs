//! End-to-end scenarios of the challenge/verification/minting flow.

use popai::challenge::{ChallengeRegistry, PromptType};
use popai::engine::{
    begin_submission, complete_submission, AuditLog, LivenessOutcome, SubmissionStep,
    VerificationError, VerificationSubmission,
};
use popai::ledger::CredentialLedger;

fn submission_for(challenge_id: &str, ts: u64) -> VerificationSubmission {
    VerificationSubmission {
        challenge_id: challenge_id.to_string(),
        liveness_evidence: vec![1, 2, 3],
        behavioral_evidence: "steady-cursor".to_string(),
        client_timestamp: ts,
    }
}

#[test]
fn issue_builds_id_nonce_and_prompt() {
    let mut registry = ChallengeRegistry::new();
    let identity = "alice-principal".to_string();
    let c = registry.issue(&identity, 12345, &vec![0xde, 0xad, 0xbe, 0xef]);
    assert_eq!(c.id, "12345-alice-principal-deadbeef");
    assert_eq!(c.nonce, "deadbeef");
    assert_eq!(c.prompt_type, PromptType::Blink);
    assert_eq!(c.prompt_text, "Blink twice slowly.");
    assert_eq!(registry.len(), 1);
}

#[test]
fn empty_entropy_gives_empty_nonce() {
    let mut registry = ChallengeRegistry::new();
    let c = registry.issue(&"carol".to_string(), 0, &vec![]);
    assert_eq!(c.nonce, "");
    assert_eq!(c.id, "0-carol-");
}

#[test]
fn prompt_rotates_with_time() {
    let mut registry = ChallengeRegistry::new();
    let identity = "bob".to_string();
    let c1 = registry.issue(&identity, 31, &vec![1]);
    assert_eq!(c1.prompt_type, PromptType::Nod);
    assert_eq!(c1.prompt_text, "Nod your head up and down.");
    let c2 = registry.issue(&identity, 32, &vec![2]);
    assert_eq!(c2.prompt_type, PromptType::SayPhrase);
    assert_eq!(c2.prompt_text, "Clearly say: 'My identity is sovereign'");
}

#[test]
fn consume_succeeds_at_most_once() {
    let mut registry = ChallengeRegistry::new();
    let identity = "alice".to_string();
    let c = registry.issue(&identity, 7, &vec![0xab]);
    let first = registry.consume(&c.id);
    assert!(first.is_some());
    assert_eq!(first.unwrap().id, c.id);
    let second = registry.consume(&c.id);
    assert!(second.is_none());
    assert_eq!(registry.len(), 0);
}

#[test]
fn repeat_requests_produce_independent_challenges() {
    let mut registry = ChallengeRegistry::new();
    let identity = "alice".to_string();
    let c1 = registry.issue(&identity, 7, &vec![0x01]);
    let c2 = registry.issue(&identity, 7, &vec![0x02]);
    assert_ne!(c1.id, c2.id);
    assert_eq!(registry.len(), 2);
    assert!(registry.consume(&c1.id).is_some());
    assert!(registry.consume(&c2.id).is_some());
}

#[test]
fn make_challenge_id_matches_issue_and_contains() {
    let mut registry = ChallengeRegistry::new();
    let identity = "alice".to_string();
    let entropy = vec![0x0a, 0x0b];
    let id = popai::challenge::make_challenge_id(&identity, 9, &entropy);
    assert_eq!(id, "9-alice-0a0b");
    assert!(!registry.contains_challenge(&id));
    let c = registry.issue(&identity, 9, &entropy);
    assert_eq!(c.id, id);
    assert!(registry.contains_challenge(&id));
}

#[test]
fn failed_liveness_returns_failure_and_logs() {
    let mut registry = ChallengeRegistry::new();
    let mut ledger = CredentialLedger::new();
    let mut audit = AuditLog::new();
    let identity = "identity-a".to_string();
    let challenge = registry.issue(&identity, 100, &vec![0x11]);
    let submission = submission_for(&challenge.id, 4242);
    let step = begin_submission(&mut registry, &submission);
    let challenge = match step {
        SubmissionStep::CapabilitiesNeeded(c) => c,
        SubmissionStep::Rejected(_) => panic!("challenge should be outstanding"),
    };
    let result = complete_submission(
        &mut ledger,
        &mut audit,
        &challenge,
        &identity,
        &submission,
        LivenessOutcome::NotLive,
        9500,
        5000,
    );
    assert!(!result.success);
    assert_eq!(result.error, Some(VerificationError::VerificationFailed));
    assert!(result.credential_id.is_none());
    assert!(!result.already_verified);
    assert!(result.verification_hash.is_some());
    assert_eq!(audit.len(), 1);
    assert_eq!(ledger.minted_count(), 0);
}

#[test]
fn successful_submission_mints_first_token() {
    let mut registry = ChallengeRegistry::new();
    let mut ledger = CredentialLedger::new();
    let mut audit = AuditLog::new();
    let identity = "identity-b".to_string();
    let challenge = registry.issue(&identity, 200, &vec![0x22]);
    let submission = submission_for(&challenge.id, 4243);
    let step = begin_submission(&mut registry, &submission);
    let challenge = match step {
        SubmissionStep::CapabilitiesNeeded(c) => c,
        SubmissionStep::Rejected(_) => panic!("challenge should be outstanding"),
    };
    let result = complete_submission(
        &mut ledger,
        &mut audit,
        &challenge,
        &identity,
        &submission,
        LivenessOutcome::Live,
        9500,
        5001,
    );
    assert!(result.success);
    assert_eq!(result.error, None);
    assert!(!result.already_verified);
    assert_eq!(result.credential_id.as_deref(), Some("T0"));
    let hash = result.verification_hash.clone().unwrap();
    assert_eq!(audit.len(), 1);
    assert_eq!(audit.entry(0), Some(hash.clone()));

    let credential = ledger.get_nft_metadata(&"T0".to_string()).unwrap();
    assert_eq!(credential.owner, identity);
    assert_eq!(credential.token_id, "T0");
    assert_eq!(credential.issued_at, 5001);
    assert_eq!(credential.verification_hash, hash);
    assert_eq!(credential.name, "PoPAI Verified Human");
}

#[test]
fn second_pass_returns_existing_token() {
    let mut registry = ChallengeRegistry::new();
    let mut ledger = CredentialLedger::new();
    let mut audit = AuditLog::new();
    let identity = "identity-b".to_string();

    let challenge = registry.issue(&identity, 300, &vec![0x33]);
    let submission = submission_for(&challenge.id, 1);
    let challenge = match begin_submission(&mut registry, &submission) {
        SubmissionStep::CapabilitiesNeeded(c) => c,
        SubmissionStep::Rejected(_) => panic!("challenge should be outstanding"),
    };
    let first = complete_submission(
        &mut ledger,
        &mut audit,
        &challenge,
        &identity,
        &submission,
        LivenessOutcome::Live,
        9000,
        10,
    );
    assert!(first.success);
    assert_eq!(first.credential_id.as_deref(), Some("T0"));

    let challenge = registry.issue(&identity, 301, &vec![0x34]);
    let submission = submission_for(&challenge.id, 2);
    let challenge = match begin_submission(&mut registry, &submission) {
        SubmissionStep::CapabilitiesNeeded(c) => c,
        SubmissionStep::Rejected(_) => panic!("challenge should be outstanding"),
    };
    let second = complete_submission(
        &mut ledger,
        &mut audit,
        &challenge,
        &identity,
        &submission,
        LivenessOutcome::Live,
        9000,
        20,
    );
    assert!(second.success);
    assert!(second.already_verified);
    assert_eq!(second.credential_id.as_deref(), Some("T0"));
    assert_eq!(ledger.minted_count(), 1);
    assert_eq!(audit.len(), 2);
}

#[test]
fn unknown_challenge_is_rejected() {
    let mut registry = ChallengeRegistry::new();
    let submission = submission_for("never-issued", 9);
    match begin_submission(&mut registry, &submission) {
        SubmissionStep::Rejected(r) => {
            assert!(!r.success);
            assert_eq!(r.error, Some(VerificationError::InvalidOrExpiredChallenge));
            assert!(r.credential_id.is_none());
            assert!(r.verification_hash.is_none());
        },
        SubmissionStep::CapabilitiesNeeded(_) => panic!("challenge was never issued"),
    }
}

#[test]
fn unavailable_verifier_is_not_a_pass() {
    let mut registry = ChallengeRegistry::new();
    let mut ledger = CredentialLedger::new();
    let mut audit = AuditLog::new();
    let identity = "identity-c".to_string();
    let challenge = registry.issue(&identity, 400, &vec![0x44]);
    let submission = submission_for(&challenge.id, 3);
    let challenge = match begin_submission(&mut registry, &submission) {
        SubmissionStep::CapabilitiesNeeded(c) => c,
        SubmissionStep::Rejected(_) => panic!("challenge should be outstanding"),
    };
    let result = complete_submission(
        &mut ledger,
        &mut audit,
        &challenge,
        &identity,
        &submission,
        LivenessOutcome::Unavailable,
        9999,
        30,
    );
    assert!(!result.success);
    assert_eq!(result.error, Some(VerificationError::VerifierUnavailable));
    assert_eq!(ledger.minted_count(), 0);
    assert_eq!(audit.len(), 1);
}

#[test]
fn score_at_threshold_fails_policy() {
    let mut registry = ChallengeRegistry::new();
    let mut ledger = CredentialLedger::new();
    let mut audit = AuditLog::new();
    let identity = "identity-d".to_string();
    let challenge = registry.issue(&identity, 500, &vec![0x55]);
    let submission = submission_for(&challenge.id, 4);
    let challenge = match begin_submission(&mut registry, &submission) {
        SubmissionStep::CapabilitiesNeeded(c) => c,
        SubmissionStep::Rejected(_) => panic!("challenge should be outstanding"),
    };
    let result = complete_submission(
        &mut ledger,
        &mut audit,
        &challenge,
        &identity,
        &submission,
        LivenessOutcome::Live,
        popai::engine::BEHAVIORAL_PASS_THRESHOLD,
        40,
    );
    assert!(!result.success);
    assert_eq!(result.error, Some(VerificationError::VerificationFailed));
}
