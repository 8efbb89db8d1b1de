//! The verification engine: consumes a challenge, applies the pass/fail
//! policy to the capability outcomes, computes the verification hash,
//! records it in the audit log, and hands off to the credential ledger.
//!
//! Capability calls (liveness inference, behavioral scoring) suspend the
//! caller, so a submission runs in two atomic steps with the capability
//! calls strictly between them: `begin_submission` consumes the challenge
//! and `complete_submission` decides, hashes, logs and mints. Neither step
//! suspends, so no other call can interleave with a check-then-act.

use vstd::prelude::*;
use crate::challenge::{ChallengeRegistry, VerificationChallenge, has_challenge};
use crate::hashing::{
    compute_evidence_digest,
    compute_verification_hash,
    evidence_digest_of,
    verification_hash_of,
};
use crate::ledger::{CredentialLedger, CredentialView, has_owner, token_id_of};

verus! {

/// The expected, caller-recoverable failure kinds of a verification call.
#[derive(Clone, Copy, Debug, PartialEq, Eq, Structural)]
pub enum VerificationError {
    /// The submitted challenge identifier is unknown or already consumed.
    InvalidOrExpiredChallenge,
    /// The evidence did not pass the verification policy.
    VerificationFailed,
    /// The liveness verifier could not be reached; never treated as a pass.
    VerifierUnavailable,
}

/// What the liveness verifier capability reported for a submission.
#[derive(Clone, Copy, Debug, PartialEq, Eq, Structural)]
pub enum LivenessOutcome {
    /// The verifier judged the evidence live.
    Live,
    /// The verifier judged the evidence not live.
    NotLive,
    /// The verifier could not be reached.
    Unavailable,
}

/// One verification attempt: the challenge it answers and the evidence.
#[derive(Debug)]
pub struct VerificationSubmission {
    pub challenge_id: String,
    pub liveness_evidence: Vec<u8>,
    pub behavioral_evidence: String,
    pub client_timestamp: u64,
}

/// The mathematical content of a submission.
pub ghost struct SubmissionView {
    pub challenge_id: Seq<char>,
    pub liveness_evidence: Seq<u8>,
    pub behavioral_evidence: Seq<char>,
    pub client_timestamp: u64,
}

impl View for VerificationSubmission {
    type V = SubmissionView;

    open spec fn view(&self) -> SubmissionView {
        SubmissionView {
            challenge_id: self.challenge_id@,
            liveness_evidence: self.liveness_evidence@,
            behavioral_evidence: self.behavioral_evidence@,
            client_timestamp: self.client_timestamp,
        }
    }
}

/// What one verification attempt returned to the caller.
#[derive(Debug)]
pub struct VerificationResult {
    pub success: bool,
    pub credential_id: Option<String>,
    pub error: Option<VerificationError>,
    /// Informational: the identity already held a credential, which is
    /// returned unchanged. Not an error.
    pub already_verified: bool,
    pub verification_hash: Option<String>,
}

/// Behavioral scores are fixed-point fractions of this scale (a score of
/// `BEHAVIORAL_SCORE_SCALE` means 1.0).
pub const BEHAVIORAL_SCORE_SCALE: u32 = 10000;

/// The base policy's threshold: the behavioral score must exceed it.
pub const BEHAVIORAL_PASS_THRESHOLD: u32 = 7000;

/// The base pass/fail policy: the liveness verifier must report live and
/// the behavioral score must exceed the threshold.
pub open spec fn policy_passes(liveness: LivenessOutcome, behavioral_score: u32) -> bool {
    liveness == LivenessOutcome::Live && behavioral_score > BEHAVIORAL_PASS_THRESHOLD
}

/// The error kind of a failed verification: a capability fault is reported
/// as such and never degrades into a mere failed check.
pub open spec fn failure_error_of(liveness: LivenessOutcome) -> VerificationError {
    if liveness == LivenessOutcome::Unavailable {
        VerificationError::VerifierUnavailable
    } else {
        VerificationError::VerificationFailed
    }
}

/// The verification hash of one submission, as a function of the consumed
/// challenge's identifier, the caller identity, the submission and the
/// outcome alone.
pub open spec fn submission_hash(
    challenge_id: Seq<char>,
    identity: Seq<char>,
    submission: SubmissionView,
    passed: bool,
) -> Seq<char> {
    verification_hash_of(
        challenge_id,
        identity,
        submission.client_timestamp,
        evidence_digest_of(submission.liveness_evidence, submission.behavioral_evidence),
        passed,
    )
}

/// Evaluates the base pass/fail policy.
pub fn policy_allows(liveness: LivenessOutcome, behavioral_score: u32) -> (r: bool)
    ensures
        r == policy_passes(liveness, behavioral_score),
{
    liveness == LivenessOutcome::Live && behavioral_score > BEHAVIORAL_PASS_THRESHOLD
}

/// The append-only audit log of verification hashes. It is written on
/// every decided submission and never read for decisioning.
pub struct AuditLog {
    entries: Vec<String>,
}

impl View for AuditLog {
    type V = Seq<Seq<char>>;

    closed spec fn view(&self) -> Seq<Seq<char>> {
        self.entries@.map_values(|s: String| s@)
    }
}

impl AuditLog {
    /// An empty log.
    pub fn new() -> (r: AuditLog)
        ensures
            r@ =~= Seq::<Seq<char>>::empty(),
    {
        AuditLog { entries: Vec::new() }
    }

    /// Appends one verification hash; earlier entries are never changed.
    pub fn append(&mut self, hash: &String)
        ensures
            final(self)@ == old(self)@.push(hash@),
    {
        self.entries.push(hash.clone());
        proof {
            assert(self@ =~= old(self)@.push(hash@));
        }
    }

    /// How many hashes have been recorded.
    pub fn len(&self) -> (n: usize)
        ensures
            n == self@.len(),
    {
        self.entries.len()
    }

    /// The hash recorded at position `i`, oldest first.
    pub fn entry(&self, i: usize) -> (r: Option<String>)
        ensures
            i < self@.len() ==> (r matches Some(h) && h@ == self@[i as int]),
            i >= self@.len() ==> r is None,
    {
        if i < self.entries.len() {
            Some(self.entries[i].clone())
        } else {
            None
        }
    }
}

/// Where a submission stands after its first atomic step.
pub enum SubmissionStep {
    /// The referenced challenge was unknown or already consumed; the
    /// attempt is over and this result goes back to the caller.
    Rejected(VerificationResult),
    /// The challenge was consumed; the capability calls come next, then
    /// `complete_submission` with their outcomes.
    CapabilitiesNeeded(VerificationChallenge),
}

/// The first atomic step of a submission: consumes the referenced
/// challenge. On NotFound the attempt fails with
/// `InvalidOrExpiredChallenge` and no hash; otherwise the consumed
/// challenge is handed back for the capability calls. Consumption is a
/// single atomic remove, so each challenge is consumed at most once.
pub fn begin_submission(registry: &mut ChallengeRegistry, submission: &VerificationSubmission) -> (
    step: SubmissionStep)
    requires
        old(registry).wf(),
    ensures
        final(registry).wf(),
        !has_challenge(final(registry)@, submission@.challenge_id),
        !has_challenge(old(registry)@, submission@.challenge_id) ==> final(registry)@ == old(
            registry,
        )@ && (step matches SubmissionStep::Rejected(r) && !r.success && r.error == Some(
            VerificationError::InvalidOrExpiredChallenge,
        ) && r.credential_id is None && r.verification_hash is None && !r.already_verified),
        has_challenge(old(registry)@, submission@.challenge_id) ==> (step matches
            SubmissionStep::CapabilitiesNeeded(c) && exists|i: int|
            0 <= i < old(registry)@.len() && (#[trigger] old(registry)@[i].id)
                == submission@.challenge_id && c@ == old(registry)@[i] && final(registry)@
                == old(registry)@.remove(i)),
{
    match registry.consume(&submission.challenge_id) {
        Some(c) => SubmissionStep::CapabilitiesNeeded(c),
        None => SubmissionStep::Rejected(
            VerificationResult {
                success: false,
                credential_id: None,
                error: Some(VerificationError::InvalidOrExpiredChallenge),
                already_verified: false,
                verification_hash: None,
            },
        ),
    }
}

/// The second atomic step of a submission, after the capability calls:
/// derives the outcome from the policy, computes the verification hash,
/// appends it to the audit log unconditionally, and on a pass delegates to
/// the ledger, which mints at most one credential per identity.
pub fn complete_submission(
    ledger: &mut CredentialLedger,
    audit: &mut AuditLog,
    challenge: &VerificationChallenge,
    identity: &String,
    submission: &VerificationSubmission,
    liveness: LivenessOutcome,
    behavioral_score: u32,
    now: u64,
) -> (r: VerificationResult)
    requires
        old(ledger).wf(),
        old(ledger)@.len() < u64::MAX,
    ensures
        final(ledger).wf(),
        ({
            let passed = policy_passes(liveness, behavioral_score);
            let h = submission_hash(challenge@.id, identity@, submission@, passed);
            &&& final(audit)@ == old(audit)@.push(h)
            &&& (r.verification_hash matches Some(vh) && vh@ == h)
            &&& r.success == passed
            &&& (!passed ==> !r.already_verified && r.credential_id is None && r.error
                == Some(failure_error_of(liveness)) && final(ledger)@ == old(ledger)@)
            &&& (passed ==> r.error is None && has_owner(final(ledger)@, identity@))
            &&& (passed && has_owner(old(ledger)@, identity@) ==> r.already_verified
                && final(ledger)@ == old(ledger)@ && (r.credential_id matches Some(t) && exists|i: int|
                0 <= i < old(ledger)@.len() && (#[trigger] old(ledger)@[i].owner) == identity@
                    && t@ == old(ledger)@[i].token_id))
            &&& (passed && !has_owner(old(ledger)@, identity@) ==> !r.already_verified && (
            r.credential_id matches Some(t) && t@ == token_id_of(old(ledger)@.len() as nat))
                && final(ledger)@ == old(ledger)@.push(
                (CredentialView {
                    token_id: token_id_of(old(ledger)@.len() as nat),
                    name: "PoPAI Verified Human"@,
                    description:
                        "This token certifies that the holder has successfully passed a PoPAI liveness and uniqueness challenge."@,
                    issued_at: now,
                    verification_hash: h,
                    owner: identity@,
                }),
            ))
        }),
{
    let passed = policy_allows(liveness, behavioral_score);
    let evidence_digest = compute_evidence_digest(
        &submission.liveness_evidence,
        &submission.behavioral_evidence,
    );
    let hash = compute_verification_hash(
        &challenge.id,
        identity,
        submission.client_timestamp,
        &evidence_digest,
        passed,
    );
    audit.append(&hash);
    if !passed {
        let error = if liveness == LivenessOutcome::Unavailable {
            VerificationError::VerifierUnavailable
        } else {
            VerificationError::VerificationFailed
        };
        VerificationResult {
            success: false,
            credential_id: None,
            error: Some(error),
            already_verified: false,
            verification_hash: Some(hash),
        }
    } else {
        let minted = ledger.mint_or_get(identity, &hash, now);
        VerificationResult {
            success: true,
            credential_id: Some(minted.0.token_id),
            error: None,
            already_verified: minted.1,
            verification_hash: Some(hash),
        }
    }
}

} // verus!
