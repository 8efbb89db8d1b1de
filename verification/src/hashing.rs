//! The deterministic verification hash: a digest binding a verification
//! event to its challenge, caller, timestamp, evidence and outcome.

use vstd::prelude::*;
use vstd::string::StringExecFns;
use crate::encoding::{dec_of, hex_of, push_decimal};

verus! {

/// What `sha2::Sha256::digest` returns for a string: its 32-byte SHA-256
/// digest, a function of the characters alone.
pub uninterp spec fn sha256_of(s: Seq<char>) -> Seq<u8>;

/// Relies on `sha2::Sha256::digest` (FIPS 180-4): the digest of the
/// string's UTF-8 bytes, 32 bytes long, depending on the input alone.
#[verifier::external_body]
fn sha256_digest(s: &str) -> (r: Vec<u8>)
    ensures
        r@ == sha256_of(s@),
        r@.len() == 32,
{
    <sha2::Sha256 as sha2::Digest>::digest(s.as_bytes()).to_vec()
}

/// Relies on `hex::encode`: two lowercase hexadecimal digits per byte,
/// high nibble first, bytes in input order.
#[verifier::external_body]
pub(crate) fn hex_encode(bytes: &[u8]) -> (r: String)
    ensures
        r@ == hex_of(bytes@),
{
    hex::encode(bytes)
}

/// The canonical digest of one submission's evidence: the hex rendering of
/// the liveness bytes and the behavioral record, joined and digested.
pub open spec fn evidence_digest_of(
    liveness_evidence: Seq<u8>,
    behavioral_evidence: Seq<char>,
) -> Seq<char> {
    hex_of(sha256_of(hex_of(liveness_evidence) + "|"@ + behavioral_evidence))
}

/// The textual mark of the pass/fail outcome inside the hash input.
pub open spec fn outcome_mark(passed: bool) -> Seq<char> {
    if passed {
        "true"@
    } else {
        "false"@
    }
}

/// The canonical input of the verification hash.
pub open spec fn hash_input_of(
    challenge_id: Seq<char>,
    identity: Seq<char>,
    timestamp: u64,
    evidence_digest: Seq<char>,
    passed: bool,
) -> Seq<char> {
    challenge_id + "|"@ + identity + "|"@ + dec_of(timestamp as nat) + "|"@ + evidence_digest
        + "|"@ + outcome_mark(passed)
}

/// The verification hash: a deterministic function of the challenge
/// identifier, the caller identity, the client timestamp, the evidence
/// digest and the outcome. Identical inputs give identical hashes.
pub open spec fn verification_hash_of(
    challenge_id: Seq<char>,
    identity: Seq<char>,
    timestamp: u64,
    evidence_digest: Seq<char>,
    passed: bool,
) -> Seq<char> {
    hex_of(sha256_of(hash_input_of(challenge_id, identity, timestamp, evidence_digest, passed)))
}

/// Digests a submission's evidence into its canonical digest string.
pub fn compute_evidence_digest(liveness_evidence: &Vec<u8>, behavioral_evidence: &String) -> (r:
    String)
    ensures
        r@ == evidence_digest_of(liveness_evidence@, behavioral_evidence@),
{
    let mut joined = hex_encode(liveness_evidence.as_slice());
    joined.append("|");
    joined.append(behavioral_evidence.as_str());
    proof {
        assert(joined@ =~= hex_of(liveness_evidence@) + "|"@ + behavioral_evidence@);
    }
    let digest = sha256_digest(joined.as_str());
    hex_encode(digest.as_slice())
}

/// Computes the verification hash of one verification event.
pub fn compute_verification_hash(
    challenge_id: &String,
    identity: &String,
    timestamp: u64,
    evidence_digest: &String,
    passed: bool,
) -> (r: String)
    ensures
        r@ == verification_hash_of(
            challenge_id@,
            identity@,
            timestamp,
            evidence_digest@,
            passed,
        ),
{
    let mut input = challenge_id.clone();
    input.append("|");
    input.append(identity.as_str());
    input.append("|");
    push_decimal(&mut input, timestamp);
    input.append("|");
    input.append(evidence_digest.as_str());
    input.append("|");
    if passed {
        input.append("true");
    } else {
        input.append("false");
    }
    proof {
        assert(input@ =~= hash_input_of(
            challenge_id@,
            identity@,
            timestamp,
            evidence_digest@,
            passed,
        ));
    }
    let digest = sha256_digest(input.as_str());
    hex_encode(digest.as_slice())
}

} // verus!
