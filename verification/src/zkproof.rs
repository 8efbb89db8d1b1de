//! The mock zero-knowledge proof: a placeholder proof bound to a
//! verification hash and a model execution hash through its public input.

use vstd::prelude::*;
use vstd::string::StringExecFns;

verus! {

/// A mock proof: opaque proof data bound to its public input.
#[derive(Debug)]
pub struct ZkProofMock {
    pub proof_data: String,
    pub public_input: String,
}

/// The public input binding a verification hash to the model hash.
pub open spec fn public_input_of(verification_hash: Seq<char>) -> Seq<char> {
    "verification_hash:"@ + verification_hash + ",model_hash:"@ + "mock_model_hash_abc123"@
}

/// The mock proof data is bound to the whole public input.
pub open spec fn proof_data_of(verification_hash: Seq<char>) -> Seq<char> {
    "mock_zk_proof_for_"@ + public_input_of(verification_hash)
}

/// Produces the mock proof for a verification hash.
pub fn generate_zk_proof_mock(verification_hash: &String) -> (p: ZkProofMock)
    ensures
        p.public_input@ == public_input_of(verification_hash@),
        p.proof_data@ == proof_data_of(verification_hash@),
{
    let mut public_input = String::from_str("verification_hash:");
    public_input.append(verification_hash.as_str());
    public_input.append(",model_hash:");
    public_input.append("mock_model_hash_abc123");
    proof {
        assert(public_input@ =~= public_input_of(verification_hash@));
    }
    let mut proof_data = String::from_str("mock_zk_proof_for_");
    proof_data.append(public_input.as_str());
    ZkProofMock { proof_data, public_input }
}

} // verus!
