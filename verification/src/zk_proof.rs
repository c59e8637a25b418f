//! ZK proofs of ICS-23 verification, as the relayer obtains them for a
//! message.

use vstd::prelude::*;
use vstd::utf8::encode_utf8;
use crate::bytes::copy_bytes;
use crate::error::RelayerError;
use crate::uibc::ZkProofRequirement;

verus! {

/// A prover over an ICS-23 trace. It produces fixed placeholder outputs: the
/// circuit is not wired in.
#[derive(Debug, Clone, Copy, PartialEq, Eq)]
pub struct Ics23Prover {}

impl Ics23Prover {
    pub fn new(trace: Vec<u8>) -> (p: Self) {
        Ics23Prover {  }
    }

    /// The proof: the placeholder `mock_zk_proof_data`.
    pub fn prove(&self) -> (r: Vec<u8>)
        ensures
            r@ == encode_utf8("mock_zk_proof_data"@),
    {
        copy_bytes("mock_zk_proof_data".as_bytes())
    }

    /// The public inputs: the placeholder `mock_public_inputs_data`.
    pub fn public_inputs(&self) -> (r: Vec<u8>)
        ensures
            r@ == encode_utf8("mock_public_inputs_data"@),
    {
        copy_bytes("mock_public_inputs_data".as_bytes())
    }
}

/// The proof and public inputs for a ZK requirement, given the ICS-23 trace
/// fetched from the source chain.
pub fn generate_zk_proof(message: &ZkProofRequirement, trace: Vec<u8>) -> (r: Result<
    (Vec<u8>, Vec<u8>),
    RelayerError,
>)
    ensures
        r matches Ok((proof, inputs)) && proof@ == encode_utf8("mock_zk_proof_data"@) && inputs@
            == encode_utf8("mock_public_inputs_data"@),
{
    let prover = Ics23Prover::new(trace);
    let proof = prover.prove();
    let public_inputs = prover.public_inputs();
    Ok((proof, public_inputs))
}

/// Checks a proof locally before submission: empty proofs or inputs are
/// refused; anything else passes, as no verifier is wired in.
pub fn verify_proof_locally(proof: &[u8], public_inputs: &[u8], req: &ZkProofRequirement) -> (r:
    Result<bool, RelayerError>)
    ensures
        r == (if proof@.len() == 0 || public_inputs@.len() == 0 {
            Err::<bool, RelayerError>(RelayerError::InvalidProofData)
        } else {
            Ok::<bool, RelayerError>(true)
        }),
{
    if proof.len() == 0 || public_inputs.len() == 0 {
        return Err(RelayerError::InvalidProofData);
    }
    Ok(true)
}

} // verus!
