//! Processing a universal message for proving: the checks a message and its
//! ICS-23 proof must pass, and the circuit inputs they give.

use vstd::prelude::*;
use crate::bytes::copy_string;
use crate::chain_adapter::InclusionProof;
use crate::circuit::{
    circuit_proof_result, convert_to_circuit_proof, extract_public_inputs, public_inputs_result,
    Ics23ProofData, PublicInputs, MERKLE_LEVELS, PATH_LEN, SIBLING_BYTES,
};
use crate::error::RelayerError;
use crate::uibc::{Ics23Proof, MessageType, Requirement, UniversalMessage};

verus! {

/// Whether a message is fit for processing: its type is specified.
pub open spec fn message_is_valid(m: UniversalMessage) -> bool {
    m.message_type != MessageType::MessageTypeUnspecified
}

/// Whether a message asks for a ZK proof.
pub open spec fn asks_zk_proof(m: UniversalMessage) -> bool {
    m.proof_requirement matches Some(p) && p.requirement matches Some(Requirement::ZkProof(_))
}

/// The number of Merkle levels that proof data of `len` bytes holds, as the
/// length check counts them: whole 32-byte siblings after the path bytes.
/// Data shorter than the path bytes holds no level count at all.
pub open spec fn proof_levels(len: nat) -> Option<int> {
    if len < PATH_LEN {
        None
    } else {
        Some((len - PATH_LEN) / (SIBLING_BYTES as int))
    }
}

/// Which test, if any, a message and its proof fail before proving.
pub open spec fn processing_check(m: UniversalMessage, proof: Ics23Proof) -> Result<(), RelayerError> {
    if !message_is_valid(m) {
        Err(RelayerError::MessageValidationFailed)
    } else if m.message_id@.len() == 0 {
        Err(RelayerError::MissingMessageId)
    } else if proof_levels(proof.proof_data@.len()) != Some(MERKLE_LEVELS as int) {
        Err(RelayerError::InvalidProofLength)
    } else if !asks_zk_proof(m) {
        Err(RelayerError::UnsupportedZkPayload)
    } else {
        Ok(())
    }
}

/// What processing a message with its proof gives: the error of the first
/// test it fails, the error of a state root that is not 32 bytes, or the
/// circuit's reading of the proof and the public inputs for the message.
pub open spec fn processing_result(
    m: UniversalMessage,
    proof: Ics23Proof,
    r: Result<(Ics23ProofData, PublicInputs), RelayerError>,
) -> bool {
    match processing_check(m, proof) {
        Err(e) => r == Err::<(Ics23ProofData, PublicInputs), RelayerError>(e),
        Ok(_) => if m.state_checkpoint is Some && m.state_checkpoint.unwrap().state_root@.len()
            != 32 {
            r == Err::<(Ics23ProofData, PublicInputs), RelayerError>(
                RelayerError::InvalidStateRootLength,
            )
        } else {
            r matches Ok((d, p)) && circuit_proof_result(
                proof.key@,
                proof.value@,
                proof.proof_data@,
                Ok(d),
            ) && public_inputs_result(m, Ok(p))
        },
    }
}

/// Checks a message and its ICS-23 proof, then reads them into the inputs of
/// the ICS-23 circuit.
pub fn process_message(message: &UniversalMessage, proof: Ics23Proof) -> (r: Result<
    (Ics23ProofData, PublicInputs),
    RelayerError,
>)
    ensures
        processing_result(*message, proof, r),
{
    if message.message_type == MessageType::MessageTypeUnspecified {
        return Err(RelayerError::MessageValidationFailed);
    }
    if message.message_id.len() == 0 {
        return Err(RelayerError::MissingMessageId);
    }
    let levels = match proof.proof_data.len().checked_sub(PATH_LEN) {
        Some(rest) => rest / SIBLING_BYTES,
        None => {
            return Err(RelayerError::InvalidProofLength);
        },
    };
    if levels != MERKLE_LEVELS {
        return Err(RelayerError::InvalidProofLength);
    }
    let asks = match &message.proof_requirement {
        Some(p) => match &p.requirement {
            Some(Requirement::ZkProof(_)) => true,
            _ => false,
        },
        None => false,
    };
    if !asks {
        return Err(RelayerError::UnsupportedZkPayload);
    }
    let inclusion = InclusionProof {
        path: proof.key,
        value: proof.value,
        proof_data: proof.proof_data,
        proof_type: copy_string("ics23"),
    };
    let data = match convert_to_circuit_proof(&inclusion) {
        Ok(d) => d,
        Err(e) => {
            return Err(e);
        },
    };
    let inputs = match extract_public_inputs(message) {
        Ok(p) => p,
        Err(e) => {
            return Err(e);
        },
    };
    Ok((data, inputs))
}

} // verus!
