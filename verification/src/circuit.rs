//! The byte-level side of the ICS-23 STARK circuit: its layout, how an
//! inclusion proof is read into sibling hashes and path bits, the limbs of a
//! state root, and what proving and verifying a message cost.

use vstd::prelude::*;
use vstd::bytes::{spec_u64_from_le_bytes, u64_from_le_bytes};
use vstd::slice::slice_subrange;
use crate::bytes::copy_bytes;
use crate::error::RelayerError;
use crate::chain_adapter::InclusionProof;
use crate::uibc::{Payload, UniversalMessage};
use vstd::utf8::encode_utf8;
use winterfell::ProofOptions;

verus! {

/// State elements of the Poseidon permutation.
pub const POSEIDON_WIDTH: usize = 3;

/// Full rounds of the Poseidon permutation.
pub const POSEIDON_FULL_ROUNDS: usize = 8;

/// Partial rounds of the Poseidon permutation.
pub const POSEIDON_PARTIAL_ROUNDS: usize = 56;

/// Levels of the Merkle path a proof walks.
pub const MERKLE_LEVELS: usize = 32;

/// Columns of the execution trace: the leaf hash state, a hash state per
/// level, and the chain identifier.
pub const TRACE_WIDTH: usize = 3 + 3 * MERKLE_LEVELS + 1;

/// Rows of one Poseidon permutation.
pub const POSEIDON_STEPS: usize = POSEIDON_FULL_ROUNDS + POSEIDON_PARTIAL_ROUNDS;

/// Rows of the execution trace.
pub const TOTAL_STEPS: usize = POSEIDON_STEPS * (MERKLE_LEVELS + 1) + 1;

/// Bytes of one sibling hash in the proof data.
pub const SIBLING_BYTES: usize = 32;

/// Bytes of the sibling hashes at the start of the proof data.
pub const SIBLINGS_LEN: usize = MERKLE_LEVELS * SIBLING_BYTES;

/// Bytes of the path bits that follow the sibling hashes.
pub const PATH_LEN: usize = MERKLE_LEVELS / 8;

/// The sibling hash of level `i`, as the proof data holds it.
pub open spec fn sibling_at(data: Seq<u8>, i: int) -> Seq<u8> {
    data.subrange(i * SIBLING_BYTES, i * SIBLING_BYTES + SIBLING_BYTES)
}

/// The path bit of level `i`: bit `i % 8` of byte `i / 8` after the
/// siblings, least significant first; set means the running hash is the
/// right child.
pub open spec fn path_bit(data: Seq<u8>, i: int) -> bool {
    (data[SIBLINGS_LEN + i / 8] >> ((i % 8) as u8)) & 1u8 == 1u8
}

/// The limb `i` of a 32-byte state root: its bytes `8i` to `8i + 7`, read
/// little-endian.
pub open spec fn root_limb(root: Seq<u8>, i: int) -> u64 {
    spec_u64_from_le_bytes(root.subrange(i * 8, i * 8 + 8))
}

/// The 32 bytes that stand for a byte string as a field element: its first
/// 32 bytes, padded with zeros.
pub open spec fn field_bytes(b: Seq<u8>) -> Seq<u8> {
    Seq::new(32, |i: int| if i < b.len() { b[i] } else { 0u8 })
}

/// The cost of proving a message: 10 000, scaled by 1.5 for a contract call,
/// by 1 + 0.1 per transfer for a batch, by 1.2 for anything but a single
/// transfer.
pub open spec fn proof_cost(m: UniversalMessage) -> nat {
    match m.payload {
        Some(Payload::TokenTransfer(_)) => 10000,
        Some(Payload::ContractCall(_)) => 15000,
        Some(Payload::BatchTransfer(b)) => 10000 + 1000 * b.transfers@.len(),
        _ => 12000,
    }
}

/// The sibling hashes of an ICS-23 proof: the first 32 chunks of 32 bytes.
pub fn parse_siblings(proof_data: &[u8]) -> (r: Result<Vec<Vec<u8>>, RelayerError>)
    ensures
        proof_data@.len() < SIBLINGS_LEN ==> r == Err::<Vec<Vec<u8>>, RelayerError>(
            RelayerError::InsufficientSiblingData,
        ),
        proof_data@.len() >= SIBLINGS_LEN ==> (r matches Ok(s) && s@.len() == MERKLE_LEVELS && (
        forall|i: int| 0 <= i < MERKLE_LEVELS ==> #[trigger] s@[i]@ == sibling_at(proof_data@, i))),
{
    if proof_data.len() < SIBLINGS_LEN {
        return Err(RelayerError::InsufficientSiblingData);
    }
    let mut siblings: Vec<Vec<u8>> = Vec::new();
    let mut i: usize = 0;
    while i < MERKLE_LEVELS
        invariant
            i <= MERKLE_LEVELS,
            proof_data@.len() >= SIBLINGS_LEN,
            siblings@.len() == i,
            forall|k: int| 0 <= k < i ==> #[trigger] siblings@[k]@ == sibling_at(proof_data@, k),
        decreases MERKLE_LEVELS - i,
    {
        let start = i * SIBLING_BYTES;
        let chunk = slice_subrange(proof_data, start, start + SIBLING_BYTES);
        siblings.push(copy_bytes(chunk));
        i = i + 1;
    }
    Ok(siblings)
}

/// The path bits of an ICS-23 proof, one per level, from the four bytes
/// after the siblings.
pub fn parse_path(proof_data: &[u8]) -> (r: Result<Vec<bool>, RelayerError>)
    ensures
        proof_data@.len() < SIBLINGS_LEN + PATH_LEN ==> r == Err::<Vec<bool>, RelayerError>(
            RelayerError::InsufficientPathData,
        ),
        proof_data@.len() >= SIBLINGS_LEN + PATH_LEN ==> (r matches Ok(p) && p@.len()
            == MERKLE_LEVELS && (forall|i: int|
            0 <= i < MERKLE_LEVELS ==> #[trigger] p@[i] == path_bit(proof_data@, i))),
{
    if proof_data.len() < SIBLINGS_LEN + PATH_LEN {
        return Err(RelayerError::InsufficientPathData);
    }
    let mut path: Vec<bool> = Vec::new();
    let mut i: usize = 0;
    while i < MERKLE_LEVELS
        invariant
            i <= MERKLE_LEVELS,
            proof_data@.len() >= SIBLINGS_LEN + PATH_LEN,
            path@.len() == i,
            forall|k: int| 0 <= k < i ==> #[trigger] path@[k] == path_bit(proof_data@, k),
        decreases MERKLE_LEVELS - i,
    {
        let byte = proof_data[SIBLINGS_LEN + i / 8];
        let shift: u8 = (i % 8) as u8;
        let bit = (byte >> shift) & 1u8;
        path.push(bit == 1u8);
        i = i + 1;
    }
    Ok(path)
}

/// The four little-endian 64-bit limbs of a 32-byte state root.
pub fn bytes_to_field_limbs(bytes: &[u8]) -> (r: Result<[u64; 4], RelayerError>)
    ensures
        bytes@.len() != 32 ==> r == Err::<[u64; 4], RelayerError>(
            RelayerError::InvalidStateRootLength,
        ),
        bytes@.len() == 32 ==> (r matches Ok(l) && (forall|i: int|
            0 <= i < 4 ==> #[trigger] l@[i] == root_limb(bytes@, i))),
{
    if bytes.len() != 32 {
        return Err(RelayerError::InvalidStateRootLength);
    }
    let mut limbs: [u64; 4] = [0u64; 4];
    let mut i: usize = 0;
    while i < 4
        invariant
            i <= 4,
            bytes@.len() == 32,
            forall|k: int| 0 <= k < i ==> #[trigger] limbs@[k] == root_limb(bytes@, k),
        decreases 4 - i,
    {
        let chunk = slice_subrange(bytes, i * 8, i * 8 + 8);
        limbs.set(i, u64_from_le_bytes(chunk));
        i = i + 1;
    }
    Ok(limbs)
}

/// The 32 bytes that a byte string is read from as a field element: its
/// first 32 bytes, padded with zeros.
pub fn field_element_bytes(bytes: &[u8]) -> (r: [u8; 32])
    ensures
        r@ == field_bytes(bytes@),
{
    let mut padded: [u8; 32] = [0u8; 32];
    let len: usize = if bytes.len() < 32 { bytes.len() } else { 32 };
    let mut i: usize = 0;
    while i < len
        invariant
            i <= len,
            len <= 32,
            len == (if bytes@.len() < 32 { bytes@.len() } else { 32 }),
            forall|k: int| 0 <= k < i ==> #[trigger] padded@[k] == bytes@[k],
            forall|k: int| i <= k < 32 ==> #[trigger] padded@[k] == 0u8,
        decreases len - i,
    {
        padded.set(i, bytes[i]);
        i = i + 1;
    }
    assert(padded@ =~= field_bytes(bytes@));
    padded
}

/// An ICS-23 proof as the circuit reads it: the key and value proved, the
/// sibling hash of each level (32 bytes each) and the path bits.
pub struct Ics23ProofData {
    pub key: Vec<u8>,
    pub value: Vec<u8>,
    pub siblings: Vec<Vec<u8>>,
    pub path: Vec<bool>,
}

/// The public inputs of the circuit: the state root in 64-bit limbs, the
/// bytes of the message that its hash is taken of, and the destination
/// chain's identifier as field-element bytes.
pub struct PublicInputs {
    pub state_root: [u64; 4],
    pub message_bytes: Vec<u8>,
    pub chain_id: [u8; 32],
}

/// What reading the proof of `key` holding `value`, with proof data `data`,
/// for the circuit gives.
pub open spec fn circuit_proof_result(
    key: Seq<u8>,
    value: Seq<u8>,
    data: Seq<u8>,
    r: Result<Ics23ProofData, RelayerError>,
) -> bool {
    if data.len() < SIBLINGS_LEN {
        r == Err::<Ics23ProofData, RelayerError>(RelayerError::InsufficientSiblingData)
    } else if data.len() < SIBLINGS_LEN + PATH_LEN {
        r == Err::<Ics23ProofData, RelayerError>(RelayerError::InsufficientPathData)
    } else {
        r matches Ok(d) && {
            &&& d.key@ == key
            &&& d.value@ == value
            &&& d.siblings@.len() == MERKLE_LEVELS
            &&& forall|i: int|
                0 <= i < MERKLE_LEVELS ==> #[trigger] d.siblings@[i]@ == sibling_at(data, i)
            &&& d.path@.len() == MERKLE_LEVELS
            &&& forall|i: int| 0 <= i < MERKLE_LEVELS ==> #[trigger] d.path@[i] == path_bit(data, i)
        }
    }
}

/// What extracting the circuit's public inputs from a message gives: the
/// state root of its checkpoint (zero without one), its encoding, and its
/// destination chain (zero without one).
pub open spec fn public_inputs_result(m: UniversalMessage, r: Result<PublicInputs, RelayerError>) -> bool {
    if m.state_checkpoint is Some && m.state_checkpoint.unwrap().state_root@.len() != 32 {
        r == Err::<PublicInputs, RelayerError>(RelayerError::InvalidStateRootLength)
    } else {
        r matches Ok(p) && {
            &&& forall|i: int|
                0 <= i < 4 ==> #[trigger] p.state_root@[i] == match m.state_checkpoint {
                    Some(c) => root_limb(c.state_root@, i),
                    None => 0u64,
                }
            &&& p.message_bytes@ == m.encoding()
            &&& p.chain_id@ == match m.destination {
                Some(d) => field_bytes(encode_utf8(d.chain_id@)),
                None => Seq::new(32, |i: int| 0u8),
            }
        }
    }
}

/// The proof as the circuit reads it: siblings and path bits taken from
/// the proof data.
pub fn convert_to_circuit_proof(proof: &InclusionProof) -> (r: Result<
    Ics23ProofData,
    RelayerError,
>)
    ensures
        circuit_proof_result(proof.path@, proof.value@, proof.proof_data@, r),
{
    let siblings = match parse_siblings(proof.proof_data.as_slice()) {
        Ok(s) => s,
        Err(e) => {
            return Err(e);
        },
    };
    let path = match parse_path(proof.proof_data.as_slice()) {
        Ok(p) => p,
        Err(e) => {
            return Err(e);
        },
    };
    Ok(
        Ics23ProofData {
            key: copy_bytes(proof.path.as_slice()),
            value: copy_bytes(proof.value.as_slice()),
            siblings,
            path,
        },
    )
}

/// The circuit's public inputs for a message.
pub fn extract_public_inputs(message: &UniversalMessage) -> (r: Result<
    PublicInputs,
    RelayerError,
>)
    ensures
        public_inputs_result(*message, r),
{
    let state_root: [u64; 4] = match &message.state_checkpoint {
        Some(c) => match bytes_to_field_limbs(c.state_root.as_slice()) {
            Ok(l) => l,
            Err(e) => {
                return Err(e);
            },
        },
        None => [0u64; 4],
    };
    let message_bytes = message.encode_to_vec();
    let chain_id: [u8; 32] = match &message.destination {
        Some(d) => field_element_bytes(d.chain_id.as_str().as_bytes()),
        None => [0u8; 32],
    };
    assert(message.destination is None ==> chain_id@ =~= Seq::new(32, |i: int| 0u8));
    Ok(PublicInputs { state_root, message_bytes, chain_id })
}

/// The STARK proof options the prover is configured with.
#[verifier::external_type_specification]
#[verifier::external_body]
pub struct ExProofOptions(ProofOptions);

/// The prover of ICS-23 inclusion for the relay contract's circuit.
pub struct Ics23StarkProver {
    options: ProofOptions,
}

impl Ics23StarkProver {
    /// The options the prover runs with.
    pub closed spec fn options(&self) -> ProofOptions {
        self.options
    }

    pub fn new(options: ProofOptions) -> (p: Self)
        ensures
            p.options() == options,
    {
        Ics23StarkProver { options }
    }

    /// The cost of proving a message; a batch too large for the cost to fit
    /// in 64 bits costs the largest `u64`.
    pub fn estimate_proof_cost(&self, message: &UniversalMessage) -> (r: Result<u64, RelayerError>)
        ensures
            r == Ok::<u64, RelayerError>(
                if proof_cost(*message) <= u64::MAX {
                    proof_cost(*message) as u64
                } else {
                    u64::MAX
                },
            ),
    {
        let cost: u64 = match &message.payload {
            Some(Payload::TokenTransfer(_)) => 10000,
            Some(Payload::ContractCall(_)) => 15000,
            Some(Payload::BatchTransfer(b)) => {
                let n = b.transfers.len();
                if n as u64 > (u64::MAX - 10000) / 1000 {
                    u64::MAX
                } else {
                    10000 + 1000 * (n as u64)
                }
            },
            _ => 12000,
        };
        Ok(cost)
    }

    /// The gas of verifying a proof on chain.
    pub fn estimate_verification_cost(&self) -> (r: u64)
        ensures
            r == 5000,
    {
        5000
    }
}

} // verus!
