use relayer::chain_adapter::{ChainId, InclusionProof};
use relayer::circuit::{
    bytes_to_field_limbs, convert_to_circuit_proof, extract_public_inputs, field_element_bytes,
    parse_path, parse_siblings, Ics23StarkProver, MERKLE_LEVELS, POSEIDON_STEPS, TOTAL_STEPS,
    TRACE_WIDTH,
};
use relayer::error::RelayerError;
use relayer::processing::process_message;
use relayer::uibc::{
    BatchTransfer, ChainEndpoint, ContractCall, Ics23Proof, MessageType, Payload,
    ProofRequirement, Requirement, StateCheckpoint, TokenTransfer, UniversalMessage,
    ZkProofRequirement,
};
use winterfell::{BatchingMethod, FieldExtension, ProofOptions};

fn proof_data() -> Vec<u8> {
    let mut data = Vec::new();
    for level in 0..MERKLE_LEVELS {
        data.extend(vec![level as u8; 32]);
    }
    // path bits: levels 0 and 9 set, and level 31.
    data.extend([0b0000_0001, 0b0000_0010, 0, 0b1000_0000]);
    data
}

#[test]
fn circuit_layout() {
    assert_eq!(TRACE_WIDTH, 100);
    assert_eq!(POSEIDON_STEPS, 64);
    assert_eq!(TOTAL_STEPS, 64 * 33 + 1);
}

#[test]
fn siblings_are_the_leading_32_byte_chunks() {
    let s = parse_siblings(&proof_data()).unwrap();
    assert_eq!(s.len(), 32);
    assert_eq!(s[0], vec![0u8; 32]);
    assert_eq!(s[31], vec![31u8; 32]);
    assert_eq!(parse_siblings(&[0u8; 1023]), Err(RelayerError::InsufficientSiblingData));
}

#[test]
fn path_bits_follow_the_siblings_least_significant_first() {
    let p = parse_path(&proof_data()).unwrap();
    assert_eq!(p.len(), 32);
    let set: Vec<usize> = (0..32).filter(|i| p[*i]).collect();
    assert_eq!(set, vec![0, 9, 31]);
    assert_eq!(parse_path(&[0u8; 1027]), Err(RelayerError::InsufficientPathData));
}

#[test]
fn state_root_limbs_are_little_endian() {
    let mut root = vec![0u8; 32];
    root[0] = 1;
    root[9] = 2;
    root[31] = 0x80;
    assert_eq!(bytes_to_field_limbs(&root), Ok([1, 0x200, 0, 0x8000_0000_0000_0000]));
    assert_eq!(bytes_to_field_limbs(&[0u8; 31]), Err(RelayerError::InvalidStateRootLength));
}

#[test]
fn field_element_bytes_pad_or_cut_to_32() {
    let mut expected = [0u8; 32];
    expected[..2].copy_from_slice(b"hi");
    assert_eq!(field_element_bytes(b"hi"), expected);
    assert_eq!(field_element_bytes(&[5u8; 40]), [5u8; 32]);
}

#[test]
fn inclusion_proof_read_for_the_circuit() {
    let proof = InclusionProof { proof_data: proof_data(), path: vec![1], value: vec![2], proof_type: "ics23".to_string() };
    let d = convert_to_circuit_proof(&proof).unwrap();
    assert_eq!(d.key, vec![1]);
    assert_eq!(d.value, vec![2]);
    assert_eq!(d.siblings.len(), 32);
    assert!(d.path[9] && !d.path[8]);
}

fn zk_message() -> UniversalMessage {
    UniversalMessage {
        version: 1,
        message_id: vec![0u8; 32],
        destination: Some(ChainEndpoint { chain_id: "chain-2".to_string(), ..Default::default() }),
        message_type: MessageType::MessageTypeTokenTransfer,
        payload: Some(Payload::TokenTransfer(TokenTransfer::default())),
        proof_requirement: Some(ProofRequirement {
            requirement: Some(Requirement::ZkProof(ZkProofRequirement {
                circuit_id: "ics23".to_string(),
                public_inputs: vec![vec![1, 2, 3]],
                proof_system: "stark".to_string(),
                verification_gas_limit: 200000,
                proof: vec![],
            })),
        }),
        ..Default::default()
    }
}

#[test]
fn public_inputs_of_a_message() {
    let mut m = zk_message();
    m.state_checkpoint = Some(StateCheckpoint { height: 1, state_root: vec![1; 32] });
    let p = extract_public_inputs(&m).unwrap();
    assert_eq!(p.state_root, [0x0101_0101_0101_0101; 4]);
    assert_eq!(p.message_bytes, m.encode_to_vec());
    let mut chain = [0u8; 32];
    chain[..7].copy_from_slice(b"chain-2");
    assert_eq!(p.chain_id, chain);
    m.state_checkpoint = Some(StateCheckpoint { height: 1, state_root: vec![1; 3] });
    assert!(matches!(extract_public_inputs(&m), Err(RelayerError::InvalidStateRootLength)));
    m.state_checkpoint = None;
    m.destination = None;
    let q = extract_public_inputs(&m).unwrap();
    assert_eq!((q.state_root, q.chain_id), ([0; 4], [0; 32]));
}

fn ics23_proof(data: Vec<u8>) -> Ics23Proof {
    Ics23Proof { key: vec![9], value: vec![1, 2, 3], siblings: vec![], path: vec![], proof_data: data }
}

#[test]
fn process_message_reads_a_checked_message() {
    let (d, p) = process_message(&zk_message(), ics23_proof(proof_data())).unwrap();
    assert_eq!(d.key, vec![9]);
    assert_eq!(d.value, vec![1, 2, 3]);
    assert_eq!(d.path.len(), 32);
    assert_eq!(p.message_bytes, zk_message().encode_to_vec());
}

#[test]
fn process_message_checks() {
    let mut invalid = zk_message();
    invalid.message_type = MessageType::MessageTypeUnspecified;
    assert!(matches!(process_message(&invalid, ics23_proof(proof_data())), Err(RelayerError::MessageValidationFailed)));
    let mut no_id = zk_message();
    no_id.message_id = vec![];
    assert!(matches!(process_message(&no_id, ics23_proof(proof_data())), Err(RelayerError::MissingMessageId)));
    assert!(matches!(process_message(&zk_message(), ics23_proof(vec![0; 4])), Err(RelayerError::InvalidProofLength)));
    // Up to 31 spare bytes still count as 32 levels.
    let mut longer = proof_data();
    longer.extend([0u8; 31]);
    assert!(process_message(&zk_message(), ics23_proof(longer.clone())).is_ok());
    longer.push(0);
    assert!(matches!(process_message(&zk_message(), ics23_proof(longer)), Err(RelayerError::InvalidProofLength)));
    let mut no_zk = zk_message();
    no_zk.proof_requirement = None;
    assert!(matches!(process_message(&no_zk, ics23_proof(proof_data())), Err(RelayerError::UnsupportedZkPayload)));
}

fn prover() -> Ics23StarkProver {
    Ics23StarkProver::new(ProofOptions::new(
        4,
        16,
        16,
        FieldExtension::Quadratic,
        8,
        255,
        BatchingMethod::Linear,
        BatchingMethod::Linear,
    ))
}

#[test]
fn proof_cost_by_payload() {
    let p = prover();
    let with = |payload: Option<Payload>| UniversalMessage { payload, ..Default::default() };
    assert_eq!(p.estimate_proof_cost(&with(Some(Payload::TokenTransfer(TokenTransfer::default())))), Ok(10000));
    assert_eq!(p.estimate_proof_cost(&with(Some(Payload::ContractCall(ContractCall::default())))), Ok(15000));
    let batch = BatchTransfer { transfers: vec![TokenTransfer::default(); 3] };
    assert_eq!(p.estimate_proof_cost(&with(Some(Payload::BatchTransfer(batch)))), Ok(13000));
    assert_eq!(p.estimate_proof_cost(&with(None)), Ok(12000));
    assert_eq!(p.estimate_verification_cost(), 5000);
}

#[test]
fn chain_ids_keep_their_text() {
    let c = ChainId::new("cosmoshub-4".to_string());
    assert_eq!(c.as_str(), "cosmoshub-4");
    let d: ChainId = "osmosis-1".to_string().into();
    assert_eq!(d.as_str(), "osmosis-1");
}

#[test]
fn message_checks_come_before_the_proof_length() {
    let mut invalid = zk_message();
    invalid.message_type = MessageType::MessageTypeUnspecified;
    assert!(matches!(process_message(&invalid, ics23_proof(vec![])), Err(RelayerError::MessageValidationFailed)));
    let mut no_id = zk_message();
    no_id.message_id = vec![];
    assert!(matches!(process_message(&no_id, ics23_proof(vec![1])), Err(RelayerError::MissingMessageId)));
}

#[test]
fn proof_data_shorter_than_the_path_bits_is_refused() {
    for len in 0..4 {
        assert!(matches!(process_message(&zk_message(), ics23_proof(vec![0; len])), Err(RelayerError::InvalidProofLength)));
    }
}
