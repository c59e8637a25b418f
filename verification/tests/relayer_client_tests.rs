use ethabi::Token;
use relayer::error::RelayerError;
use relayer::evm::EVMAdapter;
use relayer::relayer_client::{RelayerClient, SUBMISSION_GAS_LIMIT, SUBMISSION_TIMEOUT_SECS};
use relayer::uibc::{
    ChainEndpoint, Fee, IbcCompatibilityData, MessageFees, MessageType, Payload, ProofRequirement,
    RelayerAssignment, Requirement, Timeout, TokenTransfer, UniversalMessage, ZkProofRequirement,
};
use sha2::{Digest, Sha256};

const NOW: u64 = 1_700_000_000;

fn client() -> RelayerClient {
    let adapter = EVMAdapter::new("ethereum".to_string(), 1, [0; 20], &vec![], None).unwrap();
    RelayerClient::new(adapter)
}

fn selected() -> RelayerAssignment {
    RelayerAssignment { assigned_relayer: vec![0x11; 20] }
}

fn message() -> UniversalMessage {
    UniversalMessage {
        version: 1,
        message_id: vec![0; 32],
        created_at: 0,
        source: Some(ChainEndpoint { chain_id: "ethereum-1".to_string(), ..Default::default() }),
        destination: Some(ChainEndpoint { chain_id: "cosmoshub-4".to_string(), ..Default::default() }),
        route_hints: vec![],
        message_type: MessageType::MessageTypeTokenTransfer,
        payload: Some(Payload::TokenTransfer(TokenTransfer {
            amount: "1000".to_string(),
            denom: "uatom".to_string(),
            ..Default::default()
        })),
        proof_requirement: Some(ProofRequirement {
            requirement: Some(Requirement::ZkProof(ZkProofRequirement {
                proof: vec![1, 2, 3],
                public_inputs: vec![vec![4, 5, 6]],
                ..Default::default()
            })),
        }),
        ibc_data: Some(IbcCompatibilityData {
            sequence: 1,
            source_channel: "channel-0".to_string(),
            ..Default::default()
        }),
        ..Default::default()
    }
}

/// The fee of `message()`: base 5000, complexity 5050, verification 5000,
/// route 5000 and priority 5000.
fn expected_fee() -> Fee {
    Fee {
        amount: "25050".to_string(),
        denom: "uatom".to_string(),
        chain_id: "cosmoshub-4".to_string(),
        decimals: 6,
    }
}

/// The message as it is serialised into the call: relayer selected, fee set.
fn expected_message_data() -> Vec<u8> {
    let mut m = message();
    m.relayer_assignment = Some(selected());
    m.fees = Some(MessageFees { total_fee: expected_fee() });
    m.encode_to_vec()
}

#[test]
fn test_submit_optimistic_message_uibc() {
    let c = client();
    let s = c
        .prepare_optimistic_submission_at(message(), &selected(), false, Some(7 * 24 * 3600), &vec![], NOW)
        .unwrap();
    let proof_data = ethabi::encode(&[Token::Bytes(vec![1, 2, 3]), Token::Bytes(vec![4, 5, 6])]);
    let expected = ethabi::encode(&[
        Token::Bytes(expected_message_data()),
        Token::Bytes(proof_data),
        Token::Uint((7u64 * 24 * 3600).into()),
    ]);
    assert_eq!(s.call_data, expected);
    assert_eq!(s.contract_address, [0; 20]);
    assert_eq!(s.evm_chain_id, 1);
    assert_eq!(s.gas_limit, SUBMISSION_GAS_LIMIT);
}

#[test]
fn submissions_go_to_the_adapters_contract_and_chain() {
    let adapter = EVMAdapter::new("sepolia".to_string(), 11155111, [0x22; 20], &vec![], None).unwrap();
    let s = RelayerClient::new(adapter)
        .prepare_optimistic_submission_at(message(), &selected(), false, None, &vec![], NOW)
        .unwrap();
    assert_eq!(s.contract_address, [0x22; 20]);
    assert_eq!(s.evm_chain_id, 11155111);
}

#[test]
fn test_submit_optimistic_message_optimistic() {
    let c = client();
    let s = c
        .prepare_optimistic_submission_at(message(), &selected(), true, None, &vec![], NOW)
        .unwrap();
    let timeout = NOW + SUBMISSION_TIMEOUT_SECS;
    let expected = ethabi::encode(&[
        Token::String("channel-0".to_string()),
        Token::Uint(1u64.into()),
        Token::Bytes(expected_message_data()),
        Token::Uint(timeout.into()),
        Token::Bytes(vec![1, 2, 3]),
        Token::Bytes(vec![4, 5, 6]),
    ]);
    assert_eq!(s.call_data, expected);
}

#[test]
fn prepared_message_carries_fee_economics_placeholder_relayer_and_timeout() {
    let s = client()
        .prepare_optimistic_submission_at(message(), &selected(), true, None, &vec![], NOW)
        .unwrap();
    let m = s.message;
    assert_eq!(m.fees, Some(MessageFees { total_fee: expected_fee() }));
    let e = m.economic_parameters.unwrap();
    assert_eq!(e.base_fee, 25050);
    assert_eq!(e.verification_fee, 5000);
    assert_eq!(e.priority, None);
    assert_eq!(m.relayer_assignment, Some(RelayerAssignment { assigned_relayer: vec![0; 20] }));
    assert_eq!(m.timeout, Some(Timeout::TimeoutTimestamp(NOW + 7 * 24 * 3600)));
    assert_eq!(m.payload, message().payload);
}

#[test]
fn optimistic_call_defaults_channel_and_sequence_without_ibc_data() {
    let mut msg = message();
    msg.ibc_data = None;
    let s = client()
        .prepare_optimistic_submission_at(msg.clone(), &selected(), true, None, &vec![], NOW)
        .unwrap();
    let mut priced = msg;
    priced.relayer_assignment = Some(selected());
    priced.fees = Some(MessageFees { total_fee: expected_fee() });
    let expected = ethabi::encode(&[
        Token::String("channel-0".to_string()),
        Token::Uint(1u64.into()),
        Token::Bytes(priced.encode_to_vec()),
        Token::Uint((NOW + SUBMISSION_TIMEOUT_SECS).into()),
        Token::Bytes(vec![1, 2, 3]),
        Token::Bytes(vec![4, 5, 6]),
    ]);
    assert_eq!(s.call_data, expected);
}

#[test]
fn preparation_errors() {
    let c = client();
    let mut timed_out = message();
    timed_out.timeout = Some(Timeout::TimeoutTimestamp(NOW - 1));
    assert_eq!(
        c.prepare_optimistic_submission_at(timed_out, &selected(), true, None, &vec![], NOW),
        Err(RelayerError::MessageTimedOut)
    );
    let mut unknown = message();
    unknown.destination = Some(ChainEndpoint { chain_id: "osmosis-1".to_string(), ..Default::default() });
    assert_eq!(
        c.prepare_optimistic_submission_at(unknown, &selected(), true, None, &vec![], NOW),
        Err(RelayerError::UnknownDestinationChain)
    );
    let mut no_requirement = message();
    no_requirement.proof_requirement = None;
    assert_eq!(
        c.prepare_optimistic_submission_at(no_requirement, &selected(), true, None, &vec![], NOW),
        Err(RelayerError::NoZkProofRequirement)
    );
    let mut no_proof = message();
    no_proof.proof_requirement = Some(ProofRequirement {
        requirement: Some(Requirement::ZkProof(ZkProofRequirement {
            public_inputs: vec![vec![4]],
            ..Default::default()
        })),
    });
    assert_eq!(
        c.prepare_optimistic_submission_at(no_proof, &selected(), true, None, &vec![], NOW),
        Err(RelayerError::NoZkProofData)
    );
    let mut no_inputs = message();
    no_inputs.proof_requirement = Some(ProofRequirement {
        requirement: Some(Requirement::ZkProof(ZkProofRequirement {
            proof: vec![1],
            public_inputs: vec![vec![]],
            ..Default::default()
        })),
    });
    assert_eq!(
        c.prepare_optimistic_submission_at(no_inputs, &selected(), true, None, &vec![], NOW),
        Err(RelayerError::NoPublicInputs)
    );
}

#[test]
fn prepare_against_the_clock() {
    let s = client().prepare_optimistic_submission(message(), &selected(), true, None, &vec![]);
    assert!(s.is_ok());
}

#[test]
fn assign_relayer_writes_lowercase_hex() {
    let c = client();
    let a = RelayerAssignment { assigned_relayer: vec![0xab, 0x01, 0xff] };
    assert_eq!(c.assign_relayer(&a), Ok("ab01ff".to_string()));
}

#[test]
fn message_id_is_the_sha256_of_the_encoding() {
    let c = client();
    let m = message();
    let expected: [u8; 32] = Sha256::digest(m.encode_to_vec()).into();
    assert_eq!(c.generate_message_id(&m), expected);
    assert_eq!(c.serialize_message(&m), Ok(m.encode_to_vec()));
}

#[test]
fn zk_proof_and_inputs_of_a_message() {
    let c = client();
    let mut m = message();
    m.proof_requirement = Some(ProofRequirement {
        requirement: Some(Requirement::ZkProof(ZkProofRequirement {
            proof: vec![9],
            public_inputs: vec![vec![1, 2], vec![], vec![3]],
            ..Default::default()
        })),
    });
    assert_eq!(c.generate_zk_proof(&m), Ok((vec![9], vec![1, 2, 3])));
    assert_eq!(c.generate_zk_public_inputs(&m), Ok(vec![1, 2, 3]));
    m.proof_requirement = None;
    assert_eq!(c.generate_zk_proof(&m), Err(RelayerError::NoZkProofRequirement));
    assert_eq!(c.generate_zk_public_inputs(&m), Err(RelayerError::NoZkProofRequirement));
}

#[test]
fn economic_params_read_the_fee_amount() {
    let c = client();
    let e = c.generate_economic_params(&expected_fee());
    assert_eq!(e.base_fee, 25050);
    assert_eq!(e.verification_fee, 5000);
    let mut bad = expected_fee();
    bad.amount = "lots".to_string();
    assert_eq!(c.generate_economic_params(&bad).base_fee, 0);
    assert_eq!(c.generate_relayer_assignment().assigned_relayer, vec![0u8; 20]);
}

#[test]
fn validation_errors_come_before_the_endpoints() {
    let c = client();
    let mut m = message();
    m.source = None;
    m.destination = None;
    m.message_type = MessageType::MessageTypeUnspecified;
    assert_eq!(
        c.prepare_optimistic_submission_at(m, &selected(), true, None, &vec![], NOW),
        Err(RelayerError::InvalidMessageType)
    );
}
