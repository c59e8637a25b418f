use ethabi::Token;
use ethers_core::utils::keccak256;
use relayer::error::RelayerError;
use relayer::evm::{
    event_signature_bytes, event_signature_table, event_topic, AbiEvent, EVMAdapter, VerificationMode,
    ZkVerifierConfig,
};
use relayer::uibc::{
    Fee, IbcCompatibilityData, Payload, StateCheckpoint, Timeout, TokenTransfer, UniversalMessage,
};
use sha2::{Digest, Sha256};

const CONTRACT: [u8; 20] = [0x42; 20];

fn zk_config(gas: u64) -> ZkVerifierConfig {
    ZkVerifierConfig {
        circuit_id: "ics23".to_string(),
        verification_key: vec![],
        proof_system: "stark".to_string(),
        gas_cost_per_verification: gas,
    }
}

fn plain_adapter(evm_chain_id: u64) -> EVMAdapter {
    EVMAdapter::new("evm".to_string(), evm_chain_id, CONTRACT, &vec![], None).unwrap()
}

fn zk_adapter() -> EVMAdapter {
    EVMAdapter::new("sepolia".to_string(), 11155111, CONTRACT, &vec![], Some(zk_config(3000))).unwrap()
}

fn transfer() -> TokenTransfer {
    TokenTransfer {
        denom: "uatom".to_string(),
        amount: "100".to_string(),
        sender: "a".to_string(),
        receiver: "b".to_string(),
        memo: String::new(),
    }
}

fn message() -> UniversalMessage {
    UniversalMessage {
        version: 1,
        message_id: vec![7; 4],
        created_at: 0x0102,
        payload: Some(Payload::TokenTransfer(transfer())),
        timeout: Some(Timeout::TimeoutTimestamp(500)),
        state_checkpoint: Some(StateCheckpoint { height: 9, state_root: vec![3; 32] }),
        ibc_data: Some(IbcCompatibilityData {
            sequence: 4,
            source_channel: "channel-2".to_string(),
            ..Default::default()
        }),
        ..Default::default()
    }
}

fn selector(signature: &str) -> Vec<u8> {
    keccak256(signature.as_bytes())[..4].to_vec()
}

fn calldata(signature: &str, tokens: &[Token]) -> Vec<u8> {
    let mut v = selector(signature);
    v.extend(ethabi::encode(tokens));
    v
}

fn zk_proof(m: &UniversalMessage) -> Vec<u8> {
    let mut h = Sha256::new();
    h.update(&m.message_id);
    h.update(b"ics23");
    h.update(b"zk_proof_of_ics23_verification");
    h.finalize().to_vec()
}

#[test]
fn modes_follow_the_zk_verifier() {
    let a = plain_adapter(1);
    assert_eq!(a.verification_mode(), VerificationMode::Traditional);
    assert_eq!(a.evm_chain_id(), 1);
    assert_eq!(a.contract_address(), CONTRACT);
    assert_eq!(zk_adapter().verification_mode(), VerificationMode::OptimisticDual);
    let b = zk_adapter().with_verification_mode(VerificationMode::ZkOnly);
    assert_eq!(b.verification_mode(), VerificationMode::ZkOnly);
}

#[test]
fn zk_proof_of_ics23_verification() {
    let m = message();
    assert_eq!(zk_adapter().generate_zk_proof_of_ics23_verification(&m), Ok(zk_proof(&m)));
    assert_eq!(
        plain_adapter(1).generate_zk_proof_of_ics23_verification(&m),
        Err(RelayerError::ZkVerifierNotConfigured)
    );
}

#[test]
fn dual_proof_calldata() {
    let m = message();
    let a = zk_adapter();
    // The challenge period outside the known chains is a day.
    let expected = calldata(
        "receivePacketOptimistic(bytes,bytes,uint256)",
        &[Token::Bytes(m.encode_to_vec()), Token::Bytes(zk_proof(&m)), Token::Uint((1000u64 + 86400).into())],
    );
    assert_eq!(a.encode_optimistic_dual_proof_message(&m, &transfer(), 1000), Ok(expected.clone()));
    assert_eq!(a.encode_message_for_optimistic_contract(&m, 1000), Ok(expected));
}

#[test]
fn zk_only_calldata() {
    let m = message();
    let a = zk_adapter().with_verification_mode(VerificationMode::ZkOnly);
    let expected = calldata(
        "receivePacketZK(bytes,bytes)",
        &[Token::Bytes(m.encode_to_vec()), Token::Bytes(zk_proof(&m))],
    );
    assert_eq!(a.encode_message_for_optimistic_contract(&m, 0), Ok(expected));
    assert_eq!(
        plain_adapter(1).encode_zk_only_message(&m, &transfer()),
        Err(RelayerError::ZkVerifierNotConfigured)
    );
}

#[test]
fn optimistic_calldata_carries_the_claim() {
    let m = message();
    // Polygon's challenge period is two hours.
    let a = plain_adapter(137).with_verification_mode(VerificationMode::Optimistic);
    let claim: [u8; 32] = Sha256::digest([vec![7u8; 4], vec![3u8; 32]].concat()).into();
    assert_eq!(a.generate_claim_hash(&m), Ok(claim));
    let expected = calldata(
        "receivePacketOptimistic(bytes,bytes32,uint256)",
        &[Token::Bytes(m.encode_to_vec()), Token::FixedBytes(claim.to_vec()), Token::Uint((10u64 + 7200).into())],
    );
    assert_eq!(a.encode_message_for_optimistic_contract(&m, 10), Ok(expected));
}

#[test]
fn traditional_calldata_carries_full_proofs() {
    let m = message();
    let a = plain_adapter(1);
    let mut inputs = vec![3u8; 32];
    inputs.extend(0x0102u64.to_le_bytes());
    assert_eq!(a.generate_zkp_public_inputs(&m), Ok(inputs.clone()));
    assert_eq!(a.generate_full_tendermint_proof(&m), Ok(vec![0u8; 512]));
    assert_eq!(a.generate_full_ics23_proof(&m), Ok(vec![0u8; 1024]));
    let expected = calldata(
        "receivePacket(string,uint64,bytes,uint64,uint64,bytes,bytes,bytes,uint64,bytes32)",
        &[
            Token::String("channel-2".to_string()),
            Token::Uint(4u64.into()),
            Token::Bytes(
                br#"{"denom":"uatom","amount":"100","sender":"a","receiver":"b","memo":"","metadata":null}"#.to_vec(),
            ),
            Token::Uint(500u64.into()),
            Token::Uint(0u64.into()),
            Token::Bytes(vec![0u8; 512]),
            Token::Bytes(inputs),
            Token::Bytes(vec![0u8; 1024]),
            Token::Uint(9u64.into()),
            Token::FixedBytes(vec![3u8; 32]),
        ],
    );
    assert_eq!(a.encode_message_for_optimistic_contract(&m, 0), Ok(expected));
}

#[test]
fn only_transfers_with_ibc_data_are_encoded() {
    let a = zk_adapter();
    let mut no_ibc = message();
    no_ibc.ibc_data = None;
    assert_eq!(a.encode_message_for_optimistic_contract(&no_ibc, 0), Err(RelayerError::NoIbcData));
    let mut no_payload = message();
    no_payload.payload = None;
    assert_eq!(
        a.encode_message_for_optimistic_contract(&no_payload, 0),
        Err(RelayerError::UnsupportedMessageType)
    );
    assert!(a.encode_message_for_contract(&message()).is_ok());
}

fn fee(amount: &str) -> Fee {
    Fee { amount: amount.to_string(), denom: "gwei".to_string(), chain_id: "ethereum-1".to_string(), decimals: 9 }
}

#[test]
fn verification_fee_by_mode() {
    let traditional = plain_adapter(1).estimate_verification_fee(&fee("50000")).unwrap();
    assert_eq!(traditional.amount, "550000");
    assert_eq!(traditional.denom, "gas");
    assert_eq!(traditional.chain_id, "evm");
    assert_eq!(traditional.decimals, 0);
    assert_eq!(zk_adapter().estimate_verification_fee(&fee("50000")).unwrap().amount, "53000");
    let optimistic = plain_adapter(1).with_verification_mode(VerificationMode::Optimistic);
    assert_eq!(optimistic.estimate_verification_fee(&fee("1")).unwrap().amount, "10001");
    assert_eq!(zk_adapter().estimate_verification_fee(&fee("x")), Err(RelayerError::InvalidFeeAmount));
}

#[test]
fn cost_savings_of_the_dual_mode() {
    let s = zk_adapter().calculate_cost_savings(&fee("50000")).unwrap();
    assert_eq!(s.traditional_gas_cost, 550000);
    assert_eq!(s.optimistic_dual_gas_cost, 53000);
    // 497000 / 550000 = 90.36%; 550000 / 53000 = 10.377x.
    assert_eq!(s.savings_bps, 9036);
    assert_eq!(s.savings_factor_bps, 103773);
    let none = plain_adapter(1).calculate_cost_savings(&fee("0")).unwrap();
    assert_eq!((none.savings_bps, none.savings_factor_bps), (0, 10000));
    assert_eq!(zk_adapter().calculate_cost_savings(&fee("")), Err(RelayerError::InvalidFeeAmount));
}

#[test]
fn to_bytes_is_the_wire_encoding() {
    let m = message();
    assert_eq!(zk_adapter().to_bytes(&m), Ok(m.encode_to_vec()));
}

#[test]
fn the_checkpoint_is_needed_only_where_it_is_read() {
    let a = plain_adapter(1);
    let mut m = message();
    m.state_checkpoint = None;
    m.ibc_data = None;
    assert_eq!(a.encode_message_for_optimistic_contract(&m, 0), Err(RelayerError::NoIbcData));
}

#[test]
fn transfer_records_escape_strings_as_serde_json_does() {
    let t = TokenTransfer {
        denom: "a\"b\\c".to_string(),
        amount: "1\n2\t3\u{1}\u{7f}".to_string(),
        sender: "é/ü".to_string(),
        receiver: "\r\u{8}\u{c}".to_string(),
        memo: String::new(),
    };
    let mut expected = String::from("{");
    for (k, v) in [("denom", &t.denom), ("amount", &t.amount), ("sender", &t.sender), ("receiver", &t.receiver), ("memo", &t.memo)] {
        expected.push_str(&serde_json::to_string(k).unwrap());
        expected.push(':');
        expected.push_str(&serde_json::to_string(v).unwrap());
        expected.push(',');
    }
    expected.push_str("\"metadata\":null}");
    assert_eq!(relayer::json_text::transfer_to_json(&t), expected.into_bytes());
}

fn transfer_event() -> AbiEvent {
    AbiEvent {
        name: "Transfer".to_string(),
        param_types: vec!["address".to_string(), "address".to_string(), "uint256".to_string()],
    }
}

#[test]
fn event_signatures_are_written_canonically() {
    assert_eq!(event_signature_bytes(&transfer_event()), b"Transfer(address,address,uint256)".to_vec());
    let empty = AbiEvent { name: "Paused".to_string(), param_types: vec![] };
    assert_eq!(event_signature_bytes(&empty), b"Paused()".to_vec());
}

#[test]
fn event_topics_are_keccak_digests_of_the_signature() {
    let topic = event_topic(&transfer_event());
    assert_eq!(
        topic.to_vec(),
        hex::decode("ddf252ad1be2c89b69c2b068fc378daa952ba7f163c4a11628f55a4df523b3ef").unwrap()
    );
    let events = vec![transfer_event(), AbiEvent { name: "Paused".to_string(), param_types: vec![] }];
    let table = event_signature_table(&events);
    assert_eq!(table.len(), 2);
    assert_eq!(table[0], (topic, "Transfer".to_string()));
    assert_eq!(table[1], (keccak256(b"Paused()"), "Paused".to_string()));
    assert!(EVMAdapter::new("evm".to_string(), 1, CONTRACT, &events, None).is_ok());
}
