use relayer::chain_adapter::{
    AdapterConfig, Block, Event, EventAttribute, GasConfig, Header, IbcPacket, InclusionProof,
    RetryConfig, StateRoot, SyncStatus, Transaction, Validator, ValidatorSet,
};
use relayer::cosmos::{block_from_rpc_response, CosmosWsClient, IBCAdapter};
use relayer::error::RelayerError;
use relayer::uibc::{
    BatchTransfer, ChainEndpoint, ChainType, ContractCall, Fee, Height, IbcCompatibilityData, MessageType,
    Payload, Requirement, Timeout, TokenTransfer, UniversalMessage,
};
use sha2::{Digest, Sha256};

fn fee(amount: &str) -> Fee {
    Fee { amount: amount.to_string(), denom: "uatom".to_string(), chain_id: String::new(), decimals: 6 }
}

fn adapter() -> IBCAdapter {
    let config = AdapterConfig {
        rpc_endpoints: vec!["http://localhost:26657".to_string()],
        ws_endpoints: vec![],
        contract_addresses: vec![],
        private_key: None,
        gas_config: GasConfig { max_gas_price: fee("1"), gas_multiplier_bps: 12000, priority_fee: fee("0") },
        retry_config: RetryConfig { max_retries: 3, initial_delay_ms: 100, max_delay_ms: 1000, backoff_factor_bps: 20000 },
    };
    IBCAdapter::new(
        "cosmoshub-4".to_string(),
        "connection-0".to_string(),
        "channel-0".to_string(),
        "transfer".to_string(),
        config,
    )
    .unwrap()
}

fn attr(key: &str, value: &str) -> EventAttribute {
    EventAttribute { key: key.to_string(), value: value.to_string() }
}

fn ics20_json() -> Vec<u8> {
    br#"{"denom":"uatom","amount":"100","sender":"cosmos1a","receiver":"cosmos1b"}"#.to_vec()
}

fn send_packet_event(data_hex: &str, timeout_height: &str, timeout_timestamp: &str) -> Event {
    Event {
        event_type: "send_packet".to_string(),
        attributes: vec![
            attr("packet_sequence", "7"),
            attr("packet_src_port", "transfer"),
            attr("packet_src_channel", "channel-0"),
            attr("packet_dst_port", "transfer"),
            attr("packet_dst_channel", "channel-1"),
            attr("packet_data", data_hex),
            attr("packet_timeout_height", timeout_height),
            attr("packet_timeout_timestamp", timeout_timestamp),
        ],
    }
}

#[test]
fn send_packet_event_is_read_into_a_packet() {
    let a = adapter();
    let e = send_packet_event(&hex::encode(ics20_json()), "1-1000", "0");
    let p = a.parse_send_packet_event(&e).unwrap();
    assert_eq!(p.sequence, 7);
    assert_eq!(p.source_port, "transfer");
    assert_eq!(p.source_channel, "channel-0");
    assert_eq!(p.destination_port, "transfer");
    assert_eq!(p.destination_channel, "channel-1");
    assert_eq!(p.data, ics20_json());
    assert_eq!(p.timeout_height_on_b, Height { revision_number: 1, revision_height: 1000 });
    assert_eq!(p.timeout_timestamp_on_b, 0);
}

#[test]
fn packet_data_that_is_not_hex_is_taken_as_text() {
    let a = adapter();
    let e = Event {
        event_type: "send_packet".to_string(),
        attributes: vec![attr("packet_data", "zz"), attr("packet_timeout_height", "5"), attr("packet_sequence", "x")],
    };
    let p = a.parse_send_packet_event(&e).unwrap();
    assert_eq!(p.data, b"zz".to_vec());
    assert_eq!(p.timeout_height_on_b, Height { revision_number: 0, revision_height: 0 });
    assert_eq!(p.sequence, 0);
}

#[test]
fn only_send_packet_events_give_packets() {
    let a = adapter();
    let tx = Transaction {
        events: vec![
            Event { event_type: "message".to_string(), attributes: vec![attr("packet_sequence", "1")] },
            send_packet_event("00", "0-0", "9"),
        ],
        ..Default::default()
    };
    let packets = a.parse_ibc_packets_from_tx(&tx);
    assert_eq!(packets.len(), 1);
    assert_eq!(packets[0].data, vec![0u8]);
    assert_eq!(packets[0].timeout_timestamp_on_b, 9);
}

fn transfer_packet() -> IbcPacket {
    IbcPacket {
        sequence: 7,
        source_port: "transfer".to_string(),
        source_channel: "channel-0".to_string(),
        destination_port: "transfer".to_string(),
        destination_channel: "channel-1".to_string(),
        data: ics20_json(),
        timeout_height_on_b: Height { revision_number: 1, revision_height: 1000 },
        timeout_timestamp_on_b: 0,
    }
}

#[test]
fn message_id_of_a_packet() {
    let a = adapter();
    let p = transfer_packet();
    let mut h = Sha256::new();
    h.update(b"transfer");
    h.update(b"channel-0");
    h.update(7u64.to_le_bytes());
    h.update(&p.data);
    let expected: [u8; 32] = h.finalize().into();
    assert_eq!(a.generate_message_id(&p), Ok(expected));
}

#[test]
fn transfer_packet_becomes_a_token_transfer() {
    let a = adapter();
    let m = a.ibc_packet_to_universal_message(&transfer_packet(), 1234).unwrap();
    assert_eq!(m.version, 1);
    assert_eq!(m.created_at, 1234);
    assert_eq!(m.message_type, MessageType::MessageTypeTokenTransfer);
    let t = match m.payload.clone() {
        Some(Payload::TokenTransfer(t)) => t,
        other => panic!("unexpected payload {:?}", other),
    };
    assert_eq!(t.denom, "uatom");
    assert_eq!(t.amount, "100");
    assert_eq!(t.sender, "cosmos1a");
    assert_eq!(t.receiver, "cosmos1b");
    assert_eq!(t.memo, "");
    let d = m.destination.clone().unwrap();
    assert_eq!(d.chain_id, "cosmoshub-4");
    assert_eq!(d.chain_type, ChainType::ChainTypeTendermint);
    assert_eq!(d.connection_id, "connection-0");
    assert_eq!(m.timeout, Some(Timeout::TimeoutHeight(Height { revision_number: 1, revision_height: 1000 })));
    assert_eq!(m.message_id, a.generate_message_id(&transfer_packet()).unwrap().to_vec());
}

#[test]
fn transfer_packet_roundtrip_keeps_coordinates_and_timeout() {
    let a = adapter();
    let p = transfer_packet();
    let m = a.ibc_packet_to_universal_message(&p, 0).unwrap();
    let q = a.universal_message_to_ibc_packet(&m).unwrap();
    assert_eq!(q.sequence, p.sequence);
    assert_eq!(q.source_port, p.source_port);
    assert_eq!(q.source_channel, p.source_channel);
    assert_eq!(q.destination_port, p.destination_port);
    assert_eq!(q.destination_channel, p.destination_channel);
    assert_eq!(q.timeout_height_on_b, p.timeout_height_on_b);
    assert_eq!(q.timeout_timestamp_on_b, 0);
    let mut map = serde_json::Map::new();
    for (k, v) in [("denom", "uatom"), ("amount", "100"), ("sender", "cosmos1a"), ("receiver", "cosmos1b"), ("memo", "")] {
        map.insert(k.to_string(), serde_json::Value::String(v.to_string()));
    }
    assert_eq!(q.data, serde_json::to_vec(&map).unwrap());
}

#[test]
fn timestamp_timeout_wins_over_height() {
    let a = adapter();
    let mut p = transfer_packet();
    p.timeout_timestamp_on_b = 5_000;
    let m = a.ibc_packet_to_universal_message(&p, 0).unwrap();
    assert_eq!(m.timeout, Some(Timeout::TimeoutTimestamp(5_000)));
    let q = a.universal_message_to_ibc_packet(&m).unwrap();
    assert_eq!(q.timeout_timestamp_on_b, 5_000);
    assert_eq!(q.timeout_height_on_b, Height { revision_number: 0, revision_height: 0 });
}

#[test]
fn other_ports_give_contract_calls_that_do_not_go_back() {
    let a = adapter();
    let mut p = transfer_packet();
    p.source_port = "wasm.contract".to_string();
    p.data = b"not json".to_vec();
    let m = a.ibc_packet_to_universal_message(&p, 0).unwrap();
    assert_eq!(m.message_type, MessageType::MessageTypeContractCall);
    assert_eq!(m.payload, None);
    assert_eq!(a.universal_message_to_ibc_packet(&m), Err(RelayerError::UnsupportedMessageType));
}

#[test]
fn transfer_packet_with_bad_json_is_refused() {
    let a = adapter();
    let mut p = transfer_packet();
    p.data = b"{not json".to_vec();
    assert_eq!(a.ibc_packet_to_universal_message(&p, 0), Err(RelayerError::InvalidPacketData));
}

#[test]
fn contract_call_message_carries_its_call_data() {
    let a = adapter();
    let m = UniversalMessage {
        payload: Some(Payload::ContractCall(ContractCall { contract_address: String::new(), call_data: vec![1, 2] })),
        ibc_data: Some(IbcCompatibilityData {
            sequence: 3,
            source_port: "wasm".to_string(),
            timeout: Some(Timeout::TimeoutTimestamp(77)),
            ..Default::default()
        }),
        ..Default::default()
    };
    let q = a.universal_message_to_ibc_packet(&m).unwrap();
    assert_eq!(q.data, vec![1, 2]);
    assert_eq!(q.sequence, 3);
    assert_eq!(q.timeout_timestamp_on_b, 77);
    assert_eq!(a.universal_message_to_ibc_packet(&UniversalMessage::default()), Err(RelayerError::NoIbcData));
}

#[test]
fn commitments_of_a_message() {
    let a = adapter();
    let m = UniversalMessage {
        payload: Some(Payload::ContractCall(ContractCall { contract_address: String::new(), call_data: vec![9] })),
        ibc_data: Some(IbcCompatibilityData {
            sequence: 12,
            source_port: "transfer".to_string(),
            source_channel: "channel-5".to_string(),
            timeout: Some(Timeout::TimeoutHeight(Height { revision_number: 2, revision_height: 3 })),
            ..Default::default()
        }),
        ..Default::default()
    };
    assert_eq!(
        a.generate_commitment_path(&m).unwrap(),
        b"commitments/ports/transfer/channels/channel-5/sequences/12".to_vec()
    );
    let mut h = Sha256::new();
    h.update([9u8]);
    h.update(0u64.to_le_bytes());
    h.update(2u64.to_le_bytes());
    h.update(3u64.to_le_bytes());
    assert_eq!(a.generate_commitment_value(&m).unwrap(), h.finalize().to_vec());
    let proof = a.create_inclusion_proof(&Block::default(), &m).unwrap();
    assert_eq!(proof.path, a.generate_commitment_path(&m).unwrap());
    assert_eq!(proof.proof_type, "ics23");
    assert!(proof.proof_data.is_empty());
    let exclusion = a.create_exclusion_proof(&Block::default(), b"key").unwrap();
    assert_eq!(exclusion.path, b"key".to_vec());
    assert_eq!(exclusion.proof_type, "ics23_non_membership");
}

#[test]
fn ics23_roots_and_verification() {
    let a = adapter();
    let root: [u8; 32] = Sha256::digest(b"keyvalueproof").into();
    assert_eq!(a.calculate_root_from_proof(b"key", b"value", b"proof"), Ok(root));
    let proof = InclusionProof { proof_data: b"proof".to_vec(), ..Default::default() };
    let state = StateRoot { hash: root, height: 1, timestamp: 0 };
    assert_eq!(a.verify_ics23_proof(&proof, &state, b"key", b"value"), Ok(true));
    assert_eq!(a.verify_inclusion_proof(&proof, &state, b"key", b"other"), Ok(false));
    let absent: [u8; 32] = Sha256::digest(b"keyproof").into();
    assert_eq!(a.calculate_root_from_non_membership_proof(b"key", b"proof"), Ok(absent));
    let absent_state = StateRoot { hash: absent, height: 1, timestamp: 0 };
    assert_eq!(a.verify_ics23_non_membership(&proof, &absent_state, b"key"), Ok(true));
    assert_eq!(a.verify_exclusion_proof(&proof, &state, b"key"), Ok(false));
}

fn validator_set(powers: &[u64]) -> ValidatorSet {
    ValidatorSet {
        validators: powers
            .iter()
            .enumerate()
            .map(|(i, p)| Validator { address: vec![i as u8; 2], public_key: vec![], voting_power: *p })
            .collect(),
        total_voting_power: powers.iter().sum(),
    }
}

#[test]
fn headers_need_voting_power() {
    let a = adapter();
    let header = Header { height: 42, ..Default::default() };
    assert_eq!(a.verify_tendermint_header(&header, &validator_set(&[])), Ok(false));
    assert_eq!(a.verify_header(&header, &validator_set(&[1, 2])), Ok(true));
    assert_eq!(a.verify_header_chain_step(&header, &validator_set(&[])), Err(RelayerError::InvalidHeader(42)));
}

#[test]
fn validator_set_hash_and_set_changes() {
    let a = adapter();
    let vs = validator_set(&[5, 6]);
    let mut h = Sha256::new();
    h.update([0u8, 0]);
    h.update(5u64.to_le_bytes());
    h.update([1u8, 1]);
    h.update(6u64.to_le_bytes());
    let expected: [u8; 32] = h.finalize().into();
    assert_eq!(a.hash_validator_set(&vs), expected);
    let same = Header { height: 1, validator_set_hash: Some(expected), ..Default::default() };
    assert_eq!(a.verify_header_chain_step(&same, &vs), Ok(false));
    let changed = Header { height: 1, validator_set_hash: Some([7; 32]), ..Default::default() };
    assert_eq!(a.verify_header_chain_step(&changed, &vs), Ok(true));
    let unnamed = Header { height: 1, ..Default::default() };
    assert_eq!(a.verify_header_chain_step(&unnamed, &vs), Ok(false));
}

#[test]
fn block_header_fields() {
    let a = adapter();
    let block = Block {
        height: 9,
        hash: [1; 32],
        timestamp: 99,
        state_root: StateRoot { hash: [2; 32], height: 9, timestamp: 99 },
        ..Default::default()
    };
    let h = a.block_to_header(&block);
    assert_eq!(h.height, 9);
    assert_eq!(h.hash, [1; 32]);
    assert_eq!(h.parent_hash, [0; 32]);
    assert_eq!(h.state_root, [2; 32]);
    assert_eq!(h.validator_set_hash, None);
}

#[test]
fn static_fees_by_payload() {
    let a = adapter();
    let with = |p: Option<Payload>| UniversalMessage { payload: p, ..Default::default() };
    let transfer = a.estimate_fee(&with(Some(Payload::TokenTransfer(TokenTransfer::default())))).unwrap();
    assert_eq!(transfer.amount, "1000");
    assert_eq!(transfer.denom, "uatom");
    assert_eq!(transfer.chain_id, "cosmoshub-4");
    assert_eq!(transfer.decimals, 6);
    let call = with(Some(Payload::ContractCall(ContractCall { contract_address: String::new(), call_data: vec![0; 10] })));
    assert_eq!(a.estimate_fee(&call).unwrap().amount, "1510");
    let batch = with(Some(Payload::BatchTransfer(BatchTransfer { transfers: vec![TokenTransfer::default(); 3] })));
    assert_eq!(a.estimate_fee(&batch).unwrap().amount, "1300");
    assert_eq!(a.estimate_fee(&with(None)).unwrap().amount, "1200");
}

#[test]
fn dynamic_fee_scales_by_congestion_then_priority() {
    let a = adapter();
    let m = UniversalMessage { payload: Some(Payload::TokenTransfer(TokenTransfer::default())), ..Default::default() };
    let mut conditions = a.get_network_conditions(6, 0).unwrap();
    conditions.congestion_multiplier_bps = 15000;
    assert_eq!(a.estimate_dynamic_fee(&m, 2, &conditions).unwrap().amount, "2250");
    assert_eq!(a.estimate_dynamic_fee(&m, 0, &conditions).unwrap().amount, "1200");
    assert_eq!(a.estimate_dynamic_fee(&m, 9, &conditions).unwrap().amount, "3000");
}

#[test]
fn timeouts_and_proof_requirements() {
    let a = adapter();
    assert_eq!(a.minimum_timeout(), 600);
    let mut conditions = a.get_network_conditions(6, 0).unwrap();
    conditions.congestion_multiplier_bps = 10000;
    assert_eq!(a.calculate_optimal_timeout(&conditions), Ok(900));
    conditions.congestion_multiplier_bps = 25000;
    assert_eq!(a.calculate_optimal_timeout(&conditions), Ok(1350));
    match a.get_proof_requirement("contract_call").requirement {
        Some(Requirement::LightClient(l)) => {
            assert_eq!(l.min_confirmations, 3);
            assert_eq!(l.max_age_seconds, 180);
            assert_eq!(l.client_type, "07-tendermint");
        }
        other => panic!("unexpected requirement {:?}", other),
    }
    match a.get_proof_requirement("state_query").requirement {
        Some(Requirement::LightClient(l)) => assert_eq!((l.min_confirmations, l.max_age_seconds), (1, 600)),
        other => panic!("unexpected requirement {:?}", other),
    }
}

#[test]
fn network_conditions_from_the_latest_block() {
    let a = adapter();
    assert_eq!(a.calculate_congestion_multiplier(0), Ok(8000));
    assert_eq!(a.calculate_congestion_multiplier(100), Ok(19000));
    assert_eq!(a.calculate_congestion_multiplier(200), Ok(30000));
    assert_eq!(a.calculate_congestion_multiplier(5000), Ok(30000));
    assert_eq!(a.block_time_window_start(1000), 900);
    assert_eq!(a.block_time_window_start(40), 0);
    assert_eq!(a.calculate_average_block_time(1000, 1600, 900, 1000), Ok(6));
    assert_eq!(a.calculate_average_block_time(5, 50, 5, 50), Ok(7));
    let c = a.get_network_conditions(6, 10).unwrap();
    assert_eq!(c.congestion_multiplier_bps, 9100);
    assert_eq!(c.average_block_time_secs, 6);
    assert_eq!(c.gas_price.amount, "0.025");
    assert_eq!(c.finality_time_secs, 7);
}

#[test]
fn health_follows_the_distance_to_the_network() {
    let a = adapter();
    let synced = a.health_check(100, 100, 8, 55).unwrap();
    assert!(synced.is_healthy);
    assert_eq!(synced.sync_status, SyncStatus::Synced);
    assert_eq!(synced.last_checked, 55);
    let syncing = a.health_check(95, 100, 8, 55).unwrap();
    assert_eq!((syncing.is_healthy, syncing.blocks_behind, syncing.sync_status), (false, 5, SyncStatus::Syncing));
    let stalled = a.health_check(50, 100, 0, 55).unwrap();
    assert_eq!(stalled.sync_status, SyncStatus::Stalled);
    let ahead = a.health_check(120, 100, 1, 55).unwrap();
    assert_eq!((ahead.blocks_behind, ahead.is_healthy), (0, true));
}

#[test]
fn messages_of_a_block() {
    let a = adapter();
    let mut bad = send_packet_event("7b", "0-1", "0");
    bad.attributes[1] = attr("packet_src_port", "transfer");
    let block = Block {
        transactions: vec![
            Transaction { events: vec![send_packet_event(&hex::encode(ics20_json()), "1-5", "0"), bad], ..Default::default() },
            Transaction { events: vec![], ..Default::default() },
        ],
        ..Default::default()
    };
    let messages = a.extract_messages(&block, 10);
    assert_eq!(messages.len(), 1);
    assert_eq!(messages[0].created_at, 10);
    assert_eq!(messages[0].message_type, MessageType::MessageTypeTokenTransfer);
}

#[test]
fn adapter_identity_and_capabilities() {
    let a = adapter();
    assert_eq!(a.rpc_endpoint(), "http://localhost:26657");
    assert_eq!(a.connection_id(), "connection-0");
    assert_eq!(a.chain_id().as_str(), "cosmoshub-4");
    assert_eq!(a.chain_type(), ChainType::ChainTypeTendermint);
    let c = a.capabilities();
    assert!(c.supports_smart_contracts && !c.supports_zk_proofs && c.supports_optimistic_proofs);
    assert_eq!(c.max_message_size, 1 << 20);
    assert_eq!(c.supported_proof_types, vec!["ics23".to_string(), "tendermint".to_string()]);
    assert!(CosmosWsClient::new("ws://localhost:26657/websocket").is_ok());
}

#[test]
fn block_height_from_an_rpc_response() {
    let body = br#"{"result":{"block":{"header":{"height":"12345","chain_id":"x"}}}}"#;
    let b = block_from_rpc_response(body).unwrap();
    assert_eq!(b.height, 12345);
    assert_eq!(b.hash, [0; 32]);
    assert!(b.transactions.is_empty());
    let missing = block_from_rpc_response(br#"{"result":{}}"#).unwrap();
    assert_eq!(missing.height, 0);
    let not_a_number = block_from_rpc_response(br#"{"result":{"block":{"header":{"height":"tall"}}}}"#).unwrap();
    assert_eq!(not_a_number.height, 0);
    assert_eq!(block_from_rpc_response(b"<html>"), Err(RelayerError::InvalidRpcResponse));
}

#[test]
fn batches_convert_in_order_and_stop_at_the_first_failure() {
    let a = adapter();
    let call = |seq: u64| UniversalMessage {
        payload: Some(Payload::ContractCall(ContractCall { contract_address: String::new(), call_data: vec![seq as u8] })),
        ibc_data: Some(IbcCompatibilityData { sequence: seq, ..Default::default() }),
        ..Default::default()
    };
    let packets = a.messages_to_ibc_packets(&vec![call(1), call(2)]).unwrap();
    assert_eq!(packets.iter().map(|p| p.sequence).collect::<Vec<_>>(), vec![1, 2]);
    let mut no_payload = call(3);
    no_payload.payload = None;
    assert_eq!(
        a.messages_to_ibc_packets(&vec![call(1), no_payload, UniversalMessage::default()]),
        Err(RelayerError::UnsupportedMessageType)
    );
    assert_eq!(a.messages_to_ibc_packets(&vec![]), Ok(vec![]));
}

#[test]
fn transfer_json_reads_back_as_the_transfer() {
    let a = adapter();
    let p = transfer_packet();
    let m = a.ibc_packet_to_universal_message(&p, 0).unwrap();
    let q = a.universal_message_to_ibc_packet(&m).unwrap();
    let back = a.ibc_packet_to_universal_message(&q, 0).unwrap();
    assert_eq!(back.payload, m.payload);
}

#[test]
fn a_packet_becomes_a_bare_message_from_this_chain() {
    let a = adapter();
    let p = transfer_packet();
    let m = a.to_uibc_message(&p);
    let expected = UniversalMessage {
        version: 1,
        message_id: a.generate_message_id(&p).unwrap().to_vec(),
        source: Some(ChainEndpoint {
            chain_id: "cosmoshub-4".to_string(),
            chain_type: ChainType::ChainTypeUnspecified,
            connection_id: "connection-0".to_string(),
            channel_id: "channel-0".to_string(),
            port_id: "transfer".to_string(),
        }),
        ibc_data: Some(IbcCompatibilityData { sequence: 7, ..Default::default() }),
        ..Default::default()
    };
    assert_eq!(m, expected);
}
