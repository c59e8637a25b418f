use relayer::error::RelayerError;
use relayer::message::UibcMessage;
use relayer::uibc::{
    ChainEndpoint, Height, IbcCompatibilityData, MessageType, ProofRequirement, Requirement,
    Timeout, UniversalMessage, ZkProofRequirement,
};

#[test]
fn test_validate_timeout() {
    let mut msg = UniversalMessage::default();
    msg.timeout = Some(Timeout::TimeoutTimestamp(0)); // Expired
    let uibc_msg = UibcMessage::new(msg);
    assert!(uibc_msg.validate().is_err());
}

fn transfer_message() -> UniversalMessage {
    UniversalMessage {
        version: 1,
        message_type: MessageType::MessageTypeTokenTransfer,
        ..Default::default()
    }
}

#[test]
fn validate_at_reports_a_past_timeout() {
    let mut msg = transfer_message();
    msg.timeout = Some(Timeout::TimeoutTimestamp(99));
    let uibc_msg = UibcMessage::new(msg);
    assert_eq!(uibc_msg.validate_at(100), Err(RelayerError::MessageTimedOut));
}

#[test]
fn validate_at_accepts_a_timeout_at_the_current_second() {
    let mut msg = transfer_message();
    msg.timeout = Some(Timeout::TimeoutTimestamp(100));
    assert_eq!(UibcMessage::new(msg).validate_at(100), Ok(()));
}

#[test]
fn validate_at_reports_an_unspecified_type() {
    let mut msg = transfer_message();
    msg.message_type = MessageType::MessageTypeUnspecified;
    assert_eq!(UibcMessage::new(msg).validate_at(0), Err(RelayerError::InvalidMessageType));
}

#[test]
fn validate_at_ignores_a_height_timeout() {
    let mut msg = transfer_message();
    msg.timeout = Some(Timeout::TimeoutHeight(Height { revision_number: 1, revision_height: 5 }));
    assert_eq!(UibcMessage::new(msg).validate_at(u64::MAX), Ok(()));
}

#[test]
fn validate_against_the_clock_accepts_a_far_timeout() {
    let mut msg = transfer_message();
    msg.timeout = Some(Timeout::TimeoutTimestamp(u64::MAX));
    assert_eq!(UibcMessage::new(msg).validate(), Ok(()));
}

#[test]
fn encoding_of_scalar_fields() {
    let msg = UniversalMessage { created_at: 300, ..transfer_message() };
    // version 1, created_at 300 (varint 0xAC 0x02), message type 1.
    assert_eq!(msg.encode_to_vec(), vec![0x08, 0x01, 0x18, 0xAC, 0x02, 0x38, 0x01]);
}

#[test]
fn encoding_of_an_endpoint_and_a_timeout() {
    let msg = UniversalMessage {
        source: Some(ChainEndpoint { chain_id: "ab".to_string(), ..Default::default() }),
        timeout: Some(Timeout::TimeoutTimestamp(5)),
        ..transfer_message()
    };
    assert_eq!(
        msg.encode_to_vec(),
        vec![0x08, 0x01, 0x22, 0x04, 0x0A, 0x02, b'a', b'b', 0x38, 0x01, 0x60, 0x05]
    );
}

#[test]
fn to_ibc_packet_needs_ibc_data() {
    let uibc_msg = UibcMessage::new(transfer_message());
    assert_eq!(uibc_msg.to_ibc_packet(), Err(RelayerError::NoIbcData));
}

#[test]
fn to_ibc_packet_carries_the_encoding_and_timeout_in_nanoseconds() {
    let msg = UniversalMessage {
        timeout: Some(Timeout::TimeoutTimestamp(7)),
        ibc_data: Some(IbcCompatibilityData { sequence: 3, ..Default::default() }),
        ..transfer_message()
    };
    let encoded = msg.encode_to_vec();
    let packet = UibcMessage::new(msg).to_ibc_packet().unwrap();
    assert_eq!(packet.data, encoded);
    assert_eq!(packet.timeout_timestamp_on_b, 7_000_000_000);
    assert_eq!(packet.timeout_height_on_b, Height { revision_number: 0, revision_height: 0 });
    assert_eq!(packet.sequence, 0);
}

#[test]
fn to_ibc_packet_carries_a_height_timeout() {
    let h = Height { revision_number: 2, revision_height: 40 };
    let msg = UniversalMessage {
        timeout: Some(Timeout::TimeoutHeight(h)),
        ibc_data: Some(IbcCompatibilityData::default()),
        ..transfer_message()
    };
    let packet = UibcMessage::new(msg).to_ibc_packet().unwrap();
    assert_eq!(packet.timeout_height_on_b, h);
    assert_eq!(packet.timeout_timestamp_on_b, 0);
}

#[test]
fn proof_requirement_is_the_messages_own() {
    let req = ProofRequirement {
        requirement: Some(Requirement::ZkProof(ZkProofRequirement {
            circuit_id: "ics23".to_string(),
            ..Default::default()
        })),
    };
    let msg = UniversalMessage { proof_requirement: Some(req.clone()), ..transfer_message() };
    let uibc_msg = UibcMessage::new(msg);
    assert_eq!(uibc_msg.proof_requirement(), Some(&req));
    assert_eq!(UibcMessage::new(transfer_message()).proof_requirement(), None);
}

#[test]
fn messages_that_differ_in_a_field_have_different_encodings() {
    let base = UniversalMessage {
        version: 1,
        message_id: vec![7; 32],
        route_hints: vec!["a".to_string(), "b".to_string()],
        timeout: Some(Timeout::TimeoutTimestamp(0)),
        source: Some(ChainEndpoint { chain_id: "chain-1".to_string(), ..Default::default() }),
        ..Default::default()
    };
    let mut variants = Vec::new();
    let mut m = base.clone();
    m.timeout = None;
    variants.push(m);
    let mut m = base.clone();
    m.timeout = Some(Timeout::TimeoutHeight(Height::default()));
    variants.push(m);
    let mut m = base.clone();
    m.route_hints = vec!["ab".to_string()];
    variants.push(m);
    let mut m = base.clone();
    m.source = Some(ChainEndpoint::default());
    variants.push(m);
    let mut m = base.clone();
    m.source = None;
    variants.push(m);
    let mut m = base.clone();
    m.destination = Some(ChainEndpoint { chain_id: "chain-1".to_string(), ..Default::default() });
    variants.push(m);
    let mut m = base.clone();
    m.ibc_data = Some(IbcCompatibilityData::default());
    variants.push(m);
    for v in &variants {
        assert_ne!(v.encode_to_vec(), base.encode_to_vec());
    }
    assert_eq!(base.clone().encode_to_vec(), base.encode_to_vec());
}
