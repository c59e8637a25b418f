use relayer::decimal::{parse_u64, parse_u64_bytes, u64_to_decimal};
use relayer::evm::EVMAdapter;
use relayer::relayer_client::RelayerClient;
use relayer::uibc::RelayerAssignment;

#[test]
fn decimal_text_reads_back() {
    for n in [0u64, 7, 10, 99, 100, 12345, u64::MAX - 1, u64::MAX] {
        let s = u64_to_decimal(n);
        assert_eq!(s, n.to_string());
        assert_eq!(parse_u64(&s), Some(n));
    }
}

#[test]
fn decimal_parsing_follows_the_standard_library() {
    for s in ["", "+", "-1", "1 ", " 1", "0x10", "007", "+42", "18446744073709551615", "18446744073709551616", "99999999999999999999"] {
        assert_eq!(parse_u64(s), s.parse::<u64>().ok(), "input {:?}", s);
    }
    assert_eq!(parse_u64_bytes(b"123"), Some(123));
}

#[test]
fn relayer_address_hex_reads_back() {
    let adapter = EVMAdapter::new("sepolia".to_string(), 11155111, [0; 20], &vec![], None).unwrap();
    let client = RelayerClient::new(adapter);
    let address: Vec<u8> = (0u8..20).map(|i| i.wrapping_mul(37)).collect();
    let text = client.assign_relayer(&RelayerAssignment { assigned_relayer: address.clone() }).unwrap();
    assert_eq!(text, hex::encode(&address));
    assert_eq!(hex::decode(&text).unwrap(), address);
}
