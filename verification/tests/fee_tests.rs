use relayer::chain_adapter::{ChainId, NetworkConditions, Route};
use relayer::error::RelayerError;
use relayer::fee_calculator::FeeCalculator;
use relayer::uibc::{
    ChainEndpoint, ContractCall, EconomicParameters, Fee, MessageType, Payload, Priority,
    ProofRequirement, RelayerAssignment, Requirement, Timeout, TokenTransfer, UniversalMessage,
    ZkProofRequirement,
};

const NOW: u64 = 1_000_000;

fn empty_fee() -> Fee {
    Fee { amount: String::new(), denom: String::new(), chain_id: String::new(), decimals: 0 }
}

fn route(hops: &[&str]) -> Route {
    Route {
        path: hops.iter().map(|h| ChainId::new(h.to_string())).collect(),
        estimated_cost: empty_fee(),
        estimated_time_secs: 0,
        reliability_score_bps: 0,
    }
}

fn conditions() -> NetworkConditions {
    NetworkConditions {
        congestion_multiplier_bps: 10000,
        average_block_time_secs: 6,
        gas_price: empty_fee(),
        finality_time_secs: 6,
    }
}

fn endpoint(chain: &str) -> Option<ChainEndpoint> {
    Some(ChainEndpoint { chain_id: chain.to_string(), ..Default::default() })
}

/// A transfer of uatom to the Cosmos Hub, asking for a ZK proof, with a
/// normal priority, timing out a day after `NOW`.
fn transfer_message() -> UniversalMessage {
    UniversalMessage {
        version: 1,
        message_id: vec![0; 32],
        source: endpoint("ethereum-1"),
        destination: endpoint("cosmoshub-4"),
        message_type: MessageType::MessageTypeTokenTransfer,
        payload: Some(Payload::TokenTransfer(TokenTransfer {
            denom: "uatom".to_string(),
            amount: "1000".to_string(),
            ..Default::default()
        })),
        timeout: Some(Timeout::TimeoutTimestamp(NOW + 86_400)),
        proof_requirement: Some(ProofRequirement {
            requirement: Some(Requirement::ZkProof(ZkProofRequirement {
                circuit_id: "ics23".to_string(),
                ..Default::default()
            })),
        }),
        economic_parameters: Some(EconomicParameters {
            priority: Some(Priority::Normal),
            ..Default::default()
        }),
        ..Default::default()
    }
}

#[test]
fn total_fee_of_a_transfer() {
    let calc = FeeCalculator::new();
    let message = transfer_message();
    // base 5000 + complexity 5050 + verification 5000 + route 5000 = 20050,
    // plus priority 5000 and insurance round(86400 * 0.02) = 1728.
    let fee = calc
        .calculate_total_fee_at(&message, &route(&["ethereum-1", "cosmoshub-4"]), &conditions(), 10000, NOW)
        .unwrap();
    assert_eq!(fee.amount, "26778");
    assert_eq!(fee.denom, "uatom");
    assert_eq!(fee.chain_id, "cosmoshub-4");
    assert_eq!(fee.decimals, 6);
}

#[test]
fn congestion_scales_the_fee_before_priority_and_insurance() {
    let calc = FeeCalculator::new();
    let message = transfer_message();
    let r = route(&["ethereum-1", "cosmoshub-4"]);
    let fee = calc.calculate_total_fee_at(&message, &r, &conditions(), 15000, NOW).unwrap();
    // 20050 * 1.5 = 30075, plus 5000 and 1728.
    assert_eq!(fee.amount, "36803");
    // Heavier congestion never lowers the fee.
    let lighter = calc.calculate_total_fee_at(&message, &r, &conditions(), 5000, NOW).unwrap();
    assert!(lighter.amount.parse::<u64>().unwrap() <= fee.amount.parse::<u64>().unwrap());
    assert_eq!(lighter.amount, "16753");
}

#[test]
fn unknown_destination_has_no_fee() {
    let calc = FeeCalculator::new();
    let mut message = transfer_message();
    message.destination = endpoint("osmosis-1");
    let r = calc.calculate_total_fee_at(&message, &route(&[]), &conditions(), 10000, NOW);
    assert_eq!(r, Err(RelayerError::UnknownDestinationChain));
}

#[test]
fn calculate_total_fee_reads_the_clock() {
    let calc = FeeCalculator::new();
    let mut message = transfer_message();
    message.timeout = None;
    // Without a timestamp the fee does not depend on the time:
    // 20050 + 5000 priority, no insurance.
    let fee = calc
        .calculate_total_fee(&message, &route(&["ethereum-1", "cosmoshub-4"]), &conditions(), &vec![None])
        .unwrap();
    assert_eq!(fee.amount, "25050");
}

#[test]
fn fee_amounts_parse_as_decimal_integers() {
    let calc = FeeCalculator::new();
    let mut fee = empty_fee();
    fee.amount = "50000".to_string();
    assert_eq!(calc.parse_fee_amount(&fee), Ok(50000));
    fee.amount = "5e3".to_string();
    assert_eq!(calc.parse_fee_amount(&fee), Err(RelayerError::InvalidFeeAmount));
    fee.amount = "+7".to_string();
    assert_eq!(calc.parse_fee_amount(&fee), Ok(7));
    fee.amount = "18446744073709551616".to_string();
    assert_eq!(calc.parse_fee_amount(&fee), Err(RelayerError::InvalidFeeAmount));
}

#[test]
fn complexity_fee_by_payload_and_type() {
    let calc = FeeCalculator::new();
    assert_eq!(calc.calculate_complexity_fee(&transfer_message()), Ok(5050));
    let call = UniversalMessage {
        message_type: MessageType::MessageTypeContractCall,
        payload: Some(Payload::ContractCall(ContractCall {
            call_data: vec![0; 10],
            ..Default::default()
        })),
        ..Default::default()
    };
    // (10000 + 100) * 1.5
    assert_eq!(calc.calculate_complexity_fee(&call), Ok(15150));
    let unspecified = UniversalMessage::default();
    // 20000 at the default multiplier of 1.0
    assert_eq!(calc.calculate_complexity_fee(&unspecified), Ok(20000));
}

#[test]
fn verification_fee_by_requirement() {
    let calc = FeeCalculator::new();
    assert_eq!(calc.calculate_verification_fee(&transfer_message()), Ok(5000));
    assert_eq!(calc.calculate_verification_fee(&UniversalMessage::default()), Ok(0));
}

#[test]
fn route_fee_without_premiums() {
    let calc = FeeCalculator::new();
    assert_eq!(calc.calculate_route_fee(&route(&["a", "b", "c"])), Ok(5000));
    assert_eq!(calc.calculate_route_fee(&route(&[])), Ok(5000));
}

#[test]
fn congestion_from_readings_is_the_first_answer_held_in_range() {
    let calc = FeeCalculator::new();
    assert_eq!(calc.get_network_congestion(&vec![]), 10000);
    assert_eq!(calc.get_network_congestion(&vec![None, Some(12000), Some(9000)]), 12000);
    assert_eq!(calc.get_network_congestion(&vec![Some(100)]), 5000);
    assert_eq!(calc.get_network_congestion(&vec![Some(90000)]), 20000);
}

#[test]
fn gas_price_from_readings_is_the_first_answer() {
    let calc = FeeCalculator::new();
    assert_eq!(calc.get_gas_price(&vec![]), 100);
    assert_eq!(calc.get_gas_price(&vec![None, Some(42)]), 42);
}

#[test]
fn priority_fees() {
    let calc = FeeCalculator::new();
    let with = |p: Option<Priority>| UniversalMessage {
        economic_parameters: Some(EconomicParameters { priority: p, ..Default::default() }),
        ..Default::default()
    };
    assert_eq!(calc.calculate_priority_fee(&with(Some(Priority::Low))), Ok(4000));
    assert_eq!(calc.calculate_priority_fee(&with(Some(Priority::High))), Ok(7500));
    assert_eq!(calc.calculate_priority_fee(&with(Some(Priority::Critical))), Ok(15000));
    assert_eq!(calc.calculate_priority_fee(&with(None)), Ok(5000));
    assert_eq!(calc.calculate_priority_fee(&UniversalMessage::default()), Ok(5000));
}

#[test]
fn timeout_insurance_has_a_floor() {
    let calc = FeeCalculator::new();
    assert_eq!(calc.calculate_timeout_insurance(0), Ok(1000));
    assert_eq!(calc.calculate_timeout_insurance(86_400), Ok(1728));
    assert_eq!(calc.calculate_timeout_insurance(100_000), Ok(2000));
}

#[test]
fn performance_adjustment_of_an_unknown_relayer_is_neutral() {
    let calc = FeeCalculator::new();
    let message = UniversalMessage {
        relayer_assignment: Some(RelayerAssignment { assigned_relayer: vec![0xab; 20] }),
        ..Default::default()
    };
    assert_eq!(calc.adjust_for_performance(12345, &message), Ok(12345));
}

#[test]
fn total_fee_fits_for_ordinary_congestion_only() {
    let calc = FeeCalculator::new();
    let r = route(&["ethereum-1", "cosmoshub-4"]);
    assert!(calc.total_fee_fits(&transfer_message(), &r, 10000, NOW));
    let mut no_destination = transfer_message();
    no_destination.destination = None;
    assert!(!calc.total_fee_fits(&no_destination, &r, 10000, NOW));
    // A congestion multiplier near the largest u64 scales the fee past it.
    assert!(!calc.total_fee_fits(&transfer_message(), &r, u64::MAX, NOW));
    // An unknown chain has no fee to overflow.
    let mut unknown = transfer_message();
    unknown.destination = endpoint("osmosis-1");
    assert!(calc.total_fee_fits(&unknown, &r, u64::MAX, NOW));
}

#[test]
fn a_higher_base_fee_never_lowers_the_total() {
    let calc = FeeCalculator::new();
    let r = route(&["ethereum-1", "cosmoshub-4"]);
    let cosmos = calc.calculate_total_fee_at(&transfer_message(), &r, &conditions(), 10000, NOW).unwrap();
    let mut to_ethereum = transfer_message();
    to_ethereum.destination = endpoint("ethereum-1");
    let ethereum = calc.calculate_total_fee_at(&to_ethereum, &r, &conditions(), 10000, NOW).unwrap();
    // 50000 + 5050 + 5000 + 5000, plus 5000 and 1728.
    assert_eq!(ethereum.amount, "71778");
    assert_eq!(ethereum.denom, "gwei");
    assert!(cosmos.amount.parse::<u64>().unwrap() <= ethereum.amount.parse::<u64>().unwrap());
}

#[test]
fn test_calculate_total_fee() {
    let calc = FeeCalculator::new();
    let message = UniversalMessage {
        version: 1,
        message_id: vec![0; 32],
        created_at: 0,
        source: Some(Default::default()),
        destination: Some(Default::default()),
        route_hints: vec![],
        message_type: MessageType::MessageTypeTokenTransfer,
        payload: Some(Payload::TokenTransfer(Default::default())),
        timeout: Some(Timeout::TimeoutTimestamp(1696118400)),
        proof_requirement: Some(ProofRequirement {
            requirement: Some(Requirement::ZkProof(ZkProofRequirement {
                circuit_id: "ics23".to_string(),
                public_inputs: vec![],
                ..Default::default()
            })),
        }),
        economic_parameters: Some(EconomicParameters {
            priority: Some(Priority::Normal),
            ..Default::default()
        }),
        ..Default::default()
    };
    let route = route(&["ethereum-1", "cosmoshub-4"]);
    let fee = calc.calculate_total_fee(&message, &route, &conditions(), &vec![]).unwrap();
    assert!(fee.amount.parse::<u64>().unwrap() > 0);
}

#[test]
fn a_destination_without_a_chain_is_priced_on_the_routes_last_chain() {
    let calc = FeeCalculator::new();
    let mut message = transfer_message();
    message.destination = endpoint("");
    message.timeout = None;
    let fee = calc
        .calculate_total_fee_at(&message, &route(&["ethereum-1", "cosmoshub-4"]), &conditions(), 10000, NOW)
        .unwrap();
    assert_eq!(fee.amount, "25050");
    assert_eq!(fee.denom, "uatom");
    assert_eq!(fee.chain_id, "cosmoshub-4");
    assert_eq!(
        calc.calculate_total_fee_at(&message, &route(&[]), &conditions(), 10000, NOW),
        Err(RelayerError::UnknownDestinationChain)
    );
}

#[test]
fn performance_adjustment_saturates() {
    let calc = FeeCalculator::new();
    assert_eq!(calc.adjust_for_performance(u64::MAX, &UniversalMessage::default()), Ok(u64::MAX));
}

#[test]
fn each_higher_priority_costs_strictly_more() {
    let calc = FeeCalculator::new();
    let r = route(&["ethereum-1", "cosmoshub-4"]);
    let mut amounts = Vec::new();
    for p in [Priority::Low, Priority::Normal, Priority::High, Priority::Critical] {
        let mut m = transfer_message();
        m.economic_parameters = Some(EconomicParameters { priority: Some(p), ..Default::default() });
        let fee = calc.calculate_total_fee_at(&m, &r, &conditions(), 10000, NOW).unwrap();
        amounts.push(fee.amount.parse::<u64>().unwrap());
    }
    assert!(amounts[0] < amounts[1] && amounts[1] < amounts[2] && amounts[2] < amounts[3]);
    assert_eq!(amounts[3] - amounts[0], 11000);
}
