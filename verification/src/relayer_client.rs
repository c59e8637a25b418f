//! The relayer client: it prepares a message for optimistic submission to an
//! EVM relay contract. Sending the transaction happens outside.

use vstd::prelude::*;
use vstd::utf8::encode_utf8;
use crate::abi::{abi_encode, abi_encoding, abi_values, AbiToken, AbiValue};
use crate::bytes::{append_bytes, copy_bytes, copy_string};
use crate::chain_adapter::{ChainId, NetworkConditions, Route};
use crate::decimal::{decimal_digits, lemma_parse_of_decimal, parse_u64, parse_u64_spec};
use crate::clock::unix_time_now;
use crate::digest::{sha256, sha256_digest};
use crate::error::RelayerError;
use crate::evm::EVMAdapter;
use crate::fee_calculator::{congestion_from_readings, relayer_key, route_ids, FeeCalculator};
use crate::hexcode::{hex_decode, hex_encode, hex_encode_spec, lemma_hex_roundtrip};
use crate::message::{validation_at, UibcMessage};
use crate::uibc::{
    EconomicParameters, Fee, IbcCompatibilityData, MessageFees, RelayerAssignment, Requirement,
    Timeout, UniversalMessage,
};
use crate::encoding::optional_assignment;
use crate::zk_proof::verify_proof_locally;

verus! {

/// Seconds in the seven days a submitted message stays deliverable.
pub const SUBMISSION_TIMEOUT_SECS: u64 = 7 * 24 * 3600;

/// Gas that a submission may use.
pub const SUBMISSION_GAS_LIMIT: u64 = 50_000;

/// The byte strings of `s`, one after another.
pub open spec fn flatten_bytes(s: Seq<Seq<u8>>) -> Seq<u8>
    decreases s.len(),
{
    if s.len() == 0 {
        Seq::empty()
    } else {
        flatten_bytes(s.drop_last()) + s.last()
    }
}

/// The ZK proof and public inputs a message carries: the proof of its ZK
/// requirement and the concatenation of the requirement's public inputs.
pub open spec fn carried_zk_proof(m: UniversalMessage) -> Result<(Seq<u8>, Seq<u8>), RelayerError> {
    match m.proof_requirement {
        Some(p) => match p.requirement {
            Some(Requirement::ZkProof(z)) => if z.proof@.len() > 0 {
                Ok((z.proof@, flatten_bytes(z.public_inputs@.map_values(|v: Vec<u8>| v@))))
            } else {
                Err(RelayerError::NoZkProofData)
            },
            _ => Err(RelayerError::NoZkProofRequirement),
        },
        None => Err(RelayerError::NoZkProofRequirement),
    }
}

/// The public inputs a message carries.
pub open spec fn carried_public_inputs(m: UniversalMessage) -> Result<Seq<u8>, RelayerError> {
    match m.proof_requirement {
        Some(p) => match p.requirement {
            Some(Requirement::ZkProof(z)) => {
                let inputs = flatten_bytes(z.public_inputs@.map_values(|v: Vec<u8>| v@));
                if inputs.len() > 0 {
                    Ok(inputs)
                } else {
                    Err(RelayerError::NoPublicInputs)
                }
            },
            _ => Err(RelayerError::NoZkProofRequirement),
        },
        None => Err(RelayerError::NoZkProofRequirement),
    }
}

/// `m` with relayer `v` assigned.
pub open spec fn with_assignment(m: UniversalMessage, v: Vec<u8>) -> UniversalMessage {
    UniversalMessage { relayer_assignment: Some(RelayerAssignment { assigned_relayer: v }), ..m }
}

/// `m` as it is submitted: with economic parameters `economics`, the relayer
/// assignment `assignment` and a timeout at Unix time `timeout`.
pub open spec fn finished_message(
    m: UniversalMessage,
    economics: EconomicParameters,
    assignment: Option<RelayerAssignment>,
    timeout: u64,
) -> UniversalMessage {
    UniversalMessage {
        economic_parameters: Some(economics),
        relayer_assignment: assignment,
        timeout: Some(Timeout::TimeoutTimestamp(timeout)),
        ..m
    }
}

/// `m` with `fees` as its fees.
pub open spec fn with_fees(m: UniversalMessage, fees: Option<MessageFees>) -> UniversalMessage {
    UniversalMessage { fees: fees, ..m }
}

/// The arguments of an optimistic submission: source channel ("channel-0"
/// without IBC data), sequence (1 without), the message, the timeout, the
/// proof and its public inputs.
pub open spec fn optimistic_submission_args(
    ibc_data: Option<IbcCompatibilityData>,
    message_data: Seq<u8>,
    timeout: u64,
    proof: Seq<u8>,
    inputs: Seq<u8>,
) -> Seq<AbiValue> {
    seq![
        AbiValue::Str(
            match ibc_data {
                Some(d) => d.source_channel@,
                None => "channel-0"@,
            },
        ),
        AbiValue::Uint(
            (match ibc_data {
                Some(d) => d.sequence,
                None => 1,
            }) as nat,
        ),
        AbiValue::Bytes(message_data),
        AbiValue::Uint(timeout as nat),
        AbiValue::Bytes(proof),
        AbiValue::Bytes(inputs),
    ]
}

/// The arguments of a UIBC submission: the message, the proof with its
/// public inputs, and the challenge period.
pub open spec fn uibc_submission_args(
    message_data: Seq<u8>,
    proof: Seq<u8>,
    inputs: Seq<u8>,
    challenge_period: Option<u64>,
) -> Seq<AbiValue> {
    seq![
        AbiValue::Bytes(message_data),
        AbiValue::Bytes(abi_encoding(seq![AbiValue::Bytes(proof), AbiValue::Bytes(inputs)])),
        AbiValue::Uint(
            (match challenge_period {
                Some(c) => c,
                None => 0,
            }) as nat,
        ),
    ]
}

/// The two-hop route of a submission: from the message's source chain to
/// its destination.
pub open spec fn submission_route(m: UniversalMessage) -> Seq<Seq<char>> {
    seq![m.source.unwrap().chain_id@, m.destination.unwrap().chain_id@]
}

/// Whether a message that validates can be prepared at Unix time `now`
/// without running out of range: it names both ends of its route, its
/// timeout seven days on fits, and its fee, priced with relayer `selected`,
/// fits in 64 bits.
pub open spec fn submission_defined(
    c: FeeCalculator,
    m: UniversalMessage,
    selected: Vec<u8>,
    congestion: u64,
    now: u64,
) -> bool {
    &&& m.source is Some
    &&& m.destination is Some
    &&& now + SUBMISSION_TIMEOUT_SECS <= u64::MAX
    &&& c.fee_fits(with_assignment(m, selected), submission_route(m), congestion as nat, now)
}

/// The submission prepared for `m`, given the fee basis `f` (amount `base`),
/// the proof and public inputs it carries, the relayer `selected`, the
/// congestion multiplier and Unix time `now`: the message goes out with its
/// total fee, economic parameters for that fee, the placeholder relayer and a
/// timeout seven days on; the call data encodes it, as priced with the
/// selected relayer, for the chosen entry point of the relay contract.
#[verifier::opaque]
pub open spec fn prepared_submission(
    c: RelayerClient,
    m: UniversalMessage,
    selected: Vec<u8>,
    f: Fee,
    base: u64,
    proof: Seq<u8>,
    inputs: Seq<u8>,
    use_optimistic: bool,
    challenge_period: Option<u64>,
    congestion: u64,
    now: u64,
    s: OptimisticSubmission,
) -> bool {
    let priced = with_assignment(m, selected);
    let total = c.spec_fee_calculator().fee_stages(
        priced,
        submission_route(m),
        base as nat,
        congestion as nat,
        now,
    ).2;
    let timeout = (now + SUBMISSION_TIMEOUT_SECS) as u64;
    let data = with_fees(priced, s.message.fees).encoding();
    &&& s.message.fees matches Some(fees) && {
        &&& fees.total_fee.amount@ == decimal_digits(total)
        &&& fees.total_fee.denom@ == f.denom@
        &&& fees.total_fee.chain_id@ == m.destination.unwrap().chain_id@
        &&& fees.total_fee.decimals == f.decimals
    }
    &&& s.message.relayer_assignment matches Some(a) && a.assigned_relayer@ == Seq::new(
        20,
        |i: int| 0u8,
    )
    &&& s.message == finished_message(
        with_fees(m, s.message.fees),
        EconomicParameters { priority: None, base_fee: total as u64, verification_fee: 5000 },
        s.message.relayer_assignment,
        timeout,
    )
    &&& s.call_data@ == abi_encoding(
        if use_optimistic {
            optimistic_submission_args(m.ibc_data, data, timeout, proof, inputs)
        } else {
            uibc_submission_args(data, proof, inputs, challenge_period)
        },
    )
    &&& s.contract_address == c.spec_evm_adapter().spec_contract_address()
    &&& s.evm_chain_id == c.spec_evm_adapter().spec_evm_chain_id()
    &&& s.gas_limit == SUBMISSION_GAS_LIMIT
}

/// What preparing `m` for submission gives, with relayer `selected` chosen,
/// the congestion multiplier `congestion`, at Unix time `now`: the message
/// must validate, the destination chain must have a base fee, and the
/// message must carry a ZK proof with public inputs.
pub open spec fn submission_result(
    c: RelayerClient,
    m: UniversalMessage,
    selected: Vec<u8>,
    use_optimistic: bool,
    challenge_period: Option<u64>,
    congestion: u64,
    now: u64,
    r: Result<OptimisticSubmission, RelayerError>,
) -> bool {
    match validation_at(with_assignment(m, selected), now) {
        Err(e) => r == Err::<OptimisticSubmission, RelayerError>(e),
        Ok(_) => match c.spec_fee_calculator().base_fee_for(m.destination.unwrap().chain_id@) {
            None => r == Err::<OptimisticSubmission, RelayerError>(
                RelayerError::UnknownDestinationChain,
            ),
            Some(f) => match parse_u64_spec(encode_utf8(f.amount@)) {
                None => r == Err::<OptimisticSubmission, RelayerError>(
                    RelayerError::InvalidFeeAmount,
                ),
                Some(base) => match carried_zk_proof(m) {
                    Err(e) => r == Err::<OptimisticSubmission, RelayerError>(e),
                    Ok((proof, _)) => match carried_public_inputs(m) {
                        Err(e) => r == Err::<OptimisticSubmission, RelayerError>(e),
                        Ok(inputs) => r matches Ok(s) && prepared_submission(
                            c,
                            m,
                            selected,
                            f,
                            base,
                            proof,
                            inputs,
                            use_optimistic,
                            challenge_period,
                            congestion,
                            now,
                            s,
                        ),
                    },
                },
            },
        },
    }
}

/// A message ready to be sent to the relay contract.
#[derive(Debug, Clone, PartialEq, Eq)]
pub struct OptimisticSubmission {
    /// The message as submitted: fee, economics, placeholder relayer and a
    /// seven-day timeout set.
    pub message: UniversalMessage,
    pub call_data: Vec<u8>,
    pub contract_address: [u8; 20],
    pub evm_chain_id: u64,
    pub gas_limit: u64,
}

pub struct RelayerClient {
    evm_adapter: EVMAdapter,
    fee_calculator: FeeCalculator,
}

impl RelayerClient {
    pub closed spec fn spec_evm_adapter(&self) -> EVMAdapter {
        self.evm_adapter
    }

    pub closed spec fn spec_fee_calculator(&self) -> FeeCalculator {
        self.fee_calculator
    }

    /// A client that submits through `evm_adapter`, with the standard fee
    /// calculator.
    pub fn new(evm_adapter: EVMAdapter) -> (c: Self)
        ensures
            c.spec_evm_adapter() == evm_adapter,
            c.spec_fee_calculator().has_standard_tables(),
    {
        RelayerClient { evm_adapter, fee_calculator: FeeCalculator::new() }
    }

    /// The fee calculator the client prices with.
    pub fn fee_calculator(&self) -> (c: &FeeCalculator)
        ensures
            *c == self.spec_fee_calculator(),
    {
        &self.fee_calculator
    }

    /// The address of the relayer selected for a message, in hexadecimal.
    pub fn assign_relayer(&self, assignment: &RelayerAssignment) -> (r: Result<String, RelayerError>)
        ensures
            r matches Ok(s) && s@ == hex_encode_spec(assignment.assigned_relayer@),
    {
        Ok(hex_encode(assignment.assigned_relayer.as_slice()))
    }

    /// The identifier of a message: the SHA-256 digest of its encoding.
    pub fn generate_message_id(&self, message: &UniversalMessage) -> (r: [u8; 32])
        ensures
            r@ == sha256_digest(message.encoding()),
    {
        let encoded = message.encode_to_vec();
        sha256(encoded.as_slice())
    }

    /// The message in its wire encoding.
    pub fn serialize_message(&self, message: &UniversalMessage) -> (r: Result<Vec<u8>, RelayerError>)
        ensures
            r matches Ok(v) && v@ == message.encoding(),
    {
        Ok(message.encode_to_vec())
    }

    /// The ZK proof and public inputs the message carries.
    pub fn generate_zk_proof(&self, message: &UniversalMessage) -> (r: Result<
        (Vec<u8>, Vec<u8>),
        RelayerError,
    >)
        ensures
            match carried_zk_proof(*message) {
                Ok((p, i)) => r matches Ok((a, b)) && a@ == p && b@ == i,
                Err(e) => r == Err::<(Vec<u8>, Vec<u8>), RelayerError>(e),
            },
    {
        match &message.proof_requirement {
            Some(p) => match &p.requirement {
                Some(Requirement::ZkProof(z)) => {
                    if z.proof.len() > 0 {
                        Ok((copy_bytes(z.proof.as_slice()), flatten(&z.public_inputs)))
                    } else {
                        Err(RelayerError::NoZkProofData)
                    }
                },
                _ => Err(RelayerError::NoZkProofRequirement),
            },
            None => Err(RelayerError::NoZkProofRequirement),
        }
    }

    /// The public inputs the message carries.
    pub fn generate_zk_public_inputs(&self, message: &UniversalMessage) -> (r: Result<
        Vec<u8>,
        RelayerError,
    >)
        ensures
            match carried_public_inputs(*message) {
                Ok(i) => r matches Ok(b) && b@ == i,
                Err(e) => r == Err::<Vec<u8>, RelayerError>(e),
            },
    {
        match &message.proof_requirement {
            Some(p) => match &p.requirement {
                Some(Requirement::ZkProof(z)) => {
                    let inputs = flatten(&z.public_inputs);
                    if inputs.len() > 0 {
                        Ok(inputs)
                    } else {
                        Err(RelayerError::NoPublicInputs)
                    }
                },
                _ => Err(RelayerError::NoZkProofRequirement),
            },
            None => Err(RelayerError::NoZkProofRequirement),
        }
    }

    /// The economic parameters for a fee: the fee amount as base fee (0 where
    /// it does not read as a number) and a verification fee of 5 000.
    pub fn generate_economic_params(&self, fee: &Fee) -> (e: EconomicParameters)
        ensures
            e.priority is None,
            e.base_fee == (match parse_u64_spec(encode_utf8(fee.amount@)) {
                Some(v) => v,
                None => 0,
            }),
            e.verification_fee == 5000,
    {
        EconomicParameters {
            priority: None,
            base_fee: match parse_u64(fee.amount.as_str()) {
                Some(v) => v,
                None => 0,
            },
            verification_fee: 5000,
        }
    }

    /// The placeholder assignment: the zero address.
    pub fn generate_relayer_assignment(&self) -> (r: RelayerAssignment)
        ensures
            r.assigned_relayer@ == Seq::new(20, |i: int| 0u8),
    {
        let v = vec![0u8; 20];
        assert(v@ =~= Seq::new(20, |i: int| 0u8));
        RelayerAssignment { assigned_relayer: v }
    }

    /// `message` with the relayer `selected` assigned, its address carried
    /// over as hexadecimal text.
    fn assign_selected(&self, message: UniversalMessage, selected: &RelayerAssignment) -> (r: Result<
        UniversalMessage,
        RelayerError,
    >)
        ensures
            r matches Ok(m) && m.relayer_assignment matches Some(a) && m == with_assignment(
                message,
                a.assigned_relayer,
            ) && a.assigned_relayer@ == selected.assigned_relayer@,
    {
        let address = match self.assign_relayer(selected) {
            Ok(a) => a,
            Err(e) => {
                return Err(e);
            },
        };
        proof {
            lemma_hex_roundtrip(selected.assigned_relayer@);
        }
        let decoded = match hex_decode(address.as_str()) {
            Some(d) => d,
            None => {
                return Err(RelayerError::InvalidRelayerAddress);
            },
        };
        let mut message = message;
        message.relayer_assignment = Some(RelayerAssignment { assigned_relayer: decoded });
        Ok(message)
    }

    /// Prepares a message for submission to the relay contract at Unix time
    /// `now`, with the relayer `selected` chosen for it and the congestion
    /// multiplier taken from the oracles' readings: assigns the relayer,
    /// validates, prices the message on its source-to-destination route,
    /// checks its ZK proof locally, then sets the fee, economic parameters,
    /// the placeholder relayer and a seven-day timeout, and encodes the call
    /// to `receivePacketOptimistic` (with `use_optimistic`) or to
    /// `receiveUIBCPacket`.
    pub fn prepare_optimistic_submission_at(
        &self,
        message: UniversalMessage,
        selected: &RelayerAssignment,
        use_optimistic: bool,
        challenge_period: Option<u64>,
        congestion_readings: &Vec<Option<u64>>,
        now: u64,
    ) -> (r: Result<OptimisticSubmission, RelayerError>)
        requires
            validation_at(message, now) is Ok ==> submission_defined(
                self.spec_fee_calculator(),
                message,
                selected.assigned_relayer,
                congestion_from_readings(congestion_readings@),
                now,
            ),
        ensures
            submission_result(
                *self,
                message,
                selected.assigned_relayer,
                use_optimistic,
                challenge_period,
                congestion_from_readings(congestion_readings@),
                now,
                r,
            ),
    {
        let ghost m0 = message;
        let ghost congestion_spec = congestion_from_readings(congestion_readings@);
        let assigned = match self.assign_selected(message, selected) {
            Ok(m) => m,
            Err(e) => {
                return Err(e);
            },
        };
        let ghost decoded = assigned.relayer_assignment.unwrap().assigned_relayer;
        proof {
            lemma_priced_by_view(
                self.spec_fee_calculator(),
                m0,
                decoded,
                selected.assigned_relayer,
                submission_route(m0),
                congestion_spec as nat,
                now,
            );
        }
        let uibc_msg = UibcMessage::new(assigned);
        match uibc_msg.validate_at(now) {
            Ok(()) => {},
            Err(e) => {
                return Err(e);
            },
        }
        let assigned = uibc_msg.into_inner();
        let congestion = self.fee_calculator.get_network_congestion(congestion_readings);
        let (priced, economics) = match self.price_submission(assigned, congestion, now) {
            Ok(p) => p,
            Err(e) => {
                return Err(e);
            },
        };
        let r = self.finish_submission(priced, economics, use_optimistic, challenge_period, now);
        proof {
            reveal(prepared_submission);
            assert(priced == with_fees(with_assignment(m0, decoded), priced.fees));
        }
        r
    }

    /// Prepares a message for submission now, as
    /// `prepare_optimistic_submission_at` does at the system clock's time.
    pub fn prepare_optimistic_submission(
        &self,
        message: UniversalMessage,
        selected: &RelayerAssignment,
        use_optimistic: bool,
        challenge_period: Option<u64>,
        congestion_readings: &Vec<Option<u64>>,
    ) -> (r: Result<OptimisticSubmission, RelayerError>)
        requires
            forall|now: u64|
                now + SUBMISSION_TIMEOUT_SECS <= u64::MAX && #[trigger] validation_at(message, now)
                    is Ok ==> submission_defined(
                    self.spec_fee_calculator(),
                    message,
                    selected.assigned_relayer,
                    congestion_from_readings(congestion_readings@),
                    now,
                ),
        ensures
            r == Err::<OptimisticSubmission, RelayerError>(RelayerError::ClockBeforeEpoch)
                || r == Err::<OptimisticSubmission, RelayerError>(RelayerError::TimestampOverflow)
                || exists|now: u64|
                submission_result(
                    *self,
                    message,
                    selected.assigned_relayer,
                    use_optimistic,
                    challenge_period,
                    congestion_from_readings(congestion_readings@),
                    now,
                    r,
                ),
    {
        match unix_time_now() {
            Some(now) => {
                if now > u64::MAX - SUBMISSION_TIMEOUT_SECS {
                    Err(RelayerError::TimestampOverflow)
                } else {
                    self.prepare_optimistic_submission_at(
                        message,
                        selected,
                        use_optimistic,
                        challenge_period,
                        congestion_readings,
                        now,
                    )
                }
            },
            None => Err(RelayerError::ClockBeforeEpoch),
        }
    }

    /// The message priced on its source-to-destination route, with the fee
    /// set, and the economic parameters for that fee.
    fn price_submission(&self, message: UniversalMessage, congestion: u64, now: u64) -> (r: Result<
        (UniversalMessage, EconomicParameters),
        RelayerError,
    >)
        requires
            message.source is Some,
            message.destination is Some,
            self.spec_fee_calculator().fee_fits(
                message,
                submission_route(message),
                congestion as nat,
                now,
            ),
        ensures
            match self.spec_fee_calculator().base_fee_for(message.destination.unwrap().chain_id@) {
                None => r == Err::<(UniversalMessage, EconomicParameters), RelayerError>(
                    RelayerError::UnknownDestinationChain,
                ),
                Some(f) => match parse_u64_spec(encode_utf8(f.amount@)) {
                    None => r == Err::<(UniversalMessage, EconomicParameters), RelayerError>(
                        RelayerError::InvalidFeeAmount,
                    ),
                    Some(b) => r matches Ok((p, e)) && {
                        let total = self.spec_fee_calculator().fee_stages(
                            message,
                            submission_route(message),
                            b as nat,
                            congestion as nat,
                            now,
                        ).2;
                        &&& p == with_fees(message, p.fees)
                        &&& p.fees matches Some(fees) && {
                            &&& fees.total_fee.amount@ == decimal_digits(total)
                            &&& fees.total_fee.denom@ == f.denom@
                            &&& fees.total_fee.chain_id@ == message.destination.unwrap().chain_id@
                            &&& fees.total_fee.decimals == f.decimals
                        }
                        &&& e == EconomicParameters {
                            priority: None,
                            base_fee: total as u64,
                            verification_fee: 5000,
                        }
                    },
                },
            },
    {
        let route = submission_route_of(&message);
        let network_conditions = NetworkConditions {
            congestion_multiplier_bps: 10000,
            average_block_time_secs: 0,
            gas_price: empty_fee(),
            finality_time_secs: 0,
        };
        let fee = match self.fee_calculator.calculate_total_fee_at(
            &message,
            &route,
            &network_conditions,
            congestion,
            now,
        ) {
            Ok(f) => f,
            Err(e) => {
                return Err(e);
            },
        };
        proof {
            let f = self.fee_calculator.base_fee_for(message.destination.unwrap().chain_id@).unwrap();
            let b = parse_u64_spec(encode_utf8(f.amount@)).unwrap();
            let total = self.fee_calculator.fee_stages(
                message,
                route_ids(route),
                b as nat,
                congestion as nat,
                now,
            ).2;
            lemma_parse_of_decimal(total as u64);
        }
        let economics = self.generate_economic_params(&fee);
        let mut message = message;
        message.fees = Some(MessageFees { total_fee: fee });
        Ok((message, economics))
    }

    /// The submission of a priced message: its ZK proof checked locally,
    /// economic parameters, placeholder relayer and a seven-day timeout set,
    /// and the call encoded.
    fn finish_submission(
        &self,
        message: UniversalMessage,
        economics: EconomicParameters,
        use_optimistic: bool,
        challenge_period: Option<u64>,
        now: u64,
    ) -> (r: Result<OptimisticSubmission, RelayerError>)
        requires
            now + SUBMISSION_TIMEOUT_SECS <= u64::MAX,
        ensures
            match carried_zk_proof(message) {
                Err(e) => r == Err::<OptimisticSubmission, RelayerError>(e),
                Ok((proof, _)) => match carried_public_inputs(message) {
                    Err(e) => r == Err::<OptimisticSubmission, RelayerError>(e),
                    Ok(inputs) => r matches Ok(s) && {
                        let timeout = (now + SUBMISSION_TIMEOUT_SECS) as u64;
                        &&& s.message.relayer_assignment matches Some(a) && a.assigned_relayer@
                            == Seq::new(20, |i: int| 0u8)
                        &&& s.message == finished_message(
                            message,
                            economics,
                            s.message.relayer_assignment,
                            timeout,
                        )
                        &&& s.call_data@ == abi_encoding(
                            if use_optimistic {
                                optimistic_submission_args(
                                    message.ibc_data,
                                    message.encoding(),
                                    timeout,
                                    proof,
                                    inputs,
                                )
                            } else {
                                uibc_submission_args(
                                    message.encoding(),
                                    proof,
                                    inputs,
                                    challenge_period,
                                )
                            },
                        )
                        &&& s.contract_address == self.spec_evm_adapter().spec_contract_address()
                        &&& s.evm_chain_id == self.spec_evm_adapter().spec_evm_chain_id()
                        &&& s.gas_limit == SUBMISSION_GAS_LIMIT
                    },
                },
            },
    {
        let (zk_proof, _carried_inputs) = match self.generate_zk_proof(&message) {
            Ok(p) => p,
            Err(e) => {
                return Err(e);
            },
        };
        let zk_public_inputs = match self.generate_zk_public_inputs(&message) {
            Ok(i) => i,
            Err(e) => {
                return Err(e);
            },
        };
        let message_data = match self.serialize_message(&message) {
            Ok(d) => d,
            Err(e) => {
                return Err(e);
            },
        };
        if zk_proof.len() > 0 {
            if let Some(p) = &message.proof_requirement {
                if let Some(Requirement::ZkProof(z)) = &p.requirement {
                    match verify_proof_locally(zk_proof.as_slice(), zk_public_inputs.as_slice(), z) {
                        Ok(true) => {},
                        Ok(false) => {
                            return Err(RelayerError::LocalProofRejected);
                        },
                        Err(e) => {
                            return Err(e);
                        },
                    }
                }
            }
        }
        let ghost original = message;
        let timeout_timestamp: u64 = now + SUBMISSION_TIMEOUT_SECS;
        let call_data = submission_call_data(
            &message.ibc_data,
            use_optimistic,
            challenge_period,
            message_data,
            timeout_timestamp,
            zk_proof,
            zk_public_inputs,
        );
        let mut message = message;
        message.economic_parameters = Some(economics);
        message.relayer_assignment = Some(self.generate_relayer_assignment());
        message.timeout = Some(Timeout::TimeoutTimestamp(timeout_timestamp));
        assert(message == finished_message(original, economics, message.relayer_assignment, timeout_timestamp));
        Ok(
            OptimisticSubmission {
                message,
                call_data,
                contract_address: self.evm_adapter.contract_address(),
                evm_chain_id: self.evm_adapter.evm_chain_id(),
                gas_limit: SUBMISSION_GAS_LIMIT,
            },
        )
    }
}

/// The route from the message's source chain to its destination.
fn submission_route_of(message: &UniversalMessage) -> (route: Route)
    requires
        message.source is Some,
        message.destination is Some,
    ensures
        route_ids(route) == submission_route(*message),
{
    let source = match &message.source {
        Some(s) => copy_string(s.chain_id.as_str()),
        None => String::new(),
    };
    let destination = match &message.destination {
        Some(d) => copy_string(d.chain_id.as_str()),
        None => String::new(),
    };
    let route = Route {
        path: vec![ChainId::new(source), ChainId::new(destination)],
        estimated_cost: empty_fee(),
        estimated_time_secs: 0,
        reliability_score_bps: 0,
    };
    assert(route_ids(route) =~= submission_route(*message));
    route
}

/// The call data of a submission: the arguments of `receivePacketOptimistic`
/// or of `receiveUIBCPacket`, ABI-encoded.
fn submission_call_data(
    ibc_data: &Option<IbcCompatibilityData>,
    use_optimistic: bool,
    challenge_period: Option<u64>,
    message_data: Vec<u8>,
    timeout: u64,
    proof: Vec<u8>,
    inputs: Vec<u8>,
) -> (r: Vec<u8>)
    ensures
        r@ == abi_encoding(
            if use_optimistic {
                optimistic_submission_args(*ibc_data, message_data@, timeout, proof@, inputs@)
            } else {
                uibc_submission_args(message_data@, proof@, inputs@, challenge_period)
            },
        ),
{
    let ghost data = message_data@;
    let ghost p = proof@;
    let ghost i = inputs@;
    if use_optimistic {
        let source_channel = match ibc_data {
            Some(d) => copy_string(d.source_channel.as_str()),
            None => copy_string("channel-0"),
        };
        let sequence: u64 = match ibc_data {
            Some(d) => d.sequence,
            None => 1,
        };
        let tokens = vec![
            AbiToken::Str(source_channel),
            AbiToken::Uint(sequence),
            AbiToken::Bytes(message_data),
            AbiToken::Uint(timeout),
            AbiToken::Bytes(proof),
            AbiToken::Bytes(inputs),
        ];
        let r = abi_encode(&tokens);
        assert(abi_values(tokens@) =~= optimistic_submission_args(*ibc_data, data, timeout, p, i));
        r
    } else {
        let proof_tokens = vec![AbiToken::Bytes(proof), AbiToken::Bytes(inputs)];
        let proof_data = abi_encode(&proof_tokens);
        assert(abi_values(proof_tokens@) =~= seq![AbiValue::Bytes(p), AbiValue::Bytes(i)]);
        let period: u64 = match challenge_period {
            Some(c) => c,
            None => 0,
        };
        let tokens = vec![
            AbiToken::Bytes(message_data),
            AbiToken::Bytes(proof_data),
            AbiToken::Uint(period),
        ];
        let r = abi_encode(&tokens);
        assert(abi_values(tokens@) =~= uibc_submission_args(data, p, i, challenge_period));
        r
    }
}

/// Pricing, validating and encoding a message see its relayer only through
/// the relayer's address bytes.
proof fn lemma_priced_by_view(
    c: FeeCalculator,
    m: UniversalMessage,
    v1: Vec<u8>,
    v2: Vec<u8>,
    path: Seq<Seq<char>>,
    congestion: nat,
    now: u64,
)
    requires
        v1@ == v2@,
    ensures
        c.fee_fits(with_assignment(m, v1), path, congestion, now) == c.fee_fits(
            with_assignment(m, v2),
            path,
            congestion,
            now,
        ),
        forall|b: nat|
            c.fee_stages(with_assignment(m, v1), path, b, congestion, now) == #[trigger] c.fee_stages(
                with_assignment(m, v2),
                path,
                b,
                congestion,
                now,
            ),
        validation_at(with_assignment(m, v1), now) == validation_at(with_assignment(m, v2), now),
        forall|fees: Option<MessageFees>|
            #[trigger] with_fees(with_assignment(m, v1), fees).encoding() == with_fees(
                with_assignment(m, v2),
                fees,
            ).encoding(),
{
    let a = with_assignment(m, v1);
    let b = with_assignment(m, v2);
    assert(relayer_key(a) == relayer_key(b));
    assert(c.adjustment_of(a) == c.adjustment_of(b));
    assert forall|fees: Option<MessageFees>|
        #[trigger] with_fees(a, fees).encoding() == with_fees(b, fees).encoding() by {
        assert(optional_assignment(a.relayer_assignment) == optional_assignment(
            b.relayer_assignment,
        ));
    }
}

/// A fee of nothing, for figures that pricing does not read.
fn empty_fee() -> (f: Fee)
    ensures
        f.amount@.len() == 0,
        f.denom@.len() == 0,
        f.chain_id@.len() == 0,
        f.decimals == 0,
{
    Fee { amount: String::new(), denom: String::new(), chain_id: String::new(), decimals: 0 }
}

fn flatten(items: &Vec<Vec<u8>>) -> (r: Vec<u8>)
    ensures
        r@ == flatten_bytes(items@.map_values(|v: Vec<u8>| v@)),
{
    let ghost all = items@.map_values(|v: Vec<u8>| v@);
    let mut r: Vec<u8> = Vec::new();
    let mut i: usize = 0;
    assert(all.take(0) =~= Seq::<Seq<u8>>::empty());
    while i < items.len()
        invariant
            i <= items.len(),
            all == items@.map_values(|v: Vec<u8>| v@),
            r@ == flatten_bytes(all.take(i as int)),
        decreases items.len() - i,
    {
        append_bytes(&mut r, items[i].as_slice());
        assert(all.take(i + 1).drop_last() =~= all.take(i as int));
        i = i + 1;
    }
    assert(all.take(items.len() as int) =~= all);
    r
}

} // verus!
