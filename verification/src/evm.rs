//! The adapter for EVM chains, set up for the optimistic dual-proof protocol:
//! it builds the calldata for the relay contract in each verification mode
//! and prices verification. Providers and transactions live outside.

use vstd::prelude::*;
use vstd::utf8::encode_utf8;
use crate::abi::{abi_encode, abi_encoding, abi_values, AbiToken, AbiValue};
use crate::bytes::{append_bytes, copy_bytes, copy_string};
use crate::chain_adapter::ChainId;
use crate::clock::unix_time_now;
use crate::decimal::{decimal_digits, parse_u64, parse_u64_spec, u64_to_decimal};
use crate::digest::{keccak256, keccak256_digest, sha256, sha256_digest};
use crate::error::RelayerError;
use crate::json_text::{transfer_json, transfer_to_json};
use crate::uibc::{Fee, Payload, TokenTransfer, UniversalMessage};

verus! {

/// The ZK verifier a relay contract runs.
#[derive(Debug, Clone, PartialEq, Eq)]
pub struct ZkVerifierConfig {
    pub circuit_id: String,
    pub verification_key: Vec<u8>,
    /// "stark", "groth16", "plonk"
    pub proof_system: String,
    pub gas_cost_per_verification: u64,
}

/// The optimistic side of the protocol on one chain.
#[derive(Debug, Clone, Copy, PartialEq, Eq)]
pub struct OptimisticConfig {
    pub challenge_period_seconds: u64,
    /// In wei.
    pub required_relayer_bond: u128,
    /// In wei.
    pub challenger_bond: u128,
    /// Basis points.
    pub fraud_slash_percentage: u32,
    /// Basis points.
    pub challenger_reward_percentage: u32,
}

#[derive(Debug, Clone, Copy, PartialEq, Eq)]
pub struct EVMAdapterConfig {
    pub confirmation_blocks: u64,
    pub max_block_range: u64,
    /// In basis points.
    pub gas_limit_multiplier_bps: u64,
    pub max_fee_per_gas: Option<u128>,
    pub max_priority_fee_per_gas: Option<u128>,
    pub contract_deployed_block: u64,
    pub supports_optimistic_verification: bool,
    pub supports_zk_verification: bool,
    pub default_verification_mode: VerificationMode,
}

/// How the relay contract verifies a message.
#[derive(Debug, Clone, Copy, PartialEq, Eq, Structural)]
pub enum VerificationMode {
    /// Full proof verification on chain.
    Traditional,
    /// ZK proof verification only.
    ZkOnly,
    /// Optimistic verification with a challenge period.
    Optimistic,
    /// ZK proof plus an optimistic challenge period.
    OptimisticDual,
}

/// The adapter for one relay contract on an EVM chain.
#[derive(Debug, Clone)]
pub struct EVMAdapter {
    chain_id: ChainId,
    evm_chain_id: u64,
    contract_address: [u8; 20],
    event_signatures: Vec<([u8; 32], String)>,
    zk_verifier: Option<ZkVerifierConfig>,
    optimistic_config: OptimisticConfig,
    config: EVMAdapterConfig,
}

/// An event of the relay contract's ABI: its name and the canonical names of
/// its parameters' types (`uint256`, `bytes32`, `(address,bool)`, ...).
#[derive(Debug, Clone, PartialEq, Eq)]
pub struct AbiEvent {
    pub name: String,
    pub param_types: Vec<String>,
}

/// Type names joined by commas, as UTF-8.
pub open spec fn joined_types(types: Seq<String>) -> Seq<u8>
    decreases types.len(),
{
    if types.len() == 0 {
        Seq::empty()
    } else if types.len() == 1 {
        encode_utf8(types[0]@)
    } else {
        joined_types(types.drop_last()) + seq![44u8] + encode_utf8(types.last()@)
    }
}

/// The canonical signature of an event, `name(type,type,...)`, as UTF-8.
pub open spec fn event_signature_text(e: AbiEvent) -> Seq<u8> {
    encode_utf8(e.name@) + seq![40u8] + joined_types(e.param_types@) + seq![41u8]
}

/// The topic under which an event is logged: the Keccak-256 digest of its
/// canonical signature.
pub open spec fn event_topic_of(e: AbiEvent) -> Seq<u8> {
    keccak256_digest(event_signature_text(e))
}

/// What the optimistic dual-proof mode saves over full verification.
#[derive(Debug, Clone, Copy, PartialEq, Eq)]
pub struct CostSavings {
    pub traditional_gas_cost: u64,
    pub optimistic_dual_gas_cost: u64,
    /// The share of the traditional cost saved, in basis points, rounded down.
    pub savings_bps: u64,
    /// Traditional cost over optimistic cost, in basis points, rounded down.
    pub savings_factor_bps: u64,
}

/// Blocks to wait for on an EVM chain: 12 on Ethereum, 128 on Polygon, 15 on
/// BSC, 1 on Avalanche, 12 elsewhere.
pub open spec fn confirmation_blocks_for(evm_chain_id: u64) -> u64 {
    if evm_chain_id == 1 {
        12
    } else if evm_chain_id == 137 {
        128
    } else if evm_chain_id == 56 {
        15
    } else if evm_chain_id == 43114 {
        1
    } else {
        12
    }
}

/// The challenge period on an EVM chain: 7 days on Ethereum, 2 hours on
/// Polygon, 6 hours on BSC, 1 hour on Avalanche, a day elsewhere.
pub open spec fn challenge_period_for(evm_chain_id: u64) -> u64 {
    if evm_chain_id == 1 {
        604800
    } else if evm_chain_id == 137 {
        7200
    } else if evm_chain_id == 56 {
        21600
    } else if evm_chain_id == 43114 {
        3600
    } else {
        86400
    }
}

/// The 4-byte selector of a contract function.
pub open spec fn function_selector(signature: Seq<char>) -> Seq<u8> {
    keccak256_digest(encode_utf8(signature)).take(4)
}

/// Calldata: the selector followed by the ABI-encoded arguments.
pub open spec fn calldata(signature: Seq<char>, args: Seq<AbiValue>) -> Seq<u8> {
    function_selector(signature) + abi_encoding(args)
}

/// The ZK proof attached to a message: the SHA-256 digest of its identifier,
/// the circuit identifier and a fixed label.
pub open spec fn zk_proof_bytes(message_id: Seq<u8>, circuit_id: Seq<char>) -> Seq<u8> {
    sha256_digest(message_id + encode_utf8(circuit_id) + encode_utf8("zk_proof_of_ics23_verification"@))
}

/// The claim an optimistic relayer makes: the SHA-256 digest of the message
/// identifier and the checkpoint's state root.
pub open spec fn claim_hash(m: UniversalMessage) -> Seq<u8> {
    sha256_digest(m.message_id@ + m.state_checkpoint.unwrap().state_root@)
}

/// The public inputs of the full proof: the checkpoint's state root and the
/// creation time (little-endian).
pub open spec fn zkp_public_inputs(m: UniversalMessage) -> Seq<u8> {
    m.state_checkpoint.unwrap().state_root@ + vstd::bytes::spec_u64_to_le_bytes(m.created_at)
}


/// The arguments of `receivePacketOptimistic(bytes,bytes,uint256)`: the
/// message, its ZK proof and the end of the challenge period.
pub open spec fn dual_args(m: UniversalMessage, proof: Seq<u8>, deadline: nat) -> Seq<AbiValue> {
    seq![AbiValue::Bytes(m.encoding()), AbiValue::Bytes(proof), AbiValue::Uint(deadline)]
}

/// The arguments of `receivePacketZK(bytes,bytes)`.
pub open spec fn zk_args(m: UniversalMessage, proof: Seq<u8>) -> Seq<AbiValue> {
    seq![AbiValue::Bytes(m.encoding()), AbiValue::Bytes(proof)]
}

/// The arguments of `receivePacketOptimistic(bytes,bytes32,uint256)`.
pub open spec fn optimistic_args(m: UniversalMessage, deadline: nat) -> Seq<AbiValue> {
    seq![AbiValue::Bytes(m.encoding()), AbiValue::FixedBytes(claim_hash(m)), AbiValue::Uint(deadline)]
}

/// The arguments of the traditional `receivePacket`: channel, sequence,
/// transfer JSON, timeout timestamp, a zero timeout height, the full
/// Tendermint proof, its public inputs, the full ICS-23 proof, and the
/// checkpoint's height and state root.
pub open spec fn traditional_args(m: UniversalMessage, transfer_record: Seq<u8>) -> Seq<AbiValue> {
    let d = m.ibc_data.unwrap();
    let c = m.state_checkpoint.unwrap();
    seq![
        AbiValue::Str(d.source_channel@),
        AbiValue::Uint(d.sequence as nat),
        AbiValue::Bytes(transfer_record),
        AbiValue::Uint(
            (match m.spec_timeout_timestamp() {
                Some(t) => t,
                None => 0,
            }) as nat,
        ),
        AbiValue::Uint(0),
        AbiValue::Bytes(Seq::new(512, |i: int| 0u8)),
        AbiValue::Bytes(zkp_public_inputs(m)),
        AbiValue::Bytes(Seq::new(1024, |i: int| 0u8)),
        AbiValue::Uint(c.height as nat),
        AbiValue::FixedBytes(c.state_root@),
    ]
}

} // verus!

verus! {

fn function_selector_of(signature: &str) -> (r: Vec<u8>)
    ensures
        r@ == function_selector(signature@),
{
    let digest = keccak256(signature.as_bytes());
    let mut r = Vec::new();
    r.push(digest[0]);
    r.push(digest[1]);
    r.push(digest[2]);
    r.push(digest[3]);
    assert(r@ =~= digest@.take(4));
    r
}

fn calldata_of(signature: &str, tokens: &Vec<AbiToken>) -> (r: Vec<u8>)
    ensures
        r@ == calldata(signature@, abi_values(tokens@)),
{
    let mut r = function_selector_of(signature);
    let encoded = abi_encode(tokens);
    append_bytes(&mut r, encoded.as_slice());
    r
}

/// The calldata for delivering `m` through the adapter in its mode at Unix
/// time `now`; only transfers with IBC data travel this way.
pub open spec fn contract_calldata_result(
    a: EVMAdapter,
    m: UniversalMessage,
    now: u64,
    r: Result<Vec<u8>, RelayerError>,
) -> bool {
    let deadline = (now + a.spec_optimistic_config().challenge_period_seconds) as nat;
    if m.ibc_data is None {
        r == Err::<Vec<u8>, RelayerError>(RelayerError::NoIbcData)
    } else {
        match m.payload {
            Some(Payload::TokenTransfer(t)) => match a.spec_config().default_verification_mode {
                VerificationMode::OptimisticDual => match a.spec_zk_verifier() {
                    None => r == Err::<Vec<u8>, RelayerError>(RelayerError::ZkVerifierNotConfigured),
                    Some(z) => r matches Ok(v) && v@ == calldata(
                        "receivePacketOptimistic(bytes,bytes,uint256)"@,
                        dual_args(m, zk_proof_bytes(m.message_id@, z.circuit_id@), deadline),
                    ),
                },
                VerificationMode::ZkOnly => match a.spec_zk_verifier() {
                    None => r == Err::<Vec<u8>, RelayerError>(RelayerError::ZkVerifierNotConfigured),
                    Some(z) => r matches Ok(v) && v@ == calldata(
                        "receivePacketZK(bytes,bytes)"@,
                        zk_args(m, zk_proof_bytes(m.message_id@, z.circuit_id@)),
                    ),
                },
                VerificationMode::Optimistic => r matches Ok(v) && v@ == calldata(
                    "receivePacketOptimistic(bytes,bytes32,uint256)"@,
                    optimistic_args(m, deadline),
                ),
                VerificationMode::Traditional => r matches Ok(v) && v@ == calldata(
                    "receivePacket(string,uint64,bytes,uint64,uint64,bytes,bytes,bytes,uint64,bytes32)"@,
                    traditional_args(m, transfer_json(t)),
                ),
            },
            _ => r == Err::<Vec<u8>, RelayerError>(RelayerError::UnsupportedMessageType),
        }
    }
}

/// Whether the adapter can encode `m` at Unix time `now` without running
/// out of range: for a transfer with IBC data, the deadline fits in the modes
/// that set one, and the message has a checkpoint in the modes that read it.
pub open spec fn contract_encoding_defined(a: EVMAdapter, m: UniversalMessage, now: u64) -> bool {
    (m.ibc_data is Some && (m.payload matches Some(Payload::TokenTransfer(_)))) ==> {
        &&& (a.spec_config().default_verification_mode == VerificationMode::OptimisticDual
            || a.spec_config().default_verification_mode == VerificationMode::Optimistic) ==> now
            + a.spec_optimistic_config().challenge_period_seconds <= u64::MAX
        &&& (a.spec_config().default_verification_mode == VerificationMode::Optimistic
            || a.spec_config().default_verification_mode == VerificationMode::Traditional)
            ==> m.state_checkpoint is Some
    }
}

/// The canonical signature of an event, as UTF-8.
pub fn event_signature_bytes(e: &AbiEvent) -> (r: Vec<u8>)
    ensures
        r@ == event_signature_text(*e),
{
    let mut buf: Vec<u8> = Vec::new();
    append_bytes(&mut buf, e.name.as_str().as_bytes());
    buf.push(40u8);
    let ghost head = encode_utf8(e.name@) + seq![40u8];
    assert(buf@ =~= head);
    let types = &e.param_types;
    let mut i: usize = 0;
    assert(types@.take(0) =~= Seq::<String>::empty());
    while i < types.len()
        invariant
            i <= types.len(),
            types == &e.param_types,
            head == encode_utf8(e.name@) + seq![40u8],
            buf@ == head + joined_types(types@.take(i as int)),
        decreases types.len() - i,
    {
        let ghost before = buf@;
        if i > 0 {
            buf.push(44u8);
        }
        append_bytes(&mut buf, types[i].as_str().as_bytes());
        proof {
            let next = types@.take(i + 1);
            assert(next.drop_last() =~= types@.take(i as int));
            assert(next.last() == types@[i as int]);
            if i == 0 {
                assert(types@.take(0) =~= Seq::<String>::empty());
                assert(buf@ =~= head + joined_types(next));
            } else {
                assert(buf@ =~= head + joined_types(next));
            }
        }
        i = i + 1;
    }
    assert(types@.take(types.len() as int) =~= types@);
    buf.push(41u8);
    assert(buf@ =~= event_signature_text(*e));
    buf
}

/// The topic under which an event is logged.
pub fn event_topic(e: &AbiEvent) -> (t: [u8; 32])
    ensures
        t@ == event_topic_of(*e),
{
    let text = event_signature_bytes(e);
    keccak256(text.as_slice())
}

/// The topics of a contract's events, each with the event's name, in the
/// order of the ABI.
pub fn event_signature_table(events: &Vec<AbiEvent>) -> (r: Vec<([u8; 32], String)>)
    ensures
        r@.len() == events@.len(),
        forall|i: int|
            0 <= i < events@.len() ==> (#[trigger] r@[i]).0@ == event_topic_of(events@[i])
                && r@[i].1@ == events@[i].name@,
{
    let mut r: Vec<([u8; 32], String)> = Vec::new();
    let mut i: usize = 0;
    while i < events.len()
        invariant
            i <= events.len(),
            r@.len() == i,
            forall|j: int|
                0 <= j < i ==> (#[trigger] r@[j]).0@ == event_topic_of(events@[j]) && r@[j].1@
                    == events@[j].name@,
        decreases events.len() - i,
    {
        let topic = event_topic(&events[i]);
        r.push((topic, copy_string(events[i].name.as_str())));
        i = i + 1;
    }
    r
}

impl EVMAdapter {
    pub closed spec fn spec_chain_id(&self) -> Seq<char> {
        self.chain_id@
    }

    pub closed spec fn spec_evm_chain_id(&self) -> u64 {
        self.evm_chain_id
    }

    pub closed spec fn spec_contract_address(&self) -> [u8; 20] {
        self.contract_address
    }

    pub closed spec fn spec_event_signatures(&self) -> Seq<([u8; 32], String)> {
        self.event_signatures@
    }

    pub closed spec fn spec_zk_verifier(&self) -> Option<ZkVerifierConfig> {
        self.zk_verifier
    }

    pub closed spec fn spec_optimistic_config(&self) -> OptimisticConfig {
        self.optimistic_config
    }

    pub closed spec fn spec_config(&self) -> EVMAdapterConfig {
        self.config
    }

    /// A new adapter for the relay contract at `contract_address`, with the
    /// topic and name of each event of the contract's ABI. Chains with a ZK
    /// verifier run the optimistic dual-proof mode, others full verification.
    pub fn new(
        chain_id: String,
        evm_chain_id: u64,
        contract_address: [u8; 20],
        contract_events: &Vec<AbiEvent>,
        zk_config: Option<ZkVerifierConfig>,
    ) -> (r: Result<Self, RelayerError>)
        ensures
            r matches Ok(a) && {
                &&& a.spec_chain_id() == chain_id@
                &&& a.spec_evm_chain_id() == evm_chain_id
                &&& a.spec_contract_address() == contract_address
                &&& a.spec_event_signatures().len() == contract_events@.len()
                &&& forall|i: int|
                    0 <= i < contract_events@.len() ==> (#[trigger] a.spec_event_signatures()[i]).0@
                        == event_topic_of(contract_events@[i])
                        && a.spec_event_signatures()[i].1@ == contract_events@[i].name@
                &&& a.spec_zk_verifier() == zk_config
                &&& a.spec_config().confirmation_blocks == confirmation_blocks_for(evm_chain_id)
                &&& a.spec_config().max_block_range == 1000
                &&& a.spec_config().gas_limit_multiplier_bps == 12000
                &&& a.spec_config().max_fee_per_gas is None
                &&& a.spec_config().max_priority_fee_per_gas is None
                &&& a.spec_config().contract_deployed_block == 0
                &&& a.spec_config().supports_optimistic_verification
                &&& a.spec_config().supports_zk_verification == zk_config is Some
                &&& a.spec_config().default_verification_mode == (if zk_config is Some {
                    VerificationMode::OptimisticDual
                } else {
                    VerificationMode::Traditional
                })
                &&& a.spec_optimistic_config().challenge_period_seconds == challenge_period_for(
                    evm_chain_id,
                )
                &&& evm_chain_id == 1 ==> a.spec_optimistic_config().challenge_period_seconds
                    == 7 * 24 * 3600
                &&& a.spec_optimistic_config().required_relayer_bond == 1_000_000_000_000_000_000
                &&& a.spec_optimistic_config().challenger_bond == 100_000_000_000_000_000
                &&& a.spec_optimistic_config().fraud_slash_percentage == 10000
                &&& a.spec_optimistic_config().challenger_reward_percentage == 2000
            },
    {
        let confirmation_blocks: u64 = if evm_chain_id == 1 {
            12
        } else if evm_chain_id == 137 {
            128
        } else if evm_chain_id == 56 {
            15
        } else if evm_chain_id == 43114 {
            1
        } else {
            12
        };
        let challenge_period: u64 = if evm_chain_id == 1 {
            7 * 24 * 3600
        } else if evm_chain_id == 137 {
            2 * 3600
        } else if evm_chain_id == 56 {
            6 * 3600
        } else if evm_chain_id == 43114 {
            3600
        } else {
            24 * 3600
        };
        let event_signatures = event_signature_table(contract_events);
        let has_zk = zk_config.is_some();
        let config = EVMAdapterConfig {
            confirmation_blocks,
            max_block_range: 1000,
            gas_limit_multiplier_bps: 12000,
            max_fee_per_gas: None,
            max_priority_fee_per_gas: None,
            contract_deployed_block: 0,
            supports_optimistic_verification: true,
            supports_zk_verification: has_zk,
            default_verification_mode: if has_zk {
                VerificationMode::OptimisticDual
            } else {
                VerificationMode::Traditional
            },
        };
        let optimistic_config = OptimisticConfig {
            challenge_period_seconds: challenge_period,
            required_relayer_bond: 1_000_000_000_000_000_000,
            challenger_bond: 100_000_000_000_000_000,
            fraud_slash_percentage: 10000,
            challenger_reward_percentage: 2000,
        };
        Ok(
            EVMAdapter {
                chain_id: ChainId::new(chain_id),
                evm_chain_id,
                contract_address,
                event_signatures,
                zk_verifier: zk_config,
                optimistic_config,
                config,
            },
        )
    }

    pub fn evm_chain_id(&self) -> (id: u64)
        ensures
            id == self.spec_evm_chain_id(),
    {
        self.evm_chain_id
    }

    pub fn contract_address(&self) -> (a: [u8; 20])
        ensures
            a == self.spec_contract_address(),
    {
        self.contract_address
    }

    pub fn verification_mode(&self) -> (m: VerificationMode)
        ensures
            m == self.spec_config().default_verification_mode,
    {
        self.config.default_verification_mode
    }

    /// The adapter in another verification mode.
    pub fn with_verification_mode(self, mode: VerificationMode) -> (a: Self)
        ensures
            a.spec_config() == (EVMAdapterConfig {
                default_verification_mode: mode,
                ..self.spec_config()
            }),
            a.spec_chain_id() == self.spec_chain_id(),
            a.spec_evm_chain_id() == self.spec_evm_chain_id(),
            a.spec_contract_address() == self.spec_contract_address(),
            a.spec_event_signatures() == self.spec_event_signatures(),
            a.spec_zk_verifier() == self.spec_zk_verifier(),
            a.spec_optimistic_config() == self.spec_optimistic_config(),
    {
        let mut a = self;
        a.config.default_verification_mode = mode;
        a
    }

    /// The message in its wire encoding.
    pub fn to_bytes(&self, message: &UniversalMessage) -> (r: Result<Vec<u8>, RelayerError>)
        ensures
            r matches Ok(v) && v@ == message.encoding(),
    {
        Ok(message.encode_to_vec())
    }

    /// The ZK proof of ICS-23 verification for a message.
    pub fn generate_zk_proof_of_ics23_verification(&self, message: &UniversalMessage) -> (r: Result<
        Vec<u8>,
        RelayerError,
    >)
        ensures
            match self.spec_zk_verifier() {
                None => r == Err::<Vec<u8>, RelayerError>(RelayerError::ZkVerifierNotConfigured),
                Some(z) => r matches Ok(v) && v@ == zk_proof_bytes(message.message_id@, z.circuit_id@),
            },
    {
        let zk = match &self.zk_verifier {
            Some(z) => z,
            None => {
                return Err(RelayerError::ZkVerifierNotConfigured);
            },
        };
        let mut buf: Vec<u8> = Vec::new();
        append_bytes(&mut buf, message.message_id.as_slice());
        append_bytes(&mut buf, zk.circuit_id.as_str().as_bytes());
        append_bytes(&mut buf, "zk_proof_of_ics23_verification".as_bytes());
        let digest = sha256(buf.as_slice());
        Ok(copy_bytes(digest.as_slice()))
    }

    /// Calldata for `receivePacketOptimistic(bytes,bytes,uint256)`: the
    /// message with its ZK proof, open to challenge until `now` plus the
    /// challenge period.
    pub fn encode_optimistic_dual_proof_message(
        &self,
        message: &UniversalMessage,
        transfer: &TokenTransfer,
        now: u64,
    ) -> (r: Result<Vec<u8>, RelayerError>)
        requires
            now + self.spec_optimistic_config().challenge_period_seconds <= u64::MAX,
        ensures
            match self.spec_zk_verifier() {
                None => r == Err::<Vec<u8>, RelayerError>(RelayerError::ZkVerifierNotConfigured),
                Some(z) => r matches Ok(v) && v@ == calldata(
                    "receivePacketOptimistic(bytes,bytes,uint256)"@,
                    dual_args(
                        *message,
                        zk_proof_bytes(message.message_id@, z.circuit_id@),
                        (now + self.spec_optimistic_config().challenge_period_seconds) as nat,
                    ),
                ),
            },
    {
        let zk_proof = match self.generate_zk_proof_of_ics23_verification(message) {
            Ok(p) => p,
            Err(e) => {
                return Err(e);
            },
        };
        let encoded = message.encode_to_vec();
        let mut tokens: Vec<AbiToken> = Vec::new();
        tokens.push(AbiToken::Bytes(encoded));
        tokens.push(AbiToken::Bytes(zk_proof));
        tokens.push(AbiToken::Uint(now + self.optimistic_config.challenge_period_seconds));
        assert(abi_values(tokens@) =~~= dual_args(
            *message,
            zk_proof@,
            (now + self.spec_optimistic_config().challenge_period_seconds) as nat,
        ));
        Ok(calldata_of("receivePacketOptimistic(bytes,bytes,uint256)", &tokens))
    }

    /// Calldata for `receivePacketZK(bytes,bytes)`: the message with its ZK
    /// proof.
    pub fn encode_zk_only_message(&self, message: &UniversalMessage, transfer: &TokenTransfer) -> (r:
        Result<Vec<u8>, RelayerError>)
        ensures
            match self.spec_zk_verifier() {
                None => r == Err::<Vec<u8>, RelayerError>(RelayerError::ZkVerifierNotConfigured),
                Some(z) => r matches Ok(v) && v@ == calldata(
                    "receivePacketZK(bytes,bytes)"@,
                    zk_args(*message, zk_proof_bytes(message.message_id@, z.circuit_id@)),
                ),
            },
    {
        let zk_proof = match self.generate_zk_proof_of_ics23_verification(message) {
            Ok(p) => p,
            Err(e) => {
                return Err(e);
            },
        };
        let encoded = message.encode_to_vec();
        let mut tokens: Vec<AbiToken> = Vec::new();
        tokens.push(AbiToken::Bytes(encoded));
        tokens.push(AbiToken::Bytes(zk_proof));
        assert(abi_values(tokens@) =~~= zk_args(*message, zk_proof@));
        Ok(calldata_of("receivePacketZK(bytes,bytes)", &tokens))
    }

    /// The claim an optimistic relayer makes for a message.
    pub fn generate_claim_hash(&self, message: &UniversalMessage) -> (r: Result<[u8; 32], RelayerError>)
        requires
            message.state_checkpoint is Some,
        ensures
            r matches Ok(h) && h@ == claim_hash(*message),
    {
        let checkpoint = match &message.state_checkpoint {
            Some(c) => c,
            None => {
                return Err(RelayerError::InvalidStateRootLength);
            },
        };
        let mut buf: Vec<u8> = Vec::new();
        append_bytes(&mut buf, message.message_id.as_slice());
        append_bytes(&mut buf, checkpoint.state_root.as_slice());
        Ok(sha256(buf.as_slice()))
    }

    /// Calldata for `receivePacketOptimistic(bytes,bytes32,uint256)`: the
    /// message with the relayer's claim, open to challenge until `now` plus
    /// the challenge period.
    pub fn encode_optimistic_message(
        &self,
        message: &UniversalMessage,
        transfer: &TokenTransfer,
        now: u64,
    ) -> (r: Result<Vec<u8>, RelayerError>)
        requires
            now + self.spec_optimistic_config().challenge_period_seconds <= u64::MAX,
            message.state_checkpoint is Some,
        ensures
            r matches Ok(v) && v@ == calldata(
                "receivePacketOptimistic(bytes,bytes32,uint256)"@,
                optimistic_args(
                    *message,
                    (now + self.spec_optimistic_config().challenge_period_seconds) as nat,
                ),
            ),
    {
        let claim = match self.generate_claim_hash(message) {
            Ok(h) => h,
            Err(e) => {
                return Err(e);
            },
        };
        let encoded = message.encode_to_vec();
        let mut tokens: Vec<AbiToken> = Vec::new();
        tokens.push(AbiToken::Bytes(encoded));
        tokens.push(AbiToken::FixedBytes(copy_bytes(claim.as_slice())));
        tokens.push(AbiToken::Uint(now + self.optimistic_config.challenge_period_seconds));
        assert(abi_values(tokens@) =~~= optimistic_args(
            *message,
            (now + self.spec_optimistic_config().challenge_period_seconds) as nat,
        ));
        Ok(calldata_of("receivePacketOptimistic(bytes,bytes32,uint256)", &tokens))
    }

    /// The full Tendermint proof for a message; the proof is not produced
    /// here and is 512 zero bytes.
    pub fn generate_full_tendermint_proof(&self, message: &UniversalMessage) -> (r: Result<
        Vec<u8>,
        RelayerError,
    >)
        ensures
            r matches Ok(v) && v@ == Seq::new(512, |i: int| 0u8),
    {
        let v = vec![0u8; 512];
        assert(v@ =~= Seq::new(512, |i: int| 0u8));
        Ok(v)
    }

    /// The public inputs of the full proof.
    pub fn generate_zkp_public_inputs(&self, message: &UniversalMessage) -> (r: Result<
        Vec<u8>,
        RelayerError,
    >)
        requires
            message.state_checkpoint is Some,
        ensures
            r matches Ok(v) && v@ == zkp_public_inputs(*message),
    {
        let checkpoint = match &message.state_checkpoint {
            Some(c) => c,
            None => {
                return Err(RelayerError::InvalidStateRootLength);
            },
        };
        let mut inputs: Vec<u8> = Vec::new();
        append_bytes(&mut inputs, checkpoint.state_root.as_slice());
        let created = vstd::bytes::u64_to_le_bytes(message.created_at);
        append_bytes(&mut inputs, created.as_slice());
        Ok(inputs)
    }

    /// The full ICS-23 proof for a message; the proof is not produced here
    /// and is 1 024 zero bytes.
    pub fn generate_full_ics23_proof(&self, message: &UniversalMessage) -> (r: Result<
        Vec<u8>,
        RelayerError,
    >)
        ensures
            r matches Ok(v) && v@ == Seq::new(1024, |i: int| 0u8),
    {
        let v = vec![0u8; 1024];
        assert(v@ =~= Seq::new(1024, |i: int| 0u8));
        Ok(v)
    }

    /// Calldata for the traditional `receivePacket`, with full proofs.
    pub fn encode_traditional_message(&self, message: &UniversalMessage, transfer: &TokenTransfer) -> (r:
        Result<Vec<u8>, RelayerError>)
        requires
            message.ibc_data is Some,
            message.state_checkpoint is Some,
        ensures
            r matches Ok(v) && v@ == calldata(
                "receivePacket(string,uint64,bytes,uint64,uint64,bytes,bytes,bytes,uint64,bytes32)"@,
                traditional_args(*message, transfer_json(*transfer)),
            ),
    {
        let ibc_data = match &message.ibc_data {
            Some(d) => d,
            None => {
                return Err(RelayerError::NoIbcData);
            },
        };
        let checkpoint = match &message.state_checkpoint {
            Some(c) => c,
            None => {
                return Err(RelayerError::InvalidStateRootLength);
            },
        };
        let record = transfer_to_json(transfer);
        let timeout = match message.timeout_timestamp() {
            Some(t) => t,
            None => 0,
        };
        let tendermint_proof = match self.generate_full_tendermint_proof(message) {
            Ok(v) => v,
            Err(e) => {
                return Err(e);
            },
        };
        let public_inputs = match self.generate_zkp_public_inputs(message) {
            Ok(v) => v,
            Err(e) => {
                return Err(e);
            },
        };
        let ics23_proof = match self.generate_full_ics23_proof(message) {
            Ok(v) => v,
            Err(e) => {
                return Err(e);
            },
        };
        let mut tokens: Vec<AbiToken> = Vec::new();
        tokens.push(AbiToken::Str(ibc_data.source_channel.clone()));
        tokens.push(AbiToken::Uint(ibc_data.sequence));
        tokens.push(AbiToken::Bytes(record));
        tokens.push(AbiToken::Uint(timeout));
        tokens.push(AbiToken::Uint(0));
        tokens.push(AbiToken::Bytes(tendermint_proof));
        tokens.push(AbiToken::Bytes(public_inputs));
        tokens.push(AbiToken::Bytes(ics23_proof));
        tokens.push(AbiToken::Uint(checkpoint.height));
        tokens.push(AbiToken::FixedBytes(copy_bytes(checkpoint.state_root.as_slice())));
        assert(abi_values(tokens@) =~~= traditional_args(
            *message,
            transfer_json(*transfer),
        ));
        Ok(
            calldata_of(
                "receivePacket(string,uint64,bytes,uint64,uint64,bytes,bytes,bytes,uint64,bytes32)",
                &tokens,
            ),
        )
    }

    /// Calldata for delivering a message in the adapter's verification mode,
    /// at Unix time `now`.
    pub fn encode_message_for_optimistic_contract(&self, message: &UniversalMessage, now: u64) -> (r:
        Result<Vec<u8>, RelayerError>)
        requires
            contract_encoding_defined(*self, *message, now),
        ensures
            contract_calldata_result(*self, *message, now, r),
    {
        if message.ibc_data.is_none() {
            return Err(RelayerError::NoIbcData);
        }
        match &message.payload {
            Some(Payload::TokenTransfer(transfer)) => match self.config.default_verification_mode {
                VerificationMode::OptimisticDual => {
                    self.encode_optimistic_dual_proof_message(message, transfer, now)
                },
                VerificationMode::ZkOnly => self.encode_zk_only_message(message, transfer),
                VerificationMode::Optimistic => {
                    self.encode_optimistic_message(message, transfer, now)
                },
                VerificationMode::Traditional => {
                    self.encode_traditional_message(message, transfer)
                },
            },
            _ => Err(RelayerError::UnsupportedMessageType),
        }
    }

    /// Calldata for delivering a message now.
    pub fn encode_message_for_contract(&self, message: &UniversalMessage) -> (r: Result<
        Vec<u8>,
        RelayerError,
    >)
        requires
            (message.ibc_data is Some && (message.payload matches Some(Payload::TokenTransfer(_))))
                ==> ((self.spec_config().default_verification_mode == VerificationMode::Optimistic
                || self.spec_config().default_verification_mode == VerificationMode::Traditional)
                ==> message.state_checkpoint is Some),
        ensures
            r == Err::<Vec<u8>, RelayerError>(RelayerError::ClockBeforeEpoch) || r == Err::<
                Vec<u8>,
                RelayerError,
            >(RelayerError::TimestampOverflow) || exists|now: u64|
                contract_calldata_result(*self, *message, now, r),
    {
        let now = match unix_time_now() {
            Some(t) => t,
            None => {
                return Err(RelayerError::ClockBeforeEpoch);
            },
        };
        if now > u64::MAX - self.optimistic_config.challenge_period_seconds {
            return Err(RelayerError::TimestampOverflow);
        }
        self.encode_message_for_optimistic_contract(message, now)
    }
}

} // verus!

verus! {

/// The gas that verifying a message costs in the adapter's mode: the ZK
/// verifier's cost (5 000 without one) in the ZK modes, 10 000 in the
/// optimistic mode, 500 000 for full verification.
pub open spec fn verification_gas_of(a: EVMAdapter) -> nat {
    match a.spec_config().default_verification_mode {
        VerificationMode::OptimisticDual | VerificationMode::ZkOnly => match a.spec_zk_verifier() {
            Some(z) => z.gas_cost_per_verification as nat,
            None => 5000,
        },
        VerificationMode::Optimistic => 10000,
        VerificationMode::Traditional => 500000,
    }
}

/// The savings of paying `optimistic` instead of `traditional` gas.
pub open spec fn cost_savings_of(traditional: nat, optimistic: nat, s: CostSavings) -> bool {
    &&& s.traditional_gas_cost == traditional
    &&& s.optimistic_dual_gas_cost == optimistic
    &&& s.savings_bps == (traditional - optimistic) * 10000 / (traditional as int)
    &&& s.savings_factor_bps == (if optimistic == 0 || traditional * 10000 / optimistic > u64::MAX as nat {
        u64::MAX as nat
    } else {
        traditional * 10000 / optimistic
    })
}

impl EVMAdapter {
    /// The gas of delivering a message in the adapter's mode, given the
    /// chain's base fee for it.
    pub fn estimate_verification_fee(&self, base_fee: &Fee) -> (r: Result<Fee, RelayerError>)
        requires
            parse_u64_spec(encode_utf8(base_fee.amount@)) matches Some(b) ==> b + verification_gas_of(
                *self,
            ) <= u64::MAX,
        ensures
            match parse_u64_spec(encode_utf8(base_fee.amount@)) {
                None => r == Err::<Fee, RelayerError>(RelayerError::InvalidFeeAmount),
                Some(b) => r matches Ok(f) && {
                    &&& f.amount@ == decimal_digits((b + verification_gas_of(*self)) as nat)
                    &&& f.denom@ == "gas"@
                    &&& f.chain_id@ == self.spec_chain_id()
                    &&& f.decimals == 0
                },
            },
    {
        let base_gas = match parse_u64(base_fee.amount.as_str()) {
            Some(b) => b,
            None => {
                return Err(RelayerError::InvalidFeeAmount);
            },
        };
        let verification_gas: u64 = match self.config.default_verification_mode {
            VerificationMode::OptimisticDual | VerificationMode::ZkOnly => match &self.zk_verifier {
                Some(z) => z.gas_cost_per_verification,
                None => 5000,
            },
            VerificationMode::Optimistic => 10000,
            VerificationMode::Traditional => 500000,
        };
        Ok(
            Fee {
                amount: u64_to_decimal(base_gas + verification_gas),
                denom: copy_string("gas"),
                chain_id: copy_string(self.chain_id.as_str()),
                decimals: 0,
            },
        )
    }

    /// What the adapter's mode saves over full verification, given the
    /// chain's base fee for a message.
    pub fn calculate_cost_savings(&self, base_fee: &Fee) -> (r: Result<CostSavings, RelayerError>)
        requires
            parse_u64_spec(encode_utf8(base_fee.amount@)) matches Some(b) ==> b + 500000 <= u64::MAX,
            verification_gas_of(*self) <= 500000,
        ensures
            match parse_u64_spec(encode_utf8(base_fee.amount@)) {
                None => r == Err::<CostSavings, RelayerError>(RelayerError::InvalidFeeAmount),
                Some(b) => r matches Ok(s) && cost_savings_of(
                    (b + 500000) as nat,
                    (b + verification_gas_of(*self)) as nat,
                    s,
                ),
            },
    {
        let base_gas = match parse_u64(base_fee.amount.as_str()) {
            Some(b) => b,
            None => {
                return Err(RelayerError::InvalidFeeAmount);
            },
        };
        let verification_gas: u64 = match self.config.default_verification_mode {
            VerificationMode::OptimisticDual | VerificationMode::ZkOnly => match &self.zk_verifier {
                Some(z) => z.gas_cost_per_verification,
                None => 5000,
            },
            VerificationMode::Optimistic => 10000,
            VerificationMode::Traditional => 500000,
        };
        let traditional = base_gas + 500000;
        let optimistic = base_gas + verification_gas;
        let saved = traditional - optimistic;
        assert((saved as int) * 10000 / (traditional as int) <= 10000) by (nonlinear_arith)
            requires
                saved <= traditional,
                traditional > 0,
        ;
        let savings_bps = ((saved as u128) * 10000 / (traditional as u128)) as u64;
        let factor: u64 = if optimistic == 0 {
            u64::MAX
        } else {
            let f = (traditional as u128) * 10000 / (optimistic as u128);
            if f > u64::MAX as u128 {
                u64::MAX
            } else {
                f as u64
            }
        };
        Ok(
            CostSavings {
                traditional_gas_cost: traditional,
                optimistic_dual_gas_cost: optimistic,
                savings_bps,
                savings_factor_bps: factor,
            },
        )
    }
}

} // verus!
