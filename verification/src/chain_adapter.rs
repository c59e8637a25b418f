//! Types shared by the chain adapters: chain identities, blocks, headers,
//! proofs, receipts and the network figures that pricing reads.
//!
//! Ratios are kept in basis points (10 000 = 1.0) and durations in seconds
//! (milliseconds where named so).

use vstd::prelude::*;
use crate::uibc::{Fee, Height};

verus! {

/// The identifier of a chain, such as `cosmoshub-4`.
#[derive(Debug, Clone, PartialEq, Eq, Hash)]
pub struct ChainId(String);

impl View for ChainId {
    type V = Seq<char>;

    closed spec fn view(&self) -> Seq<char> {
        self.0@
    }
}

impl ChainId {
    pub fn new(id: String) -> (c: Self)
        ensures
            c@ == id@,
    {
        ChainId(id)
    }

    pub fn as_str(&self) -> (s: &str)
        ensures
            s@ == self@,
    {
        self.0.as_str()
    }

    /// A copy of the identifier.
    pub fn duplicate(&self) -> (c: Self)
        ensures
            c@ == self@,
    {
        ChainId(self.0.clone())
    }
}

impl From<String> for ChainId {
    fn from(id: String) -> (c: Self)
        ensures
            c@ == id@,
    {
        ChainId(id)
    }
}

impl vstd::std_specs::convert::FromSpecImpl<String> for ChainId {
    open spec fn obeys_from_spec() -> bool {
        true
    }

    closed spec fn from_spec(v: String) -> Self {
        ChainId(v)
    }
}

/// How a chain reaches consensus.
#[derive(Debug, Clone, Copy, PartialEq, Eq, Structural)]
pub enum ConsensusType {
    Tendermint,
    PoS,
    PoW,
    PoA,
    DPoS,
    Unknown,
}

/// A proof that a key holds a value (or holds none) under a state root.
#[derive(Debug, Clone, PartialEq, Eq, Default)]
pub struct InclusionProof {
    pub proof_data: Vec<u8>,
    pub path: Vec<u8>,
    pub value: Vec<u8>,
    /// "merkle", "verkle", "ics23", ...
    pub proof_type: String,
}

#[derive(Debug, Clone, Copy, PartialEq, Eq, Default)]
pub struct StateRoot {
    pub hash: [u8; 32],
    pub height: u64,
    pub timestamp: u64,
}

#[derive(Debug, Clone, PartialEq, Eq, Default)]
pub struct Block {
    pub height: u64,
    pub hash: [u8; 32],
    pub timestamp: u64,
    pub transactions: Vec<Transaction>,
    /// Logs, on EVM chains.
    pub logs: Vec<Log>,
    /// Events, on Cosmos chains.
    pub events: Vec<Event>,
    pub state_root: StateRoot,
}

#[derive(Debug, Clone, PartialEq, Eq, Default)]
pub struct Transaction {
    pub hash: [u8; 32],
    pub from: Vec<u8>,
    pub to: Option<Vec<u8>>,
    pub data: Vec<u8>,
    pub events: Vec<Event>,
}

#[derive(Debug, Clone, PartialEq, Eq, Default)]
pub struct Log {
    pub address: [u8; 20],
    pub topics: Vec<[u8; 32]>,
    pub data: Vec<u8>,
}

#[derive(Debug, Clone, PartialEq, Eq, Default)]
pub struct Event {
    pub event_type: String,
    pub attributes: Vec<EventAttribute>,
}

#[derive(Debug, Clone, PartialEq, Eq, Default)]
pub struct EventAttribute {
    pub key: String,
    pub value: String,
}

#[derive(Debug, Clone, Copy, PartialEq, Eq, Default)]
pub struct Header {
    pub height: u64,
    pub hash: [u8; 32],
    pub parent_hash: [u8; 32],
    pub timestamp: u64,
    pub state_root: [u8; 32],
    /// The validator set hash, on Tendermint chains.
    pub validator_set_hash: Option<[u8; 32]>,
}

#[derive(Debug, Clone, PartialEq, Eq, Default)]
pub struct ValidatorSet {
    pub validators: Vec<Validator>,
    pub total_voting_power: u64,
}

#[derive(Debug, Clone, PartialEq, Eq, Default)]
pub struct Validator {
    pub address: Vec<u8>,
    pub public_key: Vec<u8>,
    pub voting_power: u64,
}

#[derive(Debug, Clone, PartialEq, Eq, Default)]
pub struct Signature {
    pub signature: Vec<u8>,
    pub public_key: Vec<u8>,
    pub validator_address: Vec<u8>,
}

#[derive(Debug, Clone, PartialEq, Eq)]
pub struct TransactionReceipt {
    pub tx_hash: [u8; 32],
    pub block_hash: [u8; 32],
    pub block_height: u64,
    pub gas_used: u64,
    pub status: TransactionStatus,
    pub logs: Vec<Log>,
    pub events: Vec<Event>,
}

#[derive(Debug, Clone, Copy, PartialEq, Eq, Structural)]
pub enum TransactionStatus {
    Success,
    Failed,
    Pending,
}

/// A path of chains a message may take.
#[derive(Debug, Clone, PartialEq, Eq)]
pub struct Route {
    pub path: Vec<ChainId>,
    pub estimated_cost: Fee,
    pub estimated_time_secs: u64,
    /// From 0 to 10 000.
    pub reliability_score_bps: u64,
}

/// Network figures for dynamic pricing.
#[derive(Debug, Clone, PartialEq, Eq)]
pub struct NetworkConditions {
    pub congestion_multiplier_bps: u64,
    pub average_block_time_secs: u64,
    pub gas_price: Fee,
    pub finality_time_secs: u64,
}

/// What a chain supports.
#[derive(Debug, Clone, PartialEq, Eq)]
pub struct ChainCapabilities {
    pub supports_smart_contracts: bool,
    pub supports_zk_proofs: bool,
    pub supports_optimistic_proofs: bool,
    pub max_message_size: usize,
    pub supported_proof_types: Vec<String>,
}

/// A relayer that offers to deliver messages.
#[derive(Debug, Clone, PartialEq, Eq)]
pub struct RelayerInfo {
    pub address: Vec<u8>,
    pub bond_amount: u64,
    /// From 0 to 10 000.
    pub reliability_score_bps: u64,
    pub latency_ms: u64,
}

#[derive(Debug, Clone, PartialEq, Eq)]
pub struct HealthStatus {
    pub is_healthy: bool,
    pub latest_block_height: u64,
    pub blocks_behind: u64,
    pub peer_count: u32,
    pub sync_status: SyncStatus,
    /// Unix seconds.
    pub last_checked: u64,
}

#[derive(Debug, Clone, Copy, PartialEq, Eq, Structural)]
pub enum SyncStatus {
    Synced,
    Syncing,
    Stalled,
    Disconnected,
}

/// How an adapter reaches its chain.
#[derive(Debug, Clone, PartialEq, Eq)]
pub struct AdapterConfig {
    pub rpc_endpoints: Vec<String>,
    pub ws_endpoints: Vec<String>,
    pub contract_addresses: Vec<(String, Vec<u8>)>,
    /// For transaction signing.
    pub private_key: Option<Vec<u8>>,
    pub gas_config: GasConfig,
    pub retry_config: RetryConfig,
}

#[derive(Debug, Clone, PartialEq, Eq)]
pub struct GasConfig {
    pub max_gas_price: Fee,
    /// Buffer on gas estimates, in basis points.
    pub gas_multiplier_bps: u64,
    pub priority_fee: Fee,
}

#[derive(Debug, Clone, Copy, PartialEq, Eq)]
pub struct RetryConfig {
    pub max_retries: u32,
    pub initial_delay_ms: u64,
    pub max_delay_ms: u64,
    /// In basis points.
    pub backoff_factor_bps: u64,
}

/// The mathematical value of an IBC packet.
pub struct PacketModel {
    pub sequence: u64,
    pub source_port: Seq<char>,
    pub source_channel: Seq<char>,
    pub destination_port: Seq<char>,
    pub destination_channel: Seq<char>,
    pub data: Seq<u8>,
    pub timeout_height: Height,
    pub timeout_timestamp: u64,
}

impl View for IbcPacket {
    type V = PacketModel;

    open spec fn view(&self) -> PacketModel {
        PacketModel {
            sequence: self.sequence,
            source_port: self.source_port@,
            source_channel: self.source_channel@,
            destination_port: self.destination_port@,
            destination_channel: self.destination_channel@,
            data: self.data@,
            timeout_height: self.timeout_height_on_b,
            timeout_timestamp: self.timeout_timestamp_on_b,
        }
    }
}

/// An IBC packet, as chains commit and relay it.
#[derive(Debug, Clone, PartialEq, Eq, Default)]
pub struct IbcPacket {
    pub sequence: u64,
    pub source_port: String,
    pub source_channel: String,
    pub destination_port: String,
    pub destination_channel: String,
    pub data: Vec<u8>,
    pub timeout_height_on_b: Height,
    pub timeout_timestamp_on_b: u64,
}

} // verus!
