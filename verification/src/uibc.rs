//! The universal message model exchanged between chains.

use vstd::prelude::*;

verus! {

/// Kind of chain an endpoint lives on.
#[derive(Debug, Clone, Copy, PartialEq, Eq, Structural, Default)]
pub enum ChainType {
    #[default]
    ChainTypeUnspecified,
    ChainTypeEvm,
    ChainTypeTendermint,
}

impl ChainType {
    /// The number under which the chain type is sent on the wire.
    pub open spec fn number(self) -> nat {
        match self {
            ChainType::ChainTypeUnspecified => 0,
            ChainType::ChainTypeEvm => 1,
            ChainType::ChainTypeTendermint => 2,
        }
    }

    pub fn to_number(&self) -> (n: u64)
        ensures
            n == self.number(),
    {
        match self {
            ChainType::ChainTypeUnspecified => 0,
            ChainType::ChainTypeEvm => 1,
            ChainType::ChainTypeTendermint => 2,
        }
    }
}

/// Kind of a universal message.
#[derive(Debug, Clone, Copy, PartialEq, Eq, Structural, Default)]
pub enum MessageType {
    #[default]
    MessageTypeUnspecified,
    MessageTypeTokenTransfer,
    MessageTypeContractCall,
    MessageTypeBatchTransfer,
    MessageTypeStateQuery,
}

impl MessageType {
    /// The number under which the message type is sent on the wire.
    pub open spec fn number(self) -> nat {
        match self {
            MessageType::MessageTypeUnspecified => 0,
            MessageType::MessageTypeTokenTransfer => 1,
            MessageType::MessageTypeContractCall => 2,
            MessageType::MessageTypeBatchTransfer => 3,
            MessageType::MessageTypeStateQuery => 4,
        }
    }

    pub fn to_number(&self) -> (n: u64)
        ensures
            n == self.number(),
    {
        match self {
            MessageType::MessageTypeUnspecified => 0,
            MessageType::MessageTypeTokenTransfer => 1,
            MessageType::MessageTypeContractCall => 2,
            MessageType::MessageTypeBatchTransfer => 3,
            MessageType::MessageTypeStateQuery => 4,
        }
    }
}

/// Urgency with which a message should be relayed.
#[derive(Debug, Clone, Copy, PartialEq, Eq, Structural, Default)]
pub enum Priority {
    Low,
    #[default]
    Normal,
    High,
    Critical,
}

impl Priority {
    /// The number under which the priority is sent on the wire.
    pub open spec fn number(self) -> nat {
        match self {
            Priority::Low => 0,
            Priority::Normal => 1,
            Priority::High => 2,
            Priority::Critical => 3,
        }
    }

    pub fn to_number(&self) -> (n: u64)
        ensures
            n == self.number(),
    {
        match self {
            Priority::Low => 0,
            Priority::Normal => 1,
            Priority::High => 2,
            Priority::Critical => 3,
        }
    }
}

/// One side of a cross-chain route.
#[derive(Debug, Clone, PartialEq, Eq, Default)]
pub struct ChainEndpoint {
    pub chain_id: String,
    pub chain_type: ChainType,
    pub connection_id: String,
    pub channel_id: String,
    pub port_id: String,
}

/// An amount in a chain's denomination.
#[derive(Debug, Clone, PartialEq, Eq, Default)]
pub struct Fee {
    pub amount: String,
    pub denom: String,
    pub chain_id: String,
    pub decimals: u32,
}

/// A fungible token transfer.
#[derive(Debug, Clone, PartialEq, Eq, Default)]
pub struct TokenTransfer {
    pub denom: String,
    pub amount: String,
    pub sender: String,
    pub receiver: String,
    pub memo: String,
}

/// A call into a contract on the destination chain.
#[derive(Debug, Clone, PartialEq, Eq, Default)]
pub struct ContractCall {
    pub contract_address: String,
    pub call_data: Vec<u8>,
}

/// Several token transfers relayed together.
#[derive(Debug, Clone, PartialEq, Eq, Default)]
pub struct BatchTransfer {
    pub transfers: Vec<TokenTransfer>,
}

/// A read of remote state.
#[derive(Debug, Clone, PartialEq, Eq, Default)]
pub struct StateQuery {
    pub query_data: Vec<u8>,
}

/// What a universal message carries.
#[derive(Debug, Clone, PartialEq, Eq)]
pub enum Payload {
    TokenTransfer(TokenTransfer),
    ContractCall(ContractCall),
    BatchTransfer(BatchTransfer),
    StateQuery(StateQuery),
}

/// A block height on a chain with revisions.
#[derive(Debug, Clone, Copy, PartialEq, Eq, Structural, Default)]
pub struct Height {
    pub revision_number: u64,
    pub revision_height: u64,
}

/// When a message stops being deliverable.
#[derive(Debug, Clone, Copy, PartialEq, Eq, Structural)]
pub enum Timeout {
    TimeoutTimestamp(u64),
    TimeoutHeight(Height),
}

/// Light-client verification of a message.
#[derive(Debug, Clone, PartialEq, Eq, Default)]
pub struct LightClientProof {
    pub min_confirmations: u32,
    pub max_age_seconds: u64,
    pub client_type: String,
}

/// Zero-knowledge verification of a message; `proof` carries the proof
/// once one has been produced.
#[derive(Debug, Clone, PartialEq, Eq, Default)]
pub struct ZkProofRequirement {
    pub circuit_id: String,
    pub public_inputs: Vec<Vec<u8>>,
    pub proof_system: String,
    pub verification_gas_limit: u64,
    pub proof: Vec<u8>,
}

/// Optimistic verification with a challenge window.
#[derive(Debug, Clone, PartialEq, Eq, Default)]
pub struct OptimisticProof {
    pub challenge_period_seconds: u64,
}

/// How the destination must verify a message.
#[derive(Debug, Clone, PartialEq, Eq)]
pub enum Requirement {
    LightClient(LightClientProof),
    ZkProof(ZkProofRequirement),
    Optimistic(OptimisticProof),
}

#[derive(Debug, Clone, PartialEq, Eq, Default)]
pub struct ProofRequirement {
    pub requirement: Option<Requirement>,
}

/// A committed state root of the source chain.
#[derive(Debug, Clone, PartialEq, Eq, Default)]
pub struct StateCheckpoint {
    pub height: u64,
    pub state_root: Vec<u8>,
}

#[derive(Debug, Clone, PartialEq, Eq, Default)]
pub struct EconomicParameters {
    pub priority: Option<Priority>,
    pub base_fee: u64,
    pub verification_fee: u64,
}

/// The relayer that is to deliver a message, by address.
#[derive(Debug, Clone, PartialEq, Eq, Default)]
pub struct RelayerAssignment {
    pub assigned_relayer: Vec<u8>,
}

#[derive(Debug, Clone, PartialEq, Eq, Default)]
pub struct MessageFees {
    pub total_fee: Fee,
}

/// An ICS-20 fungible token packet.
#[derive(Debug, Clone, PartialEq, Eq, Default)]
pub struct FungibleTokenPacket {
    pub denom: String,
    pub amount: String,
    pub sender: String,
    pub receiver: String,
    pub memo: String,
}

/// The IBC view of a message: the packet coordinates it travels under.
#[derive(Debug, Clone, PartialEq, Eq, Default)]
pub struct IbcCompatibilityData {
    pub sequence: u64,
    pub source_port: String,
    pub source_channel: String,
    pub destination_port: String,
    pub destination_channel: String,
    pub timeout: Option<Timeout>,
    pub token_data: Option<FungibleTokenPacket>,
}

/// A chain-agnostic cross-chain message.
#[derive(Debug, Clone, PartialEq, Eq, Default)]
pub struct UniversalMessage {
    pub version: u32,
    pub message_id: Vec<u8>,
    pub created_at: u64,
    pub source: Option<ChainEndpoint>,
    pub destination: Option<ChainEndpoint>,
    pub route_hints: Vec<String>,
    pub message_type: MessageType,
    pub payload: Option<Payload>,
    pub timeout: Option<Timeout>,
    pub proof_requirement: Option<ProofRequirement>,
    pub state_checkpoint: Option<StateCheckpoint>,
    pub fees: Option<MessageFees>,
    pub relayer_assignment: Option<RelayerAssignment>,
    pub economic_parameters: Option<EconomicParameters>,
    pub ibc_data: Option<IbcCompatibilityData>,
}

/// A STARK proof produced for a message.
#[derive(Debug, Clone, PartialEq, Eq, Default)]
pub struct ZkProof {
    pub proof_data: Vec<u8>,
    pub public_inputs: Vec<u8>,
    pub circuit_id: String,
    pub proof_system: String,
    pub proof_generation_cost: u64,
    pub verification_gas_limit: u64,
}

/// An ICS-23 Merkle proof as carried in messages.
#[derive(Debug, Clone, PartialEq, Eq, Default)]
pub struct Ics23Proof {
    pub key: Vec<u8>,
    pub value: Vec<u8>,
    pub siblings: Vec<u64>,
    pub path: Vec<bool>,
    pub proof_data: Vec<u8>,
}

impl UniversalMessage {
    /// The timeout timestamp, where the message times out by timestamp.
    pub open spec fn spec_timeout_timestamp(self) -> Option<u64> {
        match self.timeout {
            Some(Timeout::TimeoutTimestamp(t)) => Some(t),
            _ => None,
        }
    }

    pub fn timeout_timestamp(&self) -> (t: Option<u64>)
        ensures
            t == self.spec_timeout_timestamp(),
    {
        match &self.timeout {
            Some(Timeout::TimeoutTimestamp(t)) => Some(*t),
            _ => None,
        }
    }
}

} // verus!
