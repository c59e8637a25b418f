//! The adapter for Cosmos SDK chains that speak IBC: it turns IBC packets into
//! universal messages and back, verifies ICS-23 proofs and Tendermint headers,
//! and prices messages. Queries to the node happen outside; their results come
//! in as arguments.

use vstd::prelude::*;
use vstd::slice::slice_subrange;
use vstd::utf8::encode_utf8;
use crate::bytes::{append_bytes, bytes_eq, copy_bytes, copy_string, str_eq};
use crate::chain_adapter::{
    AdapterConfig, Block, ChainCapabilities, ChainId, ConsensusType, Event, EventAttribute,
    Header, HealthStatus, IbcPacket, InclusionProof, NetworkConditions, PacketModel, StateRoot,
    SyncStatus, Transaction, ValidatorSet,
};
use crate::decimal::{decimal_digits, parse_u64, parse_u64_bytes, parse_u64_spec, u64_to_decimal};
use crate::digest::{sha256, sha256_digest};
use crate::error::RelayerError;
use crate::hexcode::{hex_decode, hex_decode_spec};
use crate::json::{
    json_member_str, json_object_of_strings, json_pointer_str, json_pointer_string,
    json_string_member, json_string_object,
};
use crate::uibc::{
    ChainEndpoint, ChainType, Fee, Height, IbcCompatibilityData, LightClientProof, MessageType,
    Payload, ProofRequirement, Requirement, Timeout, TokenTransfer, UniversalMessage,
};

verus! {

/// Parameters of the light client that tracks the chain.
#[derive(Debug, Clone, PartialEq, Eq)]
pub struct IBCAdapterConfig {
    pub trusted_height: u64,
    pub trusted_hash: String,
    pub max_clock_drift_secs: u64,
    pub trusting_period_secs: u64,
    pub unbonding_period_secs: u64,
    pub proof_specs: Vec<ProofSpec>,
}

#[derive(Debug, Clone, PartialEq, Eq)]
pub struct ProofSpec {
    pub leaf_spec: LeafSpec,
    pub inner_spec: InnerSpec,
    pub max_depth: i32,
    pub min_depth: i32,
}

#[derive(Debug, Clone, PartialEq, Eq)]
pub struct LeafSpec {
    /// "SHA256", "KECCAK256", ...
    pub hash: String,
    pub prehash_key: String,
    pub prehash_value: String,
    pub length: String,
    pub prefix: Vec<u8>,
}

#[derive(Debug, Clone, PartialEq, Eq)]
pub struct InnerSpec {
    pub child_order: Vec<i32>,
    pub child_size: i32,
    pub min_prefix_length: i32,
    pub max_prefix_length: i32,
    pub empty_child: Vec<u8>,
    pub hash: String,
}

/// A WebSocket endpoint for real-time updates.
#[derive(Debug, Clone, PartialEq, Eq)]
pub struct CosmosWsClient {
    endpoint: String,
}

impl CosmosWsClient {
    pub closed spec fn endpoint(&self) -> Seq<char> {
        self.endpoint@
    }

    pub fn new(endpoint: &str) -> (r: Result<Self, RelayerError>)
        ensures
            r matches Ok(c) && c.endpoint() == endpoint@,
    {
        Ok(CosmosWsClient { endpoint: endpoint.to_owned() })
    }
}

/// The JSON pointer to the height in a Tendermint `/block` response.
pub open spec fn block_height_pointer() -> Seq<char> {
    "/result/block/header/height"@
}

/// The height that a node's `/block` response gives: `None` where the
/// response is not JSON, 0 where the height is missing or not a number.
pub open spec fn rpc_block_height(body: Seq<u8>) -> Option<u64> {
    match json_pointer_string(body, block_height_pointer()) {
        None => None,
        Some(None) => Some(0),
        Some(Some(s)) => Some(
            match parse_u64_spec(encode_utf8(s)) {
                Some(h) => h,
                None => 0,
            },
        ),
    }
}

/// The block that a node's `/block` response describes: its height; the
/// rest of the block is not read and stays empty.
pub fn block_from_rpc_response(body: &[u8]) -> (r: Result<Block, RelayerError>)
    ensures
        match rpc_block_height(body@) {
            None => r == Err::<Block, RelayerError>(RelayerError::InvalidRpcResponse),
            Some(h) => r matches Ok(b) && {
                &&& b.height == h
                &&& b.hash@ == Seq::new(32, |i: int| 0u8)
                &&& b.timestamp == 0
                &&& b.transactions@.len() == 0
                &&& b.logs@.len() == 0
                &&& b.events@.len() == 0
                &&& b.state_root.hash@ == Seq::new(32, |i: int| 0u8)
                &&& b.state_root.height == 0
                &&& b.state_root.timestamp == 0
            },
        },
{
    let height_text = match json_pointer_str(body, "/result/block/header/height") {
        Some(t) => t,
        None => {
            return Err(RelayerError::InvalidRpcResponse);
        },
    };
    let height: u64 = match height_text {
        Some(t) => match parse_u64(t.as_str()) {
            Some(h) => h,
            None => 0,
        },
        None => 0,
    };
    let block = Block {
        height,
        hash: [0u8; 32],
        timestamp: 0,
        transactions: Vec::new(),
        logs: Vec::new(),
        events: Vec::new(),
        state_root: StateRoot { hash: [0u8; 32], height: 0, timestamp: 0 },
    };
    assert(block.hash@ =~= Seq::new(32, |i: int| 0u8));
    assert(block.state_root.hash@ =~= Seq::new(32, |i: int| 0u8));
    Ok(block)
}

/// What a node reports of itself.
#[derive(Debug, Clone, Copy, PartialEq, Eq)]
pub struct NodeInfo {
    pub peer_count: u32,
}

// ----- Packets out of `send_packet` events -----

/// The packet with every coordinate empty.
pub open spec fn empty_packet() -> PacketModel {
    PacketModel {
        sequence: 0,
        source_port: Seq::empty(),
        source_channel: Seq::empty(),
        destination_port: Seq::empty(),
        destination_channel: Seq::empty(),
        data: Seq::empty(),
        timeout_height: Height { revision_number: 0, revision_height: 0 },
        timeout_timestamp: 0,
    }
}

/// Whether `i` is the position of the one `-` in `b`.
pub open spec fn is_only_dash(b: Seq<u8>, i: int) -> bool {
    &&& 0 <= i < b.len()
    &&& b[i] == 45
    &&& forall|j: int| 0 <= j < b.len() && j != i ==> b[j] != 45
}

/// The two parts of `b` around its one `-`, where it has exactly one.
pub open spec fn single_dash_split(b: Seq<u8>) -> Option<(Seq<u8>, Seq<u8>)> {
    if exists|i: int| is_only_dash(b, i) {
        let i = choose|i: int| is_only_dash(b, i);
        Some((b.take(i), b.skip(i + 1)))
    } else {
        None
    }
}

/// The packet after reading one attribute of a `send_packet` event; numbers
/// that do not read as such count as 0, and packet data that is not
/// hexadecimal is taken as the text's bytes.
pub open spec fn apply_packet_attribute(p: PacketModel, key: Seq<char>, value: Seq<char>) -> PacketModel {
    let bytes = encode_utf8(value);
    if key == "packet_data"@ {
        PacketModel {
            data: match hex_decode_spec(bytes) {
                Some(d) => d,
                None => bytes,
            },
            ..p
        }
    } else if key == "packet_sequence"@ {
        PacketModel { sequence: parse_u64_spec(bytes).unwrap_or(0), ..p }
    } else if key == "packet_src_port"@ {
        PacketModel { source_port: value, ..p }
    } else if key == "packet_src_channel"@ {
        PacketModel { source_channel: value, ..p }
    } else if key == "packet_dst_port"@ {
        PacketModel { destination_port: value, ..p }
    } else if key == "packet_dst_channel"@ {
        PacketModel { destination_channel: value, ..p }
    } else if key == "packet_timeout_height"@ {
        match single_dash_split(bytes) {
            Some((a, b)) => PacketModel {
                timeout_height: Height {
                    revision_number: parse_u64_spec(a).unwrap_or(0),
                    revision_height: parse_u64_spec(b).unwrap_or(0),
                },
                ..p
            },
            None => p,
        }
    } else if key == "packet_timeout_timestamp"@ {
        PacketModel { timeout_timestamp: parse_u64_spec(bytes).unwrap_or(0), ..p }
    } else {
        p
    }
}

/// The packet that a `send_packet` event describes: its attributes read in
/// order, a later one overriding an earlier one.
pub open spec fn packet_from_attributes(attrs: Seq<EventAttribute>) -> PacketModel
    decreases attrs.len(),
{
    if attrs.len() == 0 {
        empty_packet()
    } else {
        apply_packet_attribute(
            packet_from_attributes(attrs.drop_last()),
            attrs.last().key@,
            attrs.last().value@,
        )
    }
}

/// The `send_packet` events of a transaction, in order.
pub open spec fn send_packet_events(tx: Transaction) -> Seq<Event> {
    tx.events@.filter(|e: Event| e.event_type@ == "send_packet"@)
}

/// The packets that a transaction sends, in order.
pub open spec fn packets_of_transaction(tx: Transaction) -> Seq<PacketModel> {
    send_packet_events(tx).map_values(|e: Event| packet_from_attributes(e.attributes@))
}

fn split_single_dash(b: &[u8]) -> (r: Option<(&[u8], &[u8])>)
    ensures
        match (r, single_dash_split(b@)) {
            (Some((x, y)), Some((u, v))) => x@ == u && y@ == v,
            (None, None) => true,
            _ => false,
        },
{
    let mut count: usize = 0;
    let mut pos: usize = 0;
    let mut i: usize = 0;
    while i < b.len()
        invariant
            i <= b.len(),
            count <= i,
            count == 0 ==> forall|j: int| 0 <= j < i ==> b@[j] != 45,
            count >= 1 ==> pos < i && b@[pos as int] == 45,
            count == 1 ==> forall|j: int| 0 <= j < i && j != pos ==> b@[j] != 45,
            count >= 2 ==> exists|j: int| 0 <= j < i && j != pos && b@[j] == 45,
        decreases b.len() - i,
    {
        if b[i] == 45 {
            if count == 0 {
                pos = i;
            }
            count = count + 1;
        }
        i = i + 1;
    }
    if count == 1 {
        assert(is_only_dash(b@, pos as int));
        let ghost k = choose|k: int| is_only_dash(b@, k);
        assert(k == pos);
        let before = slice_subrange(b, 0, pos);
        let after = slice_subrange(b, pos + 1, b.len());
        assert(before@ =~= b@.take(pos as int));
        assert(after@ =~= b@.skip(pos + 1));
        Some((before, after))
    } else {
        proof {
            if exists|k: int| is_only_dash(b@, k) {
                let k = choose|k: int| is_only_dash(b@, k);
                if count == 0 {
                    assert(b@[k] != 45);
                } else {
                    let j = choose|j: int| 0 <= j < i && j != pos && b@[j] == 45;
                    assert(j == k);
                    assert(pos as int == k);
                }
            }
        }
        None
    }
}

} // verus!

verus! {

/// The adapter for one IBC connection of a Cosmos SDK chain.
pub struct IBCAdapter {
    chain_id: ChainId,
    connection_id: String,
    channel_id: String,
    port_id: String,
    rpc_endpoint: String,
    ws_client: Option<CosmosWsClient>,
    client_state: Option<ibc_proto::ibc::lightclients::tendermint::v1::ClientState>,
    latest_height: u64,
    validator_set: Option<ValidatorSet>,
    config: IBCAdapterConfig,
}

#[verifier::external_type_specification]
#[verifier::external_body]
pub struct ExTendermintClientState(ibc_proto::ibc::lightclients::tendermint::v1::ClientState);

/// Seconds in a day.
pub const SECONDS_PER_DAY: u64 = 86400;

impl IBCAdapter {
    pub closed spec fn spec_chain_id(&self) -> Seq<char> {
        self.chain_id@
    }

    pub closed spec fn spec_connection_id(&self) -> Seq<char> {
        self.connection_id@
    }

    pub closed spec fn spec_channel_id(&self) -> Seq<char> {
        self.channel_id@
    }

    pub closed spec fn spec_port_id(&self) -> Seq<char> {
        self.port_id@
    }

    pub closed spec fn spec_rpc_endpoint(&self) -> Seq<char> {
        self.rpc_endpoint@
    }

    pub closed spec fn spec_ws_endpoint(&self) -> Option<Seq<char>> {
        match self.ws_client {
            Some(c) => Some(c.endpoint()),
            None => None,
        }
    }

    pub closed spec fn spec_latest_height(&self) -> u64 {
        self.latest_height
    }

    pub closed spec fn spec_validator_set(&self) -> Option<ValidatorSet> {
        self.validator_set
    }

    pub closed spec fn spec_has_client_state(&self) -> bool {
        self.client_state is Some
    }

    pub closed spec fn spec_config(&self) -> IBCAdapterConfig {
        self.config
    }

    /// A new adapter: it reaches the chain at the first RPC endpoint and,
    /// where one is configured, the first WebSocket endpoint; its light client
    /// trusts nothing yet, with a clock drift of 10 seconds, a trusting period
    /// of 14 days and an unbonding period of 21 days.
    pub fn new(
        chain_id: String,
        connection_id: String,
        channel_id: String,
        port_id: String,
        config: AdapterConfig,
    ) -> (r: Result<Self, RelayerError>)
        requires
            config.rpc_endpoints.len() > 0,
        ensures
            r matches Ok(a) && {
                &&& a.spec_chain_id() == chain_id@
                &&& a.spec_connection_id() == connection_id@
                &&& a.spec_channel_id() == channel_id@
                &&& a.spec_port_id() == port_id@
                &&& a.spec_rpc_endpoint() == config.rpc_endpoints@[0]@
                &&& a.spec_ws_endpoint() == (if config.ws_endpoints.len() > 0 {
                    Some(config.ws_endpoints@[0]@)
                } else {
                    None::<Seq<char>>
                })
                &&& a.spec_latest_height() == 0
                &&& a.spec_validator_set() is None
                &&& !a.spec_has_client_state()
                &&& a.spec_config().trusted_height == 0
                &&& a.spec_config().trusted_hash@.len() == 0
                &&& a.spec_config().max_clock_drift_secs == 10
                &&& a.spec_config().trusting_period_secs == 14 * SECONDS_PER_DAY
                &&& a.spec_config().unbonding_period_secs == 21 * SECONDS_PER_DAY
                &&& a.spec_config().proof_specs.len() == 0
            },
    {
        let rpc_endpoint = config.rpc_endpoints[0].clone();
        let ws_client = if config.ws_endpoints.len() > 0 {
            match CosmosWsClient::new(config.ws_endpoints[0].as_str()) {
                Ok(c) => Some(c),
                Err(e) => {
                    return Err(e);
                },
            }
        } else {
            None
        };
        let ibc_config = IBCAdapterConfig {
            trusted_height: 0,
            trusted_hash: String::new(),
            max_clock_drift_secs: 10,
            trusting_period_secs: 14 * SECONDS_PER_DAY,
            unbonding_period_secs: 21 * SECONDS_PER_DAY,
            proof_specs: Vec::new(),
        };
        Ok(IBCAdapter {
            chain_id: ChainId::new(chain_id),
            connection_id,
            channel_id,
            port_id,
            rpc_endpoint,
            ws_client,
            client_state: None,
            latest_height: 0,
            validator_set: None,
            config: ibc_config,
        })
    }

    /// Records the chain state that initialisation fetched: the latest block,
    /// its validator set and the light client's state.
    pub fn apply_initial_state(
        &mut self,
        latest_block: &Block,
        validator_set: ValidatorSet,
        client_state: ibc_proto::ibc::lightclients::tendermint::v1::ClientState,
    )
        ensures
            final(self).spec_latest_height() == latest_block.height,
            final(self).spec_validator_set() == Some(validator_set),
            final(self).spec_has_client_state(),
            final(self).spec_chain_id() == old(self).spec_chain_id(),
            final(self).spec_connection_id() == old(self).spec_connection_id(),
            final(self).spec_channel_id() == old(self).spec_channel_id(),
            final(self).spec_port_id() == old(self).spec_port_id(),
            final(self).spec_rpc_endpoint() == old(self).spec_rpc_endpoint(),
            final(self).spec_ws_endpoint() == old(self).spec_ws_endpoint(),
            final(self).spec_config() == old(self).spec_config(),
    {
        self.latest_height = latest_block.height;
        self.validator_set = Some(validator_set);
        self.client_state = Some(client_state);
    }

    /// The endpoint of the node's RPC interface.
    pub fn rpc_endpoint(&self) -> (s: &str)
        ensures
            s@ == self.spec_rpc_endpoint(),
    {
        self.rpc_endpoint.as_str()
    }

    /// The connection the adapter relays over.
    pub fn connection_id(&self) -> (s: &str)
        ensures
            s@ == self.spec_connection_id(),
    {
        self.connection_id.as_str()
    }

    pub fn chain_id(&self) -> (c: ChainId)
        ensures
            c@ == self.spec_chain_id(),
    {
        self.chain_id.duplicate()
    }

    /// IBC chains run Tendermint.
    pub fn consensus_type(&self) -> (c: ConsensusType)
        ensures
            c == ConsensusType::Tendermint,
    {
        ConsensusType::Tendermint
    }

    pub fn chain_type(&self) -> (c: ChainType)
        ensures
            c == ChainType::ChainTypeTendermint,
    {
        ChainType::ChainTypeTendermint
    }

    /// Smart contracts (CosmWasm) and optimistic proofs, no native ZK proofs,
    /// messages up to 1 MiB, ICS-23 and Tendermint proofs.
    pub fn capabilities(&self) -> (c: ChainCapabilities)
        ensures
            c.supports_smart_contracts,
            !c.supports_zk_proofs,
            c.supports_optimistic_proofs,
            c.max_message_size == 1024 * 1024,
            c.supported_proof_types@.len() == 2,
            c.supported_proof_types@[0]@ == "ics23"@,
            c.supported_proof_types@[1]@ == "tendermint"@,
    {
        let mut types = Vec::new();
        types.push(copy_string("ics23"));
        types.push(copy_string("tendermint"));
        ChainCapabilities {
            supports_smart_contracts: true,
            supports_zk_proofs: false,
            supports_optimistic_proofs: true,
            max_message_size: 1024 * 1024,
            supported_proof_types: types,
        }
    }

    /// Reads one `send_packet` event into a packet.
    pub fn parse_send_packet_event(&self, event: &Event) -> (r: Result<IbcPacket, RelayerError>)
        ensures
            r matches Ok(p) && p@ == packet_from_attributes(event.attributes@),
    {
        let mut p = IbcPacket {
            sequence: 0,
            source_port: String::new(),
            source_channel: String::new(),
            destination_port: String::new(),
            destination_channel: String::new(),
            data: Vec::new(),
            timeout_height_on_b: Height { revision_number: 0, revision_height: 0 },
            timeout_timestamp_on_b: 0,
        };
        let attrs = &event.attributes;
        let mut i: usize = 0;
        assert(p@ =~= empty_packet());
        assert(attrs@.take(0) =~= Seq::<EventAttribute>::empty());
        while i < attrs.len()
            invariant
                i <= attrs.len(),
                attrs == &event.attributes,
                p@ == packet_from_attributes(attrs@.take(i as int)),
            decreases attrs.len() - i,
        {
            let ghost before = p@;
            let key = attrs[i].key.as_str();
            let value = attrs[i].value.as_str();
            let bytes = value.as_bytes();
            if str_eq(key, "packet_data") {
                p.data = match hex_decode(value) {
                    Some(d) => d,
                    None => copy_bytes(bytes),
                };
            } else if str_eq(key, "packet_sequence") {
                p.sequence = match parse_u64_bytes(bytes) {
                    Some(v) => v,
                    None => 0,
                };
            } else if str_eq(key, "packet_src_port") {
                p.source_port = copy_string(value);
            } else if str_eq(key, "packet_src_channel") {
                p.source_channel = copy_string(value);
            } else if str_eq(key, "packet_dst_port") {
                p.destination_port = copy_string(value);
            } else if str_eq(key, "packet_dst_channel") {
                p.destination_channel = copy_string(value);
            } else if str_eq(key, "packet_timeout_height") {
                match split_single_dash(bytes) {
                    Some((a, b)) => {
                        p.timeout_height_on_b = Height {
                            revision_number: match parse_u64_bytes(a) {
                                Some(v) => v,
                                None => 0,
                            },
                            revision_height: match parse_u64_bytes(b) {
                                Some(v) => v,
                                None => 0,
                            },
                        };
                    },
                    None => {},
                }
            } else if str_eq(key, "packet_timeout_timestamp") {
                p.timeout_timestamp_on_b = match parse_u64_bytes(bytes) {
                    Some(v) => v,
                    None => 0,
                };
            }
            assert(attrs@.take(i + 1).drop_last() =~= attrs@.take(i as int));
            assert(p@ =~= apply_packet_attribute(before, attrs@[i as int].key@, attrs@[i as int].value@));
            i = i + 1;
        }
        assert(attrs@.take(attrs.len() as int) =~= attrs@);
        Ok(p)
    }

    /// The packets that a transaction sends, from its `send_packet` events.
    pub fn parse_ibc_packets_from_tx(&self, transaction: &Transaction) -> (r: Vec<IbcPacket>)
        ensures
            r@.map_values(|p: IbcPacket| p@) == packets_of_transaction(*transaction),
    {
        let mut packets: Vec<IbcPacket> = Vec::new();
        let events = &transaction.events;
        let ghost pred = |e: Event| e.event_type@ == "send_packet"@;
        let ghost f = |e: Event| packet_from_attributes(e.attributes@);
        let mut i: usize = 0;
        assert(events@.take(0).filter(pred) =~= Seq::<Event>::empty());
        while i < events.len()
            invariant
                i <= events.len(),
                events == &transaction.events,
                pred == (|e: Event| e.event_type@ == "send_packet"@),
                f == (|e: Event| packet_from_attributes(e.attributes@)),
                packets@.map_values(|p: IbcPacket| p@) == events@.take(i as int).filter(
                    pred,
                ).map_values(f),
            decreases events.len() - i,
        {
            let ghost prev = packets@;
            assert(events@.take(i + 1).drop_last() =~= events@.take(i as int));
            reveal_with_fuel(Seq::filter, 1);
            if str_eq(events[i].event_type.as_str(), "send_packet") {
                match self.parse_send_packet_event(&events[i]) {
                    Ok(packet) => {
                        let ghost pv = packet@;
                        assert(pv == f(events@[i as int]));
                        packets.push(packet);
                        assert(packets@.map_values(|p: IbcPacket| p@) =~= prev.map_values(
                            |p: IbcPacket| p@,
                        ).push(pv));
                        assert(events@.take(i + 1).filter(pred) =~= events@.take(i as int).filter(
                            pred,
                        ).push(events@[i as int]));
                        assert(packets@.map_values(|p: IbcPacket| p@) =~= events@.take(
                            i + 1,
                        ).filter(pred).map_values(f));
                    },
                    Err(_) => {},
                }
            } else {
                assert(events@.take(i + 1).filter(pred) =~= events@.take(i as int).filter(pred));
            }
            i = i + 1;
        }
        assert(events@.take(events.len() as int) =~= events@);
        packets
    }
}

} // verus!

verus! {

/// The identifier that a packet's message gets: the SHA-256 digest of its
/// source port, source channel, sequence (little-endian) and data.
pub open spec fn packet_message_id(p: PacketModel) -> Seq<u8> {
    sha256_digest(
        encode_utf8(p.source_port) + encode_utf8(p.source_channel)
            + vstd::bytes::spec_u64_to_le_bytes(p.sequence) + p.data,
    )
}

/// The ICS-20 fields of transfer packet data: denomination, amount, sender,
/// receiver and memo. A missing member counts as empty, a missing amount as
/// "0"; data that is not JSON gives `None`.
pub open spec fn ics20_fields(data: Seq<u8>) -> Option<(Seq<char>, Seq<char>, Seq<char>, Seq<char>, Seq<char>)> {
    let d = json_string_member(data, "denom"@);
    let a = json_string_member(data, "amount"@);
    let s = json_string_member(data, "sender"@);
    let r = json_string_member(data, "receiver"@);
    let m = json_string_member(data, "memo"@);
    if d is None || a is None || s is None || r is None || m is None {
        None
    } else {
        Some(
            (
                d.unwrap().unwrap_or(Seq::empty()),
                a.unwrap().unwrap_or("0"@),
                s.unwrap().unwrap_or(Seq::empty()),
                r.unwrap().unwrap_or(Seq::empty()),
                m.unwrap().unwrap_or(Seq::empty()),
            ),
        )
    }
}

/// Whether a packet turns into a message: packets on the `transfer` port need
/// JSON data.
pub open spec fn packet_converts(p: PacketModel) -> bool {
    p.source_port == "transfer"@ ==> ics20_fields(p.data) is Some
}

/// The timeout of a packet's message: its timestamp where it has one (not 0),
/// else its height.
pub open spec fn packet_timeout(p: PacketModel) -> Timeout {
    if p.timeout_timestamp > 0 {
        Timeout::TimeoutTimestamp(p.timeout_timestamp)
    } else {
        Timeout::TimeoutHeight(p.timeout_height)
    }
}

/// The bare message for a packet sent from chain `chain_id` over
/// `connection`: version 1, the packet's message identifier, the chain with
/// the connection and the packet's source channel and port as its source, and
/// the packet's sequence as its only IBC data; nothing else is set.
pub open spec fn bare_message_for_packet(
    chain_id: Seq<char>,
    connection: Seq<char>,
    p: PacketModel,
    m: UniversalMessage,
) -> bool {
    &&& m.version == 1
    &&& m.message_id@ == packet_message_id(p)
    &&& m.created_at == 0
    &&& m.source matches Some(e) && {
        &&& e.chain_id@ == chain_id
        &&& e.chain_type == ChainType::ChainTypeUnspecified
        &&& e.connection_id@ == connection
        &&& e.channel_id@ == p.source_channel
        &&& e.port_id@ == p.source_port
    }
    &&& m.destination is None
    &&& m.route_hints@.len() == 0
    &&& m.message_type == MessageType::MessageTypeUnspecified
    &&& m.payload is None
    &&& m.timeout is None
    &&& m.proof_requirement is None
    &&& m.state_checkpoint is None
    &&& m.fees is None
    &&& m.relayer_assignment is None
    &&& m.economic_parameters is None
    &&& m.ibc_data matches Some(d) && {
        &&& d.sequence == p.sequence
        &&& d.source_port@.len() == 0
        &&& d.source_channel@.len() == 0
        &&& d.destination_port@.len() == 0
        &&& d.destination_channel@.len() == 0
        &&& d.timeout is None
        &&& d.token_data is None
    }
}

/// Whether `m` is the message that the adapter of chain `chain_id` on
/// connection `connection` makes, at time `now`, of packet `p`: a token
/// transfer for the `transfer` port, a contract call without payload for any
/// other port.
pub open spec fn message_for_packet(
    chain_id: Seq<char>,
    connection: Seq<char>,
    p: PacketModel,
    now: u64,
    m: UniversalMessage,
) -> bool {
    &&& m.version == 1
    &&& m.message_id@ == packet_message_id(p)
    &&& m.created_at == now
    &&& m.source matches Some(e) && {
        &&& e.chain_id@ == p.source_port
        &&& e.chain_type == ChainType::ChainTypeTendermint
        &&& e.connection_id@ == connection
        &&& e.channel_id@ == p.source_channel
        &&& e.port_id@ == p.source_port
    }
    &&& m.destination matches Some(e) && {
        &&& e.chain_id@ == chain_id
        &&& e.chain_type == ChainType::ChainTypeTendermint
        &&& e.connection_id@ == connection
        &&& e.channel_id@ == p.destination_channel
        &&& e.port_id@ == p.destination_port
    }
    &&& m.route_hints@.len() == 0
    &&& if p.source_port == "transfer"@ {
        &&& m.message_type == MessageType::MessageTypeTokenTransfer
        &&& m.payload matches Some(Payload::TokenTransfer(t)) && {
            let f = ics20_fields(p.data).unwrap();
            &&& t.denom@ == f.0
            &&& t.amount@ == f.1
            &&& t.sender@ == f.2
            &&& t.receiver@ == f.3
            &&& t.memo@ == f.4
        }
    } else {
        &&& m.message_type == MessageType::MessageTypeContractCall
        &&& m.payload is None
    }
    &&& m.timeout == Some(packet_timeout(p))
    &&& m.proof_requirement is None
    &&& m.state_checkpoint is None
    &&& m.fees is None
    &&& m.relayer_assignment is None
    &&& m.economic_parameters is None
    &&& m.ibc_data matches Some(d) && {
        &&& d.sequence == p.sequence
        &&& d.source_port@ == p.source_port
        &&& d.source_channel@ == p.source_channel
        &&& d.destination_port@ == p.destination_port
        &&& d.destination_channel@ == p.destination_channel
        &&& d.timeout == Some(packet_timeout(p))
        &&& d.token_data is None
    }
}

/// The members of the ICS-20 JSON object for a transfer.
pub open spec fn ics20_entries(t: TokenTransfer) -> Seq<(Seq<char>, Seq<char>)> {
    seq![
        ("denom"@, t.denom@),
        ("amount"@, t.amount@),
        ("sender"@, t.sender@),
        ("receiver"@, t.receiver@),
        ("memo"@, t.memo@),
    ]
}

/// What turning message `m` back into a packet gives, where serialising
/// succeeds: its IBC coordinates and timeout, and as data the ICS-20 JSON of a
/// transfer or the call data of a contract call.
pub open spec fn packet_for_message(m: UniversalMessage, p: PacketModel) -> bool {
    &&& m.ibc_data matches Some(d) && {
        &&& p.sequence == d.sequence
        &&& p.source_port == d.source_port@
        &&& p.source_channel == d.source_channel@
        &&& p.destination_port == d.destination_port@
        &&& p.destination_channel == d.destination_channel@
        &&& p.timeout_height == (match d.timeout {
            Some(Timeout::TimeoutHeight(h)) => h,
            _ => Height { revision_number: 0, revision_height: 0 },
        })
        &&& p.timeout_timestamp == (match d.timeout {
            Some(Timeout::TimeoutTimestamp(t)) => t,
            _ => 0,
        })
    }
    &&& match m.payload {
        Some(Payload::TokenTransfer(t)) => p.data == json_string_object(ics20_entries(t)),
        Some(Payload::ContractCall(c)) => p.data == c.call_data@,
        _ => false,
    }
}

/// Whether `m` can be turned back into a packet: it has IBC data and a
/// payload that a packet carries.
pub open spec fn packet_converts_back(m: UniversalMessage) -> bool {
    m.ibc_data is Some && payload_fits_packet(m)
}

/// Whether turning `m` back into a packet fails with `e`: without IBC data,
/// or with a payload that no packet carries.
pub open spec fn packet_conversion_fails(m: UniversalMessage, e: RelayerError) -> bool {
    ||| m.ibc_data is None && e == RelayerError::NoIbcData
    ||| m.ibc_data is Some && !payload_fits_packet(m) && e == RelayerError::UnsupportedMessageType
}

/// Whether the payload of `m` can travel in an IBC packet.
pub open spec fn payload_fits_packet(m: UniversalMessage) -> bool {
    m.payload matches Some(Payload::TokenTransfer(_)) || m.payload matches Some(
        Payload::ContractCall(_),
    )
}

fn string_pair(key: &str, value: &String) -> (r: (String, String))
    ensures
        r.0@ == key@,
        r.1@ == value@,
{
    (copy_string(key), value.clone())
}

impl IBCAdapter {
    /// The identifier of a packet's message.
    pub fn generate_message_id(&self, packet: &IbcPacket) -> (r: Result<[u8; 32], RelayerError>)
        ensures
            r matches Ok(id) && id@ == packet_message_id(packet@),
    {
        let mut buf: Vec<u8> = Vec::new();
        append_bytes(&mut buf, packet.source_port.as_str().as_bytes());
        append_bytes(&mut buf, packet.source_channel.as_str().as_bytes());
        let seq = vstd::bytes::u64_to_le_bytes(packet.sequence);
        append_bytes(&mut buf, seq.as_slice());
        append_bytes(&mut buf, packet.data.as_slice());
        Ok(sha256(buf.as_slice()))
    }

    /// The bare message for a packet sent from this adapter's chain: the
    /// packet's identifier and sequence, and the chain, connection, channel
    /// and port it left from.
    pub fn to_uibc_message(&self, packet: &IbcPacket) -> (m: UniversalMessage)
        ensures
            bare_message_for_packet(self.spec_chain_id(), self.spec_connection_id(), packet@, m),
    {
        let message_id = match self.generate_message_id(packet) {
            Ok(id) => id,
            Err(_) => [0u8; 32],
        };
        let source = ChainEndpoint {
            chain_id: copy_string(self.chain_id.as_str()),
            chain_type: ChainType::ChainTypeUnspecified,
            connection_id: self.connection_id.clone(),
            channel_id: packet.source_channel.clone(),
            port_id: packet.source_port.clone(),
        };
        let ibc_data = IbcCompatibilityData {
            sequence: packet.sequence,
            source_port: String::new(),
            source_channel: String::new(),
            destination_port: String::new(),
            destination_channel: String::new(),
            timeout: None,
            token_data: None,
        };
        UniversalMessage {
            version: 1,
            message_id: copy_bytes(message_id.as_slice()),
            created_at: 0,
            source: Some(source),
            destination: None,
            route_hints: Vec::new(),
            message_type: MessageType::MessageTypeUnspecified,
            payload: None,
            timeout: None,
            proof_requirement: None,
            state_checkpoint: None,
            fees: None,
            relayer_assignment: None,
            economic_parameters: None,
            ibc_data: Some(ibc_data),
        }
    }

    /// Converts an IBC packet into a universal message created at Unix time
    /// `now`.
    pub fn ibc_packet_to_universal_message(&self, packet: &IbcPacket, now: u64) -> (r: Result<
        UniversalMessage,
        RelayerError,
    >)
        ensures
            packet_converts(packet@) ==> (r matches Ok(m) && message_for_packet(
                self.spec_chain_id(),
                self.spec_connection_id(),
                packet@,
                now,
                m,
            )),
            !packet_converts(packet@) ==> r == Err::<UniversalMessage, RelayerError>(
                RelayerError::InvalidPacketData,
            ),
    {
        let message_id = match self.generate_message_id(packet) {
            Ok(id) => id,
            Err(e) => {
                return Err(e);
            },
        };
        let is_transfer = str_eq(packet.source_port.as_str(), "transfer");
        let (message_type, payload) = if is_transfer {
            let data = packet.data.as_slice();
            let denom = match json_member_str(data, "denom") {
                Some(v) => v,
                None => {
                    return Err(RelayerError::InvalidPacketData);
                },
            };
            let amount = match json_member_str(data, "amount") {
                Some(v) => v,
                None => {
                    return Err(RelayerError::InvalidPacketData);
                },
            };
            let sender = match json_member_str(data, "sender") {
                Some(v) => v,
                None => {
                    return Err(RelayerError::InvalidPacketData);
                },
            };
            let receiver = match json_member_str(data, "receiver") {
                Some(v) => v,
                None => {
                    return Err(RelayerError::InvalidPacketData);
                },
            };
            let memo = match json_member_str(data, "memo") {
                Some(v) => v,
                None => {
                    return Err(RelayerError::InvalidPacketData);
                },
            };
            let transfer = TokenTransfer {
                denom: match denom {
                    Some(s) => s,
                    None => String::new(),
                },
                amount: match amount {
                    Some(s) => s,
                    None => copy_string("0"),
                },
                sender: match sender {
                    Some(s) => s,
                    None => String::new(),
                },
                receiver: match receiver {
                    Some(s) => s,
                    None => String::new(),
                },
                memo: match memo {
                    Some(s) => s,
                    None => String::new(),
                },
            };
            (MessageType::MessageTypeTokenTransfer, Some(Payload::TokenTransfer(transfer)))
        } else {
            (MessageType::MessageTypeContractCall, None)
        };
        let timeout = if packet.timeout_timestamp_on_b > 0 {
            Timeout::TimeoutTimestamp(packet.timeout_timestamp_on_b)
        } else {
            Timeout::TimeoutHeight(packet.timeout_height_on_b)
        };
        let source = ChainEndpoint {
            chain_id: packet.source_port.clone(),
            chain_type: ChainType::ChainTypeTendermint,
            connection_id: self.connection_id.clone(),
            channel_id: packet.source_channel.clone(),
            port_id: packet.source_port.clone(),
        };
        let destination = ChainEndpoint {
            chain_id: copy_string(self.chain_id.as_str()),
            chain_type: ChainType::ChainTypeTendermint,
            connection_id: self.connection_id.clone(),
            channel_id: packet.destination_channel.clone(),
            port_id: packet.destination_port.clone(),
        };
        let ibc_data = IbcCompatibilityData {
            sequence: packet.sequence,
            source_port: packet.source_port.clone(),
            source_channel: packet.source_channel.clone(),
            destination_port: packet.destination_port.clone(),
            destination_channel: packet.destination_channel.clone(),
            timeout: Some(timeout),
            token_data: None,
        };
        let m = UniversalMessage {
            version: 1,
            message_id: copy_bytes(message_id.as_slice()),
            created_at: now,
            source: Some(source),
            destination: Some(destination),
            route_hints: Vec::new(),
            message_type,
            payload,
            timeout: Some(timeout),
            proof_requirement: None,
            state_checkpoint: None,
            fees: None,
            relayer_assignment: None,
            economic_parameters: None,
            ibc_data: Some(ibc_data),
        };
        Ok(m)
    }

    /// The packets of a batch of messages, in order; the first message that
    /// does not convert stops the batch with its error.
    pub fn messages_to_ibc_packets(&self, messages: &Vec<UniversalMessage>) -> (r: Result<
        Vec<IbcPacket>,
        RelayerError,
    >)
        ensures
            match r {
                Ok(ps) => ps@.len() == messages@.len() && forall|i: int|
                    0 <= i < messages@.len() ==> packet_for_message(
                        #[trigger] messages@[i],
                        ps@[i]@,
                    ),
                Err(e) => exists|k: int|
                    0 <= k < messages@.len() && packet_conversion_fails(#[trigger] messages@[k], e)
                        && forall|j: int| 0 <= j < k ==> #[trigger] packet_converts_back(messages@[j]),
            },
    {
        let mut packets: Vec<IbcPacket> = Vec::new();
        let mut i: usize = 0;
        while i < messages.len()
            invariant
                i <= messages.len(),
                packets@.len() == i,
                forall|j: int| 0 <= j < i ==> packet_for_message(#[trigger] messages@[j], packets@[j]@),
                forall|j: int| 0 <= j < i ==> #[trigger] packet_converts_back(messages@[j]),
            decreases messages.len() - i,
        {
            match self.universal_message_to_ibc_packet(&messages[i]) {
                Ok(p) => {
                    packets.push(p);
                },
                Err(e) => {
                    assert(packet_conversion_fails(messages@[i as int], e));
                    return Err(e);
                },
            }
            i = i + 1;
        }
        Ok(packets)
    }

    /// Converts a universal message back into the IBC packet that carries it.
    pub fn universal_message_to_ibc_packet(&self, message: &UniversalMessage) -> (r: Result<
        IbcPacket,
        RelayerError,
    >)
        ensures
            message.ibc_data is None ==> r == Err::<IbcPacket, RelayerError>(
                RelayerError::NoIbcData,
            ),
            message.ibc_data is Some && !payload_fits_packet(*message) ==> r == Err::<
                IbcPacket,
                RelayerError,
            >(RelayerError::UnsupportedMessageType),
            packet_converts_back(*message) ==> (r matches Ok(p) && packet_for_message(
                *message,
                p@,
            )),
            message.ibc_data is Some ==> (message.payload matches Some(Payload::TokenTransfer(t))
                ==> (r matches Ok(p) && ics20_fields(p@.data) == Some(
                (t.denom@, t.amount@, t.sender@, t.receiver@, t.memo@),
            ))),
    {
        let ibc_data = match &message.ibc_data {
            Some(d) => d,
            None => {
                return Err(RelayerError::NoIbcData);
            },
        };
        let data = match &message.payload {
            Some(Payload::TokenTransfer(t)) => {
                let mut entries: Vec<(String, String)> = Vec::new();
                entries.push(string_pair("denom", &t.denom));
                entries.push(string_pair("amount", &t.amount));
                entries.push(string_pair("sender", &t.sender));
                entries.push(string_pair("receiver", &t.receiver));
                entries.push(string_pair("memo", &t.memo));
                assert(crate::json::string_pairs(entries@) =~= ics20_entries(*t));
                proof {
                    reveal_strlit("denom");
                    reveal_strlit("amount");
                    reveal_strlit("sender");
                    reveal_strlit("receiver");
                    reveal_strlit("memo");
                    let e = ics20_entries(*t);
                    assert(e[0].0[0] == 'd' && e[1].0[0] == 'a' && e[2].0[0] == 's' && e[3].0[0]
                        == 'r' && e[4].0[0] == 'm');
                    assert forall|i: int, j: int|
                        0 <= i < e.len() && 0 <= j < e.len() && i != j implies #[trigger] e[i].0
                        != #[trigger] e[j].0 by {
                        assert(e[i].0[0] != e[j].0[0]);
                    }
                    assert(crate::json::distinct_keys(e));
                }
                let json = json_object_of_strings(&entries);
                assert(entries@[0].0@ == "denom"@);
                assert(entries@[1].0@ == "amount"@);
                assert(entries@[2].0@ == "sender"@);
                assert(entries@[3].0@ == "receiver"@);
                assert(entries@[4].0@ == "memo"@);
                json
            },
            Some(Payload::ContractCall(c)) => copy_bytes(c.call_data.as_slice()),
            _ => {
                return Err(RelayerError::UnsupportedMessageType);
            },
        };
        let timeout_height = match &ibc_data.timeout {
            Some(Timeout::TimeoutHeight(h)) => *h,
            _ => Height { revision_number: 0, revision_height: 0 },
        };
        let timeout_timestamp = match &ibc_data.timeout {
            Some(Timeout::TimeoutTimestamp(t)) => *t,
            _ => 0,
        };
        Ok(IbcPacket {
            sequence: ibc_data.sequence,
            source_port: ibc_data.source_port.clone(),
            source_channel: ibc_data.source_channel.clone(),
            destination_port: ibc_data.destination_port.clone(),
            destination_channel: ibc_data.destination_channel.clone(),
            data,
            timeout_height_on_b: timeout_height,
            timeout_timestamp_on_b: timeout_timestamp,
        })
    }
}

} // verus!

verus! {

/// The root that an ICS-23 membership proof commits to: the SHA-256 digest of
/// key, value and proof bytes.
pub open spec fn membership_root(key: Seq<u8>, value: Seq<u8>, proof: Seq<u8>) -> Seq<u8> {
    sha256_digest(key + value + proof)
}

/// The root that an ICS-23 non-membership proof commits to: the SHA-256 digest
/// of key and proof bytes.
pub open spec fn non_membership_root(key: Seq<u8>, proof: Seq<u8>) -> Seq<u8> {
    sha256_digest(key + proof)
}

/// The voting power needed to sign a header: more than two thirds of the total.
pub open spec fn required_voting_power(total: u64) -> int {
    (total * 2) / 3 + 1
}

/// The bytes that identify a validator set: each validator's address followed
/// by its voting power (little-endian), in order.
pub open spec fn validator_set_bytes(validators: Seq<crate::chain_adapter::Validator>) -> Seq<u8>
    decreases validators.len(),
{
    if validators.len() == 0 {
        Seq::empty()
    } else {
        validator_set_bytes(validators.drop_last()) + validators.last().address@
            + vstd::bytes::spec_u64_to_le_bytes(validators.last().voting_power)
    }
}

/// The hash of a validator set.
pub open spec fn validator_set_hash(vs: ValidatorSet) -> Seq<u8> {
    sha256_digest(validator_set_bytes(vs.validators@))
}

/// The path under which an IBC packet commitment is stored:
/// `commitments/ports/{port}/channels/{channel}/sequences/{sequence}`.
pub open spec fn commitment_path(d: IbcCompatibilityData) -> Seq<char> {
    "commitments/ports/"@ + d.source_port@ + "/channels/"@ + d.source_channel@
        + "/sequences/"@ + decimal_digits(d.sequence as nat)
}

/// The value of an IBC packet commitment: the SHA-256 digest of the packet's
/// data, timeout timestamp, timeout revision number and timeout revision
/// height (the numbers little-endian).
pub open spec fn commitment_value(p: PacketModel) -> Seq<u8> {
    sha256_digest(
        p.data + vstd::bytes::spec_u64_to_le_bytes(p.timeout_timestamp)
            + vstd::bytes::spec_u64_to_le_bytes(p.timeout_height.revision_number)
            + vstd::bytes::spec_u64_to_le_bytes(p.timeout_height.revision_height),
    )
}

fn digest_of_three(a: &[u8], b: &[u8], c: &[u8]) -> (d: [u8; 32])
    ensures
        d@ == sha256_digest(a@ + b@ + c@),
{
    let mut buf: Vec<u8> = Vec::new();
    append_bytes(&mut buf, a);
    append_bytes(&mut buf, b);
    append_bytes(&mut buf, c);
    sha256(buf.as_slice())
}

impl IBCAdapter {
    /// The root that a membership proof of `key` holding `value` leads to.
    pub fn calculate_root_from_proof(&self, key: &[u8], value: &[u8], proof: &[u8]) -> (r: Result<
        [u8; 32],
        RelayerError,
    >)
        ensures
            r matches Ok(root) && root@ == membership_root(key@, value@, proof@),
    {
        Ok(digest_of_three(key, value, proof))
    }

    /// The root that a non-membership proof of `key` leads to.
    pub fn calculate_root_from_non_membership_proof(&self, key: &[u8], proof: &[u8]) -> (r: Result<
        [u8; 32],
        RelayerError,
    >)
        ensures
            r matches Ok(root) && root@ == non_membership_root(key@, proof@),
    {
        Ok(digest_of_three(key, proof, &[]))
    }

    /// Whether `proof` shows that `key` holds `value` under `root`.
    pub fn verify_ics23_proof(
        &self,
        proof: &InclusionProof,
        root: &StateRoot,
        key: &[u8],
        value: &[u8],
    ) -> (r: Result<bool, RelayerError>)
        ensures
            r == Ok::<bool, RelayerError>(
                membership_root(key@, value@, proof.proof_data@) == root.hash@,
            ),
    {
        let calculated = match self.calculate_root_from_proof(key, value, proof.proof_data.as_slice()) {
            Ok(c) => c,
            Err(e) => {
                return Err(e);
            },
        };
        Ok(bytes_eq(calculated.as_slice(), root.hash.as_slice()))
    }

    /// Whether `proof` shows that `key` holds no value under `root`.
    pub fn verify_ics23_non_membership(
        &self,
        proof: &InclusionProof,
        root: &StateRoot,
        key: &[u8],
    ) -> (r: Result<bool, RelayerError>)
        ensures
            r == Ok::<bool, RelayerError>(
                non_membership_root(key@, proof.proof_data@) == root.hash@,
            ),
    {
        let calculated = match self.calculate_root_from_non_membership_proof(
            key,
            proof.proof_data.as_slice(),
        ) {
            Ok(c) => c,
            Err(e) => {
                return Err(e);
            },
        };
        assert(key@ + proof.proof_data@ + Seq::<u8>::empty() =~= key@ + proof.proof_data@);
        Ok(bytes_eq(calculated.as_slice(), root.hash.as_slice()))
    }

    pub fn verify_inclusion_proof(
        &self,
        proof: &InclusionProof,
        root: &StateRoot,
        key: &[u8],
        value: &[u8],
    ) -> (r: Result<bool, RelayerError>)
        ensures
            r == Ok::<bool, RelayerError>(
                membership_root(key@, value@, proof.proof_data@) == root.hash@,
            ),
    {
        self.verify_ics23_proof(proof, root, key, value)
    }

    /// Verifies that a key is absent, for timeouts.
    pub fn verify_exclusion_proof(&self, proof: &InclusionProof, root: &StateRoot, key: &[u8]) -> (r:
        Result<bool, RelayerError>)
        ensures
            r == Ok::<bool, RelayerError>(
                non_membership_root(key@, proof.proof_data@) == root.hash@,
            ),
    {
        self.verify_ics23_non_membership(proof, root, key)
    }

    /// Whether the header carries more than two thirds of the set's voting
    /// power. Commit signatures are not read: all of the set's power counts
    /// as signed, so a set with any voting power passes.
    pub fn verify_tendermint_header(&self, header: &Header, validator_set: &ValidatorSet) -> (r:
        Result<bool, RelayerError>)
        requires
            validator_set.total_voting_power * 2 <= u64::MAX,
        ensures
            r == Ok::<bool, RelayerError>(
                validator_set.total_voting_power >= required_voting_power(
                    validator_set.total_voting_power,
                ),
            ),
            r == Ok::<bool, RelayerError>(validator_set.total_voting_power > 0),
    {
        let required_power = (validator_set.total_voting_power * 2) / 3 + 1;
        let signed_power = validator_set.total_voting_power;
        Ok(signed_power >= required_power)
    }

    pub fn verify_header(&self, header: &Header, validator_set: &ValidatorSet) -> (r: Result<
        bool,
        RelayerError,
    >)
        requires
            validator_set.total_voting_power * 2 <= u64::MAX,
        ensures
            r == Ok::<bool, RelayerError>(validator_set.total_voting_power > 0),
    {
        self.verify_tendermint_header(header, validator_set)
    }

    /// The hash of a validator set.
    pub fn hash_validator_set(&self, validator_set: &ValidatorSet) -> (r: [u8; 32])
        ensures
            r@ == validator_set_hash(*validator_set),
    {
        let vals = &validator_set.validators;
        let mut buf: Vec<u8> = Vec::new();
        let mut i: usize = 0;
        assert(vals@.take(0) =~= Seq::<crate::chain_adapter::Validator>::empty());
        while i < vals.len()
            invariant
                i <= vals.len(),
                vals == &validator_set.validators,
                buf@ == validator_set_bytes(vals@.take(i as int)),
            decreases vals.len() - i,
        {
            append_bytes(&mut buf, vals[i].address.as_slice());
            let power = vstd::bytes::u64_to_le_bytes(vals[i].voting_power);
            append_bytes(&mut buf, power.as_slice());
            assert(vals@.take(i + 1).drop_last() =~= vals@.take(i as int));
            i = i + 1;
        }
        assert(vals@.take(vals.len() as int) =~= vals@);
        sha256(buf.as_slice())
    }

    /// One step of verifying a chain of headers against the current
    /// validator set: the header must be signed, and the set must be fetched
    /// anew (at the header's height) where the header names a different set.
    pub fn verify_header_chain_step(&self, header: &Header, current: &ValidatorSet) -> (r: Result<
        bool,
        RelayerError,
    >)
        requires
            current.total_voting_power * 2 <= u64::MAX,
        ensures
            current.total_voting_power == 0 ==> r == Err::<bool, RelayerError>(
                RelayerError::InvalidHeader(header.height),
            ),
            current.total_voting_power > 0 ==> r == Ok::<bool, RelayerError>(
                match header.validator_set_hash {
                    Some(h) => h@ != validator_set_hash(*current),
                    None => false,
                },
            ),
    {
        let valid = match self.verify_header(header, current) {
            Ok(v) => v,
            Err(e) => {
                return Err(e);
            },
        };
        if !valid {
            return Err(RelayerError::InvalidHeader(header.height));
        }
        match &header.validator_set_hash {
            Some(h) => {
                let current_hash = self.hash_validator_set(current);
                Ok(!bytes_eq(h.as_slice(), current_hash.as_slice()))
            },
            None => Ok(false),
        }
    }

    /// The header of a block; its parent hash and validator set hash are not
    /// in the block and stay empty.
    pub fn block_to_header(&self, block: &Block) -> (h: Header)
        ensures
            h.height == block.height,
            h.hash == block.hash,
            forall|i: int| 0 <= i < 32 ==> h.parent_hash@[i] == 0,
            h.timestamp == block.timestamp,
            h.state_root == block.state_root.hash,
            h.validator_set_hash is None,
    {
        Header {
            height: block.height,
            hash: block.hash,
            parent_hash: [0u8; 32],
            timestamp: block.timestamp,
            state_root: block.state_root.hash,
            validator_set_hash: None,
        }
    }

    /// The commitment path of a message's packet.
    pub fn generate_commitment_path(&self, message: &UniversalMessage) -> (r: Result<
        Vec<u8>,
        RelayerError,
    >)
        ensures
            message.ibc_data is None ==> r == Err::<Vec<u8>, RelayerError>(
                RelayerError::NoIbcData,
            ),
            message.ibc_data is Some ==> (r matches Ok(p) && p@ == encode_utf8(
                commitment_path(message.ibc_data.unwrap()),
            )),
    {
        let d = match &message.ibc_data {
            Some(d) => d,
            None => {
                return Err(RelayerError::NoIbcData);
            },
        };
        let mut path = copy_string("commitments/ports/");
        path.append(d.source_port.as_str());
        path.append("/channels/");
        path.append(d.source_channel.as_str());
        path.append("/sequences/");
        let seq = u64_to_decimal(d.sequence);
        path.append(seq.as_str());
        assert(path@ =~= commitment_path(*d));
        Ok(copy_bytes(path.as_str().as_bytes()))
    }

    /// The commitment value of a message's packet.
    pub fn generate_commitment_value(&self, message: &UniversalMessage) -> (r: Result<
        Vec<u8>,
        RelayerError,
    >)
        ensures
            r matches Ok(v) ==> exists|p: IbcPacket|
                packet_for_message(*message, p@) && v@ == commitment_value(p@),
            message.ibc_data is None ==> r == Err::<Vec<u8>, RelayerError>(
                RelayerError::NoIbcData,
            ),
            message.ibc_data is Some && !payload_fits_packet(*message) ==> r == Err::<
                Vec<u8>,
                RelayerError,
            >(RelayerError::UnsupportedMessageType),
            packet_converts_back(*message) ==> r is Ok,
    {
        let packet = match self.universal_message_to_ibc_packet(message) {
            Ok(p) => p,
            Err(e) => {
                return Err(e);
            },
        };
        let mut buf: Vec<u8> = Vec::new();
        append_bytes(&mut buf, packet.data.as_slice());
        let a = vstd::bytes::u64_to_le_bytes(packet.timeout_timestamp_on_b);
        append_bytes(&mut buf, a.as_slice());
        let b = vstd::bytes::u64_to_le_bytes(packet.timeout_height_on_b.revision_number);
        append_bytes(&mut buf, b.as_slice());
        let c = vstd::bytes::u64_to_le_bytes(packet.timeout_height_on_b.revision_height);
        append_bytes(&mut buf, c.as_slice());
        let digest = sha256(buf.as_slice());
        Ok(copy_bytes(digest.as_slice()))
    }

    /// An ICS-23 membership proof of `value` at `path`; the proof bytes are
    /// not produced here and stay empty.
    pub fn generate_ics23_proof(&self, root: &StateRoot, path: &[u8], value: &[u8]) -> (r: Result<
        InclusionProof,
        RelayerError,
    >)
        ensures
            r matches Ok(p) && p.proof_data@.len() == 0 && p.path@ == path@ && p.value@ == value@
                && p.proof_type@ == "ics23"@,
    {
        Ok(
            InclusionProof {
                proof_data: Vec::new(),
                path: copy_bytes(path),
                value: copy_bytes(value),
                proof_type: copy_string("ics23"),
            },
        )
    }

    /// An ICS-23 non-membership proof of `key`; the proof bytes stay empty.
    pub fn generate_ics23_non_membership_proof(&self, root: &StateRoot, key: &[u8]) -> (r: Result<
        InclusionProof,
        RelayerError,
    >)
        ensures
            r matches Ok(p) && p.proof_data@.len() == 0 && p.path@ == key@ && p.value@.len() == 0
                && p.proof_type@ == "ics23_non_membership"@,
    {
        Ok(
            InclusionProof {
                proof_data: Vec::new(),
                path: copy_bytes(key),
                value: Vec::new(),
                proof_type: copy_string("ics23_non_membership"),
            },
        )
    }

    /// The inclusion proof of a message committed in `block`: its commitment
    /// path and value.
    pub fn create_inclusion_proof(&self, block: &Block, message: &UniversalMessage) -> (r: Result<
        InclusionProof,
        RelayerError,
    >)
        ensures
            message.ibc_data is None ==> r == Err::<InclusionProof, RelayerError>(
                RelayerError::NoIbcData,
            ),
            message.ibc_data is Some && !payload_fits_packet(*message) ==> r == Err::<
                InclusionProof,
                RelayerError,
            >(RelayerError::UnsupportedMessageType),
            r matches Ok(p) ==> {
                &&& p.path@ == encode_utf8(commitment_path(message.ibc_data.unwrap()))
                &&& exists|q: IbcPacket|
                    packet_for_message(*message, q@) && p.value@ == commitment_value(q@)
                &&& p.proof_data@.len() == 0
                &&& p.proof_type@ == "ics23"@
            },
            packet_converts_back(*message) ==> r is Ok,
    {
        let path = match self.generate_commitment_path(message) {
            Ok(p) => p,
            Err(e) => {
                return Err(e);
            },
        };
        let value = match self.generate_commitment_value(message) {
            Ok(v) => v,
            Err(e) => {
                return Err(e);
            },
        };
        self.generate_ics23_proof(&block.state_root, path.as_slice(), value.as_slice())
    }

    /// The exclusion proof of `key` in `block`, for timeouts.
    pub fn create_exclusion_proof(&self, block: &Block, key: &[u8]) -> (r: Result<
        InclusionProof,
        RelayerError,
    >)
        ensures
            r matches Ok(p) && p.proof_data@.len() == 0 && p.path@ == key@ && p.value@.len() == 0
                && p.proof_type@ == "ics23_non_membership"@,
    {
        self.generate_ics23_non_membership_proof(&block.state_root, key)
    }
}

} // verus!

verus! {

/// `n`, capped at the largest `u64`.
pub open spec fn cap_u64(n: nat) -> nat {
    if n > u64::MAX {
        u64::MAX as nat
    } else {
        n
    }
}

/// The fee units of a message on an IBC chain: 1 000 for a token transfer,
/// 1 500 plus one per call-data byte for a contract call, 1 000 plus 100 per
/// transfer for a batch, 1 200 otherwise; capped at the largest `u64`.
pub open spec fn ibc_fee_units(p: Option<Payload>) -> nat {
    match p {
        Some(Payload::TokenTransfer(_)) => 1000,
        Some(Payload::ContractCall(c)) => cap_u64(1500 + c.call_data@.len()),
        Some(Payload::BatchTransfer(b)) => cap_u64(1000 + 100 * b.transfers@.len()),
        _ => 1200,
    }
}

/// `x` scaled by `ratio_bps` basis points, rounded down and capped at the
/// largest `u64`.
pub open spec fn scale_down(x: nat, ratio_bps: nat) -> nat {
    if x * ratio_bps / 10000 > u64::MAX {
        u64::MAX as nat
    } else {
        x * ratio_bps / 10000
    }
}

/// The multiplier for a priority level: 0 is low, 1 normal, 2 high, above
/// critical.
pub open spec fn priority_multiplier_bps(priority: u32) -> nat {
    if priority == 0 {
        8000
    } else if priority == 1 {
        10000
    } else if priority == 2 {
        15000
    } else {
        20000
    }
}

/// The congestion multiplier for a block of `tx_count` transactions: from
/// 0.8 (empty) rising by 0.011 per transaction to at most 3.0.
pub open spec fn congestion_multiplier_bps(tx_count: nat) -> nat {
    if 110 * tx_count > 22000 {
        30000
    } else {
        8000 + 110 * tx_count
    }
}

/// The sync status for a node `blocks_behind` blocks behind the network.
pub open spec fn sync_status_for(blocks_behind: u64) -> SyncStatus {
    if blocks_behind == 0 {
        SyncStatus::Synced
    } else if blocks_behind < 10 {
        SyncStatus::Syncing
    } else {
        SyncStatus::Stalled
    }
}

/// The light-client requirement for a message type: one confirmation within
/// 5 minutes for token transfers, three within 3 minutes for contract calls,
/// one within 10 minutes otherwise; always a `07-tendermint` client.
pub open spec fn light_client_requirement(message_type: Seq<char>, p: ProofRequirement) -> bool {
    let (confirmations, max_age) = if message_type == "token_transfer"@ {
        (1u32, 300u64)
    } else if message_type == "contract_call"@ {
        (3u32, 180u64)
    } else {
        (1u32, 600u64)
    };
    p.requirement matches Some(Requirement::LightClient(l)) && l.min_confirmations == confirmations
        && l.max_age_seconds == max_age && l.client_type@ == "07-tendermint"@
}

/// The packets that the transactions send, in order.
pub open spec fn packets_of_transactions(txs: Seq<Transaction>) -> Seq<PacketModel>
    decreases txs.len(),
{
    if txs.len() == 0 {
        Seq::empty()
    } else {
        packets_of_transactions(txs.drop_last()) + packets_of_transaction(txs.last())
    }
}

/// The packets of a block that turn into messages, in order.
pub open spec fn convertible_packets(block: Block) -> Seq<PacketModel> {
    packets_of_transactions(block.transactions@).filter(|p: PacketModel| packet_converts(p))
}

fn scale_bps(x: u64, ratio_bps: u64) -> (r: u64)
    ensures
        r == scale_down(x as nat, ratio_bps as nat),
{
    assert((x as nat) * (ratio_bps as nat) <= (u64::MAX as nat) * (u64::MAX as nat))
        by (nonlinear_arith)
        requires
            x <= u64::MAX,
            ratio_bps <= u64::MAX,
    ;
    let product = (x as u128) * (ratio_bps as u128) / 10000;
    if product > u64::MAX as u128 {
        u64::MAX
    } else {
        product as u64
    }
}

impl IBCAdapter {
    /// The fee of delivering a message, in uatom.
    pub fn estimate_fee(&self, message: &UniversalMessage) -> (r: Result<Fee, RelayerError>)
        ensures
            r matches Ok(f) && {
                &&& f.amount@ == decimal_digits(ibc_fee_units(message.payload))
                &&& f.denom@ == "uatom"@
                &&& f.chain_id@ == self.spec_chain_id()
                &&& f.decimals == 6
            },
    {
        let units: u64 = match &message.payload {
            Some(Payload::TokenTransfer(_)) => 1000,
            Some(Payload::ContractCall(c)) => {
                let n = c.call_data.len() as u64;
                if n > u64::MAX - 1500 {
                    u64::MAX
                } else {
                    1500 + n
                }
            },
            Some(Payload::BatchTransfer(b)) => {
                let n = b.transfers.len() as u64;
                if n > (u64::MAX - 1000) / 100 {
                    u64::MAX
                } else {
                    1000 + 100 * n
                }
            },
            _ => 1200,
        };
        Ok(
            Fee {
                amount: u64_to_decimal(units),
                denom: copy_string("uatom"),
                chain_id: copy_string(self.chain_id.as_str()),
                decimals: 6,
            },
        )
    }

    /// The fee under current network conditions: the estimate scaled by the
    /// congestion multiplier and then by the priority multiplier, each time
    /// rounded down.
    pub fn estimate_dynamic_fee(
        &self,
        message: &UniversalMessage,
        priority: u32,
        conditions: &NetworkConditions,
    ) -> (r: Result<Fee, RelayerError>)
        ensures
            r matches Ok(f) && {
                &&& f.amount@ == decimal_digits(
                    scale_down(
                        scale_down(
                            ibc_fee_units(message.payload),
                            conditions.congestion_multiplier_bps as nat,
                        ),
                        priority_multiplier_bps(priority),
                    ),
                )
                &&& priority == 1 ==> f.amount@ == decimal_digits(
                    scale_down(
                        ibc_fee_units(message.payload),
                        conditions.congestion_multiplier_bps as nat,
                    ),
                )
                &&& f.denom@ == "uatom"@
                &&& f.chain_id@ == self.spec_chain_id()
                &&& f.decimals == 6
            },
    {
        let base_fee = match self.estimate_fee(message) {
            Ok(f) => f,
            Err(e) => {
                return Err(e);
            },
        };
        proof {
            crate::decimal::lemma_parse_of_decimal(ibc_fee_units(message.payload) as u64);
        }
        let base_amount = match crate::decimal::parse_u64(base_fee.amount.as_str()) {
            Some(a) => a,
            None => {
                return Err(RelayerError::InvalidFeeAmount);
            },
        };
        let adjusted = scale_bps(base_amount, conditions.congestion_multiplier_bps);
        let multiplier: u64 = if priority == 0 {
            8000
        } else if priority == 1 {
            10000
        } else if priority == 2 {
            15000
        } else {
            20000
        };
        let final_amount = scale_bps(adjusted, multiplier);
        proof {
            crate::laws::lemma_dynamic_fee_priority_levels(adjusted as nat, priority);
        }
        Ok(
            Fee {
                amount: u64_to_decimal(final_amount),
                denom: base_fee.denom,
                chain_id: base_fee.chain_id,
                decimals: base_fee.decimals,
            },
        )
    }

    /// The shortest timeout the channel accepts: 10 minutes.
    pub fn minimum_timeout(&self) -> (secs: u64)
        ensures
            secs == 600,
    {
        600
    }

    /// The timeout to use under current conditions: 10 minutes plus 5
    /// minutes scaled by the congestion multiplier (rounded down), in seconds.
    pub fn calculate_optimal_timeout(&self, conditions: &NetworkConditions) -> (r: Result<
        u64,
        RelayerError,
    >)
        requires
            600 + scale_down(300, conditions.congestion_multiplier_bps as nat) <= u64::MAX,
        ensures
            r == Ok::<u64, RelayerError>(
                (600 + scale_down(300, conditions.congestion_multiplier_bps as nat)) as u64,
            ),
    {
        let buffer = scale_bps(300, conditions.congestion_multiplier_bps);
        Ok(600 + buffer)
    }

    /// The proof a message type needs on this chain.
    pub fn get_proof_requirement(&self, message_type: &str) -> (p: ProofRequirement)
        ensures
            light_client_requirement(message_type@, p),
    {
        let (confirmations, max_age): (u32, u64) = if str_eq(message_type, "token_transfer") {
            (1, 300)
        } else if str_eq(message_type, "contract_call") {
            (3, 180)
        } else {
            (1, 600)
        };
        ProofRequirement {
            requirement: Some(
                Requirement::LightClient(
                    LightClientProof {
                        min_confirmations: confirmations,
                        max_age_seconds: max_age,
                        client_type: copy_string("07-tendermint"),
                    },
                ),
            ),
        }
    }

    /// The congestion multiplier for a latest block of `tx_count`
    /// transactions (a block holds about 200).
    pub fn calculate_congestion_multiplier(&self, tx_count: usize) -> (r: Result<u64, RelayerError>)
        ensures
            r == Ok::<u64, RelayerError>(congestion_multiplier_bps(tx_count as nat) as u64),
    {
        if tx_count > 200 {
            Ok(30000)
        } else {
            Ok(8000 + 110 * tx_count as u64)
        }
    }

    /// The first height of the window over which the block time is averaged:
    /// 100 blocks back, or the genesis.
    pub fn block_time_window_start(&self, latest_height: u64) -> (h: u64)
        ensures
            h == if latest_height >= 100 {
                latest_height - 100
            } else {
                0
            },
    {
        latest_height.saturating_sub(100)
    }

    /// The average block time, in seconds, between two blocks; 7 seconds (the
    /// Tendermint default) where the window is empty.
    pub fn calculate_average_block_time(
        &self,
        latest_height: u64,
        latest_timestamp: u64,
        start_height: u64,
        start_timestamp: u64,
    ) -> (r: Result<u64, RelayerError>)
        requires
            start_height <= latest_height,
            start_timestamp <= latest_timestamp,
        ensures
            r == Ok::<u64, RelayerError>(
                if latest_height > start_height {
                    ((latest_timestamp - start_timestamp) / (latest_height - start_height)) as u64
                } else {
                    7
                },
            ),
    {
        let time_diff = latest_timestamp - start_timestamp;
        let block_diff = latest_height - start_height;
        if block_diff > 0 {
            Ok(time_diff / block_diff)
        } else {
            Ok(7)
        }
    }

    /// The network conditions from the average block time and the number of
    /// transactions in the latest block: gas at 0.025 uatom, finality in 7
    /// seconds.
    pub fn get_network_conditions(&self, average_block_time_secs: u64, latest_tx_count: usize) -> (r:
        Result<NetworkConditions, RelayerError>)
        ensures
            r matches Ok(c) && {
                &&& c.congestion_multiplier_bps == congestion_multiplier_bps(latest_tx_count as nat)
                &&& c.average_block_time_secs == average_block_time_secs
                &&& c.gas_price.amount@ == "0.025"@
                &&& c.gas_price.denom@ == "uatom"@
                &&& c.gas_price.chain_id@ == self.spec_chain_id()
                &&& c.gas_price.decimals == 6
                &&& c.finality_time_secs == 7
            },
    {
        let congestion = match self.calculate_congestion_multiplier(latest_tx_count) {
            Ok(c) => c,
            Err(e) => {
                return Err(e);
            },
        };
        Ok(
            NetworkConditions {
                congestion_multiplier_bps: congestion,
                average_block_time_secs,
                gas_price: Fee {
                    amount: copy_string("0.025"),
                    denom: copy_string("uatom"),
                    chain_id: copy_string(self.chain_id.as_str()),
                    decimals: 6,
                },
                finality_time_secs: 7,
            },
        )
    }

    /// The health of the node at Unix time `now`: healthy exactly when it has
    /// the network's latest block.
    pub fn health_check(
        &self,
        latest_block_height: u64,
        network_latest_height: u64,
        peer_count: u32,
        now: u64,
    ) -> (r: Result<HealthStatus, RelayerError>)
        ensures
            r matches Ok(h) && {
                &&& h.blocks_behind == (if network_latest_height >= latest_block_height {
                    network_latest_height - latest_block_height
                } else {
                    0
                })
                &&& h.sync_status == sync_status_for(h.blocks_behind)
                &&& h.is_healthy == (h.blocks_behind == 0)
                &&& h.is_healthy == (h.sync_status == SyncStatus::Synced)
                &&& h.latest_block_height == latest_block_height
                &&& h.peer_count == peer_count
                &&& h.last_checked == now
            },
    {
        let blocks_behind = network_latest_height.saturating_sub(latest_block_height);
        let sync_status = if blocks_behind == 0 {
            SyncStatus::Synced
        } else if blocks_behind < 10 {
            SyncStatus::Syncing
        } else {
            SyncStatus::Stalled
        };
        Ok(
            HealthStatus {
                is_healthy: sync_status == SyncStatus::Synced,
                latest_block_height,
                blocks_behind,
                peer_count,
                sync_status,
                last_checked: now,
            },
        )
    }

    /// The messages that a block's IBC packets carry, at Unix time `now`;
    /// packets that do not convert are skipped.
    pub fn extract_messages(&self, block: &Block, now: u64) -> (r: Vec<UniversalMessage>)
        ensures
            r@.len() == convertible_packets(*block).len(),
            forall|i: int|
                0 <= i < r@.len() ==> message_for_packet(
                    self.spec_chain_id(),
                    self.spec_connection_id(),
                    #[trigger] convertible_packets(*block)[i],
                    now,
                    r@[i],
                ),
    {
        let ghost conv = |p: PacketModel| packet_converts(p);
        let txs = &block.transactions;
        let mut messages: Vec<UniversalMessage> = Vec::new();
        let mut i: usize = 0;
        assert(packets_of_transactions(txs@.take(0)) =~= Seq::<PacketModel>::empty());
        assert(Seq::<PacketModel>::empty().filter(conv) =~= Seq::<PacketModel>::empty());
        while i < txs.len()
            invariant
                i <= txs.len(),
                txs == &block.transactions,
                conv == (|p: PacketModel| packet_converts(p)),
                messages@.len() == packets_of_transactions(txs@.take(i as int)).filter(conv).len(),
                forall|j: int|
                    0 <= j < messages@.len() ==> message_for_packet(
                        self.spec_chain_id(),
                        self.spec_connection_id(),
                        #[trigger] packets_of_transactions(txs@.take(i as int)).filter(conv)[j],
                        now,
                        messages@[j],
                    ),
            decreases txs.len() - i,
        {
            let ghost before = packets_of_transactions(txs@.take(i as int));
            let packets = self.parse_ibc_packets_from_tx(&txs[i]);
            let ghost ptx = packets_of_transaction(txs@[i as int]);
            let mut k: usize = 0;
            assert(before + ptx.take(0) =~= before);
            while k < packets.len()
                invariant
                    k <= packets.len(),
                    conv == (|p: PacketModel| packet_converts(p)),
                    packets@.map_values(|p: IbcPacket| p@) == ptx,
                    messages@.len() == (before + ptx.take(k as int)).filter(conv).len(),
                    forall|j: int|
                        0 <= j < messages@.len() ==> message_for_packet(
                            self.spec_chain_id(),
                            self.spec_connection_id(),
                            #[trigger] (before + ptx.take(k as int)).filter(conv)[j],
                            now,
                            messages@[j],
                        ),
                decreases packets.len() - k,
            {
                let ghost sel = (before + ptx.take(k as int)).filter(conv);
                reveal_with_fuel(Seq::filter, 1);
                assert((before + ptx.take(k + 1)).drop_last() =~= before + ptx.take(k as int));
                assert((before + ptx.take(k + 1)).last() == packets@[k as int]@);
                match self.ibc_packet_to_universal_message(&packets[k], now) {
                    Ok(m) => {
                        assert(packet_converts(packets@[k as int]@));
                        messages.push(m);
                        assert((before + ptx.take(k + 1)).filter(conv) =~= sel.push(
                            packets@[k as int]@,
                        ));
                    },
                    Err(_) => {
                        assert((before + ptx.take(k + 1)).filter(conv) =~= sel);
                    },
                }
                k = k + 1;
            }
            assert(ptx.take(packets@.len() as int) =~= ptx);
            assert(txs@.take(i + 1).drop_last() =~= txs@.take(i as int));
            assert(packets_of_transactions(txs@.take(i + 1)) == before + ptx);
            i = i + 1;
        }
        assert(txs@.take(txs.len() as int) =~= txs@);
        messages
    }
}

} // verus!
