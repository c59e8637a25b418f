//! Wire encoding of the universal message model. Fields are numbered in the
//! order in which each type declares them; oneof members take consecutive
//! numbers.

use vstd::prelude::*;
use vstd::utf8::encode_utf8;
use crate::uibc::{
    BatchTransfer, ChainEndpoint, ContractCall, EconomicParameters, Fee, FungibleTokenPacket,
    Height, IbcCompatibilityData, LightClientProof, MessageFees, OptimisticProof, Payload,
    ProofRequirement, RelayerAssignment, Requirement, StateCheckpoint, StateQuery, Timeout,
    TokenTransfer, UniversalMessage, ZkProofRequirement,
};
use crate::wire::{
    bytes_field, message_field, push_bytes_field, push_message_field, push_repeated_bytes,
    push_repeated_strings, push_string_field, push_varint_field, push_varint_field_present,
    repeated_field, string_field, varint_field, varint_field_present, bytes_field_present,
};

verus! {

impl ChainEndpoint {
    pub open spec fn encoding(self) -> Seq<u8> {
        string_field(1, self.chain_id@) + varint_field(2, self.chain_type.number()) + string_field(
            3,
            self.connection_id@,
        ) + string_field(4, self.channel_id@) + string_field(5, self.port_id@)
    }

    pub fn encode_to_vec(&self) -> (out: Vec<u8>)
        ensures
            out@ == self.encoding(),
    {
        let mut buf = Vec::new();
        push_string_field(&mut buf, 1, &self.chain_id);
        push_varint_field(&mut buf, 2, self.chain_type.to_number());
        push_string_field(&mut buf, 3, &self.connection_id);
        push_string_field(&mut buf, 4, &self.channel_id);
        push_string_field(&mut buf, 5, &self.port_id);
        assert(buf@ =~= self.encoding());
        buf
    }
}

impl Fee {
    pub open spec fn encoding(self) -> Seq<u8> {
        string_field(1, self.amount@) + string_field(2, self.denom@) + string_field(
            3,
            self.chain_id@,
        ) + varint_field(4, self.decimals as nat)
    }

    pub fn encode_to_vec(&self) -> (out: Vec<u8>)
        ensures
            out@ == self.encoding(),
    {
        let mut buf = Vec::new();
        push_string_field(&mut buf, 1, &self.amount);
        push_string_field(&mut buf, 2, &self.denom);
        push_string_field(&mut buf, 3, &self.chain_id);
        push_varint_field(&mut buf, 4, self.decimals as u64);
        assert(buf@ =~= self.encoding());
        buf
    }
}

impl TokenTransfer {
    pub open spec fn encoding(self) -> Seq<u8> {
        string_field(1, self.denom@) + string_field(2, self.amount@) + string_field(
            3,
            self.sender@,
        ) + string_field(4, self.receiver@) + string_field(5, self.memo@)
    }

    pub fn encode_to_vec(&self) -> (out: Vec<u8>)
        ensures
            out@ == self.encoding(),
    {
        let mut buf = Vec::new();
        push_string_field(&mut buf, 1, &self.denom);
        push_string_field(&mut buf, 2, &self.amount);
        push_string_field(&mut buf, 3, &self.sender);
        push_string_field(&mut buf, 4, &self.receiver);
        push_string_field(&mut buf, 5, &self.memo);
        assert(buf@ =~= self.encoding());
        buf
    }
}

impl FungibleTokenPacket {
    pub open spec fn encoding(self) -> Seq<u8> {
        string_field(1, self.denom@) + string_field(2, self.amount@) + string_field(
            3,
            self.sender@,
        ) + string_field(4, self.receiver@) + string_field(5, self.memo@)
    }

    pub fn encode_to_vec(&self) -> (out: Vec<u8>)
        ensures
            out@ == self.encoding(),
    {
        let mut buf = Vec::new();
        push_string_field(&mut buf, 1, &self.denom);
        push_string_field(&mut buf, 2, &self.amount);
        push_string_field(&mut buf, 3, &self.sender);
        push_string_field(&mut buf, 4, &self.receiver);
        push_string_field(&mut buf, 5, &self.memo);
        assert(buf@ =~= self.encoding());
        buf
    }
}

impl ContractCall {
    pub open spec fn encoding(self) -> Seq<u8> {
        string_field(1, self.contract_address@) + bytes_field(2, self.call_data@)
    }

    pub fn encode_to_vec(&self) -> (out: Vec<u8>)
        ensures
            out@ == self.encoding(),
    {
        let mut buf = Vec::new();
        push_string_field(&mut buf, 1, &self.contract_address);
        push_bytes_field(&mut buf, 2, self.call_data.as_slice());
        assert(buf@ =~= self.encoding());
        buf
    }
}

impl BatchTransfer {
    pub open spec fn encoding(self) -> Seq<u8> {
        repeated_field(1, self.transfers@.map_values(|t: TokenTransfer| t.encoding()))
    }

    pub fn encode_to_vec(&self) -> (out: Vec<u8>)
        ensures
            out@ == self.encoding(),
    {
        let ghost all = self.transfers@.map_values(|t: TokenTransfer| t.encoding());
        let mut buf = Vec::new();
        let mut i: usize = 0;
        assert(all.take(0) =~= Seq::<Seq<u8>>::empty());
        while i < self.transfers.len()
            invariant
                i <= self.transfers.len(),
                all == self.transfers@.map_values(|t: TokenTransfer| t.encoding()),
                buf@ == repeated_field(1, all.take(i as int)),
            decreases self.transfers.len() - i,
        {
            let item = self.transfers[i].encode_to_vec();
            push_message_field(&mut buf, 1, &item);
            assert(all.take(i + 1).drop_last() =~= all.take(i as int));
            assert(all.take(i + 1).last() == item@);
            assert(buf@ =~= repeated_field(1, all.take(i + 1)));
            i = i + 1;
        }
        assert(all.take(self.transfers.len() as int) =~= all);
        buf
    }
}

impl StateQuery {
    pub open spec fn encoding(self) -> Seq<u8> {
        bytes_field(1, self.query_data@)
    }

    pub fn encode_to_vec(&self) -> (out: Vec<u8>)
        ensures
            out@ == self.encoding(),
    {
        let mut buf = Vec::new();
        push_bytes_field(&mut buf, 1, self.query_data.as_slice());
        assert(buf@ =~= self.encoding());
        buf
    }
}

impl Height {
    pub open spec fn encoding(self) -> Seq<u8> {
        varint_field(1, self.revision_number as nat) + varint_field(
            2,
            self.revision_height as nat,
        )
    }

    pub fn encode_to_vec(&self) -> (out: Vec<u8>)
        ensures
            out@ == self.encoding(),
    {
        let mut buf = Vec::new();
        push_varint_field(&mut buf, 1, self.revision_number);
        push_varint_field(&mut buf, 2, self.revision_height);
        assert(buf@ =~= self.encoding());
        buf
    }
}

/// A timeout oneof whose timestamp member is field `ts_field` and whose height
/// member is field `height_field`.
pub open spec fn timeout_encoding(t: Option<Timeout>, ts_field: nat, height_field: nat) -> Seq<u8> {
    match t {
        Some(Timeout::TimeoutTimestamp(ts)) => varint_field_present(ts_field, ts as nat),
        Some(Timeout::TimeoutHeight(h)) => bytes_field_present(height_field, h.encoding()),
        None => Seq::empty(),
    }
}

fn push_timeout(buf: &mut Vec<u8>, t: &Option<Timeout>, ts_field: u64, height_field: u64)
    requires
        ts_field < 100,
        height_field < 100,
    ensures
        final(buf)@ == old(buf)@ + timeout_encoding(*t, ts_field as nat, height_field as nat),
{
    match t {
        Some(Timeout::TimeoutTimestamp(ts)) => {
            push_varint_field_present(buf, ts_field, *ts);
        },
        Some(Timeout::TimeoutHeight(h)) => {
            let m = h.encode_to_vec();
            push_message_field(buf, height_field, &m);
        },
        None => {
            assert(old(buf)@ + timeout_encoding(*t, ts_field as nat, height_field as nat)
                =~= old(buf)@);
        },
    }
}

impl LightClientProof {
    pub open spec fn encoding(self) -> Seq<u8> {
        varint_field(1, self.min_confirmations as nat) + varint_field(
            2,
            self.max_age_seconds as nat,
        ) + string_field(3, self.client_type@)
    }

    pub fn encode_to_vec(&self) -> (out: Vec<u8>)
        ensures
            out@ == self.encoding(),
    {
        let mut buf = Vec::new();
        push_varint_field(&mut buf, 1, self.min_confirmations as u64);
        push_varint_field(&mut buf, 2, self.max_age_seconds);
        push_string_field(&mut buf, 3, &self.client_type);
        assert(buf@ =~= self.encoding());
        buf
    }
}

impl ZkProofRequirement {
    pub open spec fn encoding(self) -> Seq<u8> {
        string_field(1, self.circuit_id@) + repeated_field(
            2,
            self.public_inputs@.map_values(|v: Vec<u8>| v@),
        ) + string_field(3, self.proof_system@) + varint_field(
            4,
            self.verification_gas_limit as nat,
        ) + bytes_field(5, self.proof@)
    }

    pub fn encode_to_vec(&self) -> (out: Vec<u8>)
        ensures
            out@ == self.encoding(),
    {
        let mut buf = Vec::new();
        push_string_field(&mut buf, 1, &self.circuit_id);
        push_repeated_bytes(&mut buf, 2, &self.public_inputs);
        push_string_field(&mut buf, 3, &self.proof_system);
        push_varint_field(&mut buf, 4, self.verification_gas_limit);
        push_bytes_field(&mut buf, 5, self.proof.as_slice());
        assert(buf@ =~= self.encoding());
        buf
    }
}

impl OptimisticProof {
    pub open spec fn encoding(self) -> Seq<u8> {
        varint_field(1, self.challenge_period_seconds as nat)
    }

    pub fn encode_to_vec(&self) -> (out: Vec<u8>)
        ensures
            out@ == self.encoding(),
    {
        let mut buf = Vec::new();
        push_varint_field(&mut buf, 1, self.challenge_period_seconds);
        assert(buf@ =~= self.encoding());
        buf
    }
}

impl ProofRequirement {
    pub open spec fn encoding(self) -> Seq<u8> {
        match self.requirement {
            Some(Requirement::LightClient(p)) => bytes_field_present(1, p.encoding()),
            Some(Requirement::ZkProof(p)) => bytes_field_present(2, p.encoding()),
            Some(Requirement::Optimistic(p)) => bytes_field_present(3, p.encoding()),
            None => Seq::empty(),
        }
    }

    pub fn encode_to_vec(&self) -> (out: Vec<u8>)
        ensures
            out@ == self.encoding(),
    {
        let mut buf = Vec::new();
        match &self.requirement {
            Some(Requirement::LightClient(p)) => {
                let m = p.encode_to_vec();
                push_message_field(&mut buf, 1, &m);
            },
            Some(Requirement::ZkProof(p)) => {
                let m = p.encode_to_vec();
                push_message_field(&mut buf, 2, &m);
            },
            Some(Requirement::Optimistic(p)) => {
                let m = p.encode_to_vec();
                push_message_field(&mut buf, 3, &m);
            },
            None => {},
        }
        assert(buf@ =~= self.encoding());
        buf
    }
}

impl StateCheckpoint {
    pub open spec fn encoding(self) -> Seq<u8> {
        varint_field(1, self.height as nat) + bytes_field(2, self.state_root@)
    }

    pub fn encode_to_vec(&self) -> (out: Vec<u8>)
        ensures
            out@ == self.encoding(),
    {
        let mut buf = Vec::new();
        push_varint_field(&mut buf, 1, self.height);
        push_bytes_field(&mut buf, 2, self.state_root.as_slice());
        assert(buf@ =~= self.encoding());
        buf
    }
}

impl EconomicParameters {
    pub open spec fn encoding(self) -> Seq<u8> {
        (match self.priority {
            Some(p) => varint_field_present(1, p.number()),
            None => Seq::empty(),
        }) + varint_field(2, self.base_fee as nat) + varint_field(3, self.verification_fee as nat)
    }

    pub fn encode_to_vec(&self) -> (out: Vec<u8>)
        ensures
            out@ == self.encoding(),
    {
        let mut buf = Vec::new();
        match &self.priority {
            Some(p) => {
                push_varint_field_present(&mut buf, 1, p.to_number());
            },
            None => {},
        }
        push_varint_field(&mut buf, 2, self.base_fee);
        push_varint_field(&mut buf, 3, self.verification_fee);
        assert(buf@ =~= self.encoding());
        buf
    }
}

impl RelayerAssignment {
    pub open spec fn encoding(self) -> Seq<u8> {
        bytes_field(1, self.assigned_relayer@)
    }

    pub fn encode_to_vec(&self) -> (out: Vec<u8>)
        ensures
            out@ == self.encoding(),
    {
        let mut buf = Vec::new();
        push_bytes_field(&mut buf, 1, self.assigned_relayer.as_slice());
        assert(buf@ =~= self.encoding());
        buf
    }
}

impl MessageFees {
    pub open spec fn encoding(self) -> Seq<u8> {
        bytes_field_present(1, self.total_fee.encoding())
    }

    pub fn encode_to_vec(&self) -> (out: Vec<u8>)
        ensures
            out@ == self.encoding(),
    {
        let mut buf = Vec::new();
        let m = self.total_fee.encode_to_vec();
        push_message_field(&mut buf, 1, &m);
        assert(buf@ =~= self.encoding());
        buf
    }
}

impl IbcCompatibilityData {
    pub open spec fn encoding(self) -> Seq<u8> {
        varint_field(1, self.sequence as nat) + string_field(2, self.source_port@) + string_field(
            3,
            self.source_channel@,
        ) + string_field(4, self.destination_port@) + string_field(5, self.destination_channel@)
            + timeout_encoding(self.timeout, 7, 6) + message_field(
            8,
            match self.token_data {
                Some(t) => Some(t.encoding()),
                None => None,
            },
        )
    }

    pub fn encode_to_vec(&self) -> (out: Vec<u8>)
        ensures
            out@ == self.encoding(),
    {
        let mut buf = Vec::new();
        push_varint_field(&mut buf, 1, self.sequence);
        push_string_field(&mut buf, 2, &self.source_port);
        push_string_field(&mut buf, 3, &self.source_channel);
        push_string_field(&mut buf, 4, &self.destination_port);
        push_string_field(&mut buf, 5, &self.destination_channel);
        push_timeout(&mut buf, &self.timeout, 7, 6);
        match &self.token_data {
            Some(t) => {
                let m = t.encode_to_vec();
                push_message_field(&mut buf, 8, &m);
            },
            None => {},
        }
        assert(buf@ =~= self.encoding());
        buf
    }
}

/// The payload oneof of a universal message (fields 8 to 11).
pub open spec fn payload_encoding(p: Option<Payload>) -> Seq<u8> {
    match p {
        Some(Payload::TokenTransfer(t)) => bytes_field_present(8, t.encoding()),
        Some(Payload::ContractCall(c)) => bytes_field_present(9, c.encoding()),
        Some(Payload::BatchTransfer(b)) => bytes_field_present(10, b.encoding()),
        Some(Payload::StateQuery(q)) => bytes_field_present(11, q.encoding()),
        None => Seq::empty(),
    }
}

fn push_payload(buf: &mut Vec<u8>, p: &Option<Payload>)
    ensures
        final(buf)@ == old(buf)@ + payload_encoding(*p),
{
    match p {
        Some(Payload::TokenTransfer(t)) => {
            let m = t.encode_to_vec();
            push_message_field(buf, 8, &m);
        },
        Some(Payload::ContractCall(c)) => {
            let m = c.encode_to_vec();
            push_message_field(buf, 9, &m);
        },
        Some(Payload::BatchTransfer(b)) => {
            let m = b.encode_to_vec();
            push_message_field(buf, 10, &m);
        },
        Some(Payload::StateQuery(q)) => {
            let m = q.encode_to_vec();
            push_message_field(buf, 11, &m);
        },
        None => {
            assert(old(buf)@ + payload_encoding(*p) =~= old(buf)@);
        },
    }
}

/// The optional embedded messages of a universal message (fields 14 to 19).
pub open spec fn tail_encoding(m: UniversalMessage) -> Seq<u8> {
    message_field(14, optional_proof_requirement(m.proof_requirement)) + message_field(
        15,
        optional_checkpoint(m.state_checkpoint),
    ) + message_field(16, optional_fees(m.fees)) + message_field(
        17,
        optional_assignment(m.relayer_assignment),
    ) + message_field(18, optional_economics(m.economic_parameters)) + message_field(
        19,
        optional_ibc_data(m.ibc_data),
    )
}

pub open spec fn optional_proof_requirement(m: Option<ProofRequirement>) -> Option<Seq<u8>> {
    match m {
        Some(x) => Some(x.encoding()),
        None => None,
    }
}

pub open spec fn optional_checkpoint(m: Option<StateCheckpoint>) -> Option<Seq<u8>> {
    match m {
        Some(x) => Some(x.encoding()),
        None => None,
    }
}

pub open spec fn optional_fees(m: Option<MessageFees>) -> Option<Seq<u8>> {
    match m {
        Some(x) => Some(x.encoding()),
        None => None,
    }
}

pub open spec fn optional_assignment(m: Option<RelayerAssignment>) -> Option<Seq<u8>> {
    match m {
        Some(x) => Some(x.encoding()),
        None => None,
    }
}

pub open spec fn optional_economics(m: Option<EconomicParameters>) -> Option<Seq<u8>> {
    match m {
        Some(x) => Some(x.encoding()),
        None => None,
    }
}

pub open spec fn optional_ibc_data(m: Option<IbcCompatibilityData>) -> Option<Seq<u8>> {
    match m {
        Some(x) => Some(x.encoding()),
        None => None,
    }
}

pub open spec fn optional_endpoint(m: Option<ChainEndpoint>) -> Option<Seq<u8>> {
    match m {
        Some(x) => Some(x.encoding()),
        None => None,
    }
}

/// The view of an optional encoded message.
pub open spec fn optional_bytes(m: Option<Vec<u8>>) -> Option<Seq<u8>> {
    match m {
        Some(v) => Some(v@),
        None => None,
    }
}

fn push_optional_message(buf: &mut Vec<u8>, field: u64, m: &Option<Vec<u8>>)
    requires
        field < 100,
    ensures
        final(buf)@ == old(buf)@ + message_field(field as nat, optional_bytes(*m)),
{
    match m {
        Some(v) => {
            push_message_field(buf, field, v);
        },
        None => {
            assert(old(buf)@ + message_field(field as nat, optional_bytes(*m)) =~= old(buf)@);
        },
    }
}

fn push_proof_requirement_field(buf: &mut Vec<u8>, m: &Option<ProofRequirement>)
    ensures
        final(buf)@ == old(buf)@ + message_field(14, optional_proof_requirement(*m)),
{
    let e = match m {
        Some(x) => Some(x.encode_to_vec()),
        None => None,
    };
    assert(optional_bytes(e) == optional_proof_requirement(*m));
    push_optional_message(buf, 14, &e);
}

fn push_checkpoint_field(buf: &mut Vec<u8>, m: &Option<StateCheckpoint>)
    ensures
        final(buf)@ == old(buf)@ + message_field(15, optional_checkpoint(*m)),
{
    let e = match m {
        Some(x) => Some(x.encode_to_vec()),
        None => None,
    };
    assert(optional_bytes(e) == optional_checkpoint(*m));
    push_optional_message(buf, 15, &e);
}

fn push_fees_field(buf: &mut Vec<u8>, m: &Option<MessageFees>)
    ensures
        final(buf)@ == old(buf)@ + message_field(16, optional_fees(*m)),
{
    let e = match m {
        Some(x) => Some(x.encode_to_vec()),
        None => None,
    };
    assert(optional_bytes(e) == optional_fees(*m));
    push_optional_message(buf, 16, &e);
}

fn push_assignment_field(buf: &mut Vec<u8>, m: &Option<RelayerAssignment>)
    ensures
        final(buf)@ == old(buf)@ + message_field(17, optional_assignment(*m)),
{
    let e = match m {
        Some(x) => Some(x.encode_to_vec()),
        None => None,
    };
    assert(optional_bytes(e) == optional_assignment(*m));
    push_optional_message(buf, 17, &e);
}

fn push_economics_field(buf: &mut Vec<u8>, m: &Option<EconomicParameters>)
    ensures
        final(buf)@ == old(buf)@ + message_field(18, optional_economics(*m)),
{
    let e = match m {
        Some(x) => Some(x.encode_to_vec()),
        None => None,
    };
    assert(optional_bytes(e) == optional_economics(*m));
    push_optional_message(buf, 18, &e);
}

fn push_ibc_data_field(buf: &mut Vec<u8>, m: &Option<IbcCompatibilityData>)
    ensures
        final(buf)@ == old(buf)@ + message_field(19, optional_ibc_data(*m)),
{
    let e = match m {
        Some(x) => Some(x.encode_to_vec()),
        None => None,
    };
    assert(optional_bytes(e) == optional_ibc_data(*m));
    push_optional_message(buf, 19, &e);
}

impl UniversalMessage {
    /// The wire encoding of the message.
    pub open spec fn encoding(self) -> Seq<u8> {
        varint_field(1, self.version as nat) + bytes_field(2, self.message_id@) + varint_field(
            3,
            self.created_at as nat,
        ) + message_field(4, optional_endpoint(self.source)) + message_field(
            5,
            optional_endpoint(self.destination),
        ) + repeated_field(6, self.route_hints@.map_values(|s: String| encode_utf8(s@)))
            + varint_field(7, self.message_type.number()) + payload_encoding(self.payload)
            + timeout_encoding(self.timeout, 12, 13) + tail_encoding(self)
    }

    #[verifier::spinoff_prover]
    #[verifier::rlimit(40)]
    fn push_tail(&self, buf: &mut Vec<u8>)
        ensures
            final(buf)@ == old(buf)@ + tail_encoding(*self),
    {
        let ghost start = buf@;
        push_proof_requirement_field(buf, &self.proof_requirement);
        let ghost s1 = buf@;
        push_checkpoint_field(buf, &self.state_checkpoint);
        let ghost s2 = buf@;
        push_fees_field(buf, &self.fees);
        let ghost s3 = buf@;
        push_assignment_field(buf, &self.relayer_assignment);
        let ghost s4 = buf@;
        push_economics_field(buf, &self.economic_parameters);
        let ghost s5 = buf@;
        push_ibc_data_field(buf, &self.ibc_data);
        let ghost t14 = message_field(14, optional_proof_requirement(self.proof_requirement));
        let ghost t15 = message_field(15, optional_checkpoint(self.state_checkpoint));
        let ghost t16 = message_field(16, optional_fees(self.fees));
        let ghost t17 = message_field(17, optional_assignment(self.relayer_assignment));
        let ghost t18 = message_field(18, optional_economics(self.economic_parameters));
        let ghost t19 = message_field(19, optional_ibc_data(self.ibc_data));
        assert(tail_encoding(*self) == t14 + t15 + t16 + t17 + t18 + t19);
        assert(buf@ =~= start + (t14 + t15 + t16 + t17 + t18 + t19));
    }

    /// Encodes the message in its wire format.
    pub fn encode_to_vec(&self) -> (out: Vec<u8>)
        ensures
            out@ == self.encoding(),
    {
        let mut buf = Vec::new();
        push_varint_field(&mut buf, 1, self.version as u64);
        push_bytes_field(&mut buf, 2, self.message_id.as_slice());
        push_varint_field(&mut buf, 3, self.created_at);
        match &self.source {
            Some(e) => {
                let m = e.encode_to_vec();
                push_message_field(&mut buf, 4, &m);
            },
            None => {},
        }
        match &self.destination {
            Some(e) => {
                let m = e.encode_to_vec();
                push_message_field(&mut buf, 5, &m);
            },
            None => {},
        }
        push_repeated_strings(&mut buf, 6, &self.route_hints);
        push_varint_field(&mut buf, 7, self.message_type.to_number());
        push_payload(&mut buf, &self.payload);
        push_timeout(&mut buf, &self.timeout, 12, 13);
        self.push_tail(&mut buf);
        assert(buf@ =~= self.encoding());
        buf
    }
}

} // verus!
