//! The wire encoding loses nothing: two values with the same encoding agree
//! in every field. Each type's encoding reads back, field by field, as the
//! list of its present fields; the fields of one number give that field's
//! value back.

use vstd::prelude::*;
use crate::field_reader::{
    bytes_entries, bytes_entry, fields_above, fields_in, group_field_ranges, group_field_reading,
    lemma_bytes_entries_injective, lemma_embedded_entries_injective, lemma_entries_append6,
    lemma_entries_assoc, lemma_entry_injective, lemma_repeated_entries_injective,
    lemma_split_entries, lemma_string_entries_injective, lemma_utf8_injective,
    lemma_varint_entries_injective, lemma_varint_entry_injective, message_entries, parse_fields,
    repeated_entries, string_entries, varint_entries, varint_entry, WireEntry,
};
use crate::encoding::{
    optional_assignment, optional_checkpoint, optional_economics, optional_endpoint, optional_fees,
    optional_ibc_data, optional_proof_requirement, payload_encoding, timeout_encoding,
};
use vstd::utf8::encode_utf8;
use crate::wire::{bytes_field_present, varint_field_present};
use crate::uibc::{
    BatchTransfer, ChainEndpoint, ContractCall, EconomicParameters, Fee, FungibleTokenPacket,
    Height, IbcCompatibilityData, LightClientProof, MessageFees, OptimisticProof, Payload,
    Priority, ProofRequirement, RelayerAssignment, Requirement, StateCheckpoint, StateQuery, Timeout,
    TokenTransfer, UniversalMessage, ZkProofRequirement,
};

verus! {

broadcast use group_field_ranges;

/// The fields that the encoding of a `ChainEndpoint` reads back as.
pub open spec fn endpoint_entries(x: ChainEndpoint) -> Seq<WireEntry> {
    string_entries(1, x.chain_id@)
        + varint_entries(2, x.chain_type.number())
        + string_entries(3, x.connection_id@)
        + string_entries(4, x.channel_id@)
        + string_entries(5, x.port_id@)
}

/// Whether two endpoints agree in every field.
pub open spec fn same_endpoint(a: ChainEndpoint, b: ChainEndpoint) -> bool {
    &&& a.chain_id@ == b.chain_id@
    &&& a.chain_type == b.chain_type
    &&& a.connection_id@ == b.connection_id@
    &&& a.channel_id@ == b.channel_id@
    &&& a.port_id@ == b.port_id@
}

proof fn lemma_endpoint_reads(x: ChainEndpoint)
    ensures
        parse_fields(x.encoding()) == Some(endpoint_entries(x)),
{
    broadcast use group_field_reading;

}

proof fn lemma_endpoint_entries_injective(a: ChainEndpoint, b: ChainEndpoint)
    requires
        endpoint_entries(a) == endpoint_entries(b),
    ensures
        same_endpoint(a, b),
{
    let a1 = string_entries(1, a.chain_id@);
    let a2 = varint_entries(2, a.chain_type.number());
    let a3 = string_entries(3, a.connection_id@);
    let a4 = string_entries(4, a.channel_id@);
    let a5 = string_entries(5, a.port_id@);
    let b1 = string_entries(1, b.chain_id@);
    let b2 = varint_entries(2, b.chain_type.number());
    let b3 = string_entries(3, b.connection_id@);
    let b4 = string_entries(4, b.channel_id@);
    let b5 = string_entries(5, b.port_id@);
    lemma_entries_assoc(a1 + a2 + a3, a4, a5);
    lemma_entries_assoc(a1 + a2, a3, a4 + a5);
    lemma_entries_assoc(a1, a2, a3 + (a4 + a5));
    lemma_entries_assoc(b1 + b2 + b3, b4, b5);
    lemma_entries_assoc(b1 + b2, b3, b4 + b5);
    lemma_entries_assoc(b1, b2, b3 + (b4 + b5));
    lemma_split_entries(a1, a2 + (a3 + (a4 + a5)), b1, b2 + (b3 + (b4 + b5)), 1, 1);
    lemma_split_entries(a2, a3 + (a4 + a5), b2, b3 + (b4 + b5), 2, 2);
    lemma_split_entries(a3, a4 + a5, b3, b4 + b5, 3, 3);
    lemma_split_entries(a4, a5, b4, b5, 4, 4);
    lemma_string_entries_injective(1, a.chain_id@, b.chain_id@);
    lemma_varint_entries_injective(2, a.chain_type.number(), b.chain_type.number());
    lemma_string_entries_injective(3, a.connection_id@, b.connection_id@);
    lemma_string_entries_injective(4, a.channel_id@, b.channel_id@);
    lemma_string_entries_injective(5, a.port_id@, b.port_id@);
}

/// Two endpoints with the same encoding agree in every field.
proof fn lemma_endpoint_encoding_injective(a: ChainEndpoint, b: ChainEndpoint)
    requires
        a.encoding() == b.encoding(),
    ensures
        same_endpoint(a, b),
{
    lemma_endpoint_reads(a);
    lemma_endpoint_reads(b);
    lemma_endpoint_entries_injective(a, b);
}

/// The fields that the encoding of a `Fee` reads back as.
pub open spec fn fee_entries(x: Fee) -> Seq<WireEntry> {
    string_entries(1, x.amount@)
        + string_entries(2, x.denom@)
        + string_entries(3, x.chain_id@)
        + varint_entries(4, x.decimals as nat)
}

/// Whether two fees agree in every field.
pub open spec fn same_fee(a: Fee, b: Fee) -> bool {
    &&& a.amount@ == b.amount@
    &&& a.denom@ == b.denom@
    &&& a.chain_id@ == b.chain_id@
    &&& a.decimals == b.decimals
}

proof fn lemma_fee_reads(x: Fee)
    ensures
        parse_fields(x.encoding()) == Some(fee_entries(x)),
{
    broadcast use group_field_reading;

}

proof fn lemma_fee_entries_injective(a: Fee, b: Fee)
    requires
        fee_entries(a) == fee_entries(b),
    ensures
        same_fee(a, b),
{
    let a1 = string_entries(1, a.amount@);
    let a2 = string_entries(2, a.denom@);
    let a3 = string_entries(3, a.chain_id@);
    let a4 = varint_entries(4, a.decimals as nat);
    let b1 = string_entries(1, b.amount@);
    let b2 = string_entries(2, b.denom@);
    let b3 = string_entries(3, b.chain_id@);
    let b4 = varint_entries(4, b.decimals as nat);
    lemma_entries_assoc(a1 + a2, a3, a4);
    lemma_entries_assoc(a1, a2, a3 + a4);
    lemma_entries_assoc(b1 + b2, b3, b4);
    lemma_entries_assoc(b1, b2, b3 + b4);
    lemma_split_entries(a1, a2 + (a3 + a4), b1, b2 + (b3 + b4), 1, 1);
    lemma_split_entries(a2, a3 + a4, b2, b3 + b4, 2, 2);
    lemma_split_entries(a3, a4, b3, b4, 3, 3);
    lemma_string_entries_injective(1, a.amount@, b.amount@);
    lemma_string_entries_injective(2, a.denom@, b.denom@);
    lemma_string_entries_injective(3, a.chain_id@, b.chain_id@);
    lemma_varint_entries_injective(4, a.decimals as nat, b.decimals as nat);
}

/// Two fees with the same encoding agree in every field.
proof fn lemma_fee_encoding_injective(a: Fee, b: Fee)
    requires
        a.encoding() == b.encoding(),
    ensures
        same_fee(a, b),
{
    lemma_fee_reads(a);
    lemma_fee_reads(b);
    lemma_fee_entries_injective(a, b);
}

/// The fields that the encoding of a `TokenTransfer` reads back as.
pub open spec fn transfer_entries(x: TokenTransfer) -> Seq<WireEntry> {
    string_entries(1, x.denom@)
        + string_entries(2, x.amount@)
        + string_entries(3, x.sender@)
        + string_entries(4, x.receiver@)
        + string_entries(5, x.memo@)
}

/// Whether two token transfers agree in every field.
pub open spec fn same_transfer(a: TokenTransfer, b: TokenTransfer) -> bool {
    &&& a.denom@ == b.denom@
    &&& a.amount@ == b.amount@
    &&& a.sender@ == b.sender@
    &&& a.receiver@ == b.receiver@
    &&& a.memo@ == b.memo@
}

proof fn lemma_transfer_reads(x: TokenTransfer)
    ensures
        parse_fields(x.encoding()) == Some(transfer_entries(x)),
{
    broadcast use group_field_reading;

}

proof fn lemma_transfer_entries_injective(a: TokenTransfer, b: TokenTransfer)
    requires
        transfer_entries(a) == transfer_entries(b),
    ensures
        same_transfer(a, b),
{
    let a1 = string_entries(1, a.denom@);
    let a2 = string_entries(2, a.amount@);
    let a3 = string_entries(3, a.sender@);
    let a4 = string_entries(4, a.receiver@);
    let a5 = string_entries(5, a.memo@);
    let b1 = string_entries(1, b.denom@);
    let b2 = string_entries(2, b.amount@);
    let b3 = string_entries(3, b.sender@);
    let b4 = string_entries(4, b.receiver@);
    let b5 = string_entries(5, b.memo@);
    lemma_entries_assoc(a1 + a2 + a3, a4, a5);
    lemma_entries_assoc(a1 + a2, a3, a4 + a5);
    lemma_entries_assoc(a1, a2, a3 + (a4 + a5));
    lemma_entries_assoc(b1 + b2 + b3, b4, b5);
    lemma_entries_assoc(b1 + b2, b3, b4 + b5);
    lemma_entries_assoc(b1, b2, b3 + (b4 + b5));
    lemma_split_entries(a1, a2 + (a3 + (a4 + a5)), b1, b2 + (b3 + (b4 + b5)), 1, 1);
    lemma_split_entries(a2, a3 + (a4 + a5), b2, b3 + (b4 + b5), 2, 2);
    lemma_split_entries(a3, a4 + a5, b3, b4 + b5, 3, 3);
    lemma_split_entries(a4, a5, b4, b5, 4, 4);
    lemma_string_entries_injective(1, a.denom@, b.denom@);
    lemma_string_entries_injective(2, a.amount@, b.amount@);
    lemma_string_entries_injective(3, a.sender@, b.sender@);
    lemma_string_entries_injective(4, a.receiver@, b.receiver@);
    lemma_string_entries_injective(5, a.memo@, b.memo@);
}

/// Two token transfers with the same encoding agree in every field.
proof fn lemma_transfer_encoding_injective(a: TokenTransfer, b: TokenTransfer)
    requires
        a.encoding() == b.encoding(),
    ensures
        same_transfer(a, b),
{
    lemma_transfer_reads(a);
    lemma_transfer_reads(b);
    lemma_transfer_entries_injective(a, b);
}

/// The fields that the encoding of a `FungibleTokenPacket` reads back as.
pub open spec fn token_packet_entries(x: FungibleTokenPacket) -> Seq<WireEntry> {
    string_entries(1, x.denom@)
        + string_entries(2, x.amount@)
        + string_entries(3, x.sender@)
        + string_entries(4, x.receiver@)
        + string_entries(5, x.memo@)
}

/// Whether two fungible token packets agree in every field.
pub open spec fn same_token_packet(a: FungibleTokenPacket, b: FungibleTokenPacket) -> bool {
    &&& a.denom@ == b.denom@
    &&& a.amount@ == b.amount@
    &&& a.sender@ == b.sender@
    &&& a.receiver@ == b.receiver@
    &&& a.memo@ == b.memo@
}

proof fn lemma_token_packet_reads(x: FungibleTokenPacket)
    ensures
        parse_fields(x.encoding()) == Some(token_packet_entries(x)),
{
    broadcast use group_field_reading;

}

proof fn lemma_token_packet_entries_injective(a: FungibleTokenPacket, b: FungibleTokenPacket)
    requires
        token_packet_entries(a) == token_packet_entries(b),
    ensures
        same_token_packet(a, b),
{
    let a1 = string_entries(1, a.denom@);
    let a2 = string_entries(2, a.amount@);
    let a3 = string_entries(3, a.sender@);
    let a4 = string_entries(4, a.receiver@);
    let a5 = string_entries(5, a.memo@);
    let b1 = string_entries(1, b.denom@);
    let b2 = string_entries(2, b.amount@);
    let b3 = string_entries(3, b.sender@);
    let b4 = string_entries(4, b.receiver@);
    let b5 = string_entries(5, b.memo@);
    lemma_entries_assoc(a1 + a2 + a3, a4, a5);
    lemma_entries_assoc(a1 + a2, a3, a4 + a5);
    lemma_entries_assoc(a1, a2, a3 + (a4 + a5));
    lemma_entries_assoc(b1 + b2 + b3, b4, b5);
    lemma_entries_assoc(b1 + b2, b3, b4 + b5);
    lemma_entries_assoc(b1, b2, b3 + (b4 + b5));
    lemma_split_entries(a1, a2 + (a3 + (a4 + a5)), b1, b2 + (b3 + (b4 + b5)), 1, 1);
    lemma_split_entries(a2, a3 + (a4 + a5), b2, b3 + (b4 + b5), 2, 2);
    lemma_split_entries(a3, a4 + a5, b3, b4 + b5, 3, 3);
    lemma_split_entries(a4, a5, b4, b5, 4, 4);
    lemma_string_entries_injective(1, a.denom@, b.denom@);
    lemma_string_entries_injective(2, a.amount@, b.amount@);
    lemma_string_entries_injective(3, a.sender@, b.sender@);
    lemma_string_entries_injective(4, a.receiver@, b.receiver@);
    lemma_string_entries_injective(5, a.memo@, b.memo@);
}

/// Two fungible token packets with the same encoding agree in every field.
proof fn lemma_token_packet_encoding_injective(a: FungibleTokenPacket, b: FungibleTokenPacket)
    requires
        a.encoding() == b.encoding(),
    ensures
        same_token_packet(a, b),
{
    lemma_token_packet_reads(a);
    lemma_token_packet_reads(b);
    lemma_token_packet_entries_injective(a, b);
}

/// The fields that the encoding of a `ContractCall` reads back as.
pub open spec fn contract_call_entries(x: ContractCall) -> Seq<WireEntry> {
    string_entries(1, x.contract_address@) + bytes_entries(2, x.call_data@)
}

/// Whether two contract calls agree in every field.
pub open spec fn same_contract_call(a: ContractCall, b: ContractCall) -> bool {
    &&& a.contract_address@ == b.contract_address@
    &&& a.call_data@ == b.call_data@
}

proof fn lemma_contract_call_reads(x: ContractCall)
    ensures
        parse_fields(x.encoding()) == Some(contract_call_entries(x)),
{
    broadcast use group_field_reading;

}

proof fn lemma_contract_call_entries_injective(a: ContractCall, b: ContractCall)
    requires
        contract_call_entries(a) == contract_call_entries(b),
    ensures
        same_contract_call(a, b),
{
    let a1 = string_entries(1, a.contract_address@);
    let a2 = bytes_entries(2, a.call_data@);
    let b1 = string_entries(1, b.contract_address@);
    let b2 = bytes_entries(2, b.call_data@);
    lemma_split_entries(a1, a2, b1, b2, 1, 1);
    lemma_string_entries_injective(1, a.contract_address@, b.contract_address@);
    lemma_bytes_entries_injective(2, a.call_data@, b.call_data@);
}

/// Two contract calls with the same encoding agree in every field.
proof fn lemma_contract_call_encoding_injective(a: ContractCall, b: ContractCall)
    requires
        a.encoding() == b.encoding(),
    ensures
        same_contract_call(a, b),
{
    lemma_contract_call_reads(a);
    lemma_contract_call_reads(b);
    lemma_contract_call_entries_injective(a, b);
}

/// The fields that the encoding of a `Height` reads back as.
pub open spec fn height_entries(x: Height) -> Seq<WireEntry> {
    varint_entries(1, x.revision_number as nat) + varint_entries(2, x.revision_height as nat)
}

/// Whether two heights agree in every field.
pub open spec fn same_height(a: Height, b: Height) -> bool {
    &&& a == b
}

proof fn lemma_height_reads(x: Height)
    ensures
        parse_fields(x.encoding()) == Some(height_entries(x)),
{
    broadcast use group_field_reading;

}

proof fn lemma_height_entries_injective(a: Height, b: Height)
    requires
        height_entries(a) == height_entries(b),
    ensures
        same_height(a, b),
{
    let a1 = varint_entries(1, a.revision_number as nat);
    let a2 = varint_entries(2, a.revision_height as nat);
    let b1 = varint_entries(1, b.revision_number as nat);
    let b2 = varint_entries(2, b.revision_height as nat);
    lemma_split_entries(a1, a2, b1, b2, 1, 1);
    lemma_varint_entries_injective(1, a.revision_number as nat, b.revision_number as nat);
    lemma_varint_entries_injective(2, a.revision_height as nat, b.revision_height as nat);
}

/// Two heights with the same encoding agree in every field.
proof fn lemma_height_encoding_injective(a: Height, b: Height)
    requires
        a.encoding() == b.encoding(),
    ensures
        same_height(a, b),
{
    lemma_height_reads(a);
    lemma_height_reads(b);
    lemma_height_entries_injective(a, b);
}

/// The fields that the encoding of a `LightClientProof` reads back as.
pub open spec fn light_client_entries(x: LightClientProof) -> Seq<WireEntry> {
    varint_entries(1, x.min_confirmations as nat)
        + varint_entries(2, x.max_age_seconds as nat)
        + string_entries(3, x.client_type@)
}

/// Whether two light-client requirements agree in every field.
pub open spec fn same_light_client(a: LightClientProof, b: LightClientProof) -> bool {
    &&& a.min_confirmations == b.min_confirmations
    &&& a.max_age_seconds == b.max_age_seconds
    &&& a.client_type@ == b.client_type@
}

proof fn lemma_light_client_reads(x: LightClientProof)
    ensures
        parse_fields(x.encoding()) == Some(light_client_entries(x)),
{
    broadcast use group_field_reading;

}

proof fn lemma_light_client_entries_injective(a: LightClientProof, b: LightClientProof)
    requires
        light_client_entries(a) == light_client_entries(b),
    ensures
        same_light_client(a, b),
{
    let a1 = varint_entries(1, a.min_confirmations as nat);
    let a2 = varint_entries(2, a.max_age_seconds as nat);
    let a3 = string_entries(3, a.client_type@);
    let b1 = varint_entries(1, b.min_confirmations as nat);
    let b2 = varint_entries(2, b.max_age_seconds as nat);
    let b3 = string_entries(3, b.client_type@);
    lemma_entries_assoc(a1, a2, a3);
    lemma_entries_assoc(b1, b2, b3);
    lemma_split_entries(a1, a2 + a3, b1, b2 + b3, 1, 1);
    lemma_split_entries(a2, a3, b2, b3, 2, 2);
    lemma_varint_entries_injective(1, a.min_confirmations as nat, b.min_confirmations as nat);
    lemma_varint_entries_injective(2, a.max_age_seconds as nat, b.max_age_seconds as nat);
    lemma_string_entries_injective(3, a.client_type@, b.client_type@);
}

/// Two light-client requirements with the same encoding agree in every field.
proof fn lemma_light_client_encoding_injective(a: LightClientProof, b: LightClientProof)
    requires
        a.encoding() == b.encoding(),
    ensures
        same_light_client(a, b),
{
    lemma_light_client_reads(a);
    lemma_light_client_reads(b);
    lemma_light_client_entries_injective(a, b);
}

/// The fields that the encoding of a `StateCheckpoint` reads back as.
pub open spec fn checkpoint_entries(x: StateCheckpoint) -> Seq<WireEntry> {
    varint_entries(1, x.height as nat) + bytes_entries(2, x.state_root@)
}

/// Whether two state checkpoints agree in every field.
pub open spec fn same_checkpoint(a: StateCheckpoint, b: StateCheckpoint) -> bool {
    &&& a.height == b.height
    &&& a.state_root@ == b.state_root@
}

proof fn lemma_checkpoint_reads(x: StateCheckpoint)
    ensures
        parse_fields(x.encoding()) == Some(checkpoint_entries(x)),
{
    broadcast use group_field_reading;

}

proof fn lemma_checkpoint_entries_injective(a: StateCheckpoint, b: StateCheckpoint)
    requires
        checkpoint_entries(a) == checkpoint_entries(b),
    ensures
        same_checkpoint(a, b),
{
    let a1 = varint_entries(1, a.height as nat);
    let a2 = bytes_entries(2, a.state_root@);
    let b1 = varint_entries(1, b.height as nat);
    let b2 = bytes_entries(2, b.state_root@);
    lemma_split_entries(a1, a2, b1, b2, 1, 1);
    lemma_varint_entries_injective(1, a.height as nat, b.height as nat);
    lemma_bytes_entries_injective(2, a.state_root@, b.state_root@);
}

/// Two state checkpoints with the same encoding agree in every field.
proof fn lemma_checkpoint_encoding_injective(a: StateCheckpoint, b: StateCheckpoint)
    requires
        a.encoding() == b.encoding(),
    ensures
        same_checkpoint(a, b),
{
    lemma_checkpoint_reads(a);
    lemma_checkpoint_reads(b);
    lemma_checkpoint_entries_injective(a, b);
}

/// The fields that the encoding of a `MessageFees` reads back as.
pub open spec fn fees_entries(x: MessageFees) -> Seq<WireEntry> {
    bytes_entry(1, x.total_fee.encoding())
}

/// Whether two message fees agree in every field.
pub open spec fn same_fees(a: MessageFees, b: MessageFees) -> bool {
    &&& same_fee(a.total_fee, b.total_fee)
}

proof fn lemma_fees_reads(x: MessageFees)
    ensures
        parse_fields(x.encoding()) == Some(fees_entries(x)),
{
    broadcast use group_field_reading;

}

proof fn lemma_fees_entries_injective(a: MessageFees, b: MessageFees)
    requires
        fees_entries(a) == fees_entries(b),
    ensures
        same_fees(a, b),
{
    let a1 = bytes_entry(1, a.total_fee.encoding());
    let b1 = bytes_entry(1, b.total_fee.encoding());
    lemma_entry_injective(1, a.total_fee.encoding(), b.total_fee.encoding());
    lemma_fee_encoding_injective(a.total_fee, b.total_fee);
}

/// Two message fees with the same encoding agree in every field.
proof fn lemma_fees_encoding_injective(a: MessageFees, b: MessageFees)
    requires
        a.encoding() == b.encoding(),
    ensures
        same_fees(a, b),
{
    lemma_fees_reads(a);
    lemma_fees_reads(b);
    lemma_fees_entries_injective(a, b);
}

/// The fields that the encoding of a `StateQuery` reads back as.
pub open spec fn state_query_entries(x: StateQuery) -> Seq<WireEntry> {
    bytes_entries(1, x.query_data@)
}

/// Whether two state queries agree in every field.
pub open spec fn same_state_query(a: StateQuery, b: StateQuery) -> bool {
    &&& a.query_data@ == b.query_data@
}

proof fn lemma_state_query_reads(x: StateQuery)
    ensures
        parse_fields(x.encoding()) == Some(state_query_entries(x)),
{
    broadcast use group_field_reading;

}

proof fn lemma_state_query_entries_injective(a: StateQuery, b: StateQuery)
    requires
        state_query_entries(a) == state_query_entries(b),
    ensures
        same_state_query(a, b),
{
    let a1 = bytes_entries(1, a.query_data@);
    let b1 = bytes_entries(1, b.query_data@);
    lemma_bytes_entries_injective(1, a.query_data@, b.query_data@);
}

/// Two state queries with the same encoding agree in every field.
proof fn lemma_state_query_encoding_injective(a: StateQuery, b: StateQuery)
    requires
        a.encoding() == b.encoding(),
    ensures
        same_state_query(a, b),
{
    lemma_state_query_reads(a);
    lemma_state_query_reads(b);
    lemma_state_query_entries_injective(a, b);
}

/// The fields that the encoding of a `OptimisticProof` reads back as.
pub open spec fn optimistic_entries(x: OptimisticProof) -> Seq<WireEntry> {
    varint_entries(1, x.challenge_period_seconds as nat)
}

/// Whether two optimistic requirements agree in every field.
pub open spec fn same_optimistic(a: OptimisticProof, b: OptimisticProof) -> bool {
    &&& a == b
}

proof fn lemma_optimistic_reads(x: OptimisticProof)
    ensures
        parse_fields(x.encoding()) == Some(optimistic_entries(x)),
{
    broadcast use group_field_reading;

}

proof fn lemma_optimistic_entries_injective(a: OptimisticProof, b: OptimisticProof)
    requires
        optimistic_entries(a) == optimistic_entries(b),
    ensures
        same_optimistic(a, b),
{
    let a1 = varint_entries(1, a.challenge_period_seconds as nat);
    let b1 = varint_entries(1, b.challenge_period_seconds as nat);
    lemma_varint_entries_injective(
        1,
        a.challenge_period_seconds as nat,
        b.challenge_period_seconds as nat,
    );
}

/// Two optimistic requirements with the same encoding agree in every field.
proof fn lemma_optimistic_encoding_injective(a: OptimisticProof, b: OptimisticProof)
    requires
        a.encoding() == b.encoding(),
    ensures
        same_optimistic(a, b),
{
    lemma_optimistic_reads(a);
    lemma_optimistic_reads(b);
    lemma_optimistic_entries_injective(a, b);
}

/// The fields that the encoding of a `RelayerAssignment` reads back as.
pub open spec fn assignment_entries(x: RelayerAssignment) -> Seq<WireEntry> {
    bytes_entries(1, x.assigned_relayer@)
}

/// Whether two relayer assignments agree in every field.
pub open spec fn same_assignment(a: RelayerAssignment, b: RelayerAssignment) -> bool {
    &&& a.assigned_relayer@ == b.assigned_relayer@
}

proof fn lemma_assignment_reads(x: RelayerAssignment)
    ensures
        parse_fields(x.encoding()) == Some(assignment_entries(x)),
{
    broadcast use group_field_reading;

}

proof fn lemma_assignment_entries_injective(a: RelayerAssignment, b: RelayerAssignment)
    requires
        assignment_entries(a) == assignment_entries(b),
    ensures
        same_assignment(a, b),
{
    let a1 = bytes_entries(1, a.assigned_relayer@);
    let b1 = bytes_entries(1, b.assigned_relayer@);
    lemma_bytes_entries_injective(1, a.assigned_relayer@, b.assigned_relayer@);
}

/// Two relayer assignments with the same encoding agree in every field.
proof fn lemma_assignment_encoding_injective(a: RelayerAssignment, b: RelayerAssignment)
    requires
        a.encoding() == b.encoding(),
    ensures
        same_assignment(a, b),
{
    lemma_assignment_reads(a);
    lemma_assignment_reads(b);
    lemma_assignment_entries_injective(a, b);
}

/// The fields that the encoding of a `BatchTransfer` reads back as.
pub open spec fn batch_entries(x: BatchTransfer) -> Seq<WireEntry> {
    repeated_entries(1, x.transfers@.map_values(|t: TokenTransfer| t.encoding()))
}

/// Whether two batches agree in every field.
pub open spec fn same_batch(a: BatchTransfer, b: BatchTransfer) -> bool {
    &&& a.transfers@.len() == b.transfers@.len()
    &&& forall|i: int| 0 <= i < a.transfers@.len() ==>
            same_transfer(a.transfers@[i], b.transfers@[i])
}

proof fn lemma_batch_reads(x: BatchTransfer)
    ensures
        parse_fields(x.encoding()) == Some(batch_entries(x)),
{
    broadcast use group_field_reading;

}

proof fn lemma_batch_entries_injective(a: BatchTransfer, b: BatchTransfer)
    requires
        batch_entries(a) == batch_entries(b),
    ensures
        same_batch(a, b),
{
    let a1 = repeated_entries(1, a.transfers@.map_values(|t: TokenTransfer| t.encoding()));
    let b1 = repeated_entries(1, b.transfers@.map_values(|t: TokenTransfer| t.encoding()));
    let ma = a.transfers@.map_values(|t: TokenTransfer| t.encoding());
    let mb = b.transfers@.map_values(|t: TokenTransfer| t.encoding());
    lemma_repeated_entries_injective(1, ma, mb);
    assert forall|i: int| 0 <= i < a.transfers@.len() implies same_transfer(
        a.transfers@[i],
        b.transfers@[i],
    ) by {
        assert(ma[i] == mb[i]);
        lemma_transfer_encoding_injective(a.transfers@[i], b.transfers@[i]);
    }
}

/// Two batches with the same encoding agree in every field.
proof fn lemma_batch_encoding_injective(a: BatchTransfer, b: BatchTransfer)
    requires
        a.encoding() == b.encoding(),
    ensures
        same_batch(a, b),
{
    lemma_batch_reads(a);
    lemma_batch_reads(b);
    lemma_batch_entries_injective(a, b);
}

/// The fields that the encoding of a `ZkProofRequirement` reads back as.
pub open spec fn zk_entries(x: ZkProofRequirement) -> Seq<WireEntry> {
    string_entries(1, x.circuit_id@)
        + repeated_entries(2, x.public_inputs@.map_values(|v: Vec<u8>| v@))
        + string_entries(3, x.proof_system@)
        + varint_entries(4, x.verification_gas_limit as nat)
        + bytes_entries(5, x.proof@)
}

/// Whether two ZK proof requirements agree in every field.
pub open spec fn same_zk(a: ZkProofRequirement, b: ZkProofRequirement) -> bool {
    &&& a.circuit_id@ == b.circuit_id@
    &&& a.public_inputs@.len() == b.public_inputs@.len()
    &&& forall|i: int| 0 <= i < a.public_inputs@.len() ==>
            a.public_inputs@[i]@ == b.public_inputs@[i]@
    &&& a.proof_system@ == b.proof_system@
    &&& a.verification_gas_limit == b.verification_gas_limit
    &&& a.proof@ == b.proof@
}

proof fn lemma_zk_reads(x: ZkProofRequirement)
    ensures
        parse_fields(x.encoding()) == Some(zk_entries(x)),
{
    broadcast use group_field_reading;

}

proof fn lemma_zk_entries_injective(a: ZkProofRequirement, b: ZkProofRequirement)
    requires
        zk_entries(a) == zk_entries(b),
    ensures
        same_zk(a, b),
{
    let a1 = string_entries(1, a.circuit_id@);
    let a2 = repeated_entries(2, a.public_inputs@.map_values(|v: Vec<u8>| v@));
    let a3 = string_entries(3, a.proof_system@);
    let a4 = varint_entries(4, a.verification_gas_limit as nat);
    let a5 = bytes_entries(5, a.proof@);
    let b1 = string_entries(1, b.circuit_id@);
    let b2 = repeated_entries(2, b.public_inputs@.map_values(|v: Vec<u8>| v@));
    let b3 = string_entries(3, b.proof_system@);
    let b4 = varint_entries(4, b.verification_gas_limit as nat);
    let b5 = bytes_entries(5, b.proof@);
    lemma_entries_assoc(a1 + a2 + a3, a4, a5);
    lemma_entries_assoc(a1 + a2, a3, a4 + a5);
    lemma_entries_assoc(a1, a2, a3 + (a4 + a5));
    lemma_entries_assoc(b1 + b2 + b3, b4, b5);
    lemma_entries_assoc(b1 + b2, b3, b4 + b5);
    lemma_entries_assoc(b1, b2, b3 + (b4 + b5));
    lemma_split_entries(a1, a2 + (a3 + (a4 + a5)), b1, b2 + (b3 + (b4 + b5)), 1, 1);
    lemma_split_entries(a2, a3 + (a4 + a5), b2, b3 + (b4 + b5), 2, 2);
    lemma_split_entries(a3, a4 + a5, b3, b4 + b5, 3, 3);
    lemma_split_entries(a4, a5, b4, b5, 4, 4);
    lemma_string_entries_injective(1, a.circuit_id@, b.circuit_id@);
    let ia = a.public_inputs@.map_values(|v: Vec<u8>| v@);
    let ib = b.public_inputs@.map_values(|v: Vec<u8>| v@);
    lemma_repeated_entries_injective(2, ia, ib);
    assert forall|i: int| 0 <= i < a.public_inputs@.len() implies a.public_inputs@[i]@
        == b.public_inputs@[i]@ by {
        assert(ia[i] == ib[i]);
    }
    lemma_string_entries_injective(3, a.proof_system@, b.proof_system@);
    lemma_varint_entries_injective(
        4,
        a.verification_gas_limit as nat,
        b.verification_gas_limit as nat,
    );
    lemma_bytes_entries_injective(5, a.proof@, b.proof@);
}

/// Two ZK proof requirements with the same encoding agree in every field.
proof fn lemma_zk_encoding_injective(a: ZkProofRequirement, b: ZkProofRequirement)
    requires
        a.encoding() == b.encoding(),
    ensures
        same_zk(a, b),
{
    lemma_zk_reads(a);
    lemma_zk_reads(b);
    lemma_zk_entries_injective(a, b);
}

/// The fields that the encoding of a `ProofRequirement` reads back as.
pub open spec fn proof_requirement_entries(x: ProofRequirement) -> Seq<WireEntry> {
    requirement_entries(x.requirement)
}

/// Whether two proof requirements agree in every field.
pub open spec fn same_proof_requirement(a: ProofRequirement, b: ProofRequirement) -> bool {
    &&& same_requirement(a.requirement, b.requirement)
}

proof fn lemma_proof_requirement_reads(x: ProofRequirement)
    ensures
        parse_fields(x.encoding()) == Some(proof_requirement_entries(x)),
{
    broadcast use group_field_reading;

    lemma_requirement_reads(x.requirement);
}

proof fn lemma_proof_requirement_entries_injective(a: ProofRequirement, b: ProofRequirement)
    requires
        proof_requirement_entries(a) == proof_requirement_entries(b),
    ensures
        same_proof_requirement(a, b),
{
    let a1 = requirement_entries(a.requirement);
    let b1 = requirement_entries(b.requirement);
    lemma_requirement_entries_injective(a.requirement, b.requirement);
}

/// Two proof requirements with the same encoding agree in every field.
proof fn lemma_proof_requirement_encoding_injective(a: ProofRequirement, b: ProofRequirement)
    requires
        a.encoding() == b.encoding(),
    ensures
        same_proof_requirement(a, b),
{
    lemma_proof_requirement_reads(a);
    lemma_proof_requirement_reads(b);
    lemma_proof_requirement_entries_injective(a, b);
}

/// The fields that the encoding of a `EconomicParameters` reads back as.
pub open spec fn economics_entries(x: EconomicParameters) -> Seq<WireEntry> {
    priority_entries(x.priority)
        + varint_entries(2, x.base_fee as nat)
        + varint_entries(3, x.verification_fee as nat)
}

/// Whether two economic parameters agree in every field.
pub open spec fn same_economics(a: EconomicParameters, b: EconomicParameters) -> bool {
    &&& a == b
}

proof fn lemma_economics_reads(x: EconomicParameters)
    ensures
        parse_fields(x.encoding()) == Some(economics_entries(x)),
{
    broadcast use group_field_reading;

    lemma_priority_reads(x.priority);
}

proof fn lemma_economics_entries_injective(a: EconomicParameters, b: EconomicParameters)
    requires
        economics_entries(a) == economics_entries(b),
    ensures
        same_economics(a, b),
{
    lemma_priority_fields(a.priority);
    lemma_priority_fields(b.priority);
    let a1 = priority_entries(a.priority);
    let a2 = varint_entries(2, a.base_fee as nat);
    let a3 = varint_entries(3, a.verification_fee as nat);
    let b1 = priority_entries(b.priority);
    let b2 = varint_entries(2, b.base_fee as nat);
    let b3 = varint_entries(3, b.verification_fee as nat);
    lemma_entries_assoc(a1, a2, a3);
    lemma_entries_assoc(b1, b2, b3);
    lemma_split_entries(a1, a2 + a3, b1, b2 + b3, 1, 1);
    lemma_split_entries(a2, a3, b2, b3, 2, 2);
    lemma_priority_entries_injective(a.priority, b.priority);
    lemma_varint_entries_injective(2, a.base_fee as nat, b.base_fee as nat);
    lemma_varint_entries_injective(3, a.verification_fee as nat, b.verification_fee as nat);
}

/// Two economic parameters with the same encoding agree in every field.
proof fn lemma_economics_encoding_injective(a: EconomicParameters, b: EconomicParameters)
    requires
        a.encoding() == b.encoding(),
    ensures
        same_economics(a, b),
{
    lemma_economics_reads(a);
    lemma_economics_reads(b);
    lemma_economics_entries_injective(a, b);
}

/// The fields that the encoding of a `IbcCompatibilityData` reads back as.
pub open spec fn ibc_data_entries(x: IbcCompatibilityData) -> Seq<WireEntry> {
    varint_entries(1, x.sequence as nat)
        + string_entries(2, x.source_port@)
        + string_entries(3, x.source_channel@)
        + string_entries(4, x.destination_port@)
        + string_entries(5, x.destination_channel@)
        + timeout_entries(x.timeout, 7, 6)
        + message_entries(8, optional_token_packet(x.token_data))
}

/// Whether two IBC compatibility records agree in every field.
pub open spec fn same_ibc_data(a: IbcCompatibilityData, b: IbcCompatibilityData) -> bool {
    &&& a.sequence == b.sequence
    &&& a.source_port@ == b.source_port@
    &&& a.source_channel@ == b.source_channel@
    &&& a.destination_port@ == b.destination_port@
    &&& a.destination_channel@ == b.destination_channel@
    &&& a.timeout == b.timeout
    &&& a.token_data is Some <==> b.token_data is Some
    &&& a.token_data is Some ==> same_token_packet(a.token_data.unwrap(), b.token_data.unwrap())
}

proof fn lemma_ibc_data_reads(x: IbcCompatibilityData)
    ensures
        parse_fields(x.encoding()) == Some(ibc_data_entries(x)),
{
    broadcast use group_field_reading;

    lemma_timeout_reads(x.timeout, 7, 6);
    assert(optional_token_packet(x.token_data) == match x.token_data {
        Some(t) => Some(t.encoding()),
        None => None,
    });
}

proof fn lemma_ibc_data_entries_injective(a: IbcCompatibilityData, b: IbcCompatibilityData)
    requires
        ibc_data_entries(a) == ibc_data_entries(b),
    ensures
        same_ibc_data(a, b),
{
    lemma_timeout_fields(a.timeout, 7, 6, 6, 7);
    lemma_timeout_fields(b.timeout, 7, 6, 6, 7);
    let a1 = varint_entries(1, a.sequence as nat);
    let a2 = string_entries(2, a.source_port@);
    let a3 = string_entries(3, a.source_channel@);
    let a4 = string_entries(4, a.destination_port@);
    let a5 = string_entries(5, a.destination_channel@);
    let a6 = timeout_entries(a.timeout, 7, 6);
    let a7 = message_entries(8, optional_token_packet(a.token_data));
    let b1 = varint_entries(1, b.sequence as nat);
    let b2 = string_entries(2, b.source_port@);
    let b3 = string_entries(3, b.source_channel@);
    let b4 = string_entries(4, b.destination_port@);
    let b5 = string_entries(5, b.destination_channel@);
    let b6 = timeout_entries(b.timeout, 7, 6);
    let b7 = message_entries(8, optional_token_packet(b.token_data));
    lemma_entries_assoc(a1 + a2 + a3 + a4 + a5, a6, a7);
    lemma_entries_assoc(a1 + a2 + a3 + a4, a5, a6 + a7);
    lemma_entries_assoc(a1 + a2 + a3, a4, a5 + (a6 + a7));
    lemma_entries_assoc(a1 + a2, a3, a4 + (a5 + (a6 + a7)));
    lemma_entries_assoc(a1, a2, a3 + (a4 + (a5 + (a6 + a7))));
    lemma_entries_assoc(b1 + b2 + b3 + b4 + b5, b6, b7);
    lemma_entries_assoc(b1 + b2 + b3 + b4, b5, b6 + b7);
    lemma_entries_assoc(b1 + b2 + b3, b4, b5 + (b6 + b7));
    lemma_entries_assoc(b1 + b2, b3, b4 + (b5 + (b6 + b7)));
    lemma_entries_assoc(b1, b2, b3 + (b4 + (b5 + (b6 + b7))));
    lemma_split_entries(
        a1,
        a2 + (a3 + (a4 + (a5 + (a6 + a7)))),
        b1,
        b2 + (b3 + (b4 + (b5 + (b6 + b7)))),
        1,
        1,
    );
    lemma_split_entries(a2, a3 + (a4 + (a5 + (a6 + a7))), b2, b3 + (b4 + (b5 + (b6 + b7))), 2, 2);
    lemma_split_entries(a3, a4 + (a5 + (a6 + a7)), b3, b4 + (b5 + (b6 + b7)), 3, 3);
    lemma_split_entries(a4, a5 + (a6 + a7), b4, b5 + (b6 + b7), 4, 4);
    lemma_split_entries(a5, a6 + a7, b5, b6 + b7, 5, 5);
    lemma_split_entries(a6, a7, b6, b7, 6, 7);
    lemma_varint_entries_injective(1, a.sequence as nat, b.sequence as nat);
    lemma_string_entries_injective(2, a.source_port@, b.source_port@);
    lemma_string_entries_injective(3, a.source_channel@, b.source_channel@);
    lemma_string_entries_injective(4, a.destination_port@, b.destination_port@);
    lemma_string_entries_injective(5, a.destination_channel@, b.destination_channel@);
    lemma_timeout_entries_injective(a.timeout, b.timeout, 7, 6);
    lemma_embedded_entries_injective(
        8,
        optional_token_packet(a.token_data),
        optional_token_packet(b.token_data),
    );
    if a.token_data is Some {
        lemma_token_packet_encoding_injective(a.token_data.unwrap(), b.token_data.unwrap());
    }
}

/// Two IBC compatibility records with the same encoding agree in every field.
proof fn lemma_ibc_data_encoding_injective(a: IbcCompatibilityData, b: IbcCompatibilityData)
    requires
        a.encoding() == b.encoding(),
    ensures
        same_ibc_data(a, b),
{
    lemma_ibc_data_reads(a);
    lemma_ibc_data_reads(b);
    lemma_ibc_data_entries_injective(a, b);
}

// ----- Fields that are one of several -----

/// The embedded encoding of an optional fungible token packet.
pub open spec fn optional_token_packet(t: Option<FungibleTokenPacket>) -> Option<Seq<u8>> {
    match t {
        Some(p) => Some(p.encoding()),
        None => None,
    }
}

/// What a timeout reads back as: a timestamp in field `ts_field`, a height
/// in field `height_field`.
pub open spec fn timeout_entries(t: Option<Timeout>, ts_field: nat, height_field: nat) -> Seq<
    WireEntry,
> {
    match t {
        Some(Timeout::TimeoutTimestamp(ts)) => varint_entry(ts_field, ts as nat),
        Some(Timeout::TimeoutHeight(h)) => bytes_entry(height_field, h.encoding()),
        None => Seq::empty(),
    }
}

proof fn lemma_timeout_reads(t: Option<Timeout>, ts_field: nat, height_field: nat)
    ensures
        parse_fields(timeout_encoding(t, ts_field, height_field)) == Some(
            timeout_entries(t, ts_field, height_field),
        ),
{
    broadcast use group_field_reading;

}

proof fn lemma_timeout_fields(
    t: Option<Timeout>,
    ts_field: nat,
    height_field: nat,
    lo: nat,
    hi: nat,
)
    requires
        1 <= lo <= ts_field <= hi,
        lo <= height_field <= hi,
    ensures
        fields_in(timeout_entries(t, ts_field, height_field), lo, hi),
        fields_above(timeout_entries(t, ts_field, height_field), (lo - 1) as nat),
{
}

proof fn lemma_timeout_entries_injective(
    ta: Option<Timeout>,
    tb: Option<Timeout>,
    ts_field: nat,
    height_field: nat,
)
    requires
        timeout_entries(ta, ts_field, height_field) == timeout_entries(tb, ts_field, height_field),
        ts_field != height_field,
    ensures
        ta == tb,
{
    let ea = timeout_entries(ta, ts_field, height_field);
    let eb = timeout_entries(tb, ts_field, height_field);
    if ta is Some && tb is Some {
        assert(ea[0] == eb[0]);
        match (ta.unwrap(), tb.unwrap()) {
            (Timeout::TimeoutTimestamp(x), Timeout::TimeoutTimestamp(y)) => {
                lemma_varint_entry_injective(ts_field, x as nat, y as nat);
            },
            (Timeout::TimeoutHeight(x), Timeout::TimeoutHeight(y)) => {
                lemma_entry_injective(height_field, x.encoding(), y.encoding());
                lemma_height_encoding_injective(x, y);
            },
            _ => {},
        }
    } else if ta is Some {
        assert(ea.len() == 1);
    } else if tb is Some {
        assert(eb.len() == 1);
    }
}

/// What a message's payload reads back as: one of fields 8 to 11.
pub open spec fn payload_entries(p: Option<Payload>) -> Seq<WireEntry> {
    match p {
        Some(Payload::TokenTransfer(t)) => bytes_entry(8, t.encoding()),
        Some(Payload::ContractCall(c)) => bytes_entry(9, c.encoding()),
        Some(Payload::BatchTransfer(b)) => bytes_entry(10, b.encoding()),
        Some(Payload::StateQuery(q)) => bytes_entry(11, q.encoding()),
        None => Seq::empty(),
    }
}

/// Whether two payloads are the same kind and agree in every field.
pub open spec fn same_payload(a: Option<Payload>, b: Option<Payload>) -> bool {
    match (a, b) {
        (Some(Payload::TokenTransfer(x)), Some(Payload::TokenTransfer(y))) => same_transfer(x, y),
        (Some(Payload::ContractCall(x)), Some(Payload::ContractCall(y))) => same_contract_call(x, y),
        (Some(Payload::BatchTransfer(x)), Some(Payload::BatchTransfer(y))) => same_batch(x, y),
        (Some(Payload::StateQuery(x)), Some(Payload::StateQuery(y))) => same_state_query(x, y),
        (None, None) => true,
        _ => false,
    }
}

proof fn lemma_payload_reads(p: Option<Payload>)
    ensures
        parse_fields(payload_encoding(p)) == Some(payload_entries(p)),
{
    broadcast use group_field_reading;

}

proof fn lemma_payload_fields(p: Option<Payload>, lo: nat, hi: nat)
    requires
        1 <= lo <= 8,
        11 <= hi,
    ensures
        fields_in(payload_entries(p), lo, hi),
        fields_above(payload_entries(p), (lo - 1) as nat),
{
}

proof fn lemma_payload_entries_injective(pa: Option<Payload>, pb: Option<Payload>)
    requires
        payload_entries(pa) == payload_entries(pb),
    ensures
        same_payload(pa, pb),
{
    let ea = payload_entries(pa);
    let eb = payload_entries(pb);
    if pa is Some && pb is Some {
        assert(ea[0] == eb[0]);
        match (pa.unwrap(), pb.unwrap()) {
            (Payload::TokenTransfer(x), Payload::TokenTransfer(y)) => {
                lemma_entry_injective(8, x.encoding(), y.encoding());
                lemma_transfer_encoding_injective(x, y);
            },
            (Payload::ContractCall(x), Payload::ContractCall(y)) => {
                lemma_entry_injective(9, x.encoding(), y.encoding());
                lemma_contract_call_encoding_injective(x, y);
            },
            (Payload::BatchTransfer(x), Payload::BatchTransfer(y)) => {
                lemma_entry_injective(10, x.encoding(), y.encoding());
                lemma_batch_encoding_injective(x, y);
            },
            (Payload::StateQuery(x), Payload::StateQuery(y)) => {
                lemma_entry_injective(11, x.encoding(), y.encoding());
                lemma_state_query_encoding_injective(x, y);
            },
            _ => {},
        }
    } else if pa is Some {
        assert(ea.len() == 1);
    } else if pb is Some {
        assert(eb.len() == 1);
    }
}

/// What a proof requirement's kind reads back as: one of fields 1 to 3.
pub open spec fn requirement_entries(r: Option<Requirement>) -> Seq<WireEntry> {
    match r {
        Some(Requirement::LightClient(p)) => bytes_entry(1, p.encoding()),
        Some(Requirement::ZkProof(p)) => bytes_entry(2, p.encoding()),
        Some(Requirement::Optimistic(p)) => bytes_entry(3, p.encoding()),
        None => Seq::empty(),
    }
}

/// Whether two proof requirements are the same kind and agree in every field.
pub open spec fn same_requirement(a: Option<Requirement>, b: Option<Requirement>) -> bool {
    match (a, b) {
        (Some(Requirement::LightClient(x)), Some(Requirement::LightClient(y))) => same_light_client(
            x,
            y,
        ),
        (Some(Requirement::ZkProof(x)), Some(Requirement::ZkProof(y))) => same_zk(x, y),
        (Some(Requirement::Optimistic(x)), Some(Requirement::Optimistic(y))) => same_optimistic(x, y),
        (None, None) => true,
        _ => false,
    }
}

proof fn lemma_requirement_reads(r: Option<Requirement>)
    ensures
        parse_fields(
            match r {
                Some(Requirement::LightClient(p)) => bytes_field_present(1, p.encoding()),
                Some(Requirement::ZkProof(p)) => bytes_field_present(2, p.encoding()),
                Some(Requirement::Optimistic(p)) => bytes_field_present(3, p.encoding()),
                None => Seq::empty(),
            },
        ) == Some(requirement_entries(r)),
{
    broadcast use group_field_reading;

    assert(parse_fields(Seq::<u8>::empty()) == Some(Seq::<WireEntry>::empty()));
}

proof fn lemma_requirement_entries_injective(ra: Option<Requirement>, rb: Option<Requirement>)
    requires
        requirement_entries(ra) == requirement_entries(rb),
    ensures
        same_requirement(ra, rb),
{
    let ea = requirement_entries(ra);
    let eb = requirement_entries(rb);
    if ra is Some && rb is Some {
        assert(ea[0] == eb[0]);
        match (ra.unwrap(), rb.unwrap()) {
            (Requirement::LightClient(x), Requirement::LightClient(y)) => {
                lemma_entry_injective(1, x.encoding(), y.encoding());
                lemma_light_client_encoding_injective(x, y);
            },
            (Requirement::ZkProof(x), Requirement::ZkProof(y)) => {
                lemma_entry_injective(2, x.encoding(), y.encoding());
                lemma_zk_encoding_injective(x, y);
            },
            (Requirement::Optimistic(x), Requirement::Optimistic(y)) => {
                lemma_entry_injective(3, x.encoding(), y.encoding());
                lemma_optimistic_encoding_injective(x, y);
            },
            _ => {},
        }
    } else if ra is Some {
        assert(ea.len() == 1);
    } else if rb is Some {
        assert(eb.len() == 1);
    }
}

/// What an optional priority reads back as: field 1 when set.
pub open spec fn priority_entries(p: Option<Priority>) -> Seq<WireEntry> {
    match p {
        Some(q) => varint_entry(1, q.number()),
        None => Seq::empty(),
    }
}

proof fn lemma_priority_reads(p: Option<Priority>)
    ensures
        parse_fields(
            match p {
                Some(q) => varint_field_present(1, q.number()),
                None => Seq::empty(),
            },
        ) == Some(priority_entries(p)),
{
    broadcast use group_field_reading;

    assert(parse_fields(Seq::<u8>::empty()) == Some(Seq::<WireEntry>::empty()));
}

proof fn lemma_priority_fields(p: Option<Priority>)
    ensures
        fields_in(priority_entries(p), 1, 1),
{
}

proof fn lemma_priority_entries_injective(pa: Option<Priority>, pb: Option<Priority>)
    requires
        priority_entries(pa) == priority_entries(pb),
    ensures
        pa == pb,
{
    let ea = priority_entries(pa);
    let eb = priority_entries(pb);
    if pa is Some && pb is Some {
        assert(ea[0] == eb[0]);
    } else if pa is Some {
        assert(ea.len() == 1);
    } else if pb is Some {
        assert(eb.len() == 1);
    }
}

/// The fields 1 to 13 that a message's encoding reads back as.
pub open spec fn head_entries(x: UniversalMessage) -> Seq<WireEntry> {
    varint_entries(1, x.version as nat)
        + bytes_entries(2, x.message_id@)
        + varint_entries(3, x.created_at as nat)
        + message_entries(4, optional_endpoint(x.source))
        + message_entries(5, optional_endpoint(x.destination))
        + repeated_entries(6, x.route_hints@.map_values(|s: String| encode_utf8(s@)))
        + varint_entries(7, x.message_type.number())
        + payload_entries(x.payload)
        + timeout_entries(x.timeout, 12, 13)
}

/// Whether two messages agree in fields 1 to 13.
pub open spec fn same_head(a: UniversalMessage, b: UniversalMessage) -> bool {
    &&& a.version == b.version
    &&& a.message_id@ == b.message_id@
    &&& a.created_at == b.created_at
    &&& a.source is Some <==> b.source is Some
    &&& a.source is Some ==> same_endpoint(a.source.unwrap(), b.source.unwrap())
    &&& a.destination is Some <==> b.destination is Some
    &&& a.destination is Some ==> same_endpoint(a.destination.unwrap(), b.destination.unwrap())
    &&& a.route_hints@.len() == b.route_hints@.len()
    &&& forall|i: int| 0 <= i < a.route_hints@.len() ==> a.route_hints@[i]@ == b.route_hints@[i]@
    &&& a.message_type == b.message_type
    &&& same_payload(a.payload, b.payload)
    &&& a.timeout == b.timeout
}


#[verifier::spinoff_prover]
#[verifier::rlimit(50)]
proof fn lemma_head_entries_injective(a: UniversalMessage, b: UniversalMessage)
    requires
        head_entries(a) == head_entries(b),
    ensures
        same_head(a, b),
{
    lemma_payload_fields(a.payload, 8, 11);
    lemma_payload_fields(b.payload, 8, 11);
    lemma_timeout_fields(a.timeout, 12, 13, 12, 13);
    lemma_timeout_fields(b.timeout, 12, 13, 12, 13);
    let a1 = varint_entries(1, a.version as nat);
    let a2 = bytes_entries(2, a.message_id@);
    let a3 = varint_entries(3, a.created_at as nat);
    let a4 = message_entries(4, optional_endpoint(a.source));
    let a5 = message_entries(5, optional_endpoint(a.destination));
    let a6 = repeated_entries(6, a.route_hints@.map_values(|s: String| encode_utf8(s@)));
    let a7 = varint_entries(7, a.message_type.number());
    let a8 = payload_entries(a.payload);
    let a9 = timeout_entries(a.timeout, 12, 13);
    let b1 = varint_entries(1, b.version as nat);
    let b2 = bytes_entries(2, b.message_id@);
    let b3 = varint_entries(3, b.created_at as nat);
    let b4 = message_entries(4, optional_endpoint(b.source));
    let b5 = message_entries(5, optional_endpoint(b.destination));
    let b6 = repeated_entries(6, b.route_hints@.map_values(|s: String| encode_utf8(s@)));
    let b7 = varint_entries(7, b.message_type.number());
    let b8 = payload_entries(b.payload);
    let b9 = timeout_entries(b.timeout, 12, 13);
    lemma_entries_assoc(a1 + a2 + a3 + a4 + a5 + a6 + a7, a8, a9);
    lemma_entries_assoc(a1 + a2 + a3 + a4 + a5 + a6, a7, a8 + a9);
    lemma_entries_assoc(a1 + a2 + a3 + a4 + a5, a6, a7 + (a8 + a9));
    lemma_entries_assoc(a1 + a2 + a3 + a4, a5, a6 + (a7 + (a8 + a9)));
    lemma_entries_assoc(a1 + a2 + a3, a4, a5 + (a6 + (a7 + (a8 + a9))));
    lemma_entries_assoc(a1 + a2, a3, a4 + (a5 + (a6 + (a7 + (a8 + a9)))));
    lemma_entries_assoc(a1, a2, a3 + (a4 + (a5 + (a6 + (a7 + (a8 + a9))))));
    lemma_entries_assoc(b1 + b2 + b3 + b4 + b5 + b6 + b7, b8, b9);
    lemma_entries_assoc(b1 + b2 + b3 + b4 + b5 + b6, b7, b8 + b9);
    lemma_entries_assoc(b1 + b2 + b3 + b4 + b5, b6, b7 + (b8 + b9));
    lemma_entries_assoc(b1 + b2 + b3 + b4, b5, b6 + (b7 + (b8 + b9)));
    lemma_entries_assoc(b1 + b2 + b3, b4, b5 + (b6 + (b7 + (b8 + b9))));
    lemma_entries_assoc(b1 + b2, b3, b4 + (b5 + (b6 + (b7 + (b8 + b9)))));
    lemma_entries_assoc(b1, b2, b3 + (b4 + (b5 + (b6 + (b7 + (b8 + b9))))));
    lemma_split_entries(
        a1,
        a2 + (a3 + (a4 + (a5 + (a6 + (a7 + (a8 + a9)))))),
        b1,
        b2 + (b3 + (b4 + (b5 + (b6 + (b7 + (b8 + b9)))))),
        1,
        1,
    );
    lemma_split_entries(
        a2,
        a3 + (a4 + (a5 + (a6 + (a7 + (a8 + a9))))),
        b2,
        b3 + (b4 + (b5 + (b6 + (b7 + (b8 + b9))))),
        2,
        2,
    );
    lemma_split_entries(
        a3,
        a4 + (a5 + (a6 + (a7 + (a8 + a9)))),
        b3,
        b4 + (b5 + (b6 + (b7 + (b8 + b9)))),
        3,
        3,
    );
    lemma_split_entries(a4, a5 + (a6 + (a7 + (a8 + a9))), b4, b5 + (b6 + (b7 + (b8 + b9))), 4, 4);
    lemma_split_entries(a5, a6 + (a7 + (a8 + a9)), b5, b6 + (b7 + (b8 + b9)), 5, 5);
    lemma_split_entries(a6, a7 + (a8 + a9), b6, b7 + (b8 + b9), 6, 6);
    lemma_split_entries(a7, a8 + a9, b7, b8 + b9, 7, 7);
    lemma_split_entries(a8, a9, b8, b9, 8, 11);
    lemma_varint_entries_injective(1, a.version as nat, b.version as nat);
    lemma_bytes_entries_injective(2, a.message_id@, b.message_id@);
    lemma_varint_entries_injective(3, a.created_at as nat, b.created_at as nat);
    lemma_embedded_entries_injective(4, optional_endpoint(a.source), optional_endpoint(b.source));
    if a.source is Some {
        lemma_endpoint_encoding_injective(a.source.unwrap(), b.source.unwrap());
    }
    lemma_embedded_entries_injective(
        5,
        optional_endpoint(a.destination),
        optional_endpoint(b.destination),
    );
    if a.destination is Some {
        lemma_endpoint_encoding_injective(a.destination.unwrap(), b.destination.unwrap());
    }
    let ha = a.route_hints@.map_values(|s: String| encode_utf8(s@));
    let hb = b.route_hints@.map_values(|s: String| encode_utf8(s@));
    lemma_repeated_entries_injective(6, ha, hb);
    assert forall|i: int| 0 <= i < a.route_hints@.len() implies a.route_hints@[i]@
        == b.route_hints@[i]@ by {
        assert(ha[i] == hb[i]);
        lemma_utf8_injective(a.route_hints@[i]@, b.route_hints@[i]@);
    }
    lemma_varint_entries_injective(7, a.message_type.number(), b.message_type.number());
    lemma_payload_entries_injective(a.payload, b.payload);
    lemma_timeout_entries_injective(a.timeout, b.timeout, 12, 13);
}

/// The embedded records, fields 14 to 19, that a message's encoding reads back as.
pub open spec fn tail_entries(x: UniversalMessage) -> Seq<WireEntry> {
    message_entries(14, optional_proof_requirement(x.proof_requirement))
        + message_entries(15, optional_checkpoint(x.state_checkpoint))
        + message_entries(16, optional_fees(x.fees))
        + message_entries(17, optional_assignment(x.relayer_assignment))
        + message_entries(18, optional_economics(x.economic_parameters))
        + message_entries(19, optional_ibc_data(x.ibc_data))
}

/// Whether two messages agree in fields 14 to 19.
pub open spec fn same_tail(a: UniversalMessage, b: UniversalMessage) -> bool {
    &&& a.proof_requirement is Some <==> b.proof_requirement is Some
    &&& a.proof_requirement is Some ==>
            same_proof_requirement(a.proof_requirement.unwrap(), b.proof_requirement.unwrap())
    &&& a.state_checkpoint is Some <==> b.state_checkpoint is Some
    &&& a.state_checkpoint is Some ==>
            same_checkpoint(a.state_checkpoint.unwrap(), b.state_checkpoint.unwrap())
    &&& a.fees is Some <==> b.fees is Some
    &&& a.fees is Some ==> same_fees(a.fees.unwrap(), b.fees.unwrap())
    &&& a.relayer_assignment is Some <==> b.relayer_assignment is Some
    &&& a.relayer_assignment is Some ==>
            same_assignment(a.relayer_assignment.unwrap(), b.relayer_assignment.unwrap())
    &&& a.economic_parameters == b.economic_parameters
    &&& a.ibc_data is Some <==> b.ibc_data is Some
    &&& a.ibc_data is Some ==> same_ibc_data(a.ibc_data.unwrap(), b.ibc_data.unwrap())
}


#[verifier::spinoff_prover]
#[verifier::rlimit(50)]
proof fn lemma_tail_entries_injective(a: UniversalMessage, b: UniversalMessage)
    requires
        tail_entries(a) == tail_entries(b),
    ensures
        same_tail(a, b),
{
    let a1 = message_entries(14, optional_proof_requirement(a.proof_requirement));
    let a2 = message_entries(15, optional_checkpoint(a.state_checkpoint));
    let a3 = message_entries(16, optional_fees(a.fees));
    let a4 = message_entries(17, optional_assignment(a.relayer_assignment));
    let a5 = message_entries(18, optional_economics(a.economic_parameters));
    let a6 = message_entries(19, optional_ibc_data(a.ibc_data));
    let b1 = message_entries(14, optional_proof_requirement(b.proof_requirement));
    let b2 = message_entries(15, optional_checkpoint(b.state_checkpoint));
    let b3 = message_entries(16, optional_fees(b.fees));
    let b4 = message_entries(17, optional_assignment(b.relayer_assignment));
    let b5 = message_entries(18, optional_economics(b.economic_parameters));
    let b6 = message_entries(19, optional_ibc_data(b.ibc_data));
    lemma_entries_assoc(a1 + a2 + a3 + a4, a5, a6);
    lemma_entries_assoc(a1 + a2 + a3, a4, a5 + a6);
    lemma_entries_assoc(a1 + a2, a3, a4 + (a5 + a6));
    lemma_entries_assoc(a1, a2, a3 + (a4 + (a5 + a6)));
    lemma_entries_assoc(b1 + b2 + b3 + b4, b5, b6);
    lemma_entries_assoc(b1 + b2 + b3, b4, b5 + b6);
    lemma_entries_assoc(b1 + b2, b3, b4 + (b5 + b6));
    lemma_entries_assoc(b1, b2, b3 + (b4 + (b5 + b6)));
    lemma_split_entries(a1, a2 + (a3 + (a4 + (a5 + a6))), b1, b2 + (b3 + (b4 + (b5 + b6))), 14, 14);
    lemma_split_entries(a2, a3 + (a4 + (a5 + a6)), b2, b3 + (b4 + (b5 + b6)), 15, 15);
    lemma_split_entries(a3, a4 + (a5 + a6), b3, b4 + (b5 + b6), 16, 16);
    lemma_split_entries(a4, a5 + a6, b4, b5 + b6, 17, 17);
    lemma_split_entries(a5, a6, b5, b6, 18, 18);
    lemma_embedded_entries_injective(
        14,
        optional_proof_requirement(a.proof_requirement),
        optional_proof_requirement(b.proof_requirement),
    );
    if a.proof_requirement is Some {
        lemma_proof_requirement_encoding_injective(
            a.proof_requirement.unwrap(),
            b.proof_requirement.unwrap(),
        );
    }
    lemma_embedded_entries_injective(
        15,
        optional_checkpoint(a.state_checkpoint),
        optional_checkpoint(b.state_checkpoint),
    );
    if a.state_checkpoint is Some {
        lemma_checkpoint_encoding_injective(
            a.state_checkpoint.unwrap(),
            b.state_checkpoint.unwrap(),
        );
    }
    lemma_embedded_entries_injective(16, optional_fees(a.fees), optional_fees(b.fees));
    if a.fees is Some {
        lemma_fees_encoding_injective(a.fees.unwrap(), b.fees.unwrap());
    }
    lemma_embedded_entries_injective(
        17,
        optional_assignment(a.relayer_assignment),
        optional_assignment(b.relayer_assignment),
    );
    if a.relayer_assignment is Some {
        lemma_assignment_encoding_injective(
            a.relayer_assignment.unwrap(),
            b.relayer_assignment.unwrap(),
        );
    }
    lemma_embedded_entries_injective(
        18,
        optional_economics(a.economic_parameters),
        optional_economics(b.economic_parameters),
    );
    if a.economic_parameters is Some {
        lemma_economics_encoding_injective(
            a.economic_parameters.unwrap(),
            b.economic_parameters.unwrap(),
        );
    }
    lemma_embedded_entries_injective(
        19,
        optional_ibc_data(a.ibc_data),
        optional_ibc_data(b.ibc_data),
    );
    if a.ibc_data is Some {
        lemma_ibc_data_encoding_injective(a.ibc_data.unwrap(), b.ibc_data.unwrap());
    }
}

/// The fields that the encoding of a `UniversalMessage` reads back as.
pub open spec fn universal_entries(x: UniversalMessage) -> Seq<WireEntry> {
    head_entries(x) + tail_entries(x)
}

/// Whether two universal messages agree in every field.
pub open spec fn same_message(a: UniversalMessage, b: UniversalMessage) -> bool {
    same_head(a, b) && same_tail(a, b)
}

#[verifier::spinoff_prover]
#[verifier::rlimit(60)]
proof fn lemma_universal_reads(x: UniversalMessage)
    ensures
        parse_fields(x.encoding()) == Some(universal_entries(x)),
{
    broadcast use group_field_reading;

    lemma_payload_reads(x.payload);
    lemma_timeout_reads(x.timeout, 12, 13);
    let head = varint_entries(1, x.version as nat)
        + bytes_entries(2, x.message_id@)
        + varint_entries(
        3,
        x.created_at as nat,
    ) + message_entries(4, optional_endpoint(x.source)) + message_entries(
        5,
        optional_endpoint(x.destination),
    ) + repeated_entries(6, x.route_hints@.map_values(|s: String| encode_utf8(s@)))
        + varint_entries(7, x.message_type.number()) + payload_entries(x.payload) + timeout_entries(
        x.timeout,
        12,
        13,
    );
    lemma_entries_append6(
        head,
        message_entries(14, optional_proof_requirement(x.proof_requirement)),
        message_entries(15, optional_checkpoint(x.state_checkpoint)),
        message_entries(16, optional_fees(x.fees)),
        message_entries(17, optional_assignment(x.relayer_assignment)),
        message_entries(18, optional_economics(x.economic_parameters)),
        message_entries(19, optional_ibc_data(x.ibc_data)),
    );
}

proof fn lemma_head_fields(x: UniversalMessage)
    ensures
        fields_in(head_entries(x), 1, 13),
{
    lemma_payload_fields(x.payload, 1, 13);
    lemma_timeout_fields(x.timeout, 12, 13, 1, 13);
}

proof fn lemma_tail_fields(x: UniversalMessage)
    ensures
        fields_above(tail_entries(x), 13),
{
}

#[verifier::spinoff_prover]
#[verifier::rlimit(50)]
proof fn lemma_universal_entries_injective(a: UniversalMessage, b: UniversalMessage)
    requires
        universal_entries(a) == universal_entries(b),
    ensures
        same_message(a, b),
{
    lemma_head_fields(a);
    lemma_head_fields(b);
    lemma_tail_fields(a);
    lemma_tail_fields(b);
    lemma_split_entries(head_entries(a), tail_entries(a), head_entries(b), tail_entries(b), 1, 13);
    lemma_head_entries_injective(a, b);
    lemma_tail_entries_injective(a, b);
}

/// Two universal messages with the same encoding agree in every field.
pub proof fn lemma_message_encoding_injective(a: UniversalMessage, b: UniversalMessage)
    requires
        a.encoding() == b.encoding(),
    ensures
        same_message(a, b),
{
    lemma_universal_reads(a);
    lemma_universal_reads(b);
    lemma_universal_entries_injective(a, b);
}

} // verus!
