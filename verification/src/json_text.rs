//! JSON text that the library writes itself: a token transfer as the record
//! that the relay contract reads, members in declaration order, each string
//! written by `serde_json`.

use vstd::prelude::*;
use crate::bytes::append_bytes;
use crate::json::{json_quote, json_quoted};
use crate::uibc::TokenTransfer;

verus! {

/// A JSON string, as `serde_json` writes it.
pub open spec fn json_string(s: Seq<char>) -> Seq<u8> {
    json_quoted(s)
}

/// A member of a JSON object: its key, a colon, its value.
pub open spec fn json_member(key: Seq<char>, value: Seq<u8>) -> Seq<u8> {
    json_string(key) + seq![58u8] + value
}

/// The JSON record of a transfer: denomination, amount, sender, receiver and
/// memo as strings, and no metadata (`null`), in that order.
pub open spec fn transfer_json(t: TokenTransfer) -> Seq<u8> {
    seq![123u8] + json_member("denom"@, json_string(t.denom@)) + seq![44u8] + json_member(
        "amount"@,
        json_string(t.amount@),
    ) + seq![44u8] + json_member("sender"@, json_string(t.sender@)) + seq![44u8] + json_member(
        "receiver"@,
        json_string(t.receiver@),
    ) + seq![44u8] + json_member("memo"@, json_string(t.memo@)) + seq![44u8] + json_member(
        "metadata"@,
        seq![110u8, 117u8, 108u8, 108u8],
    ) + seq![125u8]
}

fn push_json_string(buf: &mut Vec<u8>, s: &str)
    ensures
        final(buf)@ == old(buf)@ + json_string(s@),
{
    let quoted = json_quote(s);
    append_bytes(buf, quoted.as_slice());
}

fn push_string_member(buf: &mut Vec<u8>, key: &str, value: &str)
    ensures
        final(buf)@ == old(buf)@ + json_member(key@, json_string(value@)),
{
    let ghost start = buf@;
    push_json_string(buf, key);
    buf.push(58);
    push_json_string(buf, value);
    assert(buf@ =~= start + json_member(key@, json_string(value@)));
}

/// The JSON record of a transfer.
pub fn transfer_to_json(t: &TokenTransfer) -> (r: Vec<u8>)
    ensures
        r@ == transfer_json(*t),
{
    let mut buf: Vec<u8> = Vec::new();
    buf.push(123);
    let ghost s0 = buf@;
    push_string_member(&mut buf, "denom", t.denom.as_str());
    let ghost s1 = buf@;
    buf.push(44);
    push_string_member(&mut buf, "amount", t.amount.as_str());
    let ghost s2 = buf@;
    buf.push(44);
    push_string_member(&mut buf, "sender", t.sender.as_str());
    let ghost s3 = buf@;
    buf.push(44);
    push_string_member(&mut buf, "receiver", t.receiver.as_str());
    let ghost s4 = buf@;
    buf.push(44);
    push_string_member(&mut buf, "memo", t.memo.as_str());
    let ghost s5 = buf@;
    buf.push(44);
    let ghost s6 = buf@;
    push_json_string(&mut buf, "metadata");
    buf.push(58);
    buf.push(110);
    buf.push(117);
    buf.push(108);
    buf.push(108);
    assert(buf@ =~= s6 + json_member("metadata"@, seq![110u8, 117u8, 108u8, 108u8]));
    buf.push(125);
    assert(buf@ =~= transfer_json(*t));
    buf
}

} // verus!
