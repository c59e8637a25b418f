//! Protocol Buffers wire-format primitives (proto3 rules) used to encode the
//! universal message model.

use vstd::prelude::*;
use vstd::utf8::encode_utf8;

verus! {

/// Base-128 varint encoding of `n`, least significant group first.
pub open spec fn varint(n: nat) -> Seq<u8>
    decreases n,
{
    if n < 128 {
        seq![n as u8]
    } else {
        seq![(n % 128 + 128) as u8] + varint(n / 128)
    }
}

/// The key of a field: its number and wire type.
pub open spec fn field_key(field: nat, wire_type: nat) -> Seq<u8> {
    varint(field * 8 + wire_type)
}

/// A varint field that is always written.
pub open spec fn varint_field_present(field: nat, v: nat) -> Seq<u8> {
    field_key(field, 0) + varint(v)
}

/// A scalar varint field: proto3 leaves out the default value 0.
pub open spec fn varint_field(field: nat, v: nat) -> Seq<u8> {
    if v == 0 {
        Seq::empty()
    } else {
        varint_field_present(field, v)
    }
}

/// A length-delimited field that is always written.
pub open spec fn bytes_field_present(field: nat, b: Seq<u8>) -> Seq<u8> {
    field_key(field, 2) + varint(b.len()) + b
}

/// A scalar bytes field: proto3 leaves out the empty value.
pub open spec fn bytes_field(field: nat, b: Seq<u8>) -> Seq<u8> {
    if b.len() == 0 {
        Seq::empty()
    } else {
        bytes_field_present(field, b)
    }
}

/// A scalar string field, sent as its UTF-8 bytes.
pub open spec fn string_field(field: nat, s: Seq<char>) -> Seq<u8> {
    bytes_field(field, encode_utf8(s))
}

/// A repeated length-delimited field: every element is written, in order.
pub open spec fn repeated_field(field: nat, items: Seq<Seq<u8>>) -> Seq<u8>
    decreases items.len(),
{
    if items.len() == 0 {
        Seq::empty()
    } else {
        repeated_field(field, items.drop_last()) + bytes_field_present(field, items.last())
    }
}

/// An optional embedded message: written, length-delimited, when present.
pub open spec fn message_field(field: nat, m: Option<Seq<u8>>) -> Seq<u8> {
    match m {
        Some(b) => bytes_field_present(field, b),
        None => Seq::empty(),
    }
}

/// Appends the varint encoding of `v`.
pub fn push_varint(buf: &mut Vec<u8>, v: u64)
    ensures
        final(buf)@ == old(buf)@ + varint(v as nat),
{
    let ghost start = buf@;
    let mut rest = v;
    while rest >= 128
        invariant
            start + varint(v as nat) == buf@ + varint(rest as nat),
        decreases rest,
    {
        let byte = (rest % 128 + 128) as u8;
        let ghost before = buf@;
        assert(varint(rest as nat) == seq![byte] + varint((rest / 128) as nat));
        buf.push(byte);
        assert(before + varint(rest as nat) == buf@ + varint((rest / 128) as nat));
        rest = rest / 128;
    }
    let ghost before = buf@;
    buf.push(rest as u8);
    assert(varint(rest as nat) == seq![rest as u8]);
    assert(buf@ == before + varint(rest as nat));
}

/// Appends a field key.
pub fn push_key(buf: &mut Vec<u8>, field: u64, wire_type: u64)
    requires
        field < 0x1000_0000,
        wire_type < 8,
    ensures
        final(buf)@ == old(buf)@ + field_key(field as nat, wire_type as nat),
{
    push_varint(buf, field * 8 + wire_type);
}

/// Appends a varint field that is always written.
pub fn push_varint_field_present(buf: &mut Vec<u8>, field: u64, v: u64)
    requires
        field < 0x1000_0000,
    ensures
        final(buf)@ == old(buf)@ + varint_field_present(field as nat, v as nat),
{
    push_key(buf, field, 0);
    push_varint(buf, v);
    assert(final(buf)@ =~= old(buf)@ + varint_field_present(field as nat, v as nat)) by {
        assert(final(buf)@ == old(buf)@ + field_key(field as nat, 0) + varint(v as nat));
    }
}

/// Appends a scalar varint field, leaving out 0.
pub fn push_varint_field(buf: &mut Vec<u8>, field: u64, v: u64)
    requires
        field < 0x1000_0000,
    ensures
        final(buf)@ == old(buf)@ + varint_field(field as nat, v as nat),
{
    if v != 0 {
        push_varint_field_present(buf, field, v);
    } else {
        assert(old(buf)@ + varint_field(field as nat, v as nat) =~= old(buf)@);
    }
}

/// Appends a length-delimited field that is always written.
pub fn push_bytes_field_present(buf: &mut Vec<u8>, field: u64, b: &[u8])
    requires
        field < 0x1000_0000,
    ensures
        final(buf)@ == old(buf)@ + bytes_field_present(field as nat, b@),
{
    push_key(buf, field, 2);
    push_varint(buf, b.len() as u64);
    let ghost mid = buf@;
    buf.extend_from_slice(b);
    assert(buf@ =~= mid + b@);
    assert(final(buf)@ =~= old(buf)@ + bytes_field_present(field as nat, b@)) by {
        assert(final(buf)@ == old(buf)@ + field_key(field as nat, 2) + varint(b@.len()) + b@);
    }
}

/// Appends a scalar bytes field, leaving out the empty value.
pub fn push_bytes_field(buf: &mut Vec<u8>, field: u64, b: &[u8])
    requires
        field < 0x1000_0000,
    ensures
        final(buf)@ == old(buf)@ + bytes_field(field as nat, b@),
{
    if b.len() != 0 {
        push_bytes_field_present(buf, field, b);
    } else {
        assert(old(buf)@ + bytes_field(field as nat, b@) =~= old(buf)@);
    }
}

/// Appends a scalar string field.
pub fn push_string_field(buf: &mut Vec<u8>, field: u64, s: &String)
    requires
        field < 0x1000_0000,
    ensures
        final(buf)@ == old(buf)@ + string_field(field as nat, s@),
{
    let bytes = s.as_str().as_bytes();
    push_bytes_field(buf, field, bytes);
}

/// Appends an embedded message, given its encoding.
pub fn push_message_field(buf: &mut Vec<u8>, field: u64, m: &Vec<u8>)
    requires
        field < 0x1000_0000,
    ensures
        final(buf)@ == old(buf)@ + message_field(field as nat, Some(m@)),
{
    push_bytes_field_present(buf, field, m.as_slice());
}

/// Appends a repeated bytes field.
pub fn push_repeated_bytes(buf: &mut Vec<u8>, field: u64, items: &Vec<Vec<u8>>)
    requires
        field < 0x1000_0000,
    ensures
        final(buf)@ == old(buf)@ + repeated_field(
            field as nat,
            items@.map_values(|v: Vec<u8>| v@),
        ),
{
    let ghost all = items@.map_values(|v: Vec<u8>| v@);
    let mut i: usize = 0;
    assert(all.take(0) =~= Seq::<Seq<u8>>::empty());
    assert(buf@ =~= old(buf)@ + repeated_field(field as nat, all.take(0)));
    while i < items.len()
        invariant
            i <= items.len(),
            field < 0x1000_0000,
            all == items@.map_values(|v: Vec<u8>| v@),
            buf@ == old(buf)@ + repeated_field(field as nat, all.take(i as int)),
        decreases items.len() - i,
    {
        let ghost before = buf@;
        push_bytes_field_present(buf, field, items[i].as_slice());
        assert(all.take(i + 1).drop_last() =~= all.take(i as int));
        assert(all.take(i + 1).last() == items@[i as int]@);
        assert(buf@ =~= old(buf)@ + repeated_field(field as nat, all.take(i + 1)));
        i = i + 1;
    }
    assert(all.take(items.len() as int) =~= all);
}

/// Appends a repeated string field.
pub fn push_repeated_strings(buf: &mut Vec<u8>, field: u64, items: &Vec<String>)
    requires
        field < 0x1000_0000,
    ensures
        final(buf)@ == old(buf)@ + repeated_field(
            field as nat,
            items@.map_values(|s: String| encode_utf8(s@)),
        ),
{
    let ghost all = items@.map_values(|s: String| encode_utf8(s@));
    let mut i: usize = 0;
    assert(all.take(0) =~= Seq::<Seq<u8>>::empty());
    assert(buf@ =~= old(buf)@ + repeated_field(field as nat, all.take(0)));
    while i < items.len()
        invariant
            i <= items.len(),
            field < 0x1000_0000,
            all == items@.map_values(|s: String| encode_utf8(s@)),
            buf@ == old(buf)@ + repeated_field(field as nat, all.take(i as int)),
        decreases items.len() - i,
    {
        push_bytes_field_present(buf, field, items[i].as_str().as_bytes());
        assert(all.take(i + 1).drop_last() =~= all.take(i as int));
        assert(all.take(i + 1).last() == encode_utf8(items@[i as int]@));
        assert(buf@ =~= old(buf)@ + repeated_field(field as nat, all.take(i + 1)));
        i = i + 1;
    }
    assert(all.take(items.len() as int) =~= all);
}

} // verus!
