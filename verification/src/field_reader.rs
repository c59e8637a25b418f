//! Reading the wire format back: a byte string as the list of fields it
//! holds, each with its number, wire type and value. The encoding's laws are
//! stated and proved through it.

use vstd::prelude::*;
use vstd::utf8::encode_utf8;
use crate::wire::{
    bytes_field, bytes_field_present, message_field, repeated_field, string_field,
    varint, varint_field, varint_field_present,
};

verus! {

broadcast use vstd::utf8::encode_utf8_decode_utf8;

/// A field as read off the wire: number, wire type (0 for a varint, 2 for a
/// length-delimited value), varint value and length-delimited bytes.
pub type WireEntry = (nat, nat, nat, Seq<u8>);

/// The varint at the front of `s` and what follows it.
pub open spec fn parse_varint(s: Seq<u8>) -> Option<(nat, Seq<u8>)>
    decreases s.len(),
{
    if s.len() == 0 {
        None
    } else if s[0] < 128 {
        Some((s[0] as nat, s.drop_first()))
    } else {
        match parse_varint(s.drop_first()) {
            Some((v, r)) => Some((((s[0] - 128) + 128 * v) as nat, r)),
            None => None,
        }
    }
}

/// The field at the front of `s` and what follows it.
pub open spec fn parse_field(s: Seq<u8>) -> Option<(WireEntry, Seq<u8>)> {
    match parse_varint(s) {
        None => None,
        Some((key, r)) => if key % 8 == 0 {
            match parse_varint(r) {
                Some((v, rest)) => Some(((key / 8, 0nat, v, Seq::empty()), rest)),
                None => None,
            }
        } else if key % 8 == 2 {
            match parse_varint(r) {
                Some((len, rest)) => if len <= rest.len() {
                    Some(((key / 8, 2nat, 0nat, rest.take(len as int)), rest.skip(len as int)))
                } else {
                    None
                },
                None => None,
            }
        } else {
            None
        },
    }
}

/// The fields of `s`, in order, where `s` is a whole number of fields.
pub open spec fn parse_fields(s: Seq<u8>) -> Option<Seq<WireEntry>>
    decreases s.len(),
{
    if s.len() == 0 {
        Some(Seq::empty())
    } else {
        match parse_field(s) {
            Some((e, r)) => if r.len() < s.len() {
                match parse_fields(r) {
                    Some(l) => Some(seq![e] + l),
                    None => None,
                }
            } else {
                None
            },
            None => None,
        }
    }
}

/// A varint read back from its encoding leaves what followed it.
pub proof fn lemma_parse_varint(n: nat, r: Seq<u8>)
    ensures
        parse_varint(varint(n) + r) == Some((n, r)),
    decreases n,
{
    let s = varint(n) + r;
    if n < 128 {
        assert(s.drop_first() =~= r);
    } else {
        let b = (n % 128 + 128) as u8;
        assert(s =~= seq![b] + (varint(n / 128) + r));
        assert(s.drop_first() =~= varint(n / 128) + r);
        lemma_parse_varint(n / 128, r);
    }
}

/// Reading a varint off a longer string reads the same varint.
pub proof fn lemma_parse_varint_extend(s: Seq<u8>, t: Seq<u8>)
    requires
        parse_varint(s) is Some,
    ensures
        parse_varint(s + t) == Some((parse_varint(s).unwrap().0, parse_varint(s).unwrap().1 + t)),
    decreases s.len(),
{
    assert((s + t).drop_first() =~= s.drop_first() + t);
    if s[0] >= 128 {
        lemma_parse_varint_extend(s.drop_first(), t);
    }
}

/// Reading a field off a longer string reads the same field.
pub proof fn lemma_parse_field_extend(s: Seq<u8>, t: Seq<u8>)
    requires
        parse_field(s) is Some,
    ensures
        parse_field(s + t) == Some((parse_field(s).unwrap().0, parse_field(s).unwrap().1 + t)),
{
    let (key, r) = parse_varint(s).unwrap();
    lemma_parse_varint_extend(s, t);
    lemma_parse_varint_extend(r, t);
    let (v, rest) = parse_varint(r).unwrap();
    if key % 8 == 2 {
        assert((rest + t).take(v as int) =~= rest.take(v as int));
        assert((rest + t).skip(v as int) =~= rest.skip(v as int) + t);
    }
}

/// The fields of two strings one after the other are those of the first,
/// then those of the second.
pub proof fn lemma_parse_fields_concat(a: Seq<u8>, b: Seq<u8>)
    requires
        parse_fields(a) is Some,
        parse_fields(b) is Some,
    ensures
        parse_fields(a + b) == Some(parse_fields(a).unwrap() + parse_fields(b).unwrap()),
    decreases a.len(),
{
    if a.len() == 0 {
        assert(a + b =~= b);
        assert(parse_fields(a).unwrap() + parse_fields(b).unwrap() =~= parse_fields(b).unwrap());
    } else {
        let (e, r) = parse_field(a).unwrap();
        lemma_parse_field_extend(a, b);
        lemma_parse_fields_concat(r, b);
        assert(seq![e] + (parse_fields(r).unwrap() + parse_fields(b).unwrap()) =~= (seq![e]
            + parse_fields(r).unwrap()) + parse_fields(b).unwrap());
    }
}

/// The fields of two strings one after the other.
pub broadcast proof fn lemma_parse_fields_add(a: Seq<u8>, b: Seq<u8>)
    requires
        parse_fields(a) is Some,
        parse_fields(b) is Some,
    ensures
        #[trigger] parse_fields(a + b) == Some(parse_fields(a).unwrap() + parse_fields(b).unwrap()),
{
    lemma_parse_fields_concat(a, b);
}

// ----- What each kind of field reads back as -----

/// A varint field with value `v`.
pub open spec fn varint_entry(field: nat, v: nat) -> Seq<WireEntry> {
    seq![(field, 0nat, v, Seq::empty())]
}

/// A length-delimited field holding `b`.
pub open spec fn bytes_entry(field: nat, b: Seq<u8>) -> Seq<WireEntry> {
    seq![(field, 2nat, 0nat, b)]
}

/// What a scalar varint field reads back as: nothing for 0.
pub open spec fn varint_entries(field: nat, v: nat) -> Seq<WireEntry> {
    if v == 0 {
        Seq::empty()
    } else {
        varint_entry(field, v)
    }
}

/// What a scalar bytes field reads back as: nothing when empty.
pub open spec fn bytes_entries(field: nat, b: Seq<u8>) -> Seq<WireEntry> {
    if b.len() == 0 {
        Seq::empty()
    } else {
        bytes_entry(field, b)
    }
}

/// What a string field reads back as.
pub open spec fn string_entries(field: nat, s: Seq<char>) -> Seq<WireEntry> {
    bytes_entries(field, encode_utf8(s))
}

/// What an optional embedded message reads back as.
pub open spec fn message_entries(field: nat, m: Option<Seq<u8>>) -> Seq<WireEntry> {
    match m {
        Some(b) => bytes_entry(field, b),
        None => Seq::empty(),
    }
}

/// What a repeated length-delimited field reads back as.
pub open spec fn repeated_entries(field: nat, items: Seq<Seq<u8>>) -> Seq<WireEntry>
    decreases items.len(),
{
    if items.len() == 0 {
        Seq::empty()
    } else {
        repeated_entries(field, items.drop_last()) + bytes_entry(field, items.last())
    }
}

pub broadcast proof fn lemma_varint_field_present_reads(field: nat, v: nat)
    ensures
        #[trigger] parse_fields(varint_field_present(field, v)) == Some(varint_entry(field, v)),
{
    let s = varint_field_present(field, v);
    lemma_parse_varint(field * 8, varint(v));
    assert(varint(v) =~= varint(v) + Seq::<u8>::empty());
    lemma_parse_varint(v, Seq::empty());
    assert(parse_field(s) == Some(((field, 0nat, v, Seq::<u8>::empty()), Seq::<u8>::empty())));
    assert(parse_fields(Seq::<u8>::empty()) == Some(Seq::<WireEntry>::empty()));
    assert(s.len() > 0);
    assert(seq![(field, 0nat, v, Seq::<u8>::empty())] + Seq::<WireEntry>::empty() =~= varint_entry(
        field,
        v,
    ));
}

pub broadcast proof fn lemma_bytes_field_present_reads(field: nat, b: Seq<u8>)
    ensures
        #[trigger] parse_fields(bytes_field_present(field, b)) == Some(bytes_entry(field, b)),
{
    let s = bytes_field_present(field, b);
    assert(s =~= varint(field * 8 + 2) + (varint(b.len()) + b));
    lemma_parse_varint(field * 8 + 2, varint(b.len()) + b);
    lemma_parse_varint(b.len(), b);
    assert(b.take(b.len() as int) =~= b);
    assert(b.skip(b.len() as int) =~= Seq::<u8>::empty());
    assert(parse_field(s) == Some(((field, 2nat, 0nat, b), Seq::<u8>::empty())));
    assert(parse_fields(Seq::<u8>::empty()) == Some(Seq::<WireEntry>::empty()));
    assert(s.len() > 0);
    assert(seq![(field, 2nat, 0nat, b)] + Seq::<WireEntry>::empty() =~= bytes_entry(field, b));
}

pub broadcast proof fn lemma_varint_field_reads(field: nat, v: nat)
    ensures
        #[trigger] parse_fields(varint_field(field, v)) == Some(varint_entries(field, v)),
{
    lemma_varint_field_present_reads(field, v);
}

pub broadcast proof fn lemma_bytes_field_reads(field: nat, b: Seq<u8>)
    ensures
        #[trigger] parse_fields(bytes_field(field, b)) == Some(bytes_entries(field, b)),
{
    lemma_bytes_field_present_reads(field, b);
}

pub broadcast proof fn lemma_string_field_reads(field: nat, s: Seq<char>)
    ensures
        #[trigger] parse_fields(string_field(field, s)) == Some(string_entries(field, s)),
{
    lemma_bytes_field_present_reads(field, encode_utf8(s));
}

pub broadcast proof fn lemma_message_field_reads(field: nat, m: Option<Seq<u8>>)
    ensures
        #[trigger] parse_fields(message_field(field, m)) == Some(message_entries(field, m)),
{
    if let Some(b) = m {
        lemma_bytes_field_present_reads(field, b);
    }
}

pub broadcast proof fn lemma_repeated_field_reads(field: nat, items: Seq<Seq<u8>>)
    ensures
        #[trigger] parse_fields(repeated_field(field, items)) == Some(repeated_entries(field, items)),
    decreases items.len(),
{
    if items.len() > 0 {
        lemma_repeated_field_reads(field, items.drop_last());
        lemma_bytes_field_present_reads(field, items.last());
        lemma_parse_fields_concat(
            repeated_field(field, items.drop_last()),
            bytes_field_present(field, items.last()),
        );
    }
}

// ----- Where the fields of a list lie -----

/// Whether every field of `l` is numbered from `lo` to `hi`.
#[verifier::opaque]
pub open spec fn fields_in(l: Seq<WireEntry>, lo: nat, hi: nat) -> bool {
    forall|i: int| 0 <= i < l.len() ==> lo <= (#[trigger] l[i]).0 <= hi
}

/// Whether every field of `l` is numbered above `h`.
#[verifier::opaque]
pub open spec fn fields_above(l: Seq<WireEntry>, h: nat) -> bool {
    forall|i: int| 0 <= i < l.len() ==> (#[trigger] l[i]).0 > h
}

pub broadcast proof fn lemma_fields_in_add(a: Seq<WireEntry>, b: Seq<WireEntry>, lo: nat, hi: nat)
    ensures
        #[trigger] fields_in(a + b, lo, hi) == (fields_in(a, lo, hi) && fields_in(b, lo, hi)),
{
    reveal(fields_in);
    if fields_in(a + b, lo, hi) {
        assert forall|i: int| 0 <= i < b.len() implies lo <= (#[trigger] b[i]).0 <= hi by {
            assert((a + b)[a.len() + i] == b[i]);
        }
        assert forall|i: int| 0 <= i < a.len() implies lo <= (#[trigger] a[i]).0 <= hi by {
            assert((a + b)[i] == a[i]);
        }
    }
}

pub broadcast proof fn lemma_fields_above_add(a: Seq<WireEntry>, b: Seq<WireEntry>, h: nat)
    ensures
        #[trigger] fields_above(a + b, h) == (fields_above(a, h) && fields_above(b, h)),
{
    reveal(fields_above);
    if fields_above(a + b, h) {
        assert forall|i: int| 0 <= i < b.len() implies (#[trigger] b[i]).0 > h by {
            assert((a + b)[a.len() + i] == b[i]);
        }
        assert forall|i: int| 0 <= i < a.len() implies (#[trigger] a[i]).0 > h by {
            assert((a + b)[i] == a[i]);
        }
    }
}

pub broadcast proof fn lemma_repeated_entries_fields(
    field: nat,
    items: Seq<Seq<u8>>,
    lo: nat,
    hi: nat,
)
    requires
        lo <= field <= hi,
    ensures
        #[trigger] fields_in(repeated_entries(field, items), lo, hi),
    decreases items.len(),
{
    if items.len() == 0 {
        reveal(fields_in);
    } else {
        lemma_repeated_entries_fields(field, items.drop_last(), lo, hi);
        lemma_bytes_entry_in(field, items.last(), lo, hi);
        lemma_fields_in_add(
            repeated_entries(field, items.drop_last()),
            bytes_entry(field, items.last()),
            lo,
            hi,
        );
    }
}

pub broadcast proof fn lemma_repeated_entries_above(field: nat, items: Seq<Seq<u8>>, h: nat)
    requires
        field > h,
    ensures
        #[trigger] fields_above(repeated_entries(field, items), h),
{
    lemma_repeated_entries_fields(field, items, field, field);
    reveal(fields_in);
    reveal(fields_above);
}

pub broadcast proof fn lemma_varint_entries_in(field: nat, v: nat, lo: nat, hi: nat)
    requires
        lo <= field <= hi,
    ensures
        #[trigger] fields_in(varint_entries(field, v), lo, hi),
{
    reveal(fields_in);
}

pub broadcast proof fn lemma_varint_entries_above(field: nat, v: nat, h: nat)
    requires
        field > h,
    ensures
        #[trigger] fields_above(varint_entries(field, v), h),
{
    reveal(fields_above);
}

pub broadcast proof fn lemma_varint_entry_in(field: nat, v: nat, lo: nat, hi: nat)
    requires
        lo <= field <= hi,
    ensures
        #[trigger] fields_in(varint_entry(field, v), lo, hi),
{
    reveal(fields_in);
}

pub broadcast proof fn lemma_varint_entry_above(field: nat, v: nat, h: nat)
    requires
        field > h,
    ensures
        #[trigger] fields_above(varint_entry(field, v), h),
{
    reveal(fields_above);
}

pub broadcast proof fn lemma_bytes_entries_in(field: nat, b: Seq<u8>, lo: nat, hi: nat)
    requires
        lo <= field <= hi,
    ensures
        #[trigger] fields_in(bytes_entries(field, b), lo, hi),
{
    reveal(fields_in);
}

pub broadcast proof fn lemma_bytes_entries_above(field: nat, b: Seq<u8>, h: nat)
    requires
        field > h,
    ensures
        #[trigger] fields_above(bytes_entries(field, b), h),
{
    reveal(fields_above);
}

pub broadcast proof fn lemma_bytes_entry_in(field: nat, b: Seq<u8>, lo: nat, hi: nat)
    requires
        lo <= field <= hi,
    ensures
        #[trigger] fields_in(bytes_entry(field, b), lo, hi),
{
    reveal(fields_in);
}

pub broadcast proof fn lemma_bytes_entry_above(field: nat, b: Seq<u8>, h: nat)
    requires
        field > h,
    ensures
        #[trigger] fields_above(bytes_entry(field, b), h),
{
    reveal(fields_above);
}

pub broadcast proof fn lemma_string_entries_in(field: nat, s: Seq<char>, lo: nat, hi: nat)
    requires
        lo <= field <= hi,
    ensures
        #[trigger] fields_in(string_entries(field, s), lo, hi),
{
    reveal(fields_in);
}

pub broadcast proof fn lemma_string_entries_above(field: nat, s: Seq<char>, h: nat)
    requires
        field > h,
    ensures
        #[trigger] fields_above(string_entries(field, s), h),
{
    reveal(fields_above);
}

pub broadcast proof fn lemma_message_entries_in(field: nat, m: Option<Seq<u8>>, lo: nat, hi: nat)
    requires
        lo <= field <= hi,
    ensures
        #[trigger] fields_in(message_entries(field, m), lo, hi),
{
    reveal(fields_in);
}

pub broadcast proof fn lemma_message_entries_above(field: nat, m: Option<Seq<u8>>, h: nat)
    requires
        field > h,
    ensures
        #[trigger] fields_above(message_entries(field, m), h),
{
    reveal(fields_above);
}

pub broadcast proof fn lemma_empty_fields(lo: nat, hi: nat)
    ensures
        #[trigger] fields_in(Seq::<WireEntry>::empty(), lo, hi),
{
    reveal(fields_in);
}

pub broadcast proof fn lemma_empty_above(h: nat)
    ensures
        #[trigger] fields_above(Seq::<WireEntry>::empty(), h),
{
    reveal(fields_above);
}

/// Appending six lists one at a time.
pub proof fn lemma_entries_append6(
    h: Seq<WireEntry>,
    t1: Seq<WireEntry>,
    t2: Seq<WireEntry>,
    t3: Seq<WireEntry>,
    t4: Seq<WireEntry>,
    t5: Seq<WireEntry>,
    t6: Seq<WireEntry>,
)
    ensures
        h + (t1 + t2 + t3 + t4 + t5 + t6) == h + t1 + t2 + t3 + t4 + t5 + t6,
{
    assert(h + (t1 + t2 + t3 + t4 + t5 + t6) =~= h + t1 + t2 + t3 + t4 + t5 + t6);
}

/// Two texts with the same UTF-8 bytes are the same text.
pub proof fn lemma_utf8_injective(a: Seq<char>, b: Seq<char>)
    requires
        encode_utf8(a) == encode_utf8(b),
    ensures
        a == b,
{
    assert(vstd::utf8::decode_utf8(encode_utf8(a)) == a);
    assert(vstd::utf8::decode_utf8(encode_utf8(b)) == b);
}

/// Regrouping a concatenation of three lists.
pub proof fn lemma_entries_assoc(x: Seq<WireEntry>, y: Seq<WireEntry>, z: Seq<WireEntry>)
    ensures
        (x + y) + z == x + (y + z),
{
    assert((x + y) + z =~= x + (y + z));
}

/// Two lists that are each a part with fields from `lo` to `hi` followed by
/// fields above `hi`, and that are equal, have equal parts and equal rests.
pub proof fn lemma_split_entries(
    p1: Seq<WireEntry>,
    r1: Seq<WireEntry>,
    p2: Seq<WireEntry>,
    r2: Seq<WireEntry>,
    lo: nat,
    hi: nat,
)
    requires
        p1 + r1 == p2 + r2,
        fields_in(p1, lo, hi),
        fields_in(p2, lo, hi),
        fields_above(r1, hi),
        fields_above(r2, hi),
    ensures
        p1 == p2,
        r1 == r2,
{
    reveal(fields_in);
    reveal(fields_above);
    let n1 = p1.len() as int;
    let n2 = p2.len() as int;
    if n1 < n2 {
        assert((p1 + r1)[n1] == r1[0]);
        assert((p2 + r2)[n1] == p2[n1]);
    } else if n2 < n1 {
        assert((p2 + r2)[n2] == r2[0]);
        assert((p1 + r1)[n2] == p1[n2]);
    } else {
        assert((p1 + r1).len() == p1.len() + r1.len());
        assert((p2 + r2).len() == p2.len() + r2.len());
        assert(r1.len() == r2.len());
        assert forall|i: int| 0 <= i < n1 implies p1[i] == p2[i] by {
            assert((p1 + r1)[i] == p1[i]);
            assert((p2 + r2)[i] == p2[i]);
        }
        assert(p1 =~= p2);
        assert forall|i: int| 0 <= i < r1.len() implies r1[i] == r2[i] by {
            assert((p1 + r1)[n1 + i] == r1[i]);
            assert((p2 + r2)[n1 + i] == r2[i]);
        }
        assert(r1 =~= r2);
    }
}

pub broadcast group group_field_reading {
    lemma_parse_fields_add,
    lemma_varint_field_present_reads,
    lemma_bytes_field_present_reads,
    lemma_varint_field_reads,
    lemma_bytes_field_reads,
    lemma_string_field_reads,
    lemma_message_field_reads,
    lemma_repeated_field_reads,
}

pub broadcast group group_field_ranges {
    lemma_varint_entries_in,
    lemma_varint_entries_above,
    lemma_varint_entry_in,
    lemma_varint_entry_above,
    lemma_bytes_entries_in,
    lemma_bytes_entries_above,
    lemma_bytes_entry_in,
    lemma_bytes_entry_above,
    lemma_string_entries_in,
    lemma_string_entries_above,
    lemma_message_entries_in,
    lemma_message_entries_above,
    lemma_empty_fields,
    lemma_empty_above,
    lemma_fields_in_add,
    lemma_fields_above_add,
    lemma_repeated_entries_fields,
    lemma_repeated_entries_above,
}

// ----- Reading a field's value back -----

pub proof fn lemma_varint_entries_injective(field: nat, a: nat, b: nat)
    requires
        varint_entries(field, a) == varint_entries(field, b),
    ensures
        a == b,
{
    if a != 0 && b != 0 {
        assert(varint_entries(field, a)[0] == varint_entries(field, b)[0]);
    } else if a != 0 {
        assert(varint_entries(field, a).len() == 1);
        assert(varint_entries(field, b).len() == 0);
    } else if b != 0 {
        assert(varint_entries(field, b).len() == 1);
        assert(varint_entries(field, a).len() == 0);
    }
}

pub proof fn lemma_bytes_entries_injective(field: nat, a: Seq<u8>, b: Seq<u8>)
    requires
        bytes_entries(field, a) == bytes_entries(field, b),
    ensures
        a == b,
{
    if a.len() != 0 && b.len() != 0 {
        assert(bytes_entries(field, a)[0] == bytes_entries(field, b)[0]);
    } else if a.len() != 0 {
        assert(bytes_entries(field, a).len() == 1);
        assert(bytes_entries(field, b).len() == 0);
    } else if b.len() != 0 {
        assert(bytes_entries(field, b).len() == 1);
        assert(bytes_entries(field, a).len() == 0);
    } else {
        assert(a =~= b);
    }
}

pub proof fn lemma_string_entries_injective(field: nat, a: Seq<char>, b: Seq<char>)
    requires
        string_entries(field, a) == string_entries(field, b),
    ensures
        a == b,
{
    lemma_bytes_entries_injective(field, encode_utf8(a), encode_utf8(b));
    assert(vstd::utf8::decode_utf8(encode_utf8(a)) == a);
    assert(vstd::utf8::decode_utf8(encode_utf8(b)) == b);
}

pub proof fn lemma_embedded_entries_injective(field: nat, a: Option<Seq<u8>>, b: Option<Seq<u8>>)
    requires
        message_entries(field, a) == message_entries(field, b),
    ensures
        a == b,
{
    if a is Some && b is Some {
        assert(message_entries(field, a)[0] == message_entries(field, b)[0]);
    } else if a is Some {
        assert(message_entries(field, a).len() == 1);
        assert(message_entries(field, b).len() == 0);
    } else if b is Some {
        assert(message_entries(field, b).len() == 1);
        assert(message_entries(field, a).len() == 0);
    }
}

pub proof fn lemma_varint_entry_injective(field: nat, a: nat, b: nat)
    requires
        varint_entry(field, a) == varint_entry(field, b),
    ensures
        a == b,
{
    assert(varint_entry(field, a)[0] == varint_entry(field, b)[0]);
}

pub proof fn lemma_entry_injective(field: nat, a: Seq<u8>, b: Seq<u8>)
    requires
        bytes_entry(field, a) == bytes_entry(field, b),
    ensures
        a == b,
{
    assert(bytes_entry(field, a)[0] == bytes_entry(field, b)[0]);
}

pub proof fn lemma_repeated_entries_injective(field: nat, a: Seq<Seq<u8>>, b: Seq<Seq<u8>>)
    requires
        repeated_entries(field, a) == repeated_entries(field, b),
    ensures
        a == b,
    decreases a.len(),
{
    lemma_repeated_entries_len(field, a);
    lemma_repeated_entries_len(field, b);
    if a.len() > 0 {
        let ra = repeated_entries(field, a.drop_last());
        let rb = repeated_entries(field, b.drop_last());
        let la = ra + bytes_entry(field, a.last());
        let lb = rb + bytes_entry(field, b.last());
        assert(la.drop_last() =~= ra);
        assert(lb.drop_last() =~= rb);
        assert(la.last() == (field, 2nat, 0nat, a.last()));
        assert(lb.last() == (field, 2nat, 0nat, b.last()));
        lemma_repeated_entries_injective(field, a.drop_last(), b.drop_last());
        assert(a =~= a.drop_last().push(a.last()));
        assert(b =~= b.drop_last().push(b.last()));
    } else {
        assert(a =~= b);
    }
}

pub proof fn lemma_repeated_entries_len(field: nat, items: Seq<Seq<u8>>)
    ensures
        repeated_entries(field, items).len() == items.len(),
    decreases items.len(),
{
    if items.len() > 0 {
        lemma_repeated_entries_len(field, items.drop_last());
    }
}

} // verus!
