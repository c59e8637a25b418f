//! Hexadecimal text for byte strings, through the `hex` crate.

use vstd::prelude::*;
use vstd::utf8::encode_utf8;

verus! {

/// The value of one hexadecimal digit byte, either case.
pub open spec fn hex_digit_value(c: u8) -> Option<u8> {
    if 65 <= c <= 70 {
        Some((c - 55) as u8)
    } else if 97 <= c <= 102 {
        Some((c - 87) as u8)
    } else if 48 <= c <= 57 {
        Some((c - 48) as u8)
    } else {
        None
    }
}

/// The bytes that the hexadecimal text `b` spells: two digits per byte,
/// high half first; `None` for an odd length or a byte that is no digit.
pub open spec fn hex_decode_spec(b: Seq<u8>) -> Option<Seq<u8>> {
    if b.len() % 2 != 0 {
        None
    } else if exists|i: int| 0 <= i < b.len() && #[trigger] hex_digit_value(b[i]) is None {
        None
    } else {
        Some(
            Seq::new(
                b.len() / 2,
                |i: int|
                    (hex_digit_value(b[2 * i]).unwrap() * 16 + hex_digit_value(
                        b[2 * i + 1],
                    ).unwrap()) as u8,
            ),
        )
    }
}

/// The lowercase hexadecimal digit for `v < 16`.
pub open spec fn lower_hex_char(v: nat) -> char {
    if v < 10 {
        ((v + 48) as u8) as char
    } else {
        ((v + 87) as u8) as char
    }
}

/// The lowercase hexadecimal text of `b`: two digits per byte, high half first.
pub open spec fn hex_encode_spec(b: Seq<u8>) -> Seq<char> {
    Seq::new(
        2 * b.len(),
        |i: int|
            if i % 2 == 0 {
                lower_hex_char((b[i / 2] / 16) as nat)
            } else {
                lower_hex_char((b[i / 2] % 16) as nat)
            },
    )
}

pub open spec fn option_bytes(r: Option<Vec<u8>>) -> Option<Seq<u8>> {
    match r {
        Some(v) => Some(v@),
        None => None,
    }
}

/// Trusted: `hex::decode` reads two hexadecimal digits (either case) per
/// byte and fails on an odd length or on any other character; its error
/// kind is dropped here.
#[verifier::external_body]
pub(crate) fn hex_decode(s: &str) -> (r: Option<Vec<u8>>)
    ensures
        option_bytes(r) == hex_decode_spec(encode_utf8(s@)),
{
    ::hex::decode(s).ok()
}

/// Trusted: `hex::encode` writes each byte as two lowercase hexadecimal
/// digits, high half first.
#[verifier::external_body]
pub(crate) fn hex_encode(b: &[u8]) -> (s: String)
    ensures
        s@ == hex_encode_spec(b@),
{
    ::hex::encode(b)
}

proof fn lemma_hex_chars_ascii(b: Seq<u8>)
    ensures
        vstd::utf8::is_ascii_chars(hex_encode_spec(b)),
        forall|i: int|
            0 <= i < hex_encode_spec(b).len() ==> #[trigger] hex_encode_spec(b)[i] as u8 == (if i
                % 2 == 0 {
                if b[i / 2] / 16 < 10 {
                    b[i / 2] / 16 + 48
                } else {
                    b[i / 2] / 16 + 87
                }
            } else {
                if b[i / 2] % 16 < 10 {
                    b[i / 2] % 16 + 48
                } else {
                    b[i / 2] % 16 + 87
                }
            }),
{
    let h = hex_encode_spec(b);
    assert forall|i: int| 0 <= i < h.len() implies '\0' <= #[trigger] h[i] <= '\u{7f}' by {
        let v = if i % 2 == 0 { (b[i / 2] / 16) as nat } else { (b[i / 2] % 16) as nat };
        assert(v < 16);
        if v < 10 {
            assert(((v + 48) as u8) as char as u8 == (v + 48) as u8);
        } else {
            assert(((v + 87) as u8) as char as u8 == (v + 87) as u8);
        }
    }
    assert forall|i: int| 0 <= i < h.len() implies #[trigger] h[i] as u8 == (if i % 2 == 0 {
        if b[i / 2] / 16 < 10 {
            b[i / 2] / 16 + 48
        } else {
            b[i / 2] / 16 + 87
        }
    } else {
        if b[i / 2] % 16 < 10 {
            b[i / 2] % 16 + 48
        } else {
            b[i / 2] % 16 + 87
        }
    }) by {
        let v = if i % 2 == 0 { (b[i / 2] / 16) as nat } else { (b[i / 2] % 16) as nat };
        if v < 10 {
            assert(((v + 48) as u8) as char as u8 == (v + 48) as u8);
        } else {
            assert(((v + 87) as u8) as char as u8 == (v + 87) as u8);
        }
    }
}

/// Decoding the hexadecimal text written for a byte string gives back that
/// byte string.
pub proof fn lemma_hex_roundtrip(b: Seq<u8>)
    ensures
        hex_decode_spec(encode_utf8(hex_encode_spec(b))) == Some(b),
{
    let h = hex_encode_spec(b);
    lemma_hex_chars_ascii(b);
    vstd::utf8::is_ascii_chars_encode_utf8(h);
    let e = encode_utf8(h);
    assert(e.len() == 2 * b.len());
    assert forall|i: int| 0 <= i < e.len() implies #[trigger] hex_digit_value(e[i]) is Some by {
        assert(e[i] == h[i] as u8);
    }
    let d = hex_decode_spec(e).unwrap();
    assert forall|j: int| 0 <= j < b.len() implies d[j] == b[j] by {
        assert(e[2 * j] == h[2 * j] as u8);
        assert(e[2 * j + 1] == h[2 * j + 1] as u8);
        assert((2 * j) / 2 == j);
        assert((2 * j + 1) / 2 == j);
        assert((2 * j) % 2 == 0);
        assert((2 * j + 1) % 2 == 1);
        assert((b[j] / 16) * 16 + b[j] % 16 == b[j]);
    }
    assert(d =~= b);
}

} // verus!
