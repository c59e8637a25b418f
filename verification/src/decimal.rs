//! Decimal text for unsigned integers: the amounts and heights that travel as
//! strings.

use vstd::prelude::*;
use vstd::string::StringExecFns;
use vstd::utf8::encode_utf8;

verus! {

/// The ASCII digit for `d`.
pub open spec fn digit_char(d: nat) -> char
    recommends
        d < 10,
{
    ((d + 48) as u8) as char
}

/// The decimal representation of `n`, without leading zeros.
pub open spec fn decimal_digits(n: nat) -> Seq<char>
    decreases n,
{
    if n < 10 {
        seq![digit_char(n)]
    } else {
        decimal_digits(n / 10) + seq![digit_char(n % 10)]
    }
}

fn digit_str(d: u64) -> (s: &'static str)
    requires
        d < 10,
    ensures
        s@ == seq![digit_char(d as nat)],
{
    if d == 0 {
        proof { reveal_strlit("0"); }
        "0"
    } else if d == 1 {
        proof { reveal_strlit("1"); }
        "1"
    } else if d == 2 {
        proof { reveal_strlit("2"); }
        "2"
    } else if d == 3 {
        proof { reveal_strlit("3"); }
        "3"
    } else if d == 4 {
        proof { reveal_strlit("4"); }
        "4"
    } else if d == 5 {
        proof { reveal_strlit("5"); }
        "5"
    } else if d == 6 {
        proof { reveal_strlit("6"); }
        "6"
    } else if d == 7 {
        proof { reveal_strlit("7"); }
        "7"
    } else if d == 8 {
        proof { reveal_strlit("8"); }
        "8"
    } else {
        proof { reveal_strlit("9"); }
        "9"
    }
}

/// Writes `n` in decimal.
pub fn u64_to_decimal(n: u64) -> (s: String)
    ensures
        s@ == decimal_digits(n as nat),
{
    let mut rest = n / 10;
    let mut out = String::from_str(digit_str(n % 10));
    assert(out@ == seq![digit_char((n % 10) as nat)]);
    while rest > 0
        invariant
            decimal_digits(n as nat) == decimal_digits(rest as nat) + out@ || rest == 0,
            rest == 0 ==> out@ == decimal_digits(n as nat),
            rest > 0 ==> decimal_digits(n as nat) == decimal_digits(rest as nat) + out@,
        decreases rest,
    {
        let d = rest % 10;
        let head = String::from_str(digit_str(d));
        let ghost old_out = out@;
        out = head.concat(out.as_str());
        assert(out@ == seq![digit_char(d as nat)] + old_out);
        if rest >= 10 {
            assert(decimal_digits(rest as nat) == decimal_digits((rest / 10) as nat) + seq![
                digit_char((rest % 10) as nat),
            ]);
            assert(decimal_digits(n as nat) =~= decimal_digits((rest / 10) as nat) + out@);
        } else {
            assert(decimal_digits(rest as nat) == seq![digit_char(rest as nat)]);
            assert(decimal_digits(n as nat) =~= out@);
        }
        rest = rest / 10;
    }
    out
}

} // verus!

verus! {

/// Whether every byte of `b` is an ASCII digit.
pub open spec fn all_digits(b: Seq<u8>) -> bool {
    forall|i: int| 0 <= i < b.len() ==> 48 <= #[trigger] b[i] <= 57
}

/// The number that the ASCII digits `b` denote.
pub open spec fn digits_value(b: Seq<u8>) -> nat
    decreases b.len(),
{
    if b.len() == 0 {
        0
    } else {
        digits_value(b.drop_last()) * 10 + (b.last() - 48) as nat
    }
}

/// The digits of a decimal text: the text without one leading `+`.
pub open spec fn unsigned_digits(b: Seq<u8>) -> Seq<u8> {
    if b.len() > 0 && b[0] == 43 {
        b.drop_first()
    } else {
        b
    }
}

/// The `u64` that the decimal text `b` denotes: an optional `+` and at least
/// one ASCII digit, with a value that fits in 64 bits.
pub open spec fn parse_u64_spec(b: Seq<u8>) -> Option<u64> {
    let d = unsigned_digits(b);
    if d.len() == 0 || !all_digits(d) || digits_value(d) > u64::MAX {
        None
    } else {
        Some(digits_value(d) as u64)
    }
}

proof fn lemma_digits_value_prefix(b: Seq<u8>, k: int)
    requires
        0 <= k <= b.len(),
        all_digits(b),
    ensures
        digits_value(b.take(k)) <= digits_value(b),
    decreases b.len(),
{
    if k < b.len() {
        lemma_digits_value_prefix(b.drop_last(), k);
        assert(b.drop_last().take(k) =~= b.take(k));
        assert(all_digits(b.drop_last()));
    } else {
        assert(b.take(k) =~= b);
    }
}

/// Reads a decimal `u64` from a text.
pub fn parse_u64(s: &str) -> (r: Option<u64>)
    ensures
        r == parse_u64_spec(encode_utf8(s@)),
{
    parse_u64_bytes(s.as_bytes())
}

/// Reads a decimal `u64` from the bytes of a text.
pub fn parse_u64_bytes(b: &[u8]) -> (r: Option<u64>)
    ensures
        r == parse_u64_spec(b@),
{
    let ghost full = b@;
    let start: usize = if b.len() > 0 && b[0] == 43 { 1 } else { 0 };
    let ghost d = unsigned_digits(full);
    assert(d =~= full.subrange(start as int, full.len() as int));
    if start == b.len() {
        return None;
    }
    let mut value: u64 = 0;
    let mut i: usize = start;
    while i < b.len()
        invariant
            b@ == full,
            start <= i <= b.len(),
            d == full.subrange(start as int, full.len() as int),
            d == unsigned_digits(full),
            all_digits(d.take(i - start)),
            value == digits_value(d.take(i - start)),
        decreases b.len() - i,
    {
        let c = b[i];
        let ghost k = (i - start) as int;
        assert(d.take(k + 1).drop_last() =~= d.take(k));
        assert(d.take(k + 1).last() == c);
        assert(d[k] == c);
        if c < 48 || c > 57 {
            assert(!all_digits(d));
            return None;
        }
        assert(all_digits(d.take(k + 1)));
        assert(digits_value(d.take(k + 1)) == value * 10 + (c - 48) as nat);
        match value.checked_mul(10) {
            Some(v10) => match v10.checked_add((c - 48) as u64) {
                Some(v) => {
                    value = v;
                },
                None => {
                    proof {
                        if all_digits(d) {
                            lemma_digits_value_prefix(d, k + 1);
                        }
                    }
                    return None;
                },
            },
            None => {
                proof {
                    if all_digits(d) {
                        lemma_digits_value_prefix(d, k + 1);
                    }
                }
                return None;
            },
        }
        i = i + 1;
    }
    assert(d.take(d.len() as int) =~= d);
    Some(value)
}

} // verus!

verus! {

/// The ASCII bytes of the decimal representation of `n`.
pub open spec fn decimal_bytes(n: nat) -> Seq<u8>
    decreases n,
{
    if n < 10 {
        seq![(n + 48) as u8]
    } else {
        decimal_bytes(n / 10) + seq![(n % 10 + 48) as u8]
    }
}

proof fn lemma_decimal_digits_ascii(n: nat)
    ensures
        vstd::utf8::is_ascii_chars(decimal_digits(n)),
        decimal_digits(n).len() == decimal_bytes(n).len(),
        forall|i: int|
            0 <= i < decimal_digits(n).len() ==> #[trigger] decimal_digits(n)[i] as u8
                == decimal_bytes(n)[i],
    decreases n,
{
    if n >= 10 {
        lemma_decimal_digits_ascii(n / 10);
        let a = decimal_digits(n / 10);
        let d = (n % 10) as nat;
        assert(decimal_digits(n) == a + seq![digit_char(d)]);
        assert(((d + 48) as u8) as char as u8 == (d + 48) as u8);
    } else {
        assert(((n + 48) as u8) as char as u8 == (n + 48) as u8);
    }
}

proof fn lemma_decimal_bytes_value(n: nat)
    ensures
        decimal_bytes(n).len() > 0,
        all_digits(decimal_bytes(n)),
        digits_value(decimal_bytes(n)) == n,
    decreases n,
{
    if n >= 10 {
        lemma_decimal_bytes_value(n / 10);
        let b = decimal_bytes(n);
        assert(b.drop_last() =~= decimal_bytes(n / 10));
        assert(all_digits(b));
        assert(b.last() == (n % 10 + 48) as u8);
        assert((n / 10) * 10 + n % 10 == n) by (nonlinear_arith);
        assert(digits_value(b) == digits_value(b.drop_last()) * 10 + (b.last() - 48) as nat);
    } else {
        let b = decimal_bytes(n);
        assert(b.drop_last() =~= Seq::<u8>::empty());
        assert(digits_value(b) == digits_value(b.drop_last()) * 10 + (b.last() - 48) as nat);
    }
}

/// Reading back the decimal text written for a `u64` gives that `u64`.
pub proof fn lemma_parse_of_decimal(n: u64)
    ensures
        parse_u64_spec(encode_utf8(decimal_digits(n as nat))) == Some(n),
{
    let chars = decimal_digits(n as nat);
    lemma_decimal_digits_ascii(n as nat);
    vstd::utf8::is_ascii_chars_encode_utf8(chars);
    assert(encode_utf8(chars) =~= decimal_bytes(n as nat));
    lemma_decimal_bytes_value(n as nat);
    let b = decimal_bytes(n as nat);
    assert(48 <= b[0] <= 57);
    assert(unsigned_digits(b) == b);
}

} // verus!
