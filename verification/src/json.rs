//! JSON through `serde_json`: the ICS-20 packet data of IBC transfers, and
//! JSON strings.

use vstd::prelude::*;

verus! {

/// What reading `data` as JSON and looking up `key` gives: `None` where
/// `data` is not JSON; `Some(None)` where the member is missing or is not a
/// string; `Some(Some(s))` where the member is the string `s`.
pub uninterp spec fn json_string_member(data: Seq<u8>, key: Seq<char>) -> Option<Option<Seq<char>>>;

/// What reading `data` as JSON and following the JSON pointer `pointer`
/// gives: `None` where `data` is not JSON; `Some(None)` where nothing is at
/// the pointer or it is not a string; `Some(Some(s))` where the string `s`
/// is.
pub uninterp spec fn json_pointer_string(data: Seq<u8>, pointer: Seq<char>) -> Option<Option<Seq<char>>>;

/// The bytes of the JSON object whose members are the given string pairs.
pub uninterp spec fn json_string_object(entries: Seq<(Seq<char>, Seq<char>)>) -> Seq<u8>;

/// The JSON string that `serde_json` writes for a text: the text in double
/// quotes, with quotes, backslashes and control characters escaped.
pub uninterp spec fn json_quoted(s: Seq<char>) -> Seq<u8>;

pub open spec fn optional_string(s: Option<String>) -> Option<Seq<char>> {
    match s {
        Some(x) => Some(x@),
        None => None,
    }
}

pub open spec fn string_pairs(entries: Seq<(String, String)>) -> Seq<(Seq<char>, Seq<char>)> {
    entries.map_values(|e: (String, String)| (e.0@, e.1@))
}

/// Trusted: `serde_json::from_slice` parses `data` into a `serde_json::Value`;
/// indexing it by `key` and `as_str` give the member as a string where there
/// is one. What the parse accepts is left to the name `json_string_member`.
#[verifier::external_body]
pub(crate) fn json_member_str(data: &[u8], key: &str) -> (r: Option<Option<String>>)
    ensures
        match (r, json_string_member(data@, key@)) {
            (None, None) => true,
            (Some(m), Some(n)) => optional_string(m) == n,
            _ => false,
        },
{
    serde_json::from_slice::<serde_json::Value>(data).ok().map(|v| v[key].as_str().map(|s| s.to_string()))
}

/// Trusted: `serde_json::from_slice` parses `data` into a `serde_json::Value`;
/// `Value::pointer` follows `pointer` and `as_str` gives what is there as a
/// string where it is one. What the parse accepts is left to the name
/// `json_pointer_string`.
#[verifier::external_body]
pub(crate) fn json_pointer_str(data: &[u8], pointer: &str) -> (r: Option<Option<String>>)
    ensures
        match (r, json_pointer_string(data@, pointer@)) {
            (None, None) => true,
            (Some(m), Some(n)) => optional_string(m) == n,
            _ => false,
        },
{
    serde_json::from_slice::<serde_json::Value>(data).ok().map(
        |v| v.pointer(pointer).and_then(|x| x.as_str()).map(|s| s.to_string()),
    )
}

/// Trusted: `serde_json::to_vec` writes a text as a JSON string, which
/// cannot fail; the bytes are what the name `json_quoted` stands for.
#[verifier::external_body]
pub(crate) fn json_quote(s: &str) -> (r: Vec<u8>)
    ensures
        r@ == json_quoted(s@),
{
    match serde_json::to_vec(s) {
        Ok(v) => v,
        Err(_) => Vec::new(),
    }
}

/// Whether no two of the pairs share a key.
pub open spec fn distinct_keys(entries: Seq<(Seq<char>, Seq<char>)>) -> bool {
    forall|i: int, j: int|
        0 <= i < entries.len() && 0 <= j < entries.len() && i != j ==> #[trigger] entries[i].0
            != #[trigger] entries[j].0
}

/// Trusted: `serde_json::to_vec` writes the object built from the pairs; it
/// cannot fail on a map of strings to strings. The bytes it returns are what
/// the name `json_string_object` stands for, and reading them back as JSON
/// gives each member's string where no two pairs share a key.
#[verifier::external_body]
pub(crate) fn json_object_of_strings(entries: &Vec<(String, String)>) -> (r: Vec<u8>)
    ensures
        r@ == json_string_object(string_pairs(entries@)),
        distinct_keys(string_pairs(entries@)) ==> forall|i: int|
            0 <= i < entries@.len() ==> json_string_member(r@, #[trigger] entries@[i].0@) == Some(
                Some(entries@[i].1@),
            ),
{
    let map: serde_json::Map<String, serde_json::Value> = entries.iter().map(
        |(k, v)| (k.clone(), serde_json::Value::String(v.clone())),
    ).collect();
    match serde_json::to_vec(&map) {
        Ok(v) => v,
        Err(_) => Vec::new(),
    }
}

} // verus!
