//! Ethereum ABI encoding of call arguments, through `ethabi`.

use vstd::prelude::*;

verus! {

/// An ABI argument as the relayer builds them.
#[derive(Debug, Clone, PartialEq, Eq)]
pub enum AbiToken {
    /// `bytes`: dynamic byte string.
    Bytes(Vec<u8>),
    /// `bytesN`: fixed-size byte string.
    FixedBytes(Vec<u8>),
    /// `uint256` holding a 64-bit value.
    Uint(u64),
    /// `string`.
    Str(String),
}

/// The mathematical value of an ABI argument.
pub enum AbiValue {
    Bytes(Seq<u8>),
    FixedBytes(Seq<u8>),
    Uint(nat),
    Str(Seq<char>),
}

impl View for AbiToken {
    type V = AbiValue;

    open spec fn view(&self) -> AbiValue {
        match self {
            AbiToken::Bytes(b) => AbiValue::Bytes(b@),
            AbiToken::FixedBytes(b) => AbiValue::FixedBytes(b@),
            AbiToken::Uint(u) => AbiValue::Uint(*u as nat),
            AbiToken::Str(s) => AbiValue::Str(s@),
        }
    }
}

/// The values of a list of arguments.
pub open spec fn abi_values(tokens: Seq<AbiToken>) -> Seq<AbiValue> {
    tokens.map_values(|t: AbiToken| t@)
}

/// The head-and-tail ABI encoding of a list of arguments.
pub uninterp spec fn abi_encoding(values: Seq<AbiValue>) -> Seq<u8>;

/// Trusted: `ethabi::encode` (which `ethers_core::abi` re-exports) encodes
/// the arguments; the bytes are what the name `abi_encoding` stands for.
#[verifier::external_body]
pub(crate) fn abi_encode(tokens: &Vec<AbiToken>) -> (out: Vec<u8>)
    ensures
        out@ == abi_encoding(abi_values(tokens@)),
{
    let converted: Vec<ethabi::Token> = tokens.iter().map(
        |t| match t {
            AbiToken::Bytes(b) => ethabi::Token::Bytes(b.clone()),
            AbiToken::FixedBytes(b) => ethabi::Token::FixedBytes(b.clone()),
            AbiToken::Uint(u) => ethabi::Token::Uint((*u).into()),
            AbiToken::Str(s) => ethabi::Token::String(s.clone()),
        },
    ).collect();
    ethabi::encode(&converted)
}

} // verus!
