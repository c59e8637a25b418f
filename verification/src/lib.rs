//! Verified core of the UIBCP relayer: the universal message model and its
//! wire encoding, chain adapters for IBC and EVM chains, fee calculation, and
//! the preparation of optimistic dual-proof submissions.

pub mod error;
pub mod uibc;
pub mod wire;
pub mod encoding;
pub mod field_reader;
pub mod encoding_laws;
pub mod decimal;
pub mod hexcode;
pub mod digest;
pub mod json;
pub mod json_text;
pub mod abi;
pub mod clock;
pub mod bytes;
pub mod chain_adapter;
pub mod message;
pub mod cosmos;
pub mod fee_calculator;
pub mod evm;
pub mod zk_proof;
pub mod relayer_client;
pub mod circuit;
pub mod processing;
pub mod laws;
