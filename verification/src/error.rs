use vstd::prelude::*;

verus! {

/// Errors reported by the relayer library.
#[derive(Debug, Clone, Copy, PartialEq, Eq, Structural)]
pub enum RelayerError {
    /// The message's timeout timestamp lies in the past.
    MessageTimedOut,
    /// The message type is unspecified.
    InvalidMessageType,
    /// The system clock reads a time before the Unix epoch.
    ClockBeforeEpoch,
    /// The message carries no IBC compatibility data.
    NoIbcData,
    /// The packet data of an ICS-20 transfer is not JSON.
    InvalidPacketData,
    /// The message's payload cannot be carried by the target.
    UnsupportedMessageType,
    /// A fee amount is not a decimal integer.
    InvalidFeeAmount,
    /// A header is not signed by enough voting power; its height is given.
    InvalidHeader(u64),
    /// No base fee is known for the destination chain.
    UnknownDestinationChain,
    /// No ZK verifier is configured.
    ZkVerifierNotConfigured,
    /// A deadline lies beyond the largest representable time.
    TimestampOverflow,
    /// The message carries no ZK proof data.
    NoZkProofData,
    /// The message asks for no ZK proof.
    NoZkProofRequirement,
    /// The message's ZK proof has no public inputs.
    NoPublicInputs,
    /// The proof or its public inputs are empty.
    InvalidProofData,
    /// The message fails validation.
    MessageValidationFailed,
    /// The message has no identifier.
    MissingMessageId,
    /// The ICS-23 proof does not hold the expected number of levels.
    InvalidProofLength,
    /// The message asks for no ZK proof that could be produced.
    UnsupportedZkPayload,
    /// The proof data is too short for the siblings.
    InsufficientSiblingData,
    /// The proof data is too short for the path bits.
    InsufficientPathData,
    /// The state root is not 32 bytes.
    InvalidStateRootLength,
    /// A relayer address is not hexadecimal.
    InvalidRelayerAddress,
    /// The local check of a ZK proof rejected it.
    LocalProofRejected,
    /// A node's RPC response is not JSON.
    InvalidRpcResponse,
}

} // verus!
