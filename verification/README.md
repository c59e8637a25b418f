# relayer

A relayer for the Universal Inter-Blockchain Communication Protocol (UIBCP),
with its core verified in Verus.

## Layout

- `src/` — the verified library.
  - `uibc.rs`, `encoding.rs`, `wire.rs`: the universal message model and its
    protobuf wire encoding.
  - `message.rs`: validation of a message and its IBC packet.
  - `chain_adapter.rs`: the chain-neutral data model (blocks, headers,
    proofs, routes, network conditions).
  - `cosmos.rs`: the IBC adapter — `send_packet` events, packet and message
    conversion, ICS-23 roots, Tendermint header checks, fees, timeouts and
    health.
  - `evm.rs`: the EVM adapter — calldata for the relay contract in each
    verification mode, verification fees and savings.
  - `fee_calculator.rs`: fee calculation for the optimistic dual-proof
    protocol, in basis points.
  - `relayer_client.rs`: preparing a message for optimistic submission.
  - `circuit.rs`, `processing.rs`, `zk_proof.rs`: the byte-level inputs of the
    ICS-23 circuit, the checks before proving, and local proof handling.
  - `field_reader.rs`, `encoding_laws.rs`: reading the wire format back as
    fields, and the proof that no two messages that differ in a field share
    an encoding.
  - `json_text.rs`: the JSON record of a transfer, framed by the library,
    each string written by `serde_json`.
  - `laws.rs`: properties across operations.
  - `abi.rs`, `digest.rs`, `hexcode.rs`, `json.rs`, `clock.rs`: the calls into
    `ethabi`, `sha2`, `ethers-core`, `hex`, `serde_json` and the system
    clock, each behind a trusted contract.
- `tests/` — tests of the library against the real outside crates.
- `app/` — the network side: Tendermint RPC and EVM providers, the async
  chain adapter interface, fee oracles and transaction submission.
