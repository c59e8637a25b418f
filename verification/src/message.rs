//! A universal message wrapped for validation and IBC conversion.

use vstd::prelude::*;
use crate::chain_adapter::IbcPacket;
use crate::clock::unix_time_now;
use crate::error::RelayerError;
use crate::uibc::{Height, MessageType, ProofRequirement, Timeout, UniversalMessage};

verus! {

/// Nanoseconds in a second.
pub const NANOS_PER_SECOND: u64 = 1_000_000_000;

pub struct UibcMessage {
    inner: UniversalMessage,
}

/// What validating `m` at Unix time `now` gives: a message whose timeout
/// timestamp lies before `now` has timed out; one of unspecified type is
/// invalid.
pub open spec fn validation_at(m: UniversalMessage, now: u64) -> Result<(), RelayerError> {
    if m.spec_timeout_timestamp() is Some && m.spec_timeout_timestamp().unwrap() < now {
        Err(RelayerError::MessageTimedOut)
    } else if m.message_type == MessageType::MessageTypeUnspecified {
        Err(RelayerError::InvalidMessageType)
    } else {
        Ok(())
    }
}

/// The IBC packet for `m`, given its wire encoding: the timeout carries over,
/// a timestamp in nanoseconds; the other coordinates are left empty.
pub open spec fn ibc_packet_of(m: UniversalMessage, encoding: Seq<u8>, packet: IbcPacket) -> bool {
    &&& packet.data@ == encoding
    &&& packet.sequence == 0
    &&& packet.source_port@.len() == 0
    &&& packet.source_channel@.len() == 0
    &&& packet.destination_port@.len() == 0
    &&& packet.destination_channel@.len() == 0
    &&& packet.timeout_height_on_b == (match m.timeout {
        Some(Timeout::TimeoutHeight(h)) => h,
        _ => Height { revision_number: 0, revision_height: 0 },
    })
    &&& packet.timeout_timestamp_on_b == (match m.timeout {
        Some(Timeout::TimeoutTimestamp(t)) => t * NANOS_PER_SECOND,
        _ => 0,
    })
}

impl UibcMessage {
    /// The wrapped message.
    pub closed spec fn message(&self) -> UniversalMessage {
        self.inner
    }

    pub fn new(message: UniversalMessage) -> (r: Self)
        ensures
            r.message() == message,
    {
        UibcMessage { inner: message }
    }

    /// The wrapped message, handed back.
    pub fn into_inner(self) -> (m: UniversalMessage)
        ensures
            m == self.message(),
    {
        self.inner
    }

    /// Validates the message against Unix time `now`.
    pub fn validate_at(&self, now: u64) -> (r: Result<(), RelayerError>)
        ensures
            r == validation_at(self.message(), now),
    {
        if let Some(timeout) = self.inner.timeout_timestamp() {
            if timeout < now {
                return Err(RelayerError::MessageTimedOut);
            }
        }
        if self.inner.message_type == MessageType::MessageTypeUnspecified {
            return Err(RelayerError::InvalidMessageType);
        }
        Ok(())
    }

    /// Validates the message against the system clock.
    pub fn validate(&self) -> (r: Result<(), RelayerError>)
        ensures
            r == Err::<(), RelayerError>(RelayerError::ClockBeforeEpoch) || exists|now: u64|
                r == validation_at(self.message(), now),
    {
        match unix_time_now() {
            Some(now) => self.validate_at(now),
            None => Err(RelayerError::ClockBeforeEpoch),
        }
    }

    /// The IBC packet that carries the message.
    pub fn to_ibc_packet(&self) -> (r: Result<IbcPacket, RelayerError>)
        requires
            self.message().spec_timeout_timestamp() is Some ==> self.message().spec_timeout_timestamp().unwrap()
                * NANOS_PER_SECOND <= u64::MAX,
        ensures
            self.message().ibc_data is None ==> r == Err::<IbcPacket, RelayerError>(
                RelayerError::NoIbcData,
            ),
            self.message().ibc_data is Some ==> (r matches Ok(p) && ibc_packet_of(
                self.message(),
                self.message().encoding(),
                p,
            )),
    {
        if self.inner.ibc_data.is_none() {
            return Err(RelayerError::NoIbcData);
        }
        let (timeout_height, timeout_timestamp) = match &self.inner.timeout {
            Some(Timeout::TimeoutHeight(h)) => (*h, 0u64),
            Some(Timeout::TimeoutTimestamp(t)) => (
                Height { revision_number: 0, revision_height: 0 },
                *t * NANOS_PER_SECOND,
            ),
            None => (Height { revision_number: 0, revision_height: 0 }, 0u64),
        };
        Ok(IbcPacket {
            sequence: 0,
            source_port: String::new(),
            source_channel: String::new(),
            destination_port: String::new(),
            destination_channel: String::new(),
            data: self.inner.encode_to_vec(),
            timeout_height_on_b: timeout_height,
            timeout_timestamp_on_b: timeout_timestamp,
        })
    }

    pub fn proof_requirement(&self) -> (r: Option<&ProofRequirement>)
        ensures
            match (r, self.message().proof_requirement) {
                (Some(a), Some(b)) => *a == b,
                (None, None) => true,
                _ => false,
            },
    {
        self.inner.proof_requirement.as_ref()
    }
}

} // verus!
