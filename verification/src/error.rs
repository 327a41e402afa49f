use vstd::prelude::*;
use crate::message::MessageKind;
use crate::networking::{Chain, MaximumPayloadSize};

verus! {

/// Why decoding, framing or the handshake failed.
#[derive(Clone, Copy, Debug, PartialEq, Eq)]
#[allow(inconsistent_fields)]
pub enum Error {
    /// The input ended before the value was complete.
    UnexpectedEnd,
    /// A boolean byte other than zero or one.
    InvalidBool(u8),
    /// String bytes that are not valid UTF-8.
    InvalidUtf8,
    /// A time before the Unix epoch cannot be encoded.
    TimestampBeforeEpoch(i64),
    /// A number of seconds beyond what a clock time holds.
    TimestampOutOfRange(u64),
    /// A payload with bytes left over after its message; the count of them.
    TrailingBytes(usize),
    /// A header whose network magic names no known chain.
    InvalidChain(u32),
    /// A frame for another chain than the one this side is on.
    WrongChain { expected: Chain, received: Chain },
    /// A header whose command names no known message.
    UnknownCommand([u8; 12]),
    /// A payload size that the message's kind does not allow.
    InvalidPayloadSize { expected: MaximumPayloadSize, received: u32 },
    /// A payload whose checksum differs from the one in its header.
    InvalidChecksum { received: u32, expected: u32 },
    /// A message of another kind than the handshake expects next.
    UnexpectedMessage { expected: MessageKind, received: MessageKind },
    /// The peer speaks another protocol version.
    VersionMismatch { received: i32, expected: i32 },
    /// The peer's version nonce is the one this side sent: it is talking to itself.
    SelfConnection { nonce: u64 },
    /// The handshake is over; there is no next step.
    AlreadyFinished,
    /// The pong's nonce differs from the ping's.
    PongMismatch { ping: u64, pong: u64 },
}

} // verus!
