//! Bitcoin peer-to-peer handshake: wire encodings of the handshake messages,
//! message framing with checksums, and the handshake state machine.

pub mod error;
pub mod serialization;
pub mod address;
pub mod message;
pub mod networking;
pub mod connection;
pub mod testing;
