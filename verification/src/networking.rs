//! Message framing: the 24-byte header (network magic, command, payload size,
//! checksum) in front of each payload, and reading frames back.
use vstd::prelude::*;
use vstd::bytes::*;
use sha2::Digest;
use crate::error::Error;
use crate::message::{
    decode_message, lemma_message_roundtrip, message_kind, message_payload, message_reads_back,
    Message, MessageKind, MessageView,
};
use crate::serialization::{
    and_then, append_bytes, be_u32, lemma_occurs_at_concat,
    lemma_u32_be_roundtrip, lemma_u32_roundtrip, le_u32, take_bytes, u32_of_be,
    view_result, write_u32_be, write_u32_le, ByteReader, Decoded,
};

verus! {

/// The networks a node can be on.
#[derive(Clone, Copy, Debug, PartialEq, Eq, Structural)]
pub enum Chain {
    Main,
    TestNet,
    RegTest,
}

/// The magic number that starts every frame of a chain.
pub open spec fn chain_magic(chain: Chain) -> u32 {
    match chain {
        Chain::Main => 0xf9beb4d9,
        Chain::TestNet => 0x0b110907,
        Chain::RegTest => 0xfabfb5da,
    }
}

/// The chain whose magic number is `value`, if any.
pub open spec fn chain_of_magic(value: u32) -> Result<Chain, Error> {
    if value == chain_magic(Chain::Main) {
        Ok(Chain::Main)
    } else if value == chain_magic(Chain::TestNet) {
        Ok(Chain::TestNet)
    } else if value == chain_magic(Chain::RegTest) {
        Ok(Chain::RegTest)
    } else {
        Err(Error::InvalidChain(value))
    }
}

impl Chain {
    /// The chain's magic number.
    pub fn magic(&self) -> (r: u32)
        ensures
            r == chain_magic(*self),
    {
        match self {
            Chain::Main => 0xf9beb4d9,
            Chain::TestNet => 0x0b110907,
            Chain::RegTest => 0xfabfb5da,
        }
    }

    /// The chain whose magic number is `value`; any other number is refused.
    pub fn from_magic(value: u32) -> (r: Result<Chain, Error>)
        ensures
            r == chain_of_magic(value),
    {
        if value == 0xf9beb4d9 {
            Ok(Chain::Main)
        } else if value == 0x0b110907 {
            Ok(Chain::TestNet)
        } else if value == 0xfabfb5da {
            Ok(Chain::RegTest)
        } else {
            Err(Error::InvalidChain(value))
        }
    }
}

/// Each chain is read back from its magic number.
pub proof fn lemma_chain_magic_roundtrip(chain: Chain)
    ensures
        chain_of_magic(chain_magic(chain)) == Ok::<Chain, Error>(chain),
{
}

// ---- commands ----
/// The twelve command bytes that name a message kind in a frame header.
pub open spec fn command_bytes(kind: MessageKind) -> Seq<u8> {
    match kind {
        MessageKind::Version => seq![0x76u8, 0x65, 0x72, 0x73, 0x69, 0x6f, 0x6e, 0, 0, 0, 0, 0],
        MessageKind::VersionAck => seq![0x76u8, 0x65, 0x72, 0x61, 0x63, 0x6b, 0, 0, 0, 0, 0, 0],
        MessageKind::Ping => seq![0x70u8, 0x69, 0x6e, 0x67, 0, 0, 0, 0, 0, 0, 0, 0],
        MessageKind::Pong => seq![0x70u8, 0x6f, 0x6e, 0x67, 0, 0, 0, 0, 0, 0, 0, 0],
        MessageKind::SendCompact => seq![0x73u8, 0x65, 0x6e, 0x64, 0x63, 0x6d, 0x70, 0x63, 0x74, 0, 0, 0],
        MessageKind::GetHeaders => seq![0x67u8, 0x65, 0x74, 0x68, 0x65, 0x61, 0x64, 0x65, 0x72, 0x73, 0, 0],
        MessageKind::FeeFilter => seq![0x66u8, 0x65, 0x65, 0x66, 0x69, 0x6c, 0x74, 0x65, 0x72, 0, 0, 0],
        MessageKind::WTxIdRelay => seq![0x77u8, 0x74, 0x78, 0x69, 0x64, 0x72, 0x65, 0x6c, 0x61, 0x79, 0, 0],
        MessageKind::SendAddrV2 => seq![0x73u8, 0x65, 0x6e, 0x64, 0x61, 0x64, 0x64, 0x72, 0x76, 0x32, 0, 0],
    }
}

/// The array whose bytes are `s`.
pub open spec fn command_array(s: Seq<u8>) -> [u8; 12] {
    choose|a: [u8; 12]| a@ == s
}

proof fn lemma_command_array(a: [u8; 12])
    ensures
        command_array(a@) == a,
{
    broadcast use vstd::array::group_array_axioms;

    let c = command_array(a@);
    assert(c@ == a@);
    assert forall|i: int| 0 <= i < 12 implies c[i] == a[i] by {
        assert(c@[i] == a@[i]);
    }
    assert(c =~= a);
}

/// The kind that twelve command bytes name; an unknown command is refused.
pub open spec fn kind_of_command(c: Seq<u8>) -> Result<MessageKind, Error> {
    if c == command_bytes(MessageKind::Version) {
        Ok(MessageKind::Version)
    } else if c == command_bytes(MessageKind::VersionAck) {
        Ok(MessageKind::VersionAck)
    } else if c == command_bytes(MessageKind::Ping) {
        Ok(MessageKind::Ping)
    } else if c == command_bytes(MessageKind::Pong) {
        Ok(MessageKind::Pong)
    } else if c == command_bytes(MessageKind::SendCompact) {
        Ok(MessageKind::SendCompact)
    } else if c == command_bytes(MessageKind::GetHeaders) {
        Ok(MessageKind::GetHeaders)
    } else if c == command_bytes(MessageKind::FeeFilter) {
        Ok(MessageKind::FeeFilter)
    } else if c == command_bytes(MessageKind::WTxIdRelay) {
        Ok(MessageKind::WTxIdRelay)
    } else if c == command_bytes(MessageKind::SendAddrV2) {
        Ok(MessageKind::SendAddrV2)
    } else {
        Err(Error::UnknownCommand(command_array(c)))
    }
}

fn same_command(a: &[u8; 12], b: &[u8; 12]) -> (r: bool)
    ensures
        r == (a@ == b@),
{
    let mut i: usize = 0;
    while i < 12
        invariant
            i <= 12,
            a@.len() == 12,
            b@.len() == 12,
            forall|j: int| 0 <= j < i ==> a@[j] == b@[j],
        decreases 12 - i,
    {
        if a[i] != b[i] {
            return false;
        }
        i = i + 1;
    }
    proof {
        assert(a@ =~= b@);
    }
    true
}

impl MessageKind {
    /// The command bytes of this kind.
    pub fn command(&self) -> (r: [u8; 12])
        ensures
            r@ == command_bytes(*self),
    {
        let r: [u8; 12] = match self {
            MessageKind::Version => [0x76u8, 0x65, 0x72, 0x73, 0x69, 0x6f, 0x6e, 0, 0, 0, 0, 0],
            MessageKind::VersionAck => [0x76u8, 0x65, 0x72, 0x61, 0x63, 0x6b, 0, 0, 0, 0, 0, 0],
            MessageKind::Ping => [0x70u8, 0x69, 0x6e, 0x67, 0, 0, 0, 0, 0, 0, 0, 0],
            MessageKind::Pong => [0x70u8, 0x6f, 0x6e, 0x67, 0, 0, 0, 0, 0, 0, 0, 0],
            MessageKind::SendCompact => [0x73u8, 0x65, 0x6e, 0x64, 0x63, 0x6d, 0x70, 0x63, 0x74, 0, 0, 0],
            MessageKind::GetHeaders => [0x67u8, 0x65, 0x74, 0x68, 0x65, 0x61, 0x64, 0x65, 0x72, 0x73, 0, 0],
            MessageKind::FeeFilter => [0x66u8, 0x65, 0x65, 0x66, 0x69, 0x6c, 0x74, 0x65, 0x72, 0, 0, 0],
            MessageKind::WTxIdRelay => [0x77u8, 0x74, 0x78, 0x69, 0x64, 0x72, 0x65, 0x6c, 0x61, 0x79, 0, 0],
            MessageKind::SendAddrV2 => [0x73u8, 0x65, 0x6e, 0x64, 0x61, 0x64, 0x64, 0x72, 0x76, 0x32, 0, 0],
        };
        proof {
            assert(r@ =~= command_bytes(*self));
        }
        r
    }

    /// The kind that `command` names; an unknown command is refused.
    pub fn from_command(command: [u8; 12]) -> (r: Result<MessageKind, Error>)
        ensures
            r == kind_of_command(command@),
    {
        let kinds = [
            MessageKind::Version,
            MessageKind::VersionAck,
            MessageKind::Ping,
            MessageKind::Pong,
            MessageKind::SendCompact,
            MessageKind::GetHeaders,
            MessageKind::FeeFilter,
            MessageKind::WTxIdRelay,
            MessageKind::SendAddrV2,
        ];
        let mut i: usize = 0;
        while i < 9
            invariant
                i <= 9,
                kinds@ == seq![
                    MessageKind::Version,
                    MessageKind::VersionAck,
                    MessageKind::Ping,
                    MessageKind::Pong,
                    MessageKind::SendCompact,
                    MessageKind::GetHeaders,
                    MessageKind::FeeFilter,
                    MessageKind::WTxIdRelay,
                    MessageKind::SendAddrV2,
                ],
                forall|j: int| 0 <= j < i ==> command@ != command_bytes(#[trigger] kinds@[j]),
            decreases 9 - i,
        {
            let kind = kinds[i];
            if same_command(&kind.command(), &command) {
                return Ok(kind);
            }
            i = i + 1;
        }
        proof {
            assert(kinds@[0] == MessageKind::Version);
            assert(kinds@[1] == MessageKind::VersionAck);
            assert(kinds@[2] == MessageKind::Ping);
            assert(kinds@[3] == MessageKind::Pong);
            assert(kinds@[4] == MessageKind::SendCompact);
            assert(kinds@[5] == MessageKind::GetHeaders);
            assert(kinds@[6] == MessageKind::FeeFilter);
            assert(kinds@[7] == MessageKind::WTxIdRelay);
            assert(kinds@[8] == MessageKind::SendAddrV2);
            lemma_command_array(command);
        }
        Err(Error::UnknownCommand(command))
    }
}

/// Each kind is read back from its command bytes.
pub proof fn lemma_command_roundtrip(kind: MessageKind)
    ensures
        kind_of_command(command_bytes(kind)) == Ok::<MessageKind, Error>(kind),
{
    let c = command_bytes(kind);
    assert(c[0] == command_bytes(kind)[0]);
    assert(c[3] == command_bytes(kind)[3]);
    assert(c[4] == command_bytes(kind)[4]);
    assert(c[5] == command_bytes(kind)[5]);
}

// ---- payload sizes ----
/// The payload sizes that a kind of message allows.
#[derive(Clone, Copy, Debug, PartialEq, Eq, Structural)]
pub enum MaximumPayloadSize {
    /// Exactly this many bytes.
    Exact(u32),
    /// At most this many bytes.
    AtMost(u32),
}

pub open spec fn size_accepted(limit: MaximumPayloadSize, size: u32) -> bool {
    match limit {
        MaximumPayloadSize::Exact(expected) => size == expected,
        MaximumPayloadSize::AtMost(upper_limit) => size <= upper_limit,
    }
}

/// The payload sizes allowed for each kind.
pub open spec fn allowed_size(kind: MessageKind) -> MaximumPayloadSize {
    match kind {
        MessageKind::Version => MaximumPayloadSize::AtMost(512),
        MessageKind::VersionAck => MaximumPayloadSize::Exact(0),
        MessageKind::Ping => MaximumPayloadSize::Exact(8),
        MessageKind::Pong => MaximumPayloadSize::Exact(8),
        MessageKind::SendCompact => MaximumPayloadSize::Exact(9),
        MessageKind::GetHeaders => MaximumPayloadSize::AtMost(2048),
        MessageKind::FeeFilter => MaximumPayloadSize::Exact(8),
        MessageKind::WTxIdRelay => MaximumPayloadSize::Exact(0),
        MessageKind::SendAddrV2 => MaximumPayloadSize::Exact(0),
    }
}

impl MaximumPayloadSize {
    /// Whether `size` is allowed: equal to an exact size, or at most an upper limit.
    pub fn accepts(&self, size: u32) -> (r: bool)
        ensures
            r == size_accepted(*self, size),
    {
        match self {
            MaximumPayloadSize::Exact(expected) => size == *expected,
            MaximumPayloadSize::AtMost(upper_limit) => size <= *upper_limit,
        }
    }
}

impl MessageKind {
    /// The payload sizes that this kind allows.
    pub fn maximum_allowed_size(&self) -> (r: MaximumPayloadSize)
        ensures
            r == allowed_size(*self),
    {
        match self {
            MessageKind::Version => MaximumPayloadSize::AtMost(512),
            MessageKind::VersionAck => MaximumPayloadSize::Exact(0),
            MessageKind::Ping => MaximumPayloadSize::Exact(8),
            MessageKind::Pong => MaximumPayloadSize::Exact(8),
            MessageKind::SendCompact => MaximumPayloadSize::Exact(9),
            MessageKind::GetHeaders => MaximumPayloadSize::AtMost(2048),
            MessageKind::FeeFilter => MaximumPayloadSize::Exact(8),
            MessageKind::WTxIdRelay => MaximumPayloadSize::Exact(0),
            MessageKind::SendAddrV2 => MaximumPayloadSize::Exact(0),
        }
    }
}

// ---- checksums ----
/// The SHA-256 digest of `data`.
pub uninterp spec fn sha256(data: Seq<u8>) -> Seq<u8>;

/// `sha2::Sha256::digest`: the SHA-256 digest of `data`, named by `sha256`.
#[verifier::external_body]
fn sha256_digest(data: &[u8]) -> (r: [u8; 32])
    ensures
        r@ == sha256(data@),
{
    sha2::Sha256::digest(data).into()
}

/// The checksum that a digest gives: its first four bytes, big-endian.
pub open spec fn checksum_of_digest(digest: Seq<u8>) -> u32 {
    u32_of_be(digest.subrange(0, 4))
}

/// The checksum of a payload: the first four bytes of its double SHA-256, big-endian.
pub open spec fn frame_checksum(payload: Seq<u8>) -> u32 {
    checksum_of_digest(sha256(sha256(payload)))
}

/// The checksum that a digest gives: its first four bytes, big-endian.
pub fn checksum_from_digest(digest: &[u8; 32]) -> (r: u32)
    ensures
        r == checksum_of_digest(digest@),
{
    let le = [digest[3], digest[2], digest[1], digest[0]];
    proof {
        assert(le@ =~= seq![digest@[3], digest@[2], digest@[1], digest@[0]]);
        assert(digest@.subrange(0, 4)[0] == digest@[0]);
        assert(digest@.subrange(0, 4)[1] == digest@[1]);
        assert(digest@.subrange(0, 4)[2] == digest@[2]);
        assert(digest@.subrange(0, 4)[3] == digest@[3]);
    }
    u32_from_le_bytes(le.as_slice())
}

/// The checksum of a payload: SHA-256 twice, then the first four bytes big-endian.
pub fn blockchain_checksum(data: &[u8]) -> (r: u32)
    ensures
        r == frame_checksum(data@),
{
    let first_round = sha256_digest(data);
    let second_round = sha256_digest(first_round.as_slice());
    checksum_from_digest(&second_round)
}

// ---- frames ----
/// Size of the frame header.
pub const HEADER_SIZE: usize = 24;

/// The header fields that a receiver goes by.
#[derive(Clone, Copy, Debug, PartialEq, Eq)]
pub struct FrameHeader {
    pub kind: MessageKind,
    pub payload_size: u32,
    pub checksum: u32,
}

/// A frame: the chain's magic (big-endian), the command, the payload size
/// (little-endian), the checksum (big-endian), then the payload.
pub open spec fn frame_bytes(chain: Chain, kind: MessageKind, payload: Seq<u8>) -> Seq<u8> {
    be_u32(chain_magic(chain)) + command_bytes(kind) + le_u32(payload.len() as u32) + be_u32(
        frame_checksum(payload),
    ) + payload
}

/// The header that 24 bytes hold for a receiver on `chain`. Refused, in this
/// order: an unknown magic, another chain's magic, an unknown command, a
/// payload size that the kind does not allow.
pub open spec fn header_of(chain: Chain, h: Seq<u8>) -> Result<FrameHeader, Error> {
    match chain_of_magic(u32_of_be(h.subrange(0, 4))) {
        Err(e) => Err(e),
        Ok(received) => if received != chain {
            Err(Error::WrongChain { expected: chain, received })
        } else {
            match kind_of_command(h.subrange(4, 16)) {
                Err(e) => Err(e),
                Ok(kind) => {
                    let size = spec_u32_from_le_bytes(h.subrange(16, 20));
                    if !size_accepted(allowed_size(kind), size) {
                        Err(Error::InvalidPayloadSize { expected: allowed_size(kind), received: size })
                    } else {
                        Ok(FrameHeader { kind, payload_size: size, checksum: u32_of_be(h.subrange(20, 24)) })
                    }
                },
            }
        },
    }
}

/// The message that a payload holds under a header: its checksum must match,
/// then it must decode as the header's kind.
pub open spec fn payload_message(header: FrameHeader, payload: Seq<u8>) -> Result<MessageView, Error> {
    if frame_checksum(payload) != header.checksum {
        Err(Error::InvalidChecksum { received: header.checksum, expected: frame_checksum(payload) })
    } else {
        decode_message(header.kind, payload)
    }
}

/// Reading one frame from `data` at `pos`: the header, then the payload it announces.
pub open spec fn receive_spec(chain: Chain, data: Seq<u8>, pos: int) -> Decoded<MessageView> {
    and_then(
        take_bytes(data, pos, 24),
        |h: Seq<u8>, p1: int|
            match header_of(chain, h) {
                Err(e) => (Err(e), p1),
                Ok(header) => and_then(
                    take_bytes(data, p1, header.payload_size as int),
                    |payload: Seq<u8>, p2: int| (payload_message(header, payload), p2),
                ),
            },
    )
}

fn parse_header_bytes(chain: Chain, header: &[u8]) -> (r: Result<FrameHeader, Error>)
    requires
        header@.len() == 24,
    ensures
        r == header_of(chain, header@),
{
    let magic_be = [header[3], header[2], header[1], header[0]];
    proof {
        assert(seq![header@.subrange(0, 4)[3], header@.subrange(0, 4)[2], header@.subrange(0, 4)[1], header@.subrange(0, 4)[0]] =~= magic_be@);
    }
    let received_chain = Chain::from_magic(u32_from_le_bytes(magic_be.as_slice()))?;
    if received_chain != chain {
        return Err(Error::WrongChain { expected: chain, received: received_chain });
    }
    let mut command = [0u8; 12];
    let mut i: usize = 0;
    while i < 12
        invariant
            header@.len() == 24,
            i <= 12,
            forall|j: int| 0 <= j < i ==> command@[j] == header@[4 + j],
        decreases 12 - i,
    {
        command[i] = header[4 + i];
        i = i + 1;
    }
    proof {
        assert(command@ =~= header@.subrange(4, 16));
    }
    let message_kind = MessageKind::from_command(command)?;
    let payload_size = u32_from_le_bytes(vstd::slice::slice_subrange(header, 16, 20));
    let expected_payload_size = message_kind.maximum_allowed_size();
    if !expected_payload_size.accepts(payload_size) {
        return Err(Error::InvalidPayloadSize { expected: expected_payload_size, received: payload_size });
    }
    let checksum_be = [header[23], header[22], header[21], header[20]];
    proof {
        assert(seq![header@.subrange(20, 24)[3], header@.subrange(20, 24)[2], header@.subrange(20, 24)[1], header@.subrange(20, 24)[0]] =~= checksum_be@);
    }
    let received_checksum = u32_from_le_bytes(checksum_be.as_slice());
    Ok(FrameHeader { kind: message_kind, payload_size, checksum: received_checksum })
}

/// The header that a frame's first 24 bytes hold for a receiver on `chain`.
pub fn parse_header(chain: Chain, header: &[u8; 24]) -> (r: Result<FrameHeader, Error>)
    ensures
        r == header_of(chain, header@),
{
    parse_header_bytes(chain, header.as_slice())
}

impl FrameHeader {
    /// The message that `payload` holds under this header.
    pub fn decode_payload(&self, payload: Vec<u8>) -> (r: Result<Message, Error>)
        ensures
            view_result(r) == payload_message(*self, payload@),
    {
        let calculated_checksum = blockchain_checksum(payload.as_slice());
        if self.checksum != calculated_checksum {
            return Err(Error::InvalidChecksum { received: self.checksum, expected: calculated_checksum });
        }
        Message::deserialize(self.kind, payload)
    }
}

/// Serializes `message` and appends it as a frame for `chain`. When the
/// payload cannot be serialized nothing is written.
pub fn send_message(writer: &mut Vec<u8>, chain: Chain, message: &Message) -> (r: Result<(), Error>)
    ensures
        message_payload(message@).1 is Ok ==> {
            &&& r is Ok
            &&& final(writer)@ == old(writer)@ + frame_bytes(
                chain,
                message_kind(message@),
                message_payload(message@).0,
            )
        },
        message_payload(message@).1 is Err ==> {
            &&& r == message_payload(message@).1
            &&& final(writer)@ == old(writer)@
        },
{
    let mut payload: Vec<u8> = Vec::new();
    message.serialize(&mut payload)?;
    let ghost p = payload@;
    proof {
        assert(p =~= message_payload(message@).0);
    }
    let checksum = blockchain_checksum(payload.as_slice());
    let mut frame: Vec<u8> = Vec::new();
    write_u32_be(&mut frame, chain.magic());
    let command = message.kind().command();
    append_bytes(&mut frame, command.as_slice());
    write_u32_le(&mut frame, payload.len() as u32);
    write_u32_be(&mut frame, checksum);
    append_bytes(&mut frame, payload.as_slice());
    proof {
        assert(frame@ =~= frame_bytes(chain, message_kind(message@), p));
    }
    append_bytes(writer, frame.as_slice());
    Ok(())
}

/// Reads one frame for `chain` and the message in it.
pub fn receive_message(chain: Chain, reader: &mut ByteReader) -> (r: Result<Message, Error>)
    ensures
        final(reader).data() == old(reader).data(),
        (view_result(r), final(reader).pos()) == receive_spec(
            chain,
            old(reader).data(),
            old(reader).pos(),
        ),
{
    let header = reader.read_bytes(24)?;
    let parsed = parse_header_bytes(chain, header)?;
    let payload = reader.read_bytes(parsed.payload_size as u64)?;
    parsed.decode_payload(vstd::slice::slice_to_vec(payload))
}

// ---- laws of framing ----
/// The fields of a frame's header, and its payload, as a receiver reads them.
proof fn lemma_frame_fields(chain: Chain, kind: MessageKind, payload: Seq<u8>, rest: Seq<u8>)
    requires
        payload.len() <= 0xFFFF_FFFF,
    ensures
        ({
            let frame = frame_bytes(chain, kind, payload);
            let data = frame + rest;
            let h = data.subrange(0, 24);
            &&& frame.len() == 24 + payload.len()
            &&& take_bytes(data, 0, 24) == (Ok::<Seq<u8>, Error>(h), 24int)
            &&& h.len() == 24
            &&& u32_of_be(h.subrange(0, 4)) == chain_magic(chain)
            &&& h.subrange(4, 16) == command_bytes(kind)
            &&& spec_u32_from_le_bytes(h.subrange(16, 20)) == payload.len() as u32
            &&& u32_of_be(h.subrange(20, 24)) == frame_checksum(payload)
            &&& take_bytes(data, 24, payload.len() as int) == (Ok::<Seq<u8>, Error>(payload), 24 + payload.len() as int)
        }),
{
    lemma_auto_spec_u32_to_from_le_bytes();
    let a = be_u32(chain_magic(chain));
    let b = command_bytes(kind);
    let c = le_u32(payload.len() as u32);
    let d = be_u32(frame_checksum(payload));
    let frame = a + b + c + d + payload;
    assert(frame == frame_bytes(chain, kind, payload));
    let data = frame + rest;
    assert(a.len() == 4 && b.len() == 12 && c.len() == 4 && d.len() == 4);
    assert(data.subrange(0, frame.len() as int) =~= frame);
    lemma_occurs_at_concat(data, 0, a + b + c + d, payload);
    let h = data.subrange(0, 24);
    assert(h =~= a + b + c + d);
    assert(h.subrange(0, 24) =~= h);
    lemma_occurs_at_concat(h, 0, a + b + c, d);
    lemma_occurs_at_concat(h, 0, a + b, c);
    lemma_occurs_at_concat(h, 0, a, b);
    lemma_u32_be_roundtrip(chain_magic(chain), h, 0);
    lemma_u32_roundtrip(payload.len() as u32, h, 16);
    lemma_u32_be_roundtrip(frame_checksum(payload), h, 20);
}

/// A receiver on the chain of a frame reads back the message that
/// `send_message` framed, whatever follows the frame, when the message reads
/// back from its payload and its kind allows the payload's size.
pub proof fn lemma_frame_roundtrip(chain: Chain, m: Message, rest: Seq<u8>)
    requires
        message_reads_back(m),
        message_payload(m@).0.len() <= 0xFFFF_FFFF,
        size_accepted(allowed_size(message_kind(m@)), message_payload(m@).0.len() as u32),
    ensures
        ({
            let frame = frame_bytes(chain, message_kind(m@), message_payload(m@).0);
            receive_spec(chain, frame + rest, 0) == (Ok::<MessageView, Error>(m@), frame.len() as int)
        }),
{
    lemma_message_roundtrip(m);
    let kind = message_kind(m@);
    let payload = message_payload(m@).0;
    lemma_frame_fields(chain, kind, payload, rest);
    lemma_command_roundtrip(kind);
    lemma_chain_magic_roundtrip(chain);
    let h = (frame_bytes(chain, kind, payload) + rest).subrange(0, 24);
    assert(header_of(chain, h) == Ok::<FrameHeader, Error>(
        FrameHeader { kind, payload_size: payload.len() as u32, checksum: frame_checksum(payload) },
    ));
}

/// A receiver on another chain than the frame's refuses it.
pub proof fn lemma_wrong_chain_refused(
    sent_on: Chain,
    receiver: Chain,
    kind: MessageKind,
    payload: Seq<u8>,
    rest: Seq<u8>,
)
    requires
        sent_on != receiver,
        payload.len() <= 0xFFFF_FFFF,
    ensures
        receive_spec(receiver, frame_bytes(sent_on, kind, payload) + rest, 0).0 == Err::<
            MessageView,
            Error,
        >(Error::WrongChain { expected: receiver, received: sent_on }),
{
    lemma_frame_fields(sent_on, kind, payload, rest);
    lemma_chain_magic_roundtrip(sent_on);
}

} // verus!
