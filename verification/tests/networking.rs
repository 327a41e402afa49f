use blockchain_handshake::error::Error;
use blockchain_handshake::message::{
    BlockHeaderHash, FeeFilterMessage, GetHeadersMessage, Message, MessageKind, PingMessage,
    PongMessage, SendAddrV2Message, SendCompactMessage, VersionAckMessage, WTxIdRelayMessage,
};
use blockchain_handshake::networking::{
    blockchain_checksum, checksum_from_digest, parse_header, receive_message, send_message, Chain,
    MaximumPayloadSize,
};
use blockchain_handshake::serialization::ByteReader;
use blockchain_handshake::testing::decode_bytes;

#[test]
fn test_checksum_empty() {
    assert_eq!(blockchain_checksum(&[]), 0x5DF6E0E2);
}

#[test]
fn test_checksum_zero() {
    assert_eq!(blockchain_checksum(&[0]), 0x1406e058);
}

#[test]
fn test_checksum_compact_message() {
    let data = [0, 2, 0, 0, 0, 0, 0, 0, 0];
    let calculated = blockchain_checksum(&data);
    assert_eq!(calculated, 0xe92f5ef8);
}

#[test]
fn test_checksum_example() {
    let data: Vec<u8> = vec![
        0x62, 0xEA, 0x00, 0x00, 0x01, 0x00, 0x00, 0x00, 0x00, 0x00, 0x00, 0x00, 0x11, 0xB2,
        0xD0, 0x50, 0x00, 0x00, 0x00, 0x00, 0x01, 0x00, 0x00, 0x00, 0x00, 0x00, 0x00, 0x00,
        0x00, 0x00, 0x00, 0x00, 0x00, 0x00, 0x00, 0x00, 0x00, 0x00, 0xFF, 0xFF, 0x00, 0x00,
        0x00, 0x00, 0x00, 0x00, 0x01, 0x00, 0x00, 0x00, 0x00, 0x00, 0x00, 0x00, 0x00, 0x00,
        0x00, 0x00, 0x00, 0x00, 0x00, 0x00, 0x00, 0x00, 0xFF, 0xFF, 0x00, 0x00, 0x00, 0x00,
        0x00, 0x00, 0x3B, 0x2E, 0xB3, 0x5D, 0x8C, 0xE6, 0x17, 0x65, 0x0F, 0x2F, 0x53, 0x61,
        0x74, 0x6F, 0x73, 0x68, 0x69, 0x3A, 0x30, 0x2E, 0x37, 0x2E, 0x32, 0x2F, 0xC0, 0x3E,
        0x03, 0x00,
    ];

    let calculated_checksum = blockchain_checksum(&data);
    let expected_checksum = 0x3b648d5au32;
    assert_eq!(
        calculated_checksum, expected_checksum,
        "{calculated_checksum:X?} != {expected_checksum:X?}"
    );
}

#[test]
fn test_checksum_from_execution() {
    let header = decode_bytes("+b602XZlcnNpb24AAAAAAGYAAACx39uS");
    let loaded_checksum = u32::from_be_bytes(header[20..24].try_into().unwrap());

    let data =
        decode_bytes("gBEBAAkEAAAAAAAAJGkPZQAAAAAAAAAAAAAAAAAAAAAAAAAAAAAAAAAAAAAAAAkEAAAAAAAAAAAAAAAAAAAAAAAAAAAAAAAAogitpThFWBwQL1NhdG9zaGk6MjUuMC4wLwAAAAAB");

    let calculated_checksum = blockchain_checksum(&data);
    assert_eq!(
        calculated_checksum, loaded_checksum,
        "{calculated_checksum:X?} != {loaded_checksum:X?}"
    );
}

#[test]
fn checksum_is_first_four_digest_bytes_big_endian() {
    let mut digest = [0u8; 32];
    digest[..5].copy_from_slice(&[0x12, 0x34, 0x56, 0x78, 0x9A]);
    assert_eq!(checksum_from_digest(&digest), 0x12345678);
}

#[test]
fn test_maximum_payload_size_exact_accepts() {
    assert!(MaximumPayloadSize::Exact(3).accepts(3));
}

#[test]
fn test_maximum_payload_size_exact_rejects_below() {
    assert!(!MaximumPayloadSize::Exact(3).accepts(2));
}

#[test]
fn test_maximum_payload_size_exact_rejects_above() {
    assert!(!MaximumPayloadSize::Exact(3).accepts(4));
}

#[test]
fn test_maximum_payload_size_upper_limit_accepts_below() {
    assert!(MaximumPayloadSize::AtMost(10).accepts(4));
}

#[test]
fn test_maximum_payload_size_upper_limit_accepts_exact() {
    assert!(MaximumPayloadSize::AtMost(10).accepts(10));
}

#[test]
fn test_maximum_payload_size_upper_limit_rejects_above() {
    assert!(!MaximumPayloadSize::AtMost(10).accepts(32));
}

fn send_compact_frame() -> Vec<u8> {
    vec![
        0xf9, 0xbe, 0xb4, 0xd9, // main chain
        b's', b'e', b'n', b'd', b'c', b'm', b'p', b'c', b't', 0, 0, 0, // command
        0x09, 0, 0, 0, // payload size
        0xe9, 0x2f, 0x5e, 0xf8, // checksum
        0, 2, 0, 0, 0, 0, 0, 0, 0, // payload
    ]
}

#[test]
fn test_send_message() {
    let data = SendCompactMessage {
        announce: false,
        version: 2,
    };

    let mut output = vec![];
    send_message(&mut output, Chain::Main, &Message::SendCompact(data)).unwrap();

    assert_eq!(output, send_compact_frame());
}

#[test]
fn test_receive_message() {
    let send_compact_message = send_compact_frame();

    let received = receive_message(Chain::Main, &mut ByteReader::new(&send_compact_message)).unwrap();

    let Message::SendCompact(message) = received else {
        panic!("Deserialized to wrong type");
    };

    assert_eq!(message.announce, false);
    assert_eq!(message.version, 2);
}

#[test]
fn test_receive_message_invalid_chain() {
    let mut send_compact_message = send_compact_frame();
    send_compact_message[..4].copy_from_slice(&[0x89, 0xAB, 0xCD, 0xEF]);

    let error = receive_message(Chain::Main, &mut ByteReader::new(&send_compact_message)).unwrap_err();

    assert_eq!(error, Error::InvalidChain(0x89ABCDEF));
}

#[test]
fn test_receive_message_wrong_chain() {
    let mut send_compact_message = send_compact_frame();
    send_compact_message[..4].copy_from_slice(&[0xFA, 0xBF, 0xB5, 0xDA]);

    let error =
        receive_message(Chain::TestNet, &mut ByteReader::new(&send_compact_message)).unwrap_err();

    assert_eq!(
        error,
        Error::WrongChain {
            expected: Chain::TestNet,
            received: Chain::RegTest
        }
    );
}

#[test]
fn test_receive_message_invalid_payload_size() {
    let mut send_compact_message = send_compact_frame();
    send_compact_message[16] = 0x05;

    let error = receive_message(Chain::Main, &mut ByteReader::new(&send_compact_message)).unwrap_err();

    assert_eq!(
        error,
        Error::InvalidPayloadSize {
            expected: MaximumPayloadSize::Exact(9),
            received: 5
        }
    );
}

#[test]
fn test_receive_message_payload_too_big() {
    let mut send_compact_message = send_compact_frame();
    // extra bytes to try to overflow
    send_compact_message.extend([0, 0]);
    send_compact_message.extend(&send_compact_frame()[..24]);

    let mut input_buffer = ByteReader::new(&send_compact_message);

    let received = receive_message(Chain::Main, &mut input_buffer).unwrap();

    let Message::SendCompact(message) = received else {
        panic!("Deserialized to wrong type");
    };

    assert_eq!(message.announce, false);
    assert_eq!(message.version, 2);

    let error = receive_message(Chain::Main, &mut input_buffer).unwrap_err();

    assert_eq!(error, Error::InvalidChain(0x0000F9BE));
}

#[test]
fn test_receive_message_wrong_checksum() {
    let mut send_compact_message = send_compact_frame();
    send_compact_message[23] = 0xf9;

    let mut input_buffer = ByteReader::new(&send_compact_message);

    let error = receive_message(Chain::Main, &mut input_buffer).unwrap_err();

    assert_eq!(
        error,
        Error::InvalidChecksum {
            received: 0xE92F5EF9,
            expected: 0xE92F5EF8
        }
    );
}

#[test]
fn unknown_command_is_refused() {
    let mut frame = send_compact_frame();
    frame[4..16].copy_from_slice(b"inv\0\0\0\0\0\0\0\0\0");
    let error = receive_message(Chain::Main, &mut ByteReader::new(&frame)).unwrap_err();
    assert_eq!(error, Error::UnknownCommand(*b"inv\0\0\0\0\0\0\0\0\0"));
}

#[test]
fn truncated_frames_are_refused() {
    let frame = send_compact_frame();
    let error = receive_message(Chain::Main, &mut ByteReader::new(&frame[..20])).unwrap_err();
    assert_eq!(error, Error::UnexpectedEnd);
    let mut reader = ByteReader::new(&frame[..30]);
    assert_eq!(receive_message(Chain::Main, &mut reader).unwrap_err(), Error::UnexpectedEnd);
    assert_eq!(reader.position(), 30);
}

#[test]
fn trailing_payload_bytes_are_refused() {
    let payload = [0u8; 3];
    assert_eq!(
        Message::deserialize(MessageKind::VersionAck, payload.to_vec()).unwrap_err(),
        Error::TrailingBytes(3)
    );
}

#[test]
fn each_chain_reads_back_from_its_magic() {
    for chain in [Chain::Main, Chain::TestNet, Chain::RegTest] {
        assert_eq!(Chain::from_magic(chain.magic()), Ok(chain));
    }
    assert_eq!(Chain::Main.magic(), 0xf9beb4d9);
    assert_eq!(Chain::TestNet.magic(), 0x0b110907);
    assert_eq!(Chain::RegTest.magic(), 0xfabfb5da);
}

const ALL_KINDS: [MessageKind; 9] = [
    MessageKind::Version,
    MessageKind::VersionAck,
    MessageKind::Ping,
    MessageKind::Pong,
    MessageKind::SendCompact,
    MessageKind::GetHeaders,
    MessageKind::FeeFilter,
    MessageKind::WTxIdRelay,
    MessageKind::SendAddrV2,
];

#[test]
fn each_kind_reads_back_from_its_command() {
    for kind in ALL_KINDS {
        assert_eq!(MessageKind::from_command(kind.command()), Ok(kind));
    }
    assert_eq!(&MessageKind::GetHeaders.command(), b"getheaders\0\0");
}

#[test]
fn payload_size_limits() {
    assert_eq!(MessageKind::Version.maximum_allowed_size(), MaximumPayloadSize::AtMost(512));
    assert_eq!(MessageKind::GetHeaders.maximum_allowed_size(), MaximumPayloadSize::AtMost(2048));
    assert_eq!(MessageKind::SendCompact.maximum_allowed_size(), MaximumPayloadSize::Exact(9));
    assert_eq!(MessageKind::Ping.maximum_allowed_size(), MaximumPayloadSize::Exact(8));
    assert_eq!(MessageKind::VersionAck.maximum_allowed_size(), MaximumPayloadSize::Exact(0));
}

#[test]
fn every_kind_of_frame_reads_back() {
    let messages = vec![
        Message::VersionAck(VersionAckMessage),
        Message::Ping(PingMessage(7)),
        Message::Pong(PongMessage(u64::MAX)),
        Message::SendCompact(SendCompactMessage { announce: true, version: 1 }),
        Message::GetHeaders(GetHeadersMessage {
            version: 70016,
            hashes: vec![BlockHeaderHash { hash: [7; 32] }, BlockHeaderHash { hash: [9; 32] }],
            stop_hash: BlockHeaderHash { hash: [1; 32] },
        }),
        Message::FeeFilter(FeeFilterMessage { fee_rate: 1000 }),
        Message::WTxIdRelay(WTxIdRelayMessage),
        Message::SendAddrV2(SendAddrV2Message),
    ];
    for message in messages {
        let mut frame = vec![];
        send_message(&mut frame, Chain::RegTest, &message).unwrap();
        frame.extend([1, 2, 3]);
        let mut reader = ByteReader::new(&frame);
        let back = receive_message(Chain::RegTest, &mut reader).unwrap();
        assert_eq!(format!("{back:?}"), format!("{message:?}"));
        assert_eq!(reader.remaining(), 3);
    }
}

#[test]
fn header_is_parsed_on_its_own() {
    let frame = send_compact_frame();
    let header: [u8; 24] = frame[..24].try_into().unwrap();
    let parsed = parse_header(Chain::Main, &header).unwrap();
    assert_eq!(parsed.kind, MessageKind::SendCompact);
    assert_eq!(parsed.payload_size, 9);
    assert_eq!(parsed.checksum, 0xe92f5ef8);
    let message = parsed.decode_payload(frame[24..].to_vec()).unwrap();
    assert_eq!(message.kind(), MessageKind::SendCompact);
    assert_eq!(
        parse_header(Chain::TestNet, &header).unwrap_err(),
        Error::WrongChain { expected: Chain::TestNet, received: Chain::Main }
    );
}

#[test]
fn frame_on_another_chain_is_refused() {
    let mut frame = vec![];
    send_message(&mut frame, Chain::Main, &Message::Ping(PingMessage(1))).unwrap();
    let error = receive_message(Chain::RegTest, &mut ByteReader::new(&frame)).unwrap_err();
    assert_eq!(error, Error::WrongChain { expected: Chain::RegTest, received: Chain::Main });
}
