use blockchain_handshake::address::{IpAddress, SocketAddress};
use blockchain_handshake::connection::{
    BlockchainConnection, ClientConfig, HandShakeStateMachine, SUPPORTED_SERVICES,
    SUPPORTED_VERSION,
};
use blockchain_handshake::error::Error;
use blockchain_handshake::message::{
    BlockHeaderHash, FeeFilterMessage, GetHeadersMessage, Message, MessageKind,
    NetworkAddressForVersion, PingMessage, PongMessage, SendAddrV2Message, SendCompactMessage,
    VersionAckMessage, VersionMessage, WTxIdRelayMessage,
};
use blockchain_handshake::networking::{receive_message, send_message, Chain};
use blockchain_handshake::serialization::{ByteReader, Timestamp};
use blockchain_handshake::testing::decode_bytes;
use std::time::{SystemTime, UNIX_EPOCH};

fn testing_client_config() -> ClientConfig {
    ClientConfig::default_with_user_agent("TestingClient".to_string())
}

fn now() -> Timestamp {
    Timestamp(SystemTime::now().duration_since(UNIX_EPOCH).unwrap().as_secs() as i64)
}

fn us() -> SocketAddress {
    SocketAddress { ip: IpAddress::V4([10, 102, 3, 0]), port: 8333 }
}

fn them() -> SocketAddress {
    SocketAddress { ip: IpAddress::V4([172, 17, 0, 2]), port: 8333 }
}

fn send_to_sm(sm: &mut HandShakeStateMachine, chain: Chain, msg: Message) -> Result<(), Error> {
    let mut input = vec![];
    send_message(&mut input, chain, &msg)?;
    let mut output = vec![];

    sm.next_state(&mut ByteReader::new(&input), &mut output, now())?;

    assert!(output.is_empty());
    Ok(())
}

fn receive_from_sm(sm: &mut HandShakeStateMachine, chain: Chain) -> Result<Message, Error> {
    let input: Vec<u8> = vec![];
    let mut output = vec![];
    let mut reader = ByteReader::new(&input);

    sm.next_state(&mut reader, &mut output, now())?;

    let deserialized = receive_message(chain, &mut ByteReader::new(&output))?;
    assert_eq!(reader.position(), 0);
    Ok(deserialized)
}

/// Replicates the network communication from a test using a local blockchain node
#[test]
fn smoke_test_handshake() {
    let config = testing_client_config();

    let mut reader = vec![];
    let writer = vec![];

    reader.extend(decode_bytes("+b602XZlcnNpb24AAAAAAGYAAACx39uS"));
    reader.extend(decode_bytes("gBEBAAkEAAAAAAAAJGkPZQAAAAAAAAAAAAAAAAAAAAAAAAAAAAAAAAAAAAAAAAkEAAAAAAAAAAAAAAAAAAAAAAAAAAAAAAAAogitpThFWBwQL1NhdG9zaGk6MjUuMC4wLwAAAAAB"));

    reader.extend(decode_bytes("+b602Xd0eGlkcmVsYXkAAAAAAABd9uDi"));
    reader.extend(decode_bytes(""));

    reader.extend(decode_bytes("+b602XNlbmRhZGRydjIAAAAAAABd9uDi"));
    reader.extend(decode_bytes(""));

    reader.extend(decode_bytes("+b602XZlcmFjawAAAAAAAAAAAABd9uDi"));
    reader.extend(decode_bytes(""));

    reader.extend(decode_bytes("+b602XNlbmRjbXBjdAAAAAkAAADpL174"));
    reader.extend(decode_bytes("AAIAAAAAAAAA"));

    reader.extend(decode_bytes("+b602XBpbmcAAAAAAAAAAAgAAACwY0uh"));
    reader.extend(decode_bytes("IrahJ/vs17E"));

    reader.extend(decode_bytes("+b602WdldGhlYWRlcnMAAEUAAAAdNv5T"));
    reader.extend(decode_bytes("gBEBAAFv4owKtvGzcsGmokauY/dPkx6DZeFaCJxo1hkAAAAAAAAAAAAAAAAAAAAAAAAAAAAAAAAAAAAAAAAAAAAAAAAA"));

    reader.extend(decode_bytes("+b602WZlZWZpbHRlcgAAAAgAAABGhxVs"));
    reader.extend(decode_bytes("NfCLAAAAAAA"));

    let connection =
        BlockchainConnection::start(config, us(), them(), ByteReader::new(&reader), writer, now())
            .unwrap();

    // Should consume the whole input
    assert_eq!(connection.read_position(), reader.len());
}

#[test]
fn test_full_handshake_state_machine() {
    let config = testing_client_config();

    let mut sm = HandShakeStateMachine::start(config.clone(), us(), them());

    let Message::Version(deserialized_version) = receive_from_sm(&mut sm, config.chain).unwrap()
    else {
        panic!("Expected version");
    };
    let expected_version = VersionMessage {
        version: SUPPORTED_VERSION,
        services: SUPPORTED_SERVICES,
        timestamp: deserialized_version.timestamp,
        addr_recv: NetworkAddressForVersion::new(them(), 0),
        addr_trans: NetworkAddressForVersion::new(us(), SUPPORTED_SERVICES),
        nonce: deserialized_version.nonce,
        user_agent: config.user_agent.clone(),
        start_height: 0,
        relay: false,
    };

    assert_eq!(deserialized_version, expected_version);

    let other_side_version = VersionMessage {
        version: SUPPORTED_VERSION,
        services: 1003,
        timestamp: deserialized_version.timestamp,
        addr_recv: NetworkAddressForVersion::null(),
        addr_trans: NetworkAddressForVersion::new(them(), 1003),
        nonce: 123456789,
        user_agent: "Mocked".to_string(),
        start_height: 1,
        relay: true,
    };

    send_to_sm(&mut sm, config.chain, Message::Version(other_side_version)).unwrap();

    send_to_sm(&mut sm, config.chain, Message::WTxIdRelay(WTxIdRelayMessage)).unwrap();

    send_to_sm(&mut sm, config.chain, Message::SendAddrV2(SendAddrV2Message)).unwrap();

    send_to_sm(&mut sm, config.chain, Message::VersionAck(VersionAckMessage)).unwrap();

    assert_eq!(
        receive_from_sm(&mut sm, config.chain).unwrap().kind(),
        MessageKind::WTxIdRelay
    );
    assert_eq!(
        receive_from_sm(&mut sm, config.chain).unwrap().kind(),
        MessageKind::SendAddrV2
    );
    assert_eq!(
        receive_from_sm(&mut sm, config.chain).unwrap().kind(),
        MessageKind::VersionAck
    );

    let send_compact_message = SendCompactMessage {
        announce: false,
        version: 2,
    };
    send_to_sm(&mut sm, config.chain, Message::SendCompact(send_compact_message)).unwrap();

    let ping_nonce = 987654321;
    send_to_sm(&mut sm, config.chain, Message::Ping(PingMessage(ping_nonce))).unwrap();

    let Message::Pong(PongMessage(pong_nonce)) = receive_from_sm(&mut sm, config.chain).unwrap()
    else {
        panic!("Expected pong");
    };

    assert_eq!(ping_nonce, pong_nonce);

    let get_headers_message = GetHeadersMessage {
        version: SUPPORTED_VERSION,
        hashes: vec![BlockHeaderHash {
            hash: rand::random(),
        }],
        stop_hash: BlockHeaderHash {
            hash: rand::random(),
        },
    };
    send_to_sm(&mut sm, config.chain, Message::GetHeaders(get_headers_message)).unwrap();

    send_to_sm(&mut sm, config.chain, Message::FeeFilter(FeeFilterMessage { fee_rate: 123 }))
        .unwrap();

    assert!(sm.finished());
}

fn version_from_other_side(deserialized_version: &VersionMessage) -> VersionMessage {
    VersionMessage {
        version: SUPPORTED_VERSION,
        services: 1003,
        timestamp: deserialized_version.timestamp,
        addr_recv: NetworkAddressForVersion::null(),
        addr_trans: NetworkAddressForVersion::new(them(), 1003),
        nonce: 123456789,
        user_agent: "Mocked".to_string(),
        start_height: 1,
        relay: true,
    }
}

#[test]
fn test_handkshake_fails_with_different_versions() {
    let config = testing_client_config();

    let mut sm = HandShakeStateMachine::start(config.clone(), us(), them());

    let Message::Version(deserialized_version) = receive_from_sm(&mut sm, config.chain).unwrap()
    else {
        panic!("Expected version");
    };

    let other_side_version = version_from_other_side(&deserialized_version);

    let other_side_version_below = VersionMessage {
        version: SUPPORTED_VERSION - 1,
        ..other_side_version.clone()
    };

    let mut below_sm = sm.clone();
    let error = send_to_sm(&mut below_sm, config.chain, Message::Version(other_side_version_below))
        .unwrap_err();

    assert_eq!(
        error,
        Error::VersionMismatch {
            received: 70015,
            expected: 70016
        }
    );

    let other_side_version_above = VersionMessage {
        version: SUPPORTED_VERSION + 1,
        ..other_side_version.clone()
    };
    let mut above_sm = sm.clone();
    let error = send_to_sm(&mut above_sm, config.chain, Message::Version(other_side_version_above))
        .unwrap_err();

    assert_eq!(
        error,
        Error::VersionMismatch {
            received: 70017,
            expected: 70016
        }
    );
}

#[test]
fn test_handkshake_fails_with_repeated_nonce() {
    let config = testing_client_config();

    let mut sm = HandShakeStateMachine::start(config.clone(), us(), them());

    let Message::Version(deserialized_version) = receive_from_sm(&mut sm, config.chain).unwrap()
    else {
        panic!("Expected version");
    };

    let other_side_version = VersionMessage {
        nonce: deserialized_version.nonce,
        ..version_from_other_side(&deserialized_version)
    };

    let error = send_to_sm(&mut sm, config.chain, Message::Version(other_side_version)).unwrap_err();

    assert_eq!(
        error,
        Error::SelfConnection {
            nonce: deserialized_version.nonce
        }
    );
}

#[test]
fn test_handkshake_fails_when_receiving_unexpected_message() {
    let config = testing_client_config();

    let mut sm = HandShakeStateMachine::start(config.clone(), us(), them());
    receive_from_sm(&mut sm, config.chain).unwrap();

    let error = send_to_sm(&mut sm, config.chain, Message::Ping(PingMessage(32))).unwrap_err();

    assert_eq!(
        error,
        Error::UnexpectedMessage {
            expected: MessageKind::Version,
            received: MessageKind::Ping
        }
    );
}

#[test]
fn default_configuration() {
    let config = ClientConfig::default_with_user_agent("/agent:1.0/".to_string());
    assert_eq!(config.chain, Chain::Main);
    assert_eq!(config.version, 70016);
    assert_eq!(config.services, 1);
    assert_eq!(config.user_agent, "/agent:1.0/");
}

#[test]
fn failed_step_keeps_the_state() {
    let config = testing_client_config();
    let mut sm = HandShakeStateMachine::start(config.clone(), us(), them());
    let input: Vec<u8> = vec![];
    let mut output = vec![];
    sm.next_state_with_nonce(&mut ByteReader::new(&input), &mut output, now(), 1).unwrap();
    assert!(sm.expects_message());
    send_to_sm(&mut sm, config.chain, Message::Pong(PongMessage(1))).unwrap_err();
    // Still expecting the version: a good one is accepted now.
    let version = VersionMessage::with_nonce(&config, them(), us(), 0, false, now(), 5);
    send_to_sm(&mut sm, config.chain, Message::Version(version)).unwrap();
    assert!(sm.expects_message());
}

#[test]
fn version_step_with_fixed_nonce_is_exact() {
    let config = testing_client_config();
    let mut sm = HandShakeStateMachine::start(config.clone(), us(), them());
    let input: Vec<u8> = vec![];
    let mut output = vec![];
    sm.next_state_with_nonce(&mut ByteReader::new(&input), &mut output, Timestamp(1_700_000_000), 42)
        .unwrap();
    let expected = VersionMessage::with_nonce(&config, us(), them(), 0, false, Timestamp(1_700_000_000), 42);
    let mut expected_frame = vec![];
    send_message(&mut expected_frame, Chain::Main, &Message::Version(expected)).unwrap();
    assert_eq!(output, expected_frame);
    // Our own nonce coming back is a self connection.
    let echoed = VersionMessage::with_nonce(&config, them(), us(), 0, false, Timestamp(1), 42);
    assert_eq!(
        send_to_sm(&mut sm, Chain::Main, Message::Version(echoed)).unwrap_err(),
        Error::SelfConnection { nonce: 42 }
    );
}

#[test]
fn sending_version_before_epoch_fails_and_keeps_state() {
    let config = testing_client_config();
    let mut sm = HandShakeStateMachine::start(config, us(), them());
    let input: Vec<u8> = vec![];
    let mut output = vec![];
    let error = sm
        .next_state(&mut ByteReader::new(&input), &mut output, Timestamp(-5))
        .unwrap_err();
    assert_eq!(error, Error::TimestampBeforeEpoch(-5));
    assert!(output.is_empty());
    assert!(!sm.expects_message());
    assert!(!sm.finished());
}

#[test]
fn finished_handshake_refuses_more_steps() {
    let config = testing_client_config();
    let mut sm = HandShakeStateMachine::start(config.clone(), us(), them());
    let input: Vec<u8> = vec![];
    let mut output = vec![];
    sm.next_state_with_nonce(&mut ByteReader::new(&input), &mut output, now(), 1).unwrap();
    send_to_sm(
        &mut sm,
        config.chain,
        Message::Version(VersionMessage::with_nonce(&config, them(), us(), 0, false, now(), 2)),
    )
    .unwrap();
    send_to_sm(&mut sm, config.chain, Message::WTxIdRelay(WTxIdRelayMessage)).unwrap();
    send_to_sm(&mut sm, config.chain, Message::SendAddrV2(SendAddrV2Message)).unwrap();
    send_to_sm(&mut sm, config.chain, Message::VersionAck(VersionAckMessage)).unwrap();
    for _ in 0..3 {
        receive_from_sm(&mut sm, config.chain).unwrap();
    }
    send_to_sm(
        &mut sm,
        config.chain,
        Message::SendCompact(SendCompactMessage { announce: true, version: 1 }),
    )
    .unwrap();
    send_to_sm(&mut sm, config.chain, Message::Ping(PingMessage(3))).unwrap();
    receive_from_sm(&mut sm, config.chain).unwrap();
    send_to_sm(
        &mut sm,
        config.chain,
        Message::GetHeaders(GetHeadersMessage {
            version: 1,
            hashes: vec![],
            stop_hash: BlockHeaderHash { hash: [0; 32] },
        }),
    )
    .unwrap();
    send_to_sm(&mut sm, config.chain, Message::FeeFilter(FeeFilterMessage { fee_rate: 1 })).unwrap();
    assert!(sm.finished());
    assert_eq!(
        sm.next_state(&mut ByteReader::new(&input), &mut output, now()).unwrap_err(),
        Error::AlreadyFinished
    );
    assert!(sm.finished());
}

fn frames(messages: Vec<Message>) -> Vec<u8> {
    let mut out = vec![];
    for m in messages {
        send_message(&mut out, Chain::Main, &m).unwrap();
    }
    out
}

fn handshaken(peer_after_handshake: Vec<Message>) -> (Vec<u8>, usize) {
    let config = testing_client_config();
    let peer_version = VersionMessage::with_nonce(&config, them(), us(), 5, true, now(), 77);
    let mut input = frames(vec![
        Message::Version(peer_version),
        Message::WTxIdRelay(WTxIdRelayMessage),
        Message::SendAddrV2(SendAddrV2Message),
        Message::VersionAck(VersionAckMessage),
        Message::SendCompact(SendCompactMessage { announce: false, version: 2 }),
        Message::Ping(PingMessage(99)),
        Message::GetHeaders(GetHeadersMessage {
            version: 70016,
            hashes: vec![],
            stop_hash: BlockHeaderHash { hash: [0; 32] },
        }),
        Message::FeeFilter(FeeFilterMessage { fee_rate: 1 }),
    ]);
    let handshake_len = input.len();
    input.extend(frames(peer_after_handshake));
    (input, handshake_len)
}

#[test]
fn ping_is_answered_by_matching_pong() {
    let (input, handshake_len) = handshaken(vec![Message::Pong(PongMessage(10))]);
    let mut connection = BlockchainConnection::start_with_nonce(
        testing_client_config(),
        us(),
        them(),
        ByteReader::new(&input),
        vec![],
        now(),
        1,
    )
    .unwrap();
    assert_eq!(connection.read_position(), handshake_len);
    let written_before = connection.written().len();
    connection.ping().unwrap();
    assert_eq!(connection.read_position(), input.len());
    let mut reader = ByteReader::new(&connection.written()[written_before..]);
    let sent = receive_message(Chain::Main, &mut reader).unwrap();
    assert!(matches!(sent, Message::Ping(PingMessage(10))));
}

#[test]
fn ping_with_wrong_pong_is_refused() {
    let (input, _) = handshaken(vec![Message::Pong(PongMessage(11))]);
    let mut connection = BlockchainConnection::start_with_nonce(
        testing_client_config(),
        us(),
        them(),
        ByteReader::new(&input),
        vec![],
        now(),
        1,
    )
    .unwrap();
    assert_eq!(connection.ping().unwrap_err(), Error::PongMismatch { ping: 10, pong: 11 });
}

#[test]
fn ping_answered_by_other_message_is_refused() {
    let (input, _) = handshaken(vec![Message::Ping(PingMessage(10))]);
    let mut connection = BlockchainConnection::start_with_nonce(
        testing_client_config(),
        us(),
        them(),
        ByteReader::new(&input),
        vec![],
        now(),
        1,
    )
    .unwrap();
    assert_eq!(
        connection.ping().unwrap_err(),
        Error::UnexpectedMessage { expected: MessageKind::Pong, received: MessageKind::Ping }
    );
}

#[test]
fn handshake_answers_the_peer_ping_with_its_nonce() {
    let (input, _) = handshaken(vec![]);
    let connection = BlockchainConnection::start_with_nonce(
        testing_client_config(),
        us(),
        them(),
        ByteReader::new(&input),
        vec![],
        now(),
        1,
    )
    .unwrap();
    let written = connection.written().clone();
    let mut reader = ByteReader::new(&written);
    let mut kinds = vec![];
    let mut pong = None;
    while reader.remaining() > 0 {
        let m = receive_message(Chain::Main, &mut reader).unwrap();
        kinds.push(m.kind());
        if let Message::Pong(p) = m {
            pong = Some(p.0);
        }
    }
    assert_eq!(
        kinds,
        vec![
            MessageKind::Version,
            MessageKind::WTxIdRelay,
            MessageKind::SendAddrV2,
            MessageKind::VersionAck,
            MessageKind::Pong
        ]
    );
    assert_eq!(pong, Some(99));
}

#[test]
fn handshake_stops_at_a_truncated_peer() {
    let (input, _) = handshaken(vec![]);
    let error = BlockchainConnection::start_with_nonce(
        testing_client_config(),
        us(),
        them(),
        ByteReader::new(&input[..input.len() - 1]),
        vec![],
        now(),
        1,
    )
    .map(|_| ())
    .unwrap_err();
    assert_eq!(error, Error::UnexpectedEnd);
}

#[test]
fn handshake_calls_send_and_finish_in_order() {
    let config = testing_client_config();
    let mut sm = HandShakeStateMachine::start(config.clone(), us(), them());
    let peer_version = VersionMessage::with_nonce(&config, them(), us(), 1, true, Timestamp(5), 2);
    let peer = vec![
        Some(Message::Version(peer_version)),
        Some(Message::WTxIdRelay(WTxIdRelayMessage)),
        Some(Message::SendAddrV2(SendAddrV2Message)),
        Some(Message::VersionAck(VersionAckMessage)),
        None,
        None,
        None,
        Some(Message::SendCompact(SendCompactMessage { announce: false, version: 2 })),
        Some(Message::Ping(PingMessage(987654321))),
        None,
        Some(Message::GetHeaders(GetHeadersMessage {
            version: 70016,
            hashes: vec![],
            stop_hash: BlockHeaderHash { hash: [3; 32] },
        })),
        Some(Message::FeeFilter(FeeFilterMessage { fee_rate: 123 })),
    ];
    let mut calls: Vec<Option<Message>> = vec![None];
    calls.extend(peer);
    let mut sent_kinds = vec![];
    for (k, incoming) in calls.into_iter().enumerate() {
        let mut input = vec![];
        if let Some(m) = incoming {
            send_message(&mut input, Chain::Main, &m).unwrap();
        }
        let mut output = vec![];
        sm.next_state_with_nonce(&mut ByteReader::new(&input), &mut output, Timestamp(100), 1)
            .unwrap();
        if !output.is_empty() {
            let m = receive_message(Chain::Main, &mut ByteReader::new(&output)).unwrap();
            if let Message::Pong(p) = &m {
                assert_eq!(p.0, 987654321);
            }
            sent_kinds.push((k, m.kind()));
        }
        assert_eq!(sm.finished(), k == 12);
    }
    assert_eq!(
        sent_kinds,
        vec![
            (0, MessageKind::Version),
            (5, MessageKind::WTxIdRelay),
            (6, MessageKind::SendAddrV2),
            (7, MessageKind::VersionAck),
            (10, MessageKind::Pong)
        ]
    );
}
