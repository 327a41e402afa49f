//! The client's configuration and the handshake with a peer.
use vstd::prelude::*;
use crate::address::SocketAddress;
use crate::error::Error;
use crate::message::{
    message_kind, message_payload, random_nonce, version_message_for, Message, MessageKind,
    MessageView, PingMessage, PongMessage, SendAddrV2Message, VersionAckMessage, VersionMessage,
    VersionView, WTxIdRelayMessage,
};
use crate::networking::{frame_bytes, receive_message, receive_spec, send_message, Chain};
use crate::serialization::{le_u64, ByteReader, Timestamp};

verus! {

/// The protocol version that this client speaks.
pub const SUPPORTED_VERSION: i32 = 70016;

/// The services that this client announces.
pub const SUPPORTED_SERVICES: u64 = 1;

/// How this client presents itself to a peer.
#[derive(Debug)]
pub struct ClientConfig {
    pub chain: Chain,
    pub version: i32,
    pub services: u64,
    pub user_agent: String,
}

pub struct ClientConfigView {
    pub chain: Chain,
    pub version: i32,
    pub services: u64,
    pub user_agent: Seq<char>,
}

impl View for ClientConfig {
    type V = ClientConfigView;

    open spec fn view(&self) -> ClientConfigView {
        ClientConfigView {
            chain: self.chain,
            version: self.version,
            services: self.services,
            user_agent: self.user_agent@,
        }
    }
}

impl Clone for ClientConfig {
    fn clone(&self) -> (r: Self)
        ensures
            r@ == self@,
    {
        ClientConfig {
            chain: self.chain,
            version: self.version,
            services: self.services,
            user_agent: self.user_agent.clone(),
        }
    }
}

impl ClientConfig {
    /// The main chain, the supported version and services, and `user_agent`.
    pub fn default_with_user_agent(user_agent: String) -> (r: Self)
        ensures
            r@ == (ClientConfigView {
                chain: Chain::Main,
                version: SUPPORTED_VERSION,
                services: SUPPORTED_SERVICES,
                user_agent: user_agent@,
            }),
    {
        ClientConfig {
            chain: Chain::Main,
            version: SUPPORTED_VERSION,
            services: SUPPORTED_SERVICES,
            user_agent,
        }
    }
}

/// Where the handshake stands: the next message to send, or the next to expect.
#[derive(Clone, Copy, Debug, PartialEq, Eq)]
pub enum HandShakeState {
    ToSendVersion(SocketAddress, SocketAddress),
    ExpectingVersion(u64),
    ExpectingWtxIdRelay,
    ExpectingSendAddrV2,
    ExpectingVersionAck,
    ToSendWTxIdRelay,
    ToSendSendAddrV2,
    ToSendVersionAck,
    ExpectingSendCompact,
    ExpectingPing,
    ToSendPong(u64),
    ExpectingGetHeaders,
    ExpectingFeeFilter,
}

/// The states in which the next step reads a message.
pub open spec fn expects_message(state: HandShakeState) -> bool {
    match state {
        HandShakeState::ExpectingVersion(_) | HandShakeState::ExpectingWtxIdRelay
        | HandShakeState::ExpectingSendAddrV2 | HandShakeState::ExpectingVersionAck
        | HandShakeState::ExpectingSendCompact | HandShakeState::ExpectingPing
        | HandShakeState::ExpectingGetHeaders | HandShakeState::ExpectingFeeFilter => true,
        _ => false,
    }
}

/// How many steps are left before the handshake is over.
pub open spec fn steps_left(state: Option<HandShakeState>) -> nat {
    match state {
        None => 0,
        Some(s) => match s {
            HandShakeState::ToSendVersion(_, _) => 13,
            HandShakeState::ExpectingVersion(_) => 12,
            HandShakeState::ExpectingWtxIdRelay => 11,
            HandShakeState::ExpectingSendAddrV2 => 10,
            HandShakeState::ExpectingVersionAck => 9,
            HandShakeState::ToSendWTxIdRelay => 8,
            HandShakeState::ToSendSendAddrV2 => 7,
            HandShakeState::ToSendVersionAck => 6,
            HandShakeState::ExpectingSendCompact => 5,
            HandShakeState::ExpectingPing => 4,
            HandShakeState::ToSendPong(_) => 3,
            HandShakeState::ExpectingGetHeaders => 2,
            HandShakeState::ExpectingFeeFilter => 1,
        },
    }
}

/// The message that a sending state sends; the version message carries `now` and `nonce`.
pub open spec fn outgoing_message(
    config: ClientConfigView,
    state: HandShakeState,
    now: i64,
    nonce: u64,
) -> MessageView {
    match state {
        HandShakeState::ToSendVersion(us, them) => MessageView::Version(
            version_message_for(config, us@, them@, 0, false, now, nonce),
        ),
        HandShakeState::ToSendWTxIdRelay => MessageView::WTxIdRelay(WTxIdRelayMessage),
        HandShakeState::ToSendSendAddrV2 => MessageView::SendAddrV2(SendAddrV2Message),
        HandShakeState::ToSendVersionAck => MessageView::VersionAck(VersionAckMessage),
        HandShakeState::ToSendPong(n) => MessageView::Pong(PongMessage(n)),
        _ => MessageView::VersionAck(VersionAckMessage),
    }
}

/// The state after a sending state has sent its message.
pub open spec fn state_after_send(state: HandShakeState, nonce: u64) -> Option<HandShakeState> {
    match state {
        HandShakeState::ToSendVersion(_, _) => Some(HandShakeState::ExpectingVersion(nonce)),
        HandShakeState::ToSendWTxIdRelay => Some(HandShakeState::ToSendSendAddrV2),
        HandShakeState::ToSendSendAddrV2 => Some(HandShakeState::ToSendVersionAck),
        HandShakeState::ToSendVersionAck => Some(HandShakeState::ExpectingSendCompact),
        HandShakeState::ToSendPong(_) => Some(HandShakeState::ExpectingGetHeaders),
        _ => Some(state),
    }
}

/// A received message of the expected kind moves to `next`; any other kind is refused.
pub open spec fn expect_kind(
    expected: MessageKind,
    received: MessageView,
    next: Option<HandShakeState>,
) -> Result<Option<HandShakeState>, Error> {
    if message_kind(received) == expected {
        Ok(next)
    } else {
        Err(Error::UnexpectedMessage { expected, received: message_kind(received) })
    }
}

/// The state after an expecting state has received `received`, or why it is refused.
/// The peer's version must equal ours and its nonce must differ from the one we sent;
/// a ping's nonce is kept for the pong.
pub open spec fn state_after_receive(
    config: ClientConfigView,
    state: HandShakeState,
    received: MessageView,
) -> Result<Option<HandShakeState>, Error> {
    match state {
        HandShakeState::ExpectingVersion(sent_nonce) => match received {
            MessageView::Version(v) => if v.version != config.version {
                Err(Error::VersionMismatch { received: v.version, expected: config.version })
            } else if v.nonce == sent_nonce {
                Err(Error::SelfConnection { nonce: v.nonce })
            } else {
                Ok(Some(HandShakeState::ExpectingWtxIdRelay))
            },
            _ => Err(
                Error::UnexpectedMessage {
                    expected: MessageKind::Version,
                    received: message_kind(received),
                },
            ),
        },
        HandShakeState::ExpectingWtxIdRelay => expect_kind(
            MessageKind::WTxIdRelay,
            received,
            Some(HandShakeState::ExpectingSendAddrV2),
        ),
        HandShakeState::ExpectingSendAddrV2 => expect_kind(
            MessageKind::SendAddrV2,
            received,
            Some(HandShakeState::ExpectingVersionAck),
        ),
        HandShakeState::ExpectingVersionAck => expect_kind(
            MessageKind::VersionAck,
            received,
            Some(HandShakeState::ToSendWTxIdRelay),
        ),
        HandShakeState::ExpectingSendCompact => expect_kind(
            MessageKind::SendCompact,
            received,
            Some(HandShakeState::ExpectingPing),
        ),
        HandShakeState::ExpectingPing => match received {
            MessageView::Ping(p) => Ok(Some(HandShakeState::ToSendPong(p.0))),
            _ => Err(
                Error::UnexpectedMessage {
                    expected: MessageKind::Ping,
                    received: message_kind(received),
                },
            ),
        },
        HandShakeState::ExpectingGetHeaders => expect_kind(
            MessageKind::GetHeaders,
            received,
            Some(HandShakeState::ExpectingFeeFilter),
        ),
        HandShakeState::ExpectingFeeFilter => expect_kind(MessageKind::FeeFilter, received, None),
        _ => Ok(Some(state)),
    }
}

/// What one step of the handshake did: its result, the state after it, the
/// bytes it sent, and the read position after it.
pub struct StepOutcome {
    pub result: Result<(), Error>,
    pub state: Option<HandShakeState>,
    pub sent: Seq<u8>,
    pub pos: int,
}

/// One step from `state`, reading frames from `data` at `pos`, at time `now`,
/// with `nonce` for a version message. A step that fails keeps the state and sends nothing.
#[verifier::opaque]
pub open spec fn handshake_step(
    config: ClientConfigView,
    state: Option<HandShakeState>,
    data: Seq<u8>,
    pos: int,
    now: i64,
    nonce: u64,
) -> StepOutcome {
    match state {
        None => StepOutcome { result: Err(Error::AlreadyFinished), state, sent: Seq::empty(), pos },
        Some(s) => if expects_message(s) {
            let (received, p) = receive_spec(config.chain, data, pos);
            match received {
                Err(e) => StepOutcome { result: Err(e), state, sent: Seq::empty(), pos: p },
                Ok(m) => match state_after_receive(config, s, m) {
                    Err(e) => StepOutcome { result: Err(e), state, sent: Seq::empty(), pos: p },
                    Ok(next) => StepOutcome { result: Ok(()), state: next, sent: Seq::empty(), pos: p },
                },
            }
        } else {
            let m = outgoing_message(config, s, now, nonce);
            let (payload, serialized) = message_payload(m);
            match serialized {
                Err(e) => StepOutcome { result: Err(e), state, sent: Seq::empty(), pos },
                Ok(_) => StepOutcome {
                    result: Ok(()),
                    state: state_after_send(s, nonce),
                    sent: frame_bytes(config.chain, message_kind(m), payload),
                    pos,
                },
            }
        },
    }
}

/// The handshake state machine of this client.
#[derive(Debug)]
pub struct HandShakeStateMachine {
    config: ClientConfig,
    state: Option<HandShakeState>,
}

pub struct HandShakeView {
    pub config: ClientConfigView,
    pub state: Option<HandShakeState>,
}

impl View for HandShakeStateMachine {
    type V = HandShakeView;

    closed spec fn view(&self) -> HandShakeView {
        HandShakeView { config: self.config@, state: self.state }
    }
}

impl Clone for HandShakeStateMachine {
    fn clone(&self) -> (r: Self)
        ensures
            r@ == self@,
    {
        HandShakeStateMachine { config: self.config.clone(), state: self.state }
    }
}

/// `after` is what a step from `before` with `nonce` leaves: the machine, the reader and the writer.
pub open spec fn step_taken(
    before: HandShakeView,
    after: HandShakeView,
    input: Seq<u8>,
    pos_before: int,
    pos_after: int,
    written_before: Seq<u8>,
    written_after: Seq<u8>,
    result: Result<(), Error>,
    now: i64,
    nonce: u64,
) -> bool {
    let o = handshake_step(before.config, before.state, input, pos_before, now, nonce);
    &&& after.config == before.config
    &&& after.state == o.state
    &&& result == o.result
    &&& pos_after == o.pos
    &&& written_after == written_before + o.sent
}

impl HandShakeStateMachine {
    /// A handshake from `us` to `them` that begins by sending our version.
    pub fn start(config: ClientConfig, us: SocketAddress, them: SocketAddress) -> (r: Self)
        ensures
            r@ == (HandShakeView {
                config: config@,
                state: Some(HandShakeState::ToSendVersion(us, them)),
            }),
    {
        HandShakeStateMachine { config, state: Some(HandShakeState::ToSendVersion(us, them)) }
    }

    /// Whether the handshake is over.
    pub fn finished(&self) -> (r: bool)
        ensures
            r == self@.state is None,
    {
        self.state.is_none()
    }

    /// Whether the next step reads a message (rather than sends one).
    pub fn expects_message(&self) -> (r: bool)
        ensures
            r == (self@.state matches Some(s) && expects_message(s)),
    {
        match self.state {
            Some(HandShakeState::ExpectingVersion(_)) | Some(HandShakeState::ExpectingWtxIdRelay)
            | Some(HandShakeState::ExpectingSendAddrV2) | Some(HandShakeState::ExpectingVersionAck)
            | Some(HandShakeState::ExpectingSendCompact) | Some(HandShakeState::ExpectingPing)
            | Some(HandShakeState::ExpectingGetHeaders) | Some(HandShakeState::ExpectingFeeFilter) => true,
            _ => false,
        }
    }

    /// The client configuration.
    pub fn config(&self) -> (r: &ClientConfig)
        ensures
            r@ == self@.config,
    {
        &self.config
    }

    fn ignore_message(&self, reader: &mut ByteReader, expected_kind: MessageKind) -> (r: Result<
        (),
        Error,
    >)
        ensures
            final(reader).data() == old(reader).data(),
            ({
                let (received, p) = receive_spec(self@.config.chain, old(reader).data(), old(reader).pos());
                &&& final(reader).pos() == p
                &&& r == match received {
                    Err(e) => Err(e),
                    Ok(m) => if message_kind(m) == expected_kind {
                        Ok(())
                    } else {
                        Err(Error::UnexpectedMessage { expected: expected_kind, received: message_kind(m) })
                    },
                }
            }),
    {
        let received = receive_message(self.config.chain, reader)?;
        if received.kind() != expected_kind {
            return Err(Error::UnexpectedMessage { expected: expected_kind, received: received.kind() });
        }
        Ok(())
    }

    /// One step of the handshake, with `nonce` as the nonce of our version
    /// message: send the next message to `writer`, or read the next one from
    /// `reader` and check it. A failed step keeps the state.
    pub fn next_state_with_nonce(
        &mut self,
        reader: &mut ByteReader,
        writer: &mut Vec<u8>,
        now: Timestamp,
        nonce: u64,
    ) -> (r: Result<(), Error>)
        ensures
            final(reader).data() == old(reader).data(),
            step_taken(
                old(self)@,
                final(self)@,
                old(reader).data(),
                old(reader).pos(),
                final(reader).pos(),
                old(writer)@,
                final(writer)@,
                r,
                now.0,
                nonce,
            ),
    {
        proof {
            reveal(handshake_step);
        }
        let current_state = match self.state {
            None => {
                proof {
                    assert(writer@ =~= writer@ + Seq::<u8>::empty());
                }
                return Err(Error::AlreadyFinished);
            },
            Some(s) => s,
        };
        let ghost w0 = writer@;
        let next_state = match current_state {
            HandShakeState::ToSendVersion(us, them) => {
                let message = VersionMessage::with_nonce(&self.config, us, them, 0, false, now, nonce);
                let sent_nonce = message.nonce;
                send_message(writer, self.config.chain, &Message::Version(message))?;
                HandShakeState::ExpectingVersion(sent_nonce)
            },
            HandShakeState::ExpectingVersion(sent_nonce) => {
                let received = receive_message(self.config.chain, reader)?;
                let version = match received {
                    Message::Version(v) => v,
                    other => {
                        return Err(
                            Error::UnexpectedMessage {
                                expected: MessageKind::Version,
                                received: other.kind(),
                            },
                        );
                    },
                };
                if version.version != self.config.version {
                    return Err(
                        Error::VersionMismatch {
                            received: version.version,
                            expected: self.config.version,
                        },
                    );
                }
                if version.nonce == sent_nonce {
                    return Err(Error::SelfConnection { nonce: version.nonce });
                }
                HandShakeState::ExpectingWtxIdRelay
            },
            HandShakeState::ExpectingWtxIdRelay => {
                self.ignore_message(reader, MessageKind::WTxIdRelay)?;
                HandShakeState::ExpectingSendAddrV2
            },
            HandShakeState::ExpectingSendAddrV2 => {
                self.ignore_message(reader, MessageKind::SendAddrV2)?;
                HandShakeState::ExpectingVersionAck
            },
            HandShakeState::ExpectingVersionAck => {
                self.ignore_message(reader, MessageKind::VersionAck)?;
                HandShakeState::ToSendWTxIdRelay
            },
            HandShakeState::ToSendWTxIdRelay => {
                send_message(writer, self.config.chain, &Message::WTxIdRelay(WTxIdRelayMessage))?;
                HandShakeState::ToSendSendAddrV2
            },
            HandShakeState::ToSendSendAddrV2 => {
                send_message(writer, self.config.chain, &Message::SendAddrV2(SendAddrV2Message))?;
                HandShakeState::ToSendVersionAck
            },
            HandShakeState::ToSendVersionAck => {
                send_message(writer, self.config.chain, &Message::VersionAck(VersionAckMessage))?;
                HandShakeState::ExpectingSendCompact
            },
            HandShakeState::ExpectingSendCompact => {
                self.ignore_message(reader, MessageKind::SendCompact)?;
                HandShakeState::ExpectingPing
            },
            HandShakeState::ExpectingPing => {
                let received = receive_message(self.config.chain, reader)?;
                let ping = match received {
                    Message::Ping(v) => v,
                    other => {
                        return Err(
                            Error::UnexpectedMessage {
                                expected: MessageKind::Ping,
                                received: other.kind(),
                            },
                        );
                    },
                };
                HandShakeState::ToSendPong(ping.0)
            },
            HandShakeState::ToSendPong(n) => {
                send_message(writer, self.config.chain, &Message::Pong(PongMessage(n)))?;
                HandShakeState::ExpectingGetHeaders
            },
            HandShakeState::ExpectingGetHeaders => {
                self.ignore_message(reader, MessageKind::GetHeaders)?;
                HandShakeState::ExpectingFeeFilter
            },
            HandShakeState::ExpectingFeeFilter => {
                self.ignore_message(reader, MessageKind::FeeFilter)?;
                self.state = None;
                proof {
                    assert(writer@ =~= w0 + Seq::<u8>::empty());
                }
                return Ok(());
            },
        };
        self.state = Some(next_state);
        proof {
            if expects_message(current_state) {
                assert(writer@ =~= w0 + Seq::<u8>::empty());
            }
        }
        Ok(())
    }

    /// One step of the handshake at time `now`; a version message gets a
    /// random nonce. A failed step keeps the state.
    pub fn next_state(&mut self, reader: &mut ByteReader, writer: &mut Vec<u8>, now: Timestamp) -> (r:
        Result<(), Error>)
        ensures
            final(reader).data() == old(reader).data(),
            exists|nonce: u64|
                step_taken(
                    old(self)@,
                    final(self)@,
                    old(reader).data(),
                    old(reader).pos(),
                    final(reader).pos(),
                    old(writer)@,
                    final(writer)@,
                    r,
                    now.0,
                    nonce,
                ),
    {
        let nonce = match self.state {
            Some(HandShakeState::ToSendVersion(_, _)) => random_nonce(),
            _ => 0,
        };
        self.next_state_with_nonce(reader, writer, now, nonce)
    }
}

/// A successful step leaves one step less to go.
pub proof fn lemma_step_progress(
    config: ClientConfigView,
    state: Option<HandShakeState>,
    data: Seq<u8>,
    pos: int,
    now: i64,
    nonce: u64,
)
    requires
        handshake_step(config, state, data, pos, now, nonce).result is Ok,
    ensures
        steps_left(handshake_step(config, state, data, pos, now, nonce).state) + 1 == steps_left(
            state,
        ),
{
    reveal(handshake_step);
    if let Some(s) = state {
        if expects_message(s) {
            let (received, p) = receive_spec(config.chain, data, pos);
            if let Ok(m) = received {
                lemma_receive_progress(config, s, m);
            }
        }
    }
}

proof fn lemma_receive_progress(config: ClientConfigView, state: HandShakeState, received: MessageView)
    requires
        expects_message(state),
        state_after_receive(config, state, received) is Ok,
    ensures
        steps_left(state_after_receive(config, state, received)->Ok_0) + 1 == steps_left(Some(state)),
{
}

/// One unfolding of the whole handshake.
proof fn lemma_run_unfold(
    config: ClientConfigView,
    state: Option<HandShakeState>,
    data: Seq<u8>,
    pos: int,
    now: i64,
    nonce: u64,
)
    requires
        state is Some,
    ensures
        ({
            let o = handshake_step(config, state, data, pos, now, nonce);
            let rest = run_handshake(config, o.state, data, o.pos, now, nonce);
            run_handshake(config, state, data, pos, now, nonce) == if o.result is Ok {
                StepOutcome { result: rest.result, state: rest.state, sent: o.sent + rest.sent, pos: rest.pos }
            } else {
                o
            }
        }),
{
    let o = handshake_step(config, state, data, pos, now, nonce);
    if o.result is Ok {
        lemma_step_progress(config, state, data, pos, now, nonce);
    }
}

/// The whole handshake from `state`: steps until it is over or a step fails.
/// The outcome's `sent` holds everything sent on the way.
pub open spec fn run_handshake(
    config: ClientConfigView,
    state: Option<HandShakeState>,
    data: Seq<u8>,
    pos: int,
    now: i64,
    nonce: u64,
) -> StepOutcome
    decreases steps_left(state),
{
    if state is None {
        StepOutcome { result: Ok(()), state, sent: Seq::empty(), pos }
    } else {
        let o = handshake_step(config, state, data, pos, now, nonce);
        if o.result is Ok && steps_left(o.state) < steps_left(state) {
            let rest = run_handshake(config, o.state, data, o.pos, now, nonce);
            StepOutcome { result: rest.result, state: rest.state, sent: o.sent + rest.sent, pos: rest.pos }
        } else {
            o
        }
    }
}

/// The nonce that this client pings with.
pub const PING_NONCE: u64 = 10;

/// Whether `received` answers our ping: a pong with the same nonce is
/// success; any other message, or another nonce, is refused.
pub open spec fn pong_result(received: MessageView) -> Result<(), Error> {
    match received {
        MessageView::Pong(pong) => if pong.0 != PING_NONCE {
            Err(Error::PongMismatch { ping: PING_NONCE, pong: pong.0 })
        } else {
            Ok(())
        },
        _ => Err(
            Error::UnexpectedMessage { expected: MessageKind::Pong, received: message_kind(received) },
        ),
    }
}

/// What a ping gets back from the frame at `pos`, and the read position after it.
pub open spec fn ping_outcome(chain: Chain, data: Seq<u8>, pos: int) -> (Result<(), Error>, int) {
    let (received, p) = receive_spec(chain, data, pos);
    (
        match received {
            Err(e) => Err(e),
            Ok(m) => pong_result(m),
        },
        p,
    )
}

/// Whether `received` answers our ping: a pong with the same nonce.
pub fn check_pong(received: &Message) -> (r: Result<(), Error>)
    ensures
        r == pong_result(received@),
{
    let pong_nonce = match received {
        Message::Pong(pong) => pong.0,
        other => {
            return Err(
                Error::UnexpectedMessage { expected: MessageKind::Pong, received: other.kind() },
            );
        },
    };
    if PING_NONCE != pong_nonce {
        return Err(Error::PongMismatch { ping: PING_NONCE, pong: pong_nonce });
    }
    Ok(())
}

/// A connection to a peer over in-memory byte streams, after the handshake.
pub struct BlockchainConnection<'a> {
    config: ClientConfig,
    us: SocketAddress,
    them: SocketAddress,
    reader: ByteReader<'a>,
    writer: Vec<u8>,
}

pub struct ConnectionView {
    pub config: ClientConfigView,
    pub us: SocketAddress,
    pub them: SocketAddress,
    pub input: Seq<u8>,
    pub input_pos: int,
    pub output: Seq<u8>,
}

impl<'a> View for BlockchainConnection<'a> {
    type V = ConnectionView;

    closed spec fn view(&self) -> ConnectionView {
        ConnectionView {
            config: self.config@,
            us: self.us,
            them: self.them,
            input: self.reader.data(),
            input_pos: self.reader.pos(),
            output: self.writer@,
        }
    }
}

/// The connection that a handshake with `outcome` leaves, or its error.
pub open spec fn connection_after(
    config: ClientConfigView,
    us: SocketAddress,
    them: SocketAddress,
    input: Seq<u8>,
    output: Seq<u8>,
    outcome: StepOutcome,
    r: Result<ConnectionView, Error>,
) -> bool {
    match r {
        Ok(c) => {
            &&& outcome.result is Ok
            &&& c == ConnectionView {
                config,
                us,
                them,
                input,
                input_pos: outcome.pos,
                output: output + outcome.sent,
            }
        },
        Err(e) => outcome.result == Err::<(), Error>(e),
    }
}

impl<'a> BlockchainConnection<'a> {
    /// Runs the handshake from `us` to `them`, with `nonce` as the nonce of our
    /// version message and `now` as its time, reading the peer's frames from
    /// `reader` and appending ours to `writer`.
    pub fn start_with_nonce(
        config: ClientConfig,
        us: SocketAddress,
        them: SocketAddress,
        input: ByteReader<'a>,
        output_buffer: Vec<u8>,
        now: Timestamp,
        nonce: u64,
    ) -> (r: Result<Self, Error>)
        ensures
            connection_after(
                config@,
                us,
                them,
                input.data(),
                output_buffer@,
                run_handshake(
                    config@,
                    Some(HandShakeState::ToSendVersion(us, them)),
                    input.data(),
                    input.pos(),
                    now.0,
                    nonce,
                ),
                match r {
                    Ok(c) => Ok(c@),
                    Err(e) => Err(e),
                },
            ),
    {
        let mut reader = input;
        let mut writer = output_buffer;
        let ghost data = reader.data();
        let ghost start = Some(HandShakeState::ToSendVersion(us, them));
        let ghost whole = run_handshake(config@, start, data, reader.pos(), now.0, nonce);
        let ghost output = writer@;
        let mut state_machine = HandShakeStateMachine::start(config.clone(), us, them);
        let ghost mut sent_so_far: Seq<u8> = Seq::empty();
        proof {
            assert(output + sent_so_far =~= output);
            let rest = run_handshake(config@, start, data, reader.pos(), now.0, nonce);
            assert(sent_so_far + rest.sent =~= rest.sent);
        }
        while !state_machine.finished()
            invariant
                reader.data() == data,
                data == input.data(),
                output == output_buffer@,
                whole == run_handshake(config@, start, data, input.pos(), now.0, nonce),
                start == Some(HandShakeState::ToSendVersion(us, them)),
                state_machine@.config == config@,
                writer@ == output + sent_so_far,
                ({
                    let rest = run_handshake(config@, state_machine@.state, data, reader.pos(), now.0, nonce);
                    whole == StepOutcome {
                        result: rest.result,
                        state: rest.state,
                        sent: sent_so_far + rest.sent,
                        pos: rest.pos,
                    }
                }),
            decreases steps_left(state_machine@.state),
        {
            let ghost before = state_machine@;
            let ghost pos_before = reader.pos();
            let ghost w_before = writer@;
            let stepped = state_machine.next_state_with_nonce(&mut reader, &mut writer, now, nonce);
            proof {
                let o = handshake_step(config@, before.state, data, pos_before, now.0, nonce);
                lemma_run_unfold(config@, before.state, data, pos_before, now.0, nonce);
                if o.result is Ok {
                    lemma_step_progress(config@, before.state, data, pos_before, now.0, nonce);
                    let rest = run_handshake(config@, o.state, data, o.pos, now.0, nonce);
                    assert(sent_so_far + (o.sent + rest.sent) =~= (sent_so_far + o.sent) + rest.sent);
                    sent_so_far = sent_so_far + o.sent;
                }
            }
            if let Err(e) = stepped {
                proof {
                    let o = handshake_step(config@, before.state, data, pos_before, now.0, nonce);
                    assert(o.result == Err::<(), Error>(e));
                    assert(run_handshake(config@, before.state, data, pos_before, now.0, nonce) == o);
                    assert(whole.result == Err::<(), Error>(e));
                }
                return Err(e);
            }
        }
        proof {
            let rest = run_handshake(config@, state_machine@.state, data, reader.pos(), now.0, nonce);
            assert(sent_so_far + rest.sent =~= sent_so_far);
        }
        Ok(BlockchainConnection { config, us, them, reader, writer })
    }

    /// Runs the handshake from `us` to `them` at time `now`, with a random
    /// nonce in our version message.
    pub fn start(
        config: ClientConfig,
        us: SocketAddress,
        them: SocketAddress,
        reader: ByteReader<'a>,
        writer: Vec<u8>,
        now: Timestamp,
    ) -> (r: Result<Self, Error>)
        ensures
            exists|nonce: u64|
                connection_after(
                    config@,
                    us,
                    them,
                    reader.data(),
                    writer@,
                    run_handshake(
                        config@,
                        Some(HandShakeState::ToSendVersion(us, them)),
                        reader.data(),
                        reader.pos(),
                        now.0,
                        nonce,
                    ),
                    match r {
                        Ok(c) => Ok(c@),
                        Err(e) => Err(e),
                    },
                ),
    {
        let nonce = random_nonce();
        Self::start_with_nonce(config, us, them, reader, writer, now, nonce)
    }

    /// Sends a ping and checks that the answer is a pong with the same nonce.
    pub fn ping(&mut self) -> (r: Result<(), Error>)
        ensures
            final(self)@.config == old(self)@.config,
            final(self)@.us == old(self)@.us,
            final(self)@.them == old(self)@.them,
            final(self)@.input == old(self)@.input,
            final(self)@.output == old(self)@.output + frame_bytes(
                old(self)@.config.chain,
                MessageKind::Ping,
                le_u64(PING_NONCE),
            ),
            (r, final(self)@.input_pos) == ping_outcome(
                old(self)@.config.chain,
                old(self)@.input,
                old(self)@.input_pos,
            ),
    {
        let ping_message = PingMessage(PING_NONCE);
        let _ = send_message(&mut self.writer, self.config.chain, &Message::Ping(ping_message));
        let received = receive_message(self.config.chain, &mut self.reader)?;
        check_pong(&received)
    }

    /// Everything written to the peer so far.
    pub fn written(&self) -> (r: &Vec<u8>)
        ensures
            r@ == self@.output,
    {
        &self.writer
    }

    /// How far the peer's input has been read.
    pub fn read_position(&self) -> (r: usize)
        ensures
            r == self@.input_pos,
    {
        self.reader.position()
    }
}

// ---- laws of the handshake ----
/// A step that fails leaves the state as it was and sends nothing.
pub proof fn lemma_failed_step_keeps_state(
    config: ClientConfigView,
    state: Option<HandShakeState>,
    data: Seq<u8>,
    pos: int,
    now: i64,
    nonce: u64,
)
    ensures
        handshake_step(config, state, data, pos, now, nonce).result is Err ==> {
            &&& handshake_step(config, state, data, pos, now, nonce).state == state
            &&& handshake_step(config, state, data, pos, now, nonce).sent == Seq::<u8>::empty()
        },
{
    reveal(handshake_step);
}

/// Once the handshake is over, every further step is refused and it stays over.
pub proof fn lemma_finished_stays_finished(
    config: ClientConfigView,
    data: Seq<u8>,
    pos: int,
    now: i64,
    nonce: u64,
)
    ensures
        handshake_step(config, None, data, pos, now, nonce).result == Err::<(), Error>(
            Error::AlreadyFinished,
        ),
        handshake_step(config, None, data, pos, now, nonce).state is None,
{
    reveal(handshake_step);
}

/// A ping received while expecting one is answered next with a pong that
/// carries its nonce.
pub proof fn lemma_pong_echoes_ping(
    config: ClientConfigView,
    data: Seq<u8>,
    pos: int,
    now: i64,
    nonce: u64,
    ping: PingMessage,
)
    requires
        receive_spec(config.chain, data, pos).0 == Ok::<MessageView, Error>(MessageView::Ping(ping)),
    ensures
        ({
            let o = handshake_step(config, Some(HandShakeState::ExpectingPing), data, pos, now, nonce);
            let reply = handshake_step(config, o.state, data, o.pos, now, nonce);
            &&& o.result is Ok
            &&& o.state == Some(HandShakeState::ToSendPong(ping.0))
            &&& reply.result is Ok
            &&& reply.sent == frame_bytes(config.chain, MessageKind::Pong, le_u64(ping.0))
        }),
{
    reveal(handshake_step);
}

/// The peer's version message is accepted exactly when its version is ours
/// and its nonce is not the one we sent.
pub proof fn lemma_version_accepted(
    config: ClientConfigView,
    sent_nonce: u64,
    data: Seq<u8>,
    pos: int,
    now: i64,
    nonce: u64,
    version: VersionView,
)
    requires
        receive_spec(config.chain, data, pos).0 == Ok::<MessageView, Error>(
            MessageView::Version(version),
        ),
    ensures
        handshake_step(
            config,
            Some(HandShakeState::ExpectingVersion(sent_nonce)),
            data,
            pos,
            now,
            nonce,
        ).result is Ok <==> (version.version == config.version && version.nonce != sent_nonce),
{
    reveal(handshake_step);
}

/// A whole handshake that succeeds has run to its end.
pub proof fn lemma_successful_handshake_is_finished(
    config: ClientConfigView,
    state: Option<HandShakeState>,
    data: Seq<u8>,
    pos: int,
    now: i64,
    nonce: u64,
)
    ensures
        run_handshake(config, state, data, pos, now, nonce).result is Ok ==> run_handshake(
            config,
            state,
            data,
            pos,
            now,
            nonce,
        ).state is None,
    decreases steps_left(state),
{
    if state is Some {
        let o = handshake_step(config, state, data, pos, now, nonce);
        lemma_run_unfold(config, state, data, pos, now, nonce);
        if o.result is Ok {
            lemma_step_progress(config, state, data, pos, now, nonce);
            lemma_successful_handshake_is_finished(config, o.state, data, o.pos, now, nonce);
        }
    }
}

/// What a successful handshake sends from `state` on, when the peer's ping
/// carries `ping_nonce`.
pub open spec fn replies_from(
    config: ClientConfigView,
    state: Option<HandShakeState>,
    now: i64,
    nonce: u64,
    ping_nonce: u64,
) -> Seq<u8>
    decreases steps_left(state),
{
    match state {
        None => Seq::empty(),
        Some(s) => {
            let next = match s {
                HandShakeState::ExpectingVersion(_) => Some(HandShakeState::ExpectingWtxIdRelay),
                HandShakeState::ExpectingWtxIdRelay => Some(HandShakeState::ExpectingSendAddrV2),
                HandShakeState::ExpectingSendAddrV2 => Some(HandShakeState::ExpectingVersionAck),
                HandShakeState::ExpectingVersionAck => Some(HandShakeState::ToSendWTxIdRelay),
                HandShakeState::ExpectingSendCompact => Some(HandShakeState::ExpectingPing),
                HandShakeState::ExpectingPing => Some(HandShakeState::ToSendPong(ping_nonce)),
                HandShakeState::ExpectingGetHeaders => Some(HandShakeState::ExpectingFeeFilter),
                HandShakeState::ExpectingFeeFilter => None,
                _ => state_after_send(s, nonce),
            };
            let sent = if expects_message(s) {
                Seq::empty()
            } else {
                let m = outgoing_message(config, s, now, nonce);
                frame_bytes(config.chain, message_kind(m), message_payload(m).0)
            };
            if steps_left(next) < steps_left(state) {
                sent + replies_from(config, next, now, nonce, ping_nonce)
            } else {
                sent
            }
        },
    }
}

proof fn lemma_replies_after_ping(config: ClientConfigView, state: Option<HandShakeState>, now: i64, nonce: u64, p: u64, q: u64)
    requires
        steps_left(state) <= 2,
    ensures
        replies_from(config, state, now, nonce, p) == replies_from(config, state, now, nonce, q),
    decreases steps_left(state),
{
    assert(replies_from(config, None, now, nonce, p) == Seq::<u8>::empty());
    assert(replies_from(config, None, now, nonce, q) == Seq::<u8>::empty());
    if let Some(s) = state {
        match s {
            HandShakeState::ExpectingGetHeaders => {
                lemma_replies_after_ping(config, Some(HandShakeState::ExpectingFeeFilter), now, nonce, p, q);
            },
            _ => {},
        }
    }
}

proof fn lemma_run_sends_replies(
    config: ClientConfigView,
    state: Option<HandShakeState>,
    data: Seq<u8>,
    pos: int,
    now: i64,
    nonce: u64,
) -> (ping_nonce: u64)
    requires
        run_handshake(config, state, data, pos, now, nonce).result is Ok,
    ensures
        run_handshake(config, state, data, pos, now, nonce).sent == replies_from(
            config,
            state,
            now,
            nonce,
            ping_nonce,
        ),
    decreases steps_left(state),
{
    if state is None {
        0
    } else {
        let s = state->Some_0;
        let o = handshake_step(config, state, data, pos, now, nonce);
        lemma_run_unfold(config, state, data, pos, now, nonce);
        lemma_step_progress(config, state, data, pos, now, nonce);
        let p = lemma_run_sends_replies(config, o.state, data, o.pos, now, nonce);
        reveal(handshake_step);
        if expects_message(s) {
            let (received, q) = receive_spec(config.chain, data, pos);
            let m = received->Ok_0;
            match s {
                HandShakeState::ExpectingPing => {
                    let n = match m {
                        MessageView::Ping(ping) => ping.0,
                        _ => 0,
                    };
                    lemma_replies_after_ping(config, Some(HandShakeState::ExpectingGetHeaders), now, nonce, p, n);
                    let pong = Some(HandShakeState::ToSendPong(n));
                    let after = Some(HandShakeState::ExpectingGetHeaders);
                    let pong_frame = frame_bytes(config.chain, MessageKind::Pong, le_u64(n));
                    assert(o.state == pong);
                    assert(o.sent == Seq::<u8>::empty());
                    assert(replies_from(config, pong, now, nonce, p) == pong_frame + replies_from(config, after, now, nonce, p));
                    assert(replies_from(config, pong, now, nonce, n) == pong_frame + replies_from(config, after, now, nonce, n));
                    assert(replies_from(config, state, now, nonce, n) == Seq::<u8>::empty() + replies_from(config, pong, now, nonce, n));
                    assert(o.sent + replies_from(config, o.state, now, nonce, p) =~= replies_from(config, state, now, nonce, n));
                    n
                },
                _ => {
                    assert(o.sent + replies_from(config, o.state, now, nonce, p) =~= replies_from(config, state, now, nonce, p));
                    p
                },
            }
        } else {
            p
        }
    }
}

/// A handshake that succeeds sends exactly, in order: our version message,
/// wtxidrelay, sendaddrv2, verack, and a pong with the nonce of the peer's ping.
pub proof fn lemma_successful_handshake_replies(
    config: ClientConfigView,
    us: SocketAddress,
    them: SocketAddress,
    data: Seq<u8>,
    pos: int,
    now: i64,
    nonce: u64,
)
    requires
        run_handshake(config, Some(HandShakeState::ToSendVersion(us, them)), data, pos, now, nonce).result is Ok,
    ensures
        exists|ping_nonce: u64|
            run_handshake(config, Some(HandShakeState::ToSendVersion(us, them)), data, pos, now, nonce).sent
                == frame_bytes(
                config.chain,
                MessageKind::Version,
                message_payload(
                    MessageView::Version(version_message_for(config, us@, them@, 0, false, now, nonce)),
                ).0,
            ) + frame_bytes(config.chain, MessageKind::WTxIdRelay, Seq::empty()) + frame_bytes(
                config.chain,
                MessageKind::SendAddrV2,
                Seq::empty(),
            ) + frame_bytes(config.chain, MessageKind::VersionAck, Seq::empty()) + frame_bytes(
                config.chain,
                MessageKind::Pong,
                le_u64(ping_nonce),
            ),
{
    let start = Some(HandShakeState::ToSendVersion(us, them));
    let p = lemma_run_sends_replies(config, start, data, pos, now, nonce);
    reveal_with_fuel(replies_from, 14);
    let v = frame_bytes(
        config.chain,
        MessageKind::Version,
        message_payload(MessageView::Version(version_message_for(config, us@, them@, 0, false, now, nonce))).0,
    );
    let w = frame_bytes(config.chain, MessageKind::WTxIdRelay, Seq::empty());
    let a = frame_bytes(config.chain, MessageKind::SendAddrV2, Seq::empty());
    let k = frame_bytes(config.chain, MessageKind::VersionAck, Seq::empty());
    let g = frame_bytes(config.chain, MessageKind::Pong, le_u64(p));
    assert(replies_from(config, start, now, nonce, p) =~= v + w + a + k + g);
}

// ---- the handshake call by call ----
/// A sending step whose message serializes sends its frame and moves on.
proof fn lemma_send_step(
    config: ClientConfigView,
    s: HandShakeState,
    data: Seq<u8>,
    pos: int,
    now: i64,
    nonce: u64,
)
    requires
        !expects_message(s),
        message_payload(outgoing_message(config, s, now, nonce)).1 is Ok,
    ensures
        ({
            let m = outgoing_message(config, s, now, nonce);
            handshake_step(config, Some(s), data, pos, now, nonce) == StepOutcome {
                result: Ok(()),
                state: state_after_send(s, nonce),
                sent: frame_bytes(config.chain, message_kind(m), message_payload(m).0),
                pos,
            }
        }),
{
    reveal(handshake_step);
}

/// An expecting step that reads a message it accepts moves on and sends nothing.
proof fn lemma_receive_step(
    config: ClientConfigView,
    s: HandShakeState,
    data: Seq<u8>,
    pos: int,
    now: i64,
    nonce: u64,
    m: MessageView,
)
    requires
        expects_message(s),
        receive_spec(config.chain, data, pos).0 == Ok::<MessageView, Error>(m),
        state_after_receive(config, s, m) is Ok,
    ensures
        handshake_step(config, Some(s), data, pos, now, nonce).result is Ok,
        handshake_step(config, Some(s), data, pos, now, nonce).state == state_after_receive(
            config,
            s,
            m,
        )->Ok_0,
        handshake_step(config, Some(s), data, pos, now, nonce).sent == Seq::<u8>::empty(),
{
    reveal(handshake_step);
}

/// The state after the first `k` calls, the `i`-th call reading from `inputs[i]`.
pub open spec fn state_after_calls(
    config: ClientConfigView,
    start: Option<HandShakeState>,
    inputs: Seq<(Seq<u8>, int)>,
    now: i64,
    nonce: u64,
    k: nat,
) -> Option<HandShakeState>
    decreases k,
{
    if k == 0 {
        start
    } else {
        handshake_step(
            config,
            state_after_calls(config, start, inputs, now, nonce, (k - 1) as nat),
            inputs[k - 1].0,
            inputs[k - 1].1,
            now,
            nonce,
        ).state
    }
}

/// What the call numbered `k` (from zero) does, reading from `inputs[k]`.
pub open spec fn call_outcome(
    config: ClientConfigView,
    start: Option<HandShakeState>,
    inputs: Seq<(Seq<u8>, int)>,
    now: i64,
    nonce: u64,
    k: nat,
) -> StepOutcome {
    handshake_step(
        config,
        state_after_calls(config, start, inputs, now, nonce, k),
        inputs[k as int].0,
        inputs[k as int].1,
        now,
        nonce,
    )
}

/// The peer's messages in the order the handshake expects them: its version
/// (our protocol version, a nonce other than ours), wtxidrelay, sendaddrv2,
/// verack, sendcmpct, a ping, getheaders and feefilter.
pub open spec fn peer_messages_expected(config: ClientConfigView, nonce: u64, peer: Seq<MessageView>) -> bool {
    &&& peer.len() == 8
    &&& peer[0] matches MessageView::Version(v) && v.version == config.version && v.nonce != nonce
    &&& message_kind(peer[1]) == MessageKind::WTxIdRelay
    &&& message_kind(peer[2]) == MessageKind::SendAddrV2
    &&& message_kind(peer[3]) == MessageKind::VersionAck
    &&& message_kind(peer[4]) == MessageKind::SendCompact
    &&& peer[5] is Ping
    &&& message_kind(peer[6]) == MessageKind::GetHeaders
    &&& message_kind(peer[7]) == MessageKind::FeeFilter
}

/// Which of the thirteen calls read a message, and which of the peer's messages it is.
pub open spec fn peer_message_read_by_call(k: int) -> int {
    if k == 1 { 0 }
    else if k == 2 { 1 }
    else if k == 3 { 2 }
    else if k == 4 { 3 }
    else if k == 8 { 4 }
    else if k == 9 { 5 }
    else if k == 11 { 6 }
    else if k == 12 { 7 }
    else { -1 }
}

/// What the call numbered `k` of a whole handshake sends: our version first,
/// then wtxidrelay, sendaddrv2 and verack after the peer's first four messages,
/// and the pong after its ping; the other calls send nothing.
pub open spec fn sent_by_call(
    config: ClientConfigView,
    us: SocketAddress,
    them: SocketAddress,
    now: i64,
    nonce: u64,
    ping_nonce: u64,
    k: int,
) -> Seq<u8> {
    if k == 0 {
        frame_bytes(
            config.chain,
            MessageKind::Version,
            message_payload(
                MessageView::Version(version_message_for(config, us@, them@, 0, false, now, nonce)),
            ).0,
        )
    } else if k == 5 {
        frame_bytes(config.chain, MessageKind::WTxIdRelay, Seq::empty())
    } else if k == 6 {
        frame_bytes(config.chain, MessageKind::SendAddrV2, Seq::empty())
    } else if k == 7 {
        frame_bytes(config.chain, MessageKind::VersionAck, Seq::empty())
    } else if k == 10 {
        frame_bytes(config.chain, MessageKind::Pong, le_u64(ping_nonce))
    } else {
        Seq::empty()
    }
}

/// The frame that `input` (bytes and read position) holds reads as `m`.
#[verifier::opaque]
pub open spec fn frame_reads_as(chain: Chain, input: (Seq<u8>, int), m: MessageView) -> bool {
    receive_spec(chain, input.0, input.1).0 == Ok::<MessageView, Error>(m)
}

proof fn lemma_call_sends(
    config: ClientConfigView,
    start: Option<HandShakeState>,
    inputs: Seq<(Seq<u8>, int)>,
    now: i64,
    nonce: u64,
    k: nat,
    s: HandShakeState,
)
    requires
        state_after_calls(config, start, inputs, now, nonce, k) == Some(s),
        !expects_message(s),
        message_payload(outgoing_message(config, s, now, nonce)).1 is Ok,
    ensures
        ({
            let m = outgoing_message(config, s, now, nonce);
            let o = call_outcome(config, start, inputs, now, nonce, k);
            &&& o.result is Ok
            &&& o.sent == frame_bytes(config.chain, message_kind(m), message_payload(m).0)
            &&& o.state == state_after_send(s, nonce)
        }),
        state_after_calls(config, start, inputs, now, nonce, k + 1) == state_after_send(s, nonce),
{
    lemma_send_step(config, s, inputs[k as int].0, inputs[k as int].1, now, nonce);
    assert(state_after_calls(config, start, inputs, now, nonce, k + 1) == call_outcome(
        config,
        start,
        inputs,
        now,
        nonce,
        k,
    ).state);
}

proof fn lemma_call_reads(
    config: ClientConfigView,
    start: Option<HandShakeState>,
    inputs: Seq<(Seq<u8>, int)>,
    now: i64,
    nonce: u64,
    k: nat,
    s: HandShakeState,
    m: MessageView,
)
    requires
        state_after_calls(config, start, inputs, now, nonce, k) == Some(s),
        expects_message(s),
        frame_reads_as(config.chain, inputs[k as int], m),
        state_after_receive(config, s, m) is Ok,
    ensures
        ({
            let o = call_outcome(config, start, inputs, now, nonce, k);
            &&& o.result is Ok
            &&& o.sent == Seq::<u8>::empty()
            &&& o.state == state_after_receive(config, s, m)->Ok_0
        }),
        state_after_calls(config, start, inputs, now, nonce, k + 1) == state_after_receive(
            config,
            s,
            m,
        )->Ok_0,
{
    reveal(frame_reads_as);
    lemma_receive_step(config, s, inputs[k as int].0, inputs[k as int].1, now, nonce, m);
    assert(state_after_calls(config, start, inputs, now, nonce, k + 1) == call_outcome(
        config,
        start,
        inputs,
        now,
        nonce,
        k,
    ).state);
}

/// The handshake call by call: from the start, with a time at or after the
/// epoch, thirteen calls whose reading calls find the peer's messages in the
/// expected order all succeed. Calls 0, 5, 6, 7 and 10 send our version,
/// wtxidrelay, sendaddrv2, verack, and a pong with the ping's nonce, the others
/// send nothing, and the handshake is over after the last call and not before.
pub proof fn lemma_handshake_call_by_call(
    config: ClientConfigView,
    us: SocketAddress,
    them: SocketAddress,
    inputs: Seq<(Seq<u8>, int)>,
    peer: Seq<MessageView>,
    now: i64,
    nonce: u64,
)
    requires
        now >= 0,
        inputs.len() == 13,
        peer_messages_expected(config, nonce, peer),
        forall|k: int|
            0 <= k < 13 && peer_message_read_by_call(k) >= 0 ==> frame_reads_as(
                config.chain,
                #[trigger] inputs[k],
                peer[peer_message_read_by_call(k)],
            ),
    ensures
        forall|k: nat|
            #![trigger call_outcome(config, Some(HandShakeState::ToSendVersion(us, them)), inputs, now, nonce, k)]
            k < 13 ==> {
                let o = call_outcome(config, Some(HandShakeState::ToSendVersion(us, them)), inputs, now, nonce, k);
                &&& o.result is Ok
                &&& o.sent == sent_by_call(config, us, them, now, nonce, peer[5]->Ping_0.0, k as int)
                &&& (o.state is None <==> k == 12)
            },
{
    let start = Some(HandShakeState::ToSendVersion(us, them));
    let p = peer[5]->Ping_0.0;
    assert(state_after_calls(config, start, inputs, now, nonce, 0) == start);
    lemma_call_sends(config, start, inputs, now, nonce, 0, HandShakeState::ToSendVersion(us, them));
    assert(frame_reads_as(config.chain, inputs[1], peer[0]));
    lemma_call_reads(config, start, inputs, now, nonce, 1, HandShakeState::ExpectingVersion(nonce), peer[0]);
    assert(frame_reads_as(config.chain, inputs[2], peer[1]));
    lemma_call_reads(config, start, inputs, now, nonce, 2, HandShakeState::ExpectingWtxIdRelay, peer[1]);
    assert(frame_reads_as(config.chain, inputs[3], peer[2]));
    lemma_call_reads(config, start, inputs, now, nonce, 3, HandShakeState::ExpectingSendAddrV2, peer[2]);
    assert(frame_reads_as(config.chain, inputs[4], peer[3]));
    lemma_call_reads(config, start, inputs, now, nonce, 4, HandShakeState::ExpectingVersionAck, peer[3]);
    lemma_call_sends(config, start, inputs, now, nonce, 5, HandShakeState::ToSendWTxIdRelay);
    lemma_call_sends(config, start, inputs, now, nonce, 6, HandShakeState::ToSendSendAddrV2);
    lemma_call_sends(config, start, inputs, now, nonce, 7, HandShakeState::ToSendVersionAck);
    assert(frame_reads_as(config.chain, inputs[8], peer[4]));
    lemma_call_reads(config, start, inputs, now, nonce, 8, HandShakeState::ExpectingSendCompact, peer[4]);
    assert(frame_reads_as(config.chain, inputs[9], peer[5]));
    lemma_call_reads(config, start, inputs, now, nonce, 9, HandShakeState::ExpectingPing, peer[5]);
    lemma_call_sends(config, start, inputs, now, nonce, 10, HandShakeState::ToSendPong(p));
    assert(frame_reads_as(config.chain, inputs[11], peer[6]));
    lemma_call_reads(config, start, inputs, now, nonce, 11, HandShakeState::ExpectingGetHeaders, peer[6]);
    assert(frame_reads_as(config.chain, inputs[12], peer[7]));
    lemma_call_reads(config, start, inputs, now, nonce, 12, HandShakeState::ExpectingFeeFilter, peer[7]);
}

} // verus!
