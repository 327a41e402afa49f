//! The handshake messages and their payload encodings.
use vstd::prelude::*;
use crate::address::{
    ip_bytes, is_ipv4_mapped_v6, lemma_ip_roundtrip, IpAddress, IpAddressView, SocketAddress,
    SocketAddressView,
};
use crate::connection::{ClientConfig, ClientConfigView};
use crate::error::Error;
use crate::serialization::{
    and_then, be_u16, bool_byte, compact_size_bytes, decode_compact_size, decode_i32_le,
    decode_u16_be, decode_u64_le, le_i32, le_u64, map_decoded, take_bytes, view_result,
    write_u16_be, ByteReader, CompactSizeUint, Decoded, DeserializePayload, SerializePayload,
    Timestamp, lemma_occurs_at_concat, lemma_u64_roundtrip, lemma_u16_be_roundtrip,
    lemma_i32_roundtrip, lemma_string_roundtrip, lemma_timestamp_roundtrip, lemma_bool_roundtrip,
    lemma_compact_size_roundtrip, occurs_at, reads_back, string_bytes, lemma_take_occurs,
};

verus! {

/// The kinds of message that the handshake exchanges.
#[derive(Clone, Copy, Debug, PartialEq, Eq, Structural)]
pub enum MessageKind {
    Version,
    VersionAck,
    Ping,
    Pong,
    SendCompact,
    GetHeaders,
    FeeFilter,
    WTxIdRelay,
    SendAddrV2,
}

/// A port number, written big-endian on the wire.
#[derive(Clone, Copy, Debug, PartialEq, Eq)]
pub struct Port(pub u16);

impl View for Port {
    type V = u16;

    open spec fn view(&self) -> u16 {
        self.0
    }
}

impl SerializePayload for Port {
    open spec fn spec_serialize(v: u16) -> (Seq<u8>, Result<(), Error>) {
        (be_u16(v), Ok(()))
    }

    fn serialize(&self, buffer: &mut Vec<u8>) -> (r: Result<(), Error>) {
        write_u16_be(buffer, self.0);
        Ok(())
    }
}

impl DeserializePayload for Port {
    open spec fn spec_deserialize(data: Seq<u8>, pos: int) -> Decoded<u16> {
        decode_u16_be(data, pos)
    }

    fn deserialize(buffer: &mut ByteReader) -> (r: Result<Port, Error>) {
        let p = buffer.read_u16_be()?;
        Ok(Port(p))
    }
}

/// A peer's address as the version message carries it.
#[derive(Clone, Copy, Debug, PartialEq, Eq)]
pub struct NetworkAddressForVersion {
    pub services: u64,
    pub ip: IpAddress,
    pub port: Port,
}

pub struct NetworkAddressView {
    pub services: u64,
    pub ip: IpAddressView,
    pub port: u16,
}

impl View for NetworkAddressForVersion {
    type V = NetworkAddressView;

    open spec fn view(&self) -> NetworkAddressView {
        NetworkAddressView { services: self.services, ip: self.ip@, port: self.port.0 }
    }
}

impl NetworkAddressForVersion {
    /// The address of `address`, announcing `services`.
    pub fn new(address: SocketAddress, services: u64) -> (r: Self)
        ensures
            r@ == (NetworkAddressView { services, ip: address.ip@, port: address.port }),
    {
        NetworkAddressForVersion { services, ip: address.ip, port: Port(address.port) }
    }

    /// No services at 0.0.0.0, port 0.
    pub fn null() -> (r: Self)
        ensures
            r@ == (NetworkAddressView {
                services: 0,
                ip: IpAddressView::V4(seq![0u8, 0, 0, 0]),
                port: 0,
            }),
    {
        let ip: [u8; 4] = [0, 0, 0, 0];
        proof {
            assert(ip@ =~= seq![0u8, 0, 0, 0]);
        }
        NetworkAddressForVersion { services: 0, ip: IpAddress::V4(ip), port: Port(0) }
    }
}

/// Services, the 16-byte address, then the big-endian port.
pub open spec fn network_address_bytes(v: NetworkAddressView) -> Seq<u8> {
    le_u64(v.services) + ip_bytes(v.ip) + be_u16(v.port)
}

pub open spec fn decode_network_address(data: Seq<u8>, pos: int) -> Decoded<NetworkAddressView> {
    and_then(
        decode_u64_le(data, pos),
        |services: u64, p1: int|
            and_then(
                <IpAddress as DeserializePayload>::spec_deserialize(data, p1),
                |ip: IpAddressView, p2: int|
                    map_decoded(
                        decode_u16_be(data, p2),
                        |port: u16| NetworkAddressView { services, ip, port },
                    ),
            ),
    )
}

impl SerializePayload for NetworkAddressForVersion {
    open spec fn spec_serialize(v: NetworkAddressView) -> (Seq<u8>, Result<(), Error>) {
        (network_address_bytes(v), Ok(()))
    }

    fn serialize(&self, buffer: &mut Vec<u8>) -> (r: Result<(), Error>) {
        let _ = self.services.serialize(buffer);
        let _ = self.ip.serialize(buffer);
        let _ = self.port.serialize(buffer);
        Ok(())
    }
}

impl DeserializePayload for NetworkAddressForVersion {
    open spec fn spec_deserialize(data: Seq<u8>, pos: int) -> Decoded<NetworkAddressView> {
        decode_network_address(data, pos)
    }

    fn deserialize(buffer: &mut ByteReader) -> (r: Result<NetworkAddressForVersion, Error>) {
        let services = u64::deserialize(buffer)?;
        let ip = IpAddress::deserialize(buffer)?;
        let port = Port::deserialize(buffer)?;
        Ok(NetworkAddressForVersion { services, ip, port })
    }
}

/// The version message: what each side announces about itself.
#[derive(Debug, PartialEq, Eq)]
pub struct VersionMessage {
    pub version: i32,
    pub services: u64,
    pub timestamp: Timestamp,
    pub addr_recv: NetworkAddressForVersion,
    pub addr_trans: NetworkAddressForVersion,
    pub nonce: u64,
    pub user_agent: String,
    pub start_height: i32,
    pub relay: bool,
}

pub struct VersionView {
    pub version: i32,
    pub services: u64,
    pub timestamp: i64,
    pub addr_recv: NetworkAddressView,
    pub addr_trans: NetworkAddressView,
    pub nonce: u64,
    pub user_agent: Seq<char>,
    pub start_height: i32,
    pub relay: bool,
}

impl View for VersionMessage {
    type V = VersionView;

    open spec fn view(&self) -> VersionView {
        VersionView {
            version: self.version,
            services: self.services,
            timestamp: self.timestamp.0,
            addr_recv: self.addr_recv@,
            addr_trans: self.addr_trans@,
            nonce: self.nonce,
            user_agent: self.user_agent@,
            start_height: self.start_height,
            relay: self.relay,
        }
    }
}

impl Clone for VersionMessage {
    fn clone(&self) -> (r: Self)
        ensures
            r@ == self@,
    {
        VersionMessage {
            version: self.version,
            services: self.services,
            timestamp: self.timestamp,
            addr_recv: self.addr_recv,
            addr_trans: self.addr_trans,
            nonce: self.nonce,
            user_agent: self.user_agent.clone(),
            start_height: self.start_height,
            relay: self.relay,
        }
    }
}

/// The version message that `config` sends to `them` from `us` at `now` with `nonce`.
pub open spec fn version_message_for(
    config: ClientConfigView,
    us: SocketAddressView,
    them: SocketAddressView,
    start_height: i32,
    relay: bool,
    now: i64,
    nonce: u64,
) -> VersionView {
    VersionView {
        version: config.version,
        services: config.services,
        timestamp: now,
        addr_recv: NetworkAddressView { services: 0, ip: them.ip, port: them.port },
        addr_trans: NetworkAddressView { services: config.services, ip: us.ip, port: us.port },
        nonce,
        user_agent: config.user_agent,
        start_height,
        relay,
    }
}

/// `rand::random`: a random `u64`. Nothing is promised of its value.
#[verifier::external_body]
pub(crate) fn random_nonce() -> u64 {
    rand::random::<u64>()
}

impl VersionMessage {
    /// The version message that `config` sends to `them` from `us` at `now`,
    /// with a random nonce.
    pub fn new(
        config: &ClientConfig,
        us: SocketAddress,
        them: SocketAddress,
        start_height: i32,
        relay: bool,
        now: Timestamp,
    ) -> (r: Self)
        ensures
            r@ == version_message_for(config@, us@, them@, start_height, relay, now.0, r.nonce),
    {
        let nonce = random_nonce();
        Self::with_nonce(config, us, them, start_height, relay, now, nonce)
    }

    /// The version message that `config` sends to `them` from `us` at `now` with `nonce`.
    pub fn with_nonce(
        config: &ClientConfig,
        us: SocketAddress,
        them: SocketAddress,
        start_height: i32,
        relay: bool,
        now: Timestamp,
        nonce: u64,
    ) -> (r: Self)
        ensures
            r@ == version_message_for(config@, us@, them@, start_height, relay, now.0, nonce),
    {
        VersionMessage {
            version: config.version,
            services: config.services,
            timestamp: now,
            addr_recv: NetworkAddressForVersion::new(them, 0),
            addr_trans: NetworkAddressForVersion::new(us, config.services),
            nonce,
            user_agent: config.user_agent.clone(),
            start_height,
            relay,
        }
    }
}

/// The bytes of a version message whose timestamp is at or after the epoch.
pub open spec fn version_bytes(v: VersionView) -> Seq<u8> {
    le_i32(v.version) + le_u64(v.services) + le_u64(v.timestamp as u64) + network_address_bytes(
        v.addr_recv,
    ) + network_address_bytes(v.addr_trans) + le_u64(v.nonce) + <String as SerializePayload>::spec_serialize(
        v.user_agent,
    ).0 + le_i32(v.start_height) + seq![bool_byte(v.relay)]
}

pub open spec fn decode_version(data: Seq<u8>, pos: int) -> Decoded<VersionView> {
    and_then(
        decode_i32_le(data, pos),
        |version: i32, p1: int|
            and_then(
                decode_u64_le(data, p1),
                |services: u64, p2: int|
                    and_then(
                        <Timestamp as DeserializePayload>::spec_deserialize(data, p2),
                        |timestamp: i64, p3: int|
                            and_then(
                                decode_network_address(data, p3),
                                |addr_recv: NetworkAddressView, p4: int|
                                    and_then(
                                        decode_network_address(data, p4),
                                        |addr_trans: NetworkAddressView, p5: int|
                                            and_then(
                                                decode_u64_le(data, p5),
                                                |nonce: u64, p6: int|
                                                    and_then(
                                                        <String as DeserializePayload>::spec_deserialize(
                                                            data,
                                                            p6,
                                                        ),
                                                        |user_agent: Seq<char>, p7: int|
                                                            and_then(
                                                                decode_i32_le(data, p7),
                                                                |start_height: i32, p8: int|
                                                                    map_decoded(
                                                                        <bool as DeserializePayload>::spec_deserialize(
                                                                            data,
                                                                            p8,
                                                                        ),
                                                                        |relay: bool|
                                                                            VersionView {
                                                                                version,
                                                                                services,
                                                                                timestamp,
                                                                                addr_recv,
                                                                                addr_trans,
                                                                                nonce,
                                                                                user_agent,
                                                                                start_height,
                                                                                relay,
                                                                            },
                                                                    ),
                                                            ),
                                                    ),
                                            ),
                                    ),
                            ),
                    ),
            ),
    )
}

impl SerializePayload for VersionMessage {
    /// The fields in order; a timestamp before the epoch fails after the
    /// version and services are written.
    open spec fn spec_serialize(v: VersionView) -> (Seq<u8>, Result<(), Error>) {
        if v.timestamp >= 0 {
            (version_bytes(v), Ok(()))
        } else {
            (le_i32(v.version) + le_u64(v.services), Err(Error::TimestampBeforeEpoch(v.timestamp)))
        }
    }

    fn serialize(&self, buffer: &mut Vec<u8>) -> (r: Result<(), Error>) {
        let _ = self.version.serialize(buffer);
        let _ = self.services.serialize(buffer);
        self.timestamp.serialize(buffer)?;
        let _ = self.addr_recv.serialize(buffer);
        let _ = self.addr_trans.serialize(buffer);
        let _ = self.nonce.serialize(buffer);
        let _ = self.user_agent.serialize(buffer);
        let _ = self.start_height.serialize(buffer);
        let _ = self.relay.serialize(buffer);
        Ok(())
    }
}

impl DeserializePayload for VersionMessage {
    open spec fn spec_deserialize(data: Seq<u8>, pos: int) -> Decoded<VersionView> {
        decode_version(data, pos)
    }

    fn deserialize(buffer: &mut ByteReader) -> (r: Result<VersionMessage, Error>) {
        let version = i32::deserialize(buffer)?;
        let services = u64::deserialize(buffer)?;
        let timestamp = Timestamp::deserialize(buffer)?;
        let addr_recv = NetworkAddressForVersion::deserialize(buffer)?;
        let addr_trans = NetworkAddressForVersion::deserialize(buffer)?;
        let nonce = u64::deserialize(buffer)?;
        let user_agent = String::deserialize(buffer)?;
        let start_height = i32::deserialize(buffer)?;
        let relay = bool::deserialize(buffer)?;
        Ok(VersionMessage {
            version,
            services,
            timestamp,
            addr_recv,
            addr_trans,
            nonce,
            user_agent,
            start_height,
            relay,
        })
    }
}

/// Acknowledges the peer's version message; it has no payload.
#[derive(Clone, Copy, Debug, PartialEq, Eq)]
pub struct VersionAckMessage;

impl View for VersionAckMessage {
    type V = VersionAckMessage;

    open spec fn view(&self) -> VersionAckMessage {
        *self
    }
}

impl SerializePayload for VersionAckMessage {
    open spec fn spec_serialize(v: VersionAckMessage) -> (Seq<u8>, Result<(), Error>) {
        (Seq::empty(), Ok(()))
    }

    fn serialize(&self, buffer: &mut Vec<u8>) -> (r: Result<(), Error>) {
        proof {
            assert(buffer@ == buffer@ + Seq::<u8>::empty());
        }
        Ok(())
    }
}

impl DeserializePayload for VersionAckMessage {
    open spec fn spec_deserialize(data: Seq<u8>, pos: int) -> Decoded<VersionAckMessage> {
        (Ok(VersionAckMessage), pos)
    }

    fn deserialize(buffer: &mut ByteReader) -> (r: Result<VersionAckMessage, Error>) {
        Ok(VersionAckMessage)
    }
}

/// A liveness probe carrying a nonce.
#[derive(Clone, Copy, Debug, PartialEq, Eq)]
pub struct PingMessage(pub u64);

impl View for PingMessage {
    type V = PingMessage;

    open spec fn view(&self) -> PingMessage {
        *self
    }
}

impl SerializePayload for PingMessage {
    open spec fn spec_serialize(v: PingMessage) -> (Seq<u8>, Result<(), Error>) {
        (le_u64(v.0), Ok(()))
    }

    fn serialize(&self, buffer: &mut Vec<u8>) -> (r: Result<(), Error>) {
        self.0.serialize(buffer)
    }
}

impl DeserializePayload for PingMessage {
    open spec fn spec_deserialize(data: Seq<u8>, pos: int) -> Decoded<PingMessage> {
        map_decoded(decode_u64_le(data, pos), |n: u64| PingMessage(n))
    }

    fn deserialize(buffer: &mut ByteReader) -> (r: Result<PingMessage, Error>) {
        Ok(PingMessage(u64::deserialize(buffer)?))
    }
}

/// The answer to a ping, echoing its nonce.
#[derive(Clone, Copy, Debug, PartialEq, Eq)]
pub struct PongMessage(pub u64);

impl View for PongMessage {
    type V = PongMessage;

    open spec fn view(&self) -> PongMessage {
        *self
    }
}

impl SerializePayload for PongMessage {
    open spec fn spec_serialize(v: PongMessage) -> (Seq<u8>, Result<(), Error>) {
        (le_u64(v.0), Ok(()))
    }

    fn serialize(&self, buffer: &mut Vec<u8>) -> (r: Result<(), Error>) {
        self.0.serialize(buffer)
    }
}

impl DeserializePayload for PongMessage {
    open spec fn spec_deserialize(data: Seq<u8>, pos: int) -> Decoded<PongMessage> {
        map_decoded(decode_u64_le(data, pos), |n: u64| PongMessage(n))
    }

    fn deserialize(buffer: &mut ByteReader) -> (r: Result<PongMessage, Error>) {
        Ok(PongMessage(u64::deserialize(buffer)?))
    }
}

/// Asks for compact block relay.
#[derive(Clone, Copy, Debug, PartialEq, Eq)]
pub struct SendCompactMessage {
    pub announce: bool,
    pub version: u64,
}

impl View for SendCompactMessage {
    type V = SendCompactMessage;

    open spec fn view(&self) -> SendCompactMessage {
        *self
    }
}

impl SerializePayload for SendCompactMessage {
    open spec fn spec_serialize(v: SendCompactMessage) -> (Seq<u8>, Result<(), Error>) {
        (seq![bool_byte(v.announce)] + le_u64(v.version), Ok(()))
    }

    fn serialize(&self, buffer: &mut Vec<u8>) -> (r: Result<(), Error>) {
        let _ = self.announce.serialize(buffer);
        let _ = self.version.serialize(buffer);
        Ok(())
    }
}

impl DeserializePayload for SendCompactMessage {
    open spec fn spec_deserialize(data: Seq<u8>, pos: int) -> Decoded<SendCompactMessage> {
        and_then(
            <bool as DeserializePayload>::spec_deserialize(data, pos),
            |announce: bool, p1: int|
                map_decoded(
                    decode_u64_le(data, p1),
                    |version: u64| SendCompactMessage { announce, version },
                ),
        )
    }

    fn deserialize(buffer: &mut ByteReader) -> (r: Result<SendCompactMessage, Error>) {
        let announce = bool::deserialize(buffer)?;
        let version = u64::deserialize(buffer)?;
        Ok(SendCompactMessage { announce, version })
    }
}

/// The hash of a block header.
#[derive(Clone, Copy, Debug, PartialEq, Eq)]
pub struct BlockHeaderHash {
    pub hash: [u8; 32],
}

impl View for BlockHeaderHash {
    type V = Seq<u8>;

    open spec fn view(&self) -> Seq<u8> {
        self.hash@
    }
}

impl SerializePayload for BlockHeaderHash {
    open spec fn spec_serialize(v: Seq<u8>) -> (Seq<u8>, Result<(), Error>) {
        (v, Ok(()))
    }

    fn serialize(&self, buffer: &mut Vec<u8>) -> (r: Result<(), Error>) {
        crate::serialization::append_bytes(buffer, self.hash.as_slice());
        Ok(())
    }
}

impl DeserializePayload for BlockHeaderHash {
    open spec fn spec_deserialize(data: Seq<u8>, pos: int) -> Decoded<Seq<u8>> {
        take_bytes(data, pos, 32)
    }

    fn deserialize(buffer: &mut ByteReader) -> (r: Result<BlockHeaderHash, Error>) {
        let s = buffer.read_bytes(32)?;
        let mut hash = [0u8; 32];
        let mut i: usize = 0;
        while i < 32
            invariant
                s@.len() == 32,
                i <= 32,
                forall|j: int| 0 <= j < i ==> hash@[j] == s@[j],
            decreases 32 - i,
        {
            hash[i] = s[i];
            i = i + 1;
        }
        proof {
            assert(hash@ =~= s@);
        }
        Ok(BlockHeaderHash { hash })
    }
}

/// A fee rate below which the peer should not relay transactions.
#[derive(Clone, Copy, Debug, PartialEq, Eq)]
pub struct FeeFilterMessage {
    pub fee_rate: u64,
}

impl View for FeeFilterMessage {
    type V = FeeFilterMessage;

    open spec fn view(&self) -> FeeFilterMessage {
        *self
    }
}

impl SerializePayload for FeeFilterMessage {
    open spec fn spec_serialize(v: FeeFilterMessage) -> (Seq<u8>, Result<(), Error>) {
        (le_u64(v.fee_rate), Ok(()))
    }

    fn serialize(&self, buffer: &mut Vec<u8>) -> (r: Result<(), Error>) {
        self.fee_rate.serialize(buffer)
    }
}

impl DeserializePayload for FeeFilterMessage {
    open spec fn spec_deserialize(data: Seq<u8>, pos: int) -> Decoded<FeeFilterMessage> {
        map_decoded(decode_u64_le(data, pos), |fee_rate: u64| FeeFilterMessage { fee_rate })
    }

    fn deserialize(buffer: &mut ByteReader) -> (r: Result<FeeFilterMessage, Error>) {
        let fee_rate = u64::deserialize(buffer)?;
        Ok(FeeFilterMessage { fee_rate })
    }
}

/// Announces transaction relay by witness id; it has no payload.
#[derive(Clone, Copy, Debug, PartialEq, Eq)]
pub struct WTxIdRelayMessage;

impl View for WTxIdRelayMessage {
    type V = WTxIdRelayMessage;

    open spec fn view(&self) -> WTxIdRelayMessage {
        *self
    }
}

impl SerializePayload for WTxIdRelayMessage {
    open spec fn spec_serialize(v: WTxIdRelayMessage) -> (Seq<u8>, Result<(), Error>) {
        (Seq::empty(), Ok(()))
    }

    fn serialize(&self, buffer: &mut Vec<u8>) -> (r: Result<(), Error>) {
        proof {
            assert(buffer@ == buffer@ + Seq::<u8>::empty());
        }
        Ok(())
    }
}

impl DeserializePayload for WTxIdRelayMessage {
    open spec fn spec_deserialize(data: Seq<u8>, pos: int) -> Decoded<WTxIdRelayMessage> {
        (Ok(WTxIdRelayMessage), pos)
    }

    fn deserialize(buffer: &mut ByteReader) -> (r: Result<WTxIdRelayMessage, Error>) {
        Ok(WTxIdRelayMessage)
    }
}

/// Announces support for version 2 address messages; it has no payload.
#[derive(Clone, Copy, Debug, PartialEq, Eq)]
pub struct SendAddrV2Message;

impl View for SendAddrV2Message {
    type V = SendAddrV2Message;

    open spec fn view(&self) -> SendAddrV2Message {
        *self
    }
}

impl SerializePayload for SendAddrV2Message {
    open spec fn spec_serialize(v: SendAddrV2Message) -> (Seq<u8>, Result<(), Error>) {
        (Seq::empty(), Ok(()))
    }

    fn serialize(&self, buffer: &mut Vec<u8>) -> (r: Result<(), Error>) {
        proof {
            assert(buffer@ == buffer@ + Seq::<u8>::empty());
        }
        Ok(())
    }
}

impl DeserializePayload for SendAddrV2Message {
    open spec fn spec_deserialize(data: Seq<u8>, pos: int) -> Decoded<SendAddrV2Message> {
        (Ok(SendAddrV2Message), pos)
    }

    fn deserialize(buffer: &mut ByteReader) -> (r: Result<SendAddrV2Message, Error>) {
        Ok(SendAddrV2Message)
    }
}

/// Asks for block headers after the given hashes, up to `stop_hash`.
#[derive(Clone, Debug)]
pub struct GetHeadersMessage {
    pub version: i32,
    pub hashes: Vec<BlockHeaderHash>,
    pub stop_hash: BlockHeaderHash,
}

pub struct GetHeadersView {
    pub version: i32,
    pub hashes: Seq<Seq<u8>>,
    pub stop_hash: Seq<u8>,
}

/// The bytes of each hash of a list.
pub open spec fn hash_views(hashes: Seq<BlockHeaderHash>) -> Seq<Seq<u8>> {
    hashes.map_values(|h: BlockHeaderHash| h.hash@)
}

impl View for GetHeadersMessage {
    type V = GetHeadersView;

    open spec fn view(&self) -> GetHeadersView {
        GetHeadersView {
            version: self.version,
            hashes: hash_views(self.hashes@),
            stop_hash: self.stop_hash.hash@,
        }
    }
}

/// The hashes one after the other.
pub open spec fn hashes_bytes(hashes: Seq<Seq<u8>>) -> Seq<u8>
    decreases hashes.len(),
{
    if hashes.len() == 0 {
        Seq::empty()
    } else {
        hashes_bytes(hashes.drop_last()) + hashes.last()
    }
}

/// `n` hashes of 32 bytes each, read one after the other.
pub open spec fn decode_hashes(data: Seq<u8>, pos: int, n: nat) -> Decoded<Seq<Seq<u8>>>
    decreases n,
{
    if n == 0 {
        (Ok(Seq::empty()), pos)
    } else {
        and_then(
            decode_hashes(data, pos, (n - 1) as nat),
            |hashes: Seq<Seq<u8>>, q: int|
                map_decoded(take_bytes(data, q, 32), |h: Seq<u8>| hashes.push(h)),
        )
    }
}

/// The version, the count of hashes as a compact size, the hashes, then the stop hash.
pub open spec fn get_headers_bytes(v: GetHeadersView) -> Seq<u8> {
    le_i32(v.version) + compact_size_bytes(v.hashes.len() as u64) + hashes_bytes(v.hashes)
        + v.stop_hash
}

pub open spec fn decode_get_headers(data: Seq<u8>, pos: int) -> Decoded<GetHeadersView> {
    and_then(
        decode_i32_le(data, pos),
        |version: i32, p1: int|
            and_then(
                decode_compact_size(data, p1),
                |n: u64, p2: int|
                    and_then(
                        decode_hashes(data, p2, n as nat),
                        |hashes: Seq<Seq<u8>>, p3: int|
                            map_decoded(
                                take_bytes(data, p3, 32),
                                |stop_hash: Seq<u8>| GetHeadersView { version, hashes, stop_hash },
                            ),
                    ),
            ),
    )
}

/// Once reading the hashes has failed, reading more of them fails the same way.
proof fn lemma_decode_hashes_error_persists(data: Seq<u8>, pos: int, k: nat, m: nat)
    requires
        k <= m,
        decode_hashes(data, pos, k).0 is Err,
    ensures
        decode_hashes(data, pos, m) == decode_hashes(data, pos, k),
    decreases m - k,
{
    if k < m {
        lemma_decode_hashes_error_persists(data, pos, k, (m - 1) as nat);
    }
}

impl SerializePayload for GetHeadersMessage {
    open spec fn spec_serialize(v: GetHeadersView) -> (Seq<u8>, Result<(), Error>) {
        (get_headers_bytes(v), Ok(()))
    }

    fn serialize(&self, buffer: &mut Vec<u8>) -> (r: Result<(), Error>) {
        let ghost start = buffer@;
        let _ = self.version.serialize(buffer);
        let _ = CompactSizeUint(self.hashes.len() as u64).serialize(buffer);
        let ghost before_hashes = buffer@;
        let ghost hs = hash_views(self.hashes@);
        let mut i: usize = 0;
        while i < self.hashes.len()
            invariant
                i <= self.hashes@.len(),
                hs == hash_views(self.hashes@),
                buffer@ == before_hashes + hashes_bytes(hs.take(i as int)),
            decreases self.hashes@.len() - i,
        {
            let _ = self.hashes[i].serialize(buffer);
            proof {
                assert(hs.take(i + 1).drop_last() =~= hs.take(i as int));
                assert(hs.take(i + 1).last() == self.hashes@[i as int].hash@);
            }
            i = i + 1;
        }
        proof {
            assert(hs.take(i as int) =~= hs);
        }
        let _ = self.stop_hash.serialize(buffer);
        Ok(())
    }
}

impl DeserializePayload for GetHeadersMessage {
    open spec fn spec_deserialize(data: Seq<u8>, pos: int) -> Decoded<GetHeadersView> {
        decode_get_headers(data, pos)
    }

    fn deserialize(buffer: &mut ByteReader) -> (r: Result<GetHeadersMessage, Error>) {
        let ghost data = buffer.data();
        let ghost p0 = buffer.pos();
        let version = i32::deserialize(buffer)?;
        let ghost p1 = buffer.pos();
        let number_of_hashes = CompactSizeUint::deserialize(buffer)?.0;
        let ghost start = buffer.pos();
        let mut hashes: Vec<BlockHeaderHash> = Vec::new();
        let mut i: u64 = 0;
        proof {
            assert(hash_views(hashes@) =~= Seq::<Seq<u8>>::empty());
        }
        while i < number_of_hashes
            invariant
                buffer.data() == data,
                data == old(buffer).data(),
                p0 == old(buffer).pos(),
                decode_i32_le(data, p0) == (Ok::<i32, Error>(version), p1),
                decode_compact_size(data, p1) == (Ok::<u64, Error>(number_of_hashes), start),
                i <= number_of_hashes,
                decode_hashes(data, start, i as nat) == (
                    Ok::<Seq<Seq<u8>>, Error>(hash_views(hashes@)),
                    buffer.pos(),
                ),
            decreases number_of_hashes - i,
        {
            let ghost before = hashes@;
            match BlockHeaderHash::deserialize(buffer) {
                Ok(hash) => {
                    hashes.push(hash);
                    proof {
                        assert(hash_views(hashes@) =~= hash_views(before).push(hash.hash@));
                    }
                },
                Err(e) => {
                    proof {
                        lemma_decode_hashes_error_persists(
                            data,
                            start,
                            (i + 1) as nat,
                            number_of_hashes as nat,
                        );
                    }
                    return Err(e);
                },
            }
            i = i + 1;
        }
        let stop_hash = BlockHeaderHash::deserialize(buffer)?;
        Ok(GetHeadersMessage { version, hashes, stop_hash })
    }
}

/// A message of the handshake.
#[derive(Clone, Debug)]
pub enum Message {
    Version(VersionMessage),
    VersionAck(VersionAckMessage),
    Ping(PingMessage),
    Pong(PongMessage),
    SendCompact(SendCompactMessage),
    GetHeaders(GetHeadersMessage),
    FeeFilter(FeeFilterMessage),
    WTxIdRelay(WTxIdRelayMessage),
    SendAddrV2(SendAddrV2Message),
}

pub enum MessageView {
    Version(VersionView),
    VersionAck(VersionAckMessage),
    Ping(PingMessage),
    Pong(PongMessage),
    SendCompact(SendCompactMessage),
    GetHeaders(GetHeadersView),
    FeeFilter(FeeFilterMessage),
    WTxIdRelay(WTxIdRelayMessage),
    SendAddrV2(SendAddrV2Message),
}

impl View for Message {
    type V = MessageView;

    open spec fn view(&self) -> MessageView {
        match self {
            Message::Version(m) => MessageView::Version(m@),
            Message::VersionAck(m) => MessageView::VersionAck(*m),
            Message::Ping(m) => MessageView::Ping(*m),
            Message::Pong(m) => MessageView::Pong(*m),
            Message::SendCompact(m) => MessageView::SendCompact(*m),
            Message::GetHeaders(m) => MessageView::GetHeaders(m@),
            Message::FeeFilter(m) => MessageView::FeeFilter(*m),
            Message::WTxIdRelay(m) => MessageView::WTxIdRelay(*m),
            Message::SendAddrV2(m) => MessageView::SendAddrV2(*m),
        }
    }
}

/// The kind of a message.
pub open spec fn message_kind(m: MessageView) -> MessageKind {
    match m {
        MessageView::Version(_) => MessageKind::Version,
        MessageView::VersionAck(_) => MessageKind::VersionAck,
        MessageView::Ping(_) => MessageKind::Ping,
        MessageView::Pong(_) => MessageKind::Pong,
        MessageView::SendCompact(_) => MessageKind::SendCompact,
        MessageView::GetHeaders(_) => MessageKind::GetHeaders,
        MessageView::FeeFilter(_) => MessageKind::FeeFilter,
        MessageView::WTxIdRelay(_) => MessageKind::WTxIdRelay,
        MessageView::SendAddrV2(_) => MessageKind::SendAddrV2,
    }
}

/// The payload bytes that serializing a message appends, and whether it succeeds.
pub open spec fn message_payload(m: MessageView) -> (Seq<u8>, Result<(), Error>) {
    match m {
        MessageView::Version(v) => <VersionMessage as SerializePayload>::spec_serialize(v),
        MessageView::VersionAck(v) => <VersionAckMessage as SerializePayload>::spec_serialize(v),
        MessageView::Ping(v) => <PingMessage as SerializePayload>::spec_serialize(v),
        MessageView::Pong(v) => <PongMessage as SerializePayload>::spec_serialize(v),
        MessageView::SendCompact(v) => <SendCompactMessage as SerializePayload>::spec_serialize(v),
        MessageView::GetHeaders(v) => <GetHeadersMessage as SerializePayload>::spec_serialize(v),
        MessageView::FeeFilter(v) => <FeeFilterMessage as SerializePayload>::spec_serialize(v),
        MessageView::WTxIdRelay(v) => <WTxIdRelayMessage as SerializePayload>::spec_serialize(v),
        MessageView::SendAddrV2(v) => <SendAddrV2Message as SerializePayload>::spec_serialize(v),
    }
}

/// A payload of the given kind read from `data` at `pos`.
pub open spec fn decode_payload_of_kind(kind: MessageKind, data: Seq<u8>, pos: int) -> Decoded<
    MessageView,
> {
    match kind {
        MessageKind::Version => map_decoded(
            decode_version(data, pos),
            |v: VersionView| MessageView::Version(v),
        ),
        MessageKind::VersionAck => map_decoded(
            <VersionAckMessage as DeserializePayload>::spec_deserialize(data, pos),
            |v: VersionAckMessage| MessageView::VersionAck(v),
        ),
        MessageKind::Ping => map_decoded(
            <PingMessage as DeserializePayload>::spec_deserialize(data, pos),
            |v: PingMessage| MessageView::Ping(v),
        ),
        MessageKind::Pong => map_decoded(
            <PongMessage as DeserializePayload>::spec_deserialize(data, pos),
            |v: PongMessage| MessageView::Pong(v),
        ),
        MessageKind::SendCompact => map_decoded(
            <SendCompactMessage as DeserializePayload>::spec_deserialize(data, pos),
            |v: SendCompactMessage| MessageView::SendCompact(v),
        ),
        MessageKind::GetHeaders => map_decoded(
            decode_get_headers(data, pos),
            |v: GetHeadersView| MessageView::GetHeaders(v),
        ),
        MessageKind::FeeFilter => map_decoded(
            <FeeFilterMessage as DeserializePayload>::spec_deserialize(data, pos),
            |v: FeeFilterMessage| MessageView::FeeFilter(v),
        ),
        MessageKind::WTxIdRelay => map_decoded(
            <WTxIdRelayMessage as DeserializePayload>::spec_deserialize(data, pos),
            |v: WTxIdRelayMessage| MessageView::WTxIdRelay(v),
        ),
        MessageKind::SendAddrV2 => map_decoded(
            <SendAddrV2Message as DeserializePayload>::spec_deserialize(data, pos),
            |v: SendAddrV2Message| MessageView::SendAddrV2(v),
        ),
    }
}

/// The message of the given kind that a whole payload holds: the payload must
/// decode, and nothing may be left over.
pub open spec fn decode_message(kind: MessageKind, payload: Seq<u8>) -> Result<MessageView, Error> {
    let (r, p) = decode_payload_of_kind(kind, payload, 0);
    match r {
        Err(e) => Err(e),
        Ok(m) => if p < payload.len() {
            Err(Error::TrailingBytes((payload.len() - p) as usize))
        } else {
            Ok(m)
        },
    }
}

impl Message {
    /// The kind of this message.
    pub fn kind(&self) -> (r: MessageKind)
        ensures
            r == message_kind(self@),
    {
        match self {
            Message::Version(_) => MessageKind::Version,
            Message::VersionAck(_) => MessageKind::VersionAck,
            Message::Ping(_) => MessageKind::Ping,
            Message::Pong(_) => MessageKind::Pong,
            Message::SendCompact(_) => MessageKind::SendCompact,
            Message::GetHeaders(_) => MessageKind::GetHeaders,
            Message::FeeFilter(_) => MessageKind::FeeFilter,
            Message::WTxIdRelay(_) => MessageKind::WTxIdRelay,
            Message::SendAddrV2(_) => MessageKind::SendAddrV2,
        }
    }

    /// Appends the payload of this message.
    pub fn serialize(&self, buffer: &mut Vec<u8>) -> (r: Result<(), Error>)
        ensures
            final(buffer)@ == old(buffer)@ + message_payload(self@).0,
            r == message_payload(self@).1,
    {
        match self {
            Message::Version(inner) => inner.serialize(buffer),
            Message::VersionAck(inner) => inner.serialize(buffer),
            Message::Ping(inner) => inner.serialize(buffer),
            Message::Pong(inner) => inner.serialize(buffer),
            Message::SendCompact(inner) => inner.serialize(buffer),
            Message::GetHeaders(inner) => inner.serialize(buffer),
            Message::FeeFilter(inner) => inner.serialize(buffer),
            Message::WTxIdRelay(inner) => inner.serialize(buffer),
            Message::SendAddrV2(inner) => inner.serialize(buffer),
        }
    }

    /// The message of kind `kind` that `payload` holds, which must use the whole payload.
    pub fn deserialize(kind: MessageKind, payload: Vec<u8>) -> (r: Result<Message, Error>)
        ensures
            view_result(r) == decode_message(kind, payload@),
    {
        let mut cursor = ByteReader::new(payload.as_slice());
        let message = match kind {
            MessageKind::Version => Message::Version(VersionMessage::deserialize(&mut cursor)?),
            MessageKind::VersionAck => Message::VersionAck(
                VersionAckMessage::deserialize(&mut cursor)?,
            ),
            MessageKind::Ping => Message::Ping(PingMessage::deserialize(&mut cursor)?),
            MessageKind::Pong => Message::Pong(PongMessage::deserialize(&mut cursor)?),
            MessageKind::SendCompact => Message::SendCompact(
                SendCompactMessage::deserialize(&mut cursor)?,
            ),
            MessageKind::GetHeaders => Message::GetHeaders(
                GetHeadersMessage::deserialize(&mut cursor)?,
            ),
            MessageKind::FeeFilter => Message::FeeFilter(
                FeeFilterMessage::deserialize(&mut cursor)?,
            ),
            MessageKind::WTxIdRelay => Message::WTxIdRelay(
                WTxIdRelayMessage::deserialize(&mut cursor)?,
            ),
            MessageKind::SendAddrV2 => Message::SendAddrV2(
                SendAddrV2Message::deserialize(&mut cursor)?,
            ),
        };
        let remaining_bytes = cursor.remaining();
        if remaining_bytes > 0 {
            return Err(Error::TrailingBytes(remaining_bytes));
        }
        Ok(message)
    }
}

// ---- reading back what was written ----
/// A peer address reads back as itself unless its address is an IPv6 address
/// in the IPv4-mapped range.
pub proof fn lemma_network_address_roundtrip(v: NetworkAddressForVersion, data: Seq<u8>, pos: int)
    requires
        !is_ipv4_mapped_v6(v.ip@),
        occurs_at(data, pos, network_address_bytes(v@)),
    ensures
        reads_back(decode_network_address(data, pos), v@, pos, network_address_bytes(v@)),
{
    let a = le_u64(v.services);
    let b = ip_bytes(v.ip@);
    let c = be_u16(v.port.0);
    lemma_occurs_at_concat(data, pos, a + b, c);
    lemma_occurs_at_concat(data, pos, a, b);
    lemma_u64_roundtrip(v.services, data, pos);
    lemma_ip_roundtrip(v.ip, data, pos + a.len());
    lemma_u16_be_roundtrip(v.port.0, data, pos + a.len() + b.len());
}

/// What a version message needs to read back as itself: a time at or after
/// the epoch, no IPv6 address in the IPv4-mapped range, and a user agent whose
/// byte length fits a `u32`.
pub open spec fn version_reads_back(v: VersionView) -> bool {
    &&& v.timestamp >= 0
    &&& !is_ipv4_mapped_v6(v.addr_recv.ip)
    &&& !is_ipv4_mapped_v6(v.addr_trans.ip)
    &&& string_bytes(v.user_agent).len() <= 0xFFFF_FFFF
}

/// A version message that meets `version_reads_back` reads back as itself.
pub proof fn lemma_version_roundtrip(v: VersionMessage, data: Seq<u8>, pos: int)
    requires
        version_reads_back(v@),
        occurs_at(data, pos, version_bytes(v@)),
    ensures
        reads_back(decode_version(data, pos), v@, pos, version_bytes(v@)),
{
    let w = v@;
    let f1 = le_i32(w.version);
    let f2 = le_u64(w.services);
    let f3 = le_u64(w.timestamp as u64);
    let f4 = network_address_bytes(w.addr_recv);
    let f5 = network_address_bytes(w.addr_trans);
    let f6 = le_u64(w.nonce);
    let f7 = <String as SerializePayload>::spec_serialize(w.user_agent).0;
    let f8 = le_i32(w.start_height);
    let f9 = seq![bool_byte(w.relay)];
    lemma_occurs_at_concat(data, pos, f1 + f2 + f3 + f4 + f5 + f6 + f7 + f8, f9);
    lemma_occurs_at_concat(data, pos, f1 + f2 + f3 + f4 + f5 + f6 + f7, f8);
    lemma_occurs_at_concat(data, pos, f1 + f2 + f3 + f4 + f5 + f6, f7);
    lemma_occurs_at_concat(data, pos, f1 + f2 + f3 + f4 + f5, f6);
    lemma_occurs_at_concat(data, pos, f1 + f2 + f3 + f4, f5);
    lemma_occurs_at_concat(data, pos, f1 + f2 + f3, f4);
    lemma_occurs_at_concat(data, pos, f1 + f2, f3);
    lemma_occurs_at_concat(data, pos, f1, f2);
    let p1 = pos + f1.len();
    let p2 = p1 + f2.len();
    let p3 = p2 + f3.len();
    let p4 = p3 + f4.len();
    let p5 = p4 + f5.len();
    let p6 = p5 + f6.len();
    let p7 = p6 + f7.len();
    let p8 = p7 + f8.len();
    lemma_i32_roundtrip(w.version, data, pos);
    lemma_u64_roundtrip(w.services, data, p1);
    lemma_timestamp_roundtrip(w.timestamp, data, p2);
    lemma_network_address_roundtrip(v.addr_recv, data, p3);
    lemma_network_address_roundtrip(v.addr_trans, data, p4);
    lemma_u64_roundtrip(w.nonce, data, p5);
    lemma_string_roundtrip(w.user_agent, data, p6);
    lemma_i32_roundtrip(w.start_height, data, p7);
    lemma_bool_roundtrip(w.relay, data, p8);
}

proof fn lemma_hashes_roundtrip(hashes: Seq<Seq<u8>>, data: Seq<u8>, pos: int)
    requires
        forall|i: int| 0 <= i < hashes.len() ==> (#[trigger] hashes[i]).len() == 32,
        occurs_at(data, pos, hashes_bytes(hashes)),
    ensures
        reads_back(decode_hashes(data, pos, hashes.len()), hashes, pos, hashes_bytes(hashes)),
    decreases hashes.len(),
{
    if hashes.len() > 0 {
        let init = hashes.drop_last();
        assert(hashes[hashes.len() - 1].len() == 32);
        assert forall|i: int| 0 <= i < init.len() implies (#[trigger] init[i]).len() == 32 by {
            assert(init[i] == hashes[i]);
        }
        lemma_occurs_at_concat(data, pos, hashes_bytes(init), hashes.last());
        lemma_hashes_roundtrip(init, data, pos);
        lemma_take_occurs(data, pos + hashes_bytes(init).len(), hashes.last());
        assert(init.push(hashes.last()) =~= hashes);
        let n = hashes.len();
        assert(((n - 1) as nat) == init.len());
        let prev = decode_hashes(data, pos, init.len());
        assert(prev == (Ok::<Seq<Seq<u8>>, Error>(init), pos + hashes_bytes(init).len()));
        assert(take_bytes(data, pos + hashes_bytes(init).len(), 32) == (Ok::<Seq<u8>, Error>(hashes.last()), pos + hashes_bytes(init).len() + 32));
    } else {
        assert(hashes =~= Seq::<Seq<u8>>::empty());
    }
}

/// A getheaders message reads back as itself when its count of hashes fits a `u32`.
pub proof fn lemma_get_headers_roundtrip(v: GetHeadersMessage, data: Seq<u8>, pos: int)
    requires
        v.hashes@.len() <= 0xFFFF_FFFF,
        occurs_at(data, pos, get_headers_bytes(v@)),
    ensures
        reads_back(decode_get_headers(data, pos), v@, pos, get_headers_bytes(v@)),
{
    broadcast use vstd::array::group_array_axioms;

    let w = v@;
    let f1 = le_i32(w.version);
    let f2 = compact_size_bytes(w.hashes.len() as u64);
    let f3 = hashes_bytes(w.hashes);
    let f4 = w.stop_hash;
    lemma_occurs_at_concat(data, pos, f1 + f2 + f3, f4);
    lemma_occurs_at_concat(data, pos, f1 + f2, f3);
    lemma_occurs_at_concat(data, pos, f1, f2);
    lemma_i32_roundtrip(w.version, data, pos);
    lemma_compact_size_roundtrip(w.hashes.len() as u64, data, pos + f1.len());
    assert forall|i: int| 0 <= i < w.hashes.len() implies (#[trigger] w.hashes[i]).len() == 32 by {
        assert(w.hashes[i] == v.hashes@[i].hash@);
    }
    lemma_hashes_roundtrip(w.hashes, data, pos + f1.len() + f2.len());
    lemma_take_occurs(data, pos + f1.len() + f2.len() + f3.len(), f4);
}

/// What a message needs to read back as itself from its payload: a version
/// message must meet `version_reads_back`, a getheaders message must have at
/// most `u32::MAX` hashes.
pub open spec fn message_reads_back(m: Message) -> bool {
    match m {
        Message::Version(v) => version_reads_back(v@),
        Message::GetHeaders(g) => g.hashes@.len() <= 0xFFFF_FFFF,
        _ => true,
    }
}

/// A message that meets `message_reads_back` serializes, and its payload
/// decodes, as its own kind, to the message itself with nothing left over.
pub proof fn lemma_message_roundtrip(m: Message)
    requires
        message_reads_back(m),
    ensures
        message_payload(m@).1 is Ok,
        decode_message(message_kind(m@), message_payload(m@).0) == Ok::<MessageView, Error>(m@),
{
    let payload = message_payload(m@).0;
    assert(payload.subrange(0, payload.len() as int) =~= payload);
    assert(occurs_at(payload, 0, payload));
    match m {
        Message::Version(v) => lemma_version_roundtrip(v, payload, 0),
        Message::VersionAck(_) => {},
        Message::Ping(p) => lemma_u64_roundtrip(p.0, payload, 0),
        Message::Pong(p) => lemma_u64_roundtrip(p.0, payload, 0),
        Message::SendCompact(c) => {
            lemma_occurs_at_concat(payload, 0, seq![bool_byte(c.announce)], le_u64(c.version));
            lemma_bool_roundtrip(c.announce, payload, 0);
            lemma_u64_roundtrip(c.version, payload, 1);
        },
        Message::GetHeaders(g) => lemma_get_headers_roundtrip(g, payload, 0),
        Message::FeeFilter(f) => lemma_u64_roundtrip(f.fee_rate, payload, 0),
        Message::WTxIdRelay(_) => {},
        Message::SendAddrV2(_) => {},
    }
}

// ---- wrapping payloads as messages ----
impl From<VersionMessage> for Message {
    fn from(value: VersionMessage) -> (r: Self) {
        Message::Version(value)
    }
}

impl vstd::std_specs::convert::FromSpecImpl<VersionMessage> for Message {
    open spec fn obeys_from_spec() -> bool {
        true
    }

    open spec fn from_spec(value: VersionMessage) -> Message {
        Message::Version(value)
    }
}

impl From<VersionAckMessage> for Message {
    fn from(value: VersionAckMessage) -> (r: Self) {
        Message::VersionAck(value)
    }
}

impl vstd::std_specs::convert::FromSpecImpl<VersionAckMessage> for Message {
    open spec fn obeys_from_spec() -> bool {
        true
    }

    open spec fn from_spec(value: VersionAckMessage) -> Message {
        Message::VersionAck(value)
    }
}

impl From<PingMessage> for Message {
    fn from(value: PingMessage) -> (r: Self) {
        Message::Ping(value)
    }
}

impl vstd::std_specs::convert::FromSpecImpl<PingMessage> for Message {
    open spec fn obeys_from_spec() -> bool {
        true
    }

    open spec fn from_spec(value: PingMessage) -> Message {
        Message::Ping(value)
    }
}

impl From<PongMessage> for Message {
    fn from(value: PongMessage) -> (r: Self) {
        Message::Pong(value)
    }
}

impl vstd::std_specs::convert::FromSpecImpl<PongMessage> for Message {
    open spec fn obeys_from_spec() -> bool {
        true
    }

    open spec fn from_spec(value: PongMessage) -> Message {
        Message::Pong(value)
    }
}

impl From<SendCompactMessage> for Message {
    fn from(value: SendCompactMessage) -> (r: Self) {
        Message::SendCompact(value)
    }
}

impl vstd::std_specs::convert::FromSpecImpl<SendCompactMessage> for Message {
    open spec fn obeys_from_spec() -> bool {
        true
    }

    open spec fn from_spec(value: SendCompactMessage) -> Message {
        Message::SendCompact(value)
    }
}

impl From<GetHeadersMessage> for Message {
    fn from(value: GetHeadersMessage) -> (r: Self) {
        Message::GetHeaders(value)
    }
}

impl vstd::std_specs::convert::FromSpecImpl<GetHeadersMessage> for Message {
    open spec fn obeys_from_spec() -> bool {
        true
    }

    open spec fn from_spec(value: GetHeadersMessage) -> Message {
        Message::GetHeaders(value)
    }
}

impl From<FeeFilterMessage> for Message {
    fn from(value: FeeFilterMessage) -> (r: Self) {
        Message::FeeFilter(value)
    }
}

impl vstd::std_specs::convert::FromSpecImpl<FeeFilterMessage> for Message {
    open spec fn obeys_from_spec() -> bool {
        true
    }

    open spec fn from_spec(value: FeeFilterMessage) -> Message {
        Message::FeeFilter(value)
    }
}

impl From<WTxIdRelayMessage> for Message {
    fn from(value: WTxIdRelayMessage) -> (r: Self) {
        Message::WTxIdRelay(value)
    }
}

impl vstd::std_specs::convert::FromSpecImpl<WTxIdRelayMessage> for Message {
    open spec fn obeys_from_spec() -> bool {
        true
    }

    open spec fn from_spec(value: WTxIdRelayMessage) -> Message {
        Message::WTxIdRelay(value)
    }
}

impl From<SendAddrV2Message> for Message {
    fn from(value: SendAddrV2Message) -> (r: Self) {
        Message::SendAddrV2(value)
    }
}

impl vstd::std_specs::convert::FromSpecImpl<SendAddrV2Message> for Message {
    open spec fn obeys_from_spec() -> bool {
        true
    }

    open spec fn from_spec(value: SendAddrV2Message) -> Message {
        Message::SendAddrV2(value)
    }
}

} // verus!
