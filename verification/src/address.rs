//! Network addresses and their 16-byte wire form.
use vstd::prelude::*;
use crate::error::Error;
use crate::serialization::{
    append_bytes, map_decoded, occurs_at, reads_back, take_bytes, ByteReader, Decoded,
    DeserializePayload, SerializePayload,
};

verus! {

/// An IP address: four octets for IPv4, sixteen for IPv6.
#[derive(Clone, Copy, Debug, PartialEq, Eq)]
pub enum IpAddress {
    V4([u8; 4]),
    V6([u8; 16]),
}

/// An IP address by its octets.
pub enum IpAddressView {
    V4(Seq<u8>),
    V6(Seq<u8>),
}

impl View for IpAddress {
    type V = IpAddressView;

    open spec fn view(&self) -> IpAddressView {
        match self {
            IpAddress::V4(o) => IpAddressView::V4(o@),
            IpAddress::V6(o) => IpAddressView::V6(o@),
        }
    }
}

/// An IP address and a port.
#[derive(Clone, Copy, Debug, PartialEq, Eq)]
pub struct SocketAddress {
    pub ip: IpAddress,
    pub port: u16,
}

/// A socket address by its parts.
pub struct SocketAddressView {
    pub ip: IpAddressView,
    pub port: u16,
}

impl View for SocketAddress {
    type V = SocketAddressView;

    open spec fn view(&self) -> SocketAddressView {
        SocketAddressView { ip: self.ip@, port: self.port }
    }
}

/// The twelve bytes before an IPv4 address mapped into IPv6 (`::ffff:a.b.c.d`).
pub open spec fn ipv4_mapped_prefix() -> Seq<u8> {
    seq![0u8, 0, 0, 0, 0, 0, 0, 0, 0, 0, 0xff, 0xff]
}

/// The sixteen bytes of an address: IPv4 as the IPv4-mapped IPv6 address.
pub open spec fn ip_bytes(ip: IpAddressView) -> Seq<u8> {
    match ip {
        IpAddressView::V4(o) => ipv4_mapped_prefix() + o,
        IpAddressView::V6(o) => o,
    }
}

/// The address that sixteen bytes stand for: IPv4 when they begin with the
/// IPv4-mapped prefix, IPv6 otherwise.
pub open spec fn ip_of_bytes(o: Seq<u8>) -> IpAddressView {
    if o.subrange(0, 12) == ipv4_mapped_prefix() {
        IpAddressView::V4(o.subrange(12, 16))
    } else {
        IpAddressView::V6(o)
    }
}

/// An IPv6 address that reads back as an IPv4 address.
pub open spec fn is_ipv4_mapped_v6(ip: IpAddressView) -> bool {
    match ip {
        IpAddressView::V6(o) => o.subrange(0, 12) == ipv4_mapped_prefix(),
        IpAddressView::V4(_) => false,
    }
}

impl SerializePayload for IpAddress {
    open spec fn spec_serialize(v: IpAddressView) -> (Seq<u8>, Result<(), Error>) {
        (ip_bytes(v), Ok(()))
    }

    fn serialize(&self, buffer: &mut Vec<u8>) -> (r: Result<(), Error>) {
        match self {
            IpAddress::V4(o) => {
                let prefix: [u8; 12] = [0, 0, 0, 0, 0, 0, 0, 0, 0, 0, 0xff, 0xff];
                proof {
                    assert(prefix@ =~= ipv4_mapped_prefix());
                }
                append_bytes(buffer, prefix.as_slice());
                append_bytes(buffer, o.as_slice());
                proof {
                    assert(ip_bytes(self@) =~= prefix@ + o@);
                }
            },
            IpAddress::V6(o) => {
                append_bytes(buffer, o.as_slice());
            },
        }
        Ok(())
    }
}

impl DeserializePayload for IpAddress {
    open spec fn spec_deserialize(data: Seq<u8>, pos: int) -> Decoded<IpAddressView> {
        map_decoded(take_bytes(data, pos, 16), |o: Seq<u8>| ip_of_bytes(o))
    }

    fn deserialize(buffer: &mut ByteReader) -> (r: Result<IpAddress, Error>) {
        let o = buffer.read_bytes(16)?;
        let mapped = o[0] == 0 && o[1] == 0 && o[2] == 0 && o[3] == 0 && o[4] == 0 && o[5] == 0
            && o[6] == 0 && o[7] == 0 && o[8] == 0 && o[9] == 0 && o[10] == 0xff && o[11] == 0xff;
        proof {
            assert(mapped <==> o@.subrange(0, 12) =~= ipv4_mapped_prefix());
        }
        if mapped {
            let a: [u8; 4] = [o[12], o[13], o[14], o[15]];
            proof {
                assert(a@ =~= o@.subrange(12, 16));
            }
            Ok(IpAddress::V4(a))
        } else {
            let a: [u8; 16] = [
                o[0],
                o[1],
                o[2],
                o[3],
                o[4],
                o[5],
                o[6],
                o[7],
                o[8],
                o[9],
                o[10],
                o[11],
                o[12],
                o[13],
                o[14],
                o[15],
            ];
            proof {
                assert(a@ =~= o@);
            }
            Ok(IpAddress::V6(a))
        }
    }
}

/// Every address reads back as itself, except an IPv6 address in the
/// IPv4-mapped range, which reads back as the IPv4 address it maps.
pub proof fn lemma_ip_roundtrip(v: IpAddress, data: Seq<u8>, pos: int)
    requires
        !is_ipv4_mapped_v6(v@),
        occurs_at(data, pos, ip_bytes(v@)),
    ensures
        reads_back(
            <IpAddress as DeserializePayload>::spec_deserialize(data, pos),
            v@,
            pos,
            ip_bytes(v@),
        ),
{
    let o = ip_bytes(v@);
    match v {
        IpAddress::V4(a) => {
            assert(o.subrange(0, 12) =~= ipv4_mapped_prefix());
            assert(o.subrange(12, 16) =~= a@);
        },
        IpAddress::V6(a) => {},
    }
}

} // verus!
