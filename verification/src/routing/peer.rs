//! Peer addresses as they travel in messages, and the socket addresses they
//! stand for.

use super::identifier::{
    digest_position, Identifier, Identify, SocketAddress, SocketAddressV4, SocketAddressV6,
};
use crate::message::p2p::PeerAddress;
use vstd::prelude::*;

verus! {

/// The sixteen bytes under which an IPv4 address travels: ten zeros, two
/// bytes of ones, then the address.
pub open spec fn v4_mapped(ip: Seq<u8>) -> Seq<u8> {
    seq![0u8, 0u8, 0u8, 0u8, 0u8, 0u8, 0u8, 0u8, 0u8, 0u8, 0xffu8, 0xffu8] + ip
}

/// Whether sixteen bytes hold a mapped IPv4 address.
pub open spec fn is_v4_mapped(ip: Seq<u8>) -> bool {
    ip.len() == 16 && ip.take(12) == v4_mapped(Seq::<u8>::empty())
}

/// The bytes that are hashed to place a peer on the ring: the four bytes of
/// a mapped IPv4 address, else all sixteen.
pub open spec fn peer_identity_bytes(ip: Seq<u8>) -> Seq<u8> {
    if is_v4_mapped(ip) {
        ip.skip(12)
    } else {
        ip
    }
}

/// The address as it travels in a message.
pub fn to_peer_address(address: &SocketAddress) -> (r: PeerAddress)
    ensures
        r.ip@ == (match *address {
            SocketAddress::V4(a) => v4_mapped(a.ip@),
            SocketAddress::V6(a) => a.ip@,
        }),
        r.port == (match *address {
            SocketAddress::V4(a) => a.port,
            SocketAddress::V6(a) => a.port,
        }),
{
    match address {
        SocketAddress::V4(a) => {
            let ip: [u8; 16] = [
                0,
                0,
                0,
                0,
                0,
                0,
                0,
                0,
                0,
                0,
                0xff,
                0xff,
                a.ip[0],
                a.ip[1],
                a.ip[2],
                a.ip[3],
            ];
            assert(ip@ =~= v4_mapped(a.ip@));
            PeerAddress { ip, port: a.port }
        },
        SocketAddress::V6(a) => PeerAddress { ip: a.ip, port: a.port },
    }
}

/// The socket address that a peer address stands for: an IPv4 address where
/// the sixteen bytes hold a mapped one, else an IPv6 address.
pub fn to_socket_address(peer: &PeerAddress) -> (r: SocketAddress)
    ensures
        match r {
            SocketAddress::V4(a) => is_v4_mapped(peer.ip@) && a.ip@ == peer.ip@.skip(12) && a.port
                == peer.port,
            SocketAddress::V6(a) => !is_v4_mapped(peer.ip@) && a.ip == peer.ip && a.port
                == peer.port,
        },
        r.identity_bytes() == peer_identity_bytes(peer.ip@),
{
    let ip = &peer.ip;
    let zeros = ip[0] == 0 && ip[1] == 0 && ip[2] == 0 && ip[3] == 0 && ip[4] == 0 && ip[5] == 0
        && ip[6] == 0 && ip[7] == 0 && ip[8] == 0 && ip[9] == 0;
    if zeros && ip[10] == 0xff && ip[11] == 0xff {
        let v4: [u8; 4] = [ip[12], ip[13], ip[14], ip[15]];
        assert(ip@.take(12) =~= v4_mapped(Seq::<u8>::empty()));
        assert(v4@ =~= ip@.skip(12));
        SocketAddress::V4(SocketAddressV4 { ip: v4, port: peer.port })
    } else {
        assert(!is_v4_mapped(ip@)) by {
            if is_v4_mapped(ip@) {
                let m = v4_mapped(Seq::<u8>::empty());
                assert(forall|i: int| 0 <= i < 12 ==> ip@[i] == ip@.take(12)[i]);
                assert(m[0] == 0 && m[1] == 0 && m[2] == 0 && m[3] == 0 && m[4] == 0 && m[5] == 0
                    && m[6] == 0 && m[7] == 0 && m[8] == 0 && m[9] == 0 && m[10] == 0xff && m[11]
                    == 0xff);
            }
        }
        SocketAddress::V6(SocketAddressV6 { ip: peer.ip, port: peer.port })
    }
}

/// A peer is placed on the ring as the socket address that it stands for.
impl Identify for PeerAddress {
    open spec fn identity_bytes(&self) -> Seq<u8> {
        peer_identity_bytes(self.ip@)
    }

    fn get_identifier(&self) -> (r: Identifier) {
        to_socket_address(self).get_identifier()
    }
}

/// An IPv4 address that was sent as a peer address is read as itself.
pub proof fn lemma_v4_survives_mapping(ip: Seq<u8>)
    requires
        ip.len() == 4,
    ensures
        is_v4_mapped(v4_mapped(ip)),
        v4_mapped(ip).skip(12) == ip,
        peer_identity_bytes(v4_mapped(ip)) == ip,
{
    assert(v4_mapped(ip).take(12) =~= v4_mapped(Seq::<u8>::empty()));
    assert(v4_mapped(ip).skip(12) =~= ip);
}

/// A socket address and the peer address that it travels as have the same
/// position on the ring, unless it is an IPv6 address that holds a mapped
/// IPv4 address: that one is placed as the IPv4 address.
pub proof fn lemma_peer_keeps_position(address: SocketAddress, peer: PeerAddress)
    requires
        peer.ip@ == (match address {
            SocketAddress::V4(a) => v4_mapped(a.ip@),
            SocketAddress::V6(a) => a.ip@,
        }),
        address matches SocketAddress::V6(a) ==> !is_v4_mapped(a.ip@),
    ensures
        digest_position(peer.identity_bytes()) == digest_position(address.identity_bytes()),
{
    match address {
        SocketAddress::V4(a) => {
            lemma_v4_survives_mapping(a.ip@);
        },
        SocketAddress::V6(a) => {},
    }
}

} // verus!
