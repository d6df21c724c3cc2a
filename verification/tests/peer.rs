use chord_dht::message::p2p::PeerAddress;
use chord_dht::routing::identifier::{
    Identifier, Identify, SocketAddress, SocketAddressV4, SocketAddressV6,
};
use chord_dht::routing::peer::{to_peer_address, to_socket_address};

const MAPPED: [u8; 16] = [0, 0, 0, 0, 0, 0, 0, 0, 0, 0, 0xff, 0xff, 10, 1, 2, 3];

#[test]
fn ipv4_travels_mapped() {
    let v4 = SocketAddress::V4(SocketAddressV4 { ip: [10, 1, 2, 3], port: 7000 });
    let peer = to_peer_address(&v4);
    assert_eq!(peer, PeerAddress { ip: MAPPED, port: 7000 });
    assert_eq!(to_socket_address(&peer), v4);
}

#[test]
fn ipv6_travels_as_it_is() {
    let mut ip = [0x20u8; 16];
    ip[0] = 0xfe;
    ip[1] = 0x80;
    let v6 = SocketAddress::V6(SocketAddressV6 { ip, port: 1 });
    let peer = to_peer_address(&v6);
    assert_eq!(peer, PeerAddress { ip, port: 1 });
    assert_eq!(to_socket_address(&peer), v6);
}

#[test]
fn nearly_mapped_addresses_stay_ipv6() {
    let mut a = MAPPED;
    a[10] = 0xfe;
    let mut b = MAPPED;
    b[0] = 1;
    let mut c = MAPPED;
    c[9] = 1;
    let mut d = MAPPED;
    d[11] = 0;
    for ip in [a, b, c, d, [0u8; 16]] {
        let peer = PeerAddress { ip, port: 5 };
        assert_eq!(
            to_socket_address(&peer),
            SocketAddress::V6(SocketAddressV6 { ip, port: 5 })
        );
        assert_eq!(peer.get_identifier(), Identifier::generate(&ip));
    }
}

#[test]
fn a_peer_has_the_position_of_its_socket_address() {
    let v4 = SocketAddressV4 { ip: [10, 1, 2, 3], port: 7000 };
    let peer = to_peer_address(&SocketAddress::V4(v4));
    assert_eq!(peer.get_identifier(), v4.get_identifier());
    assert_eq!(peer.get_identifier(), Identifier::generate(&[10, 1, 2, 3]));
    assert_ne!(peer.get_identifier(), Identifier::generate(&MAPPED));
}
