//! Addresses, services and peers.

use bitcoin::p2p::address as outside;
use bitcoin_peers::peer::MIN_PROTOCOL_VERSION;
use bitcoin_peers::text::decimal_text;
use bitcoin_peers::{
    AddrV2, Address, Duration, IpAddr, Network, Peer, PeerProtocolVersion, PeerServices,
    ServiceFlags, SocketAddr,
};
use std::collections::HashSet;

#[test]
fn networks_have_their_magic_bytes() {
    assert_eq!(Network::Bitcoin.magic(), [0xF9, 0xBE, 0xB4, 0xD9]);
    assert_eq!(Network::Testnet.magic(), [0x0B, 0x11, 0x09, 0x07]);
    assert_eq!(Network::Testnet4.magic(), [0x1C, 0x16, 0x3F, 0x28]);
    assert_eq!(Network::Signet.magic(), [0x0A, 0x03, 0xCF, 0x40]);
    assert_eq!(Network::Regtest.magic(), [0xFA, 0xBF, 0xB5, 0xDA]);
}

#[test]
fn services_are_sets_of_bits() {
    let both = ServiceFlags {
        bits: ServiceFlags::NETWORK | ServiceFlags::WITNESS,
    };
    let network = ServiceFlags {
        bits: ServiceFlags::NETWORK,
    };
    let v2 = ServiceFlags {
        bits: ServiceFlags::P2P_V2,
    };
    assert!(both.has(network));
    assert!(both.has(both));
    assert!(both.has(ServiceFlags::none()));
    assert!(!both.has(v2));
    assert!(!network.has(both));
    for a in [0u64, 1, 8, 9, 2048, u64::MAX] {
        for b in [0u64, 1, 8, 9, 2048, u64::MAX] {
            assert_eq!(
                ServiceFlags { bits: a }.has(ServiceFlags { bits: b }),
                bitcoin::p2p::ServiceFlags::from(a).has(bitcoin::p2p::ServiceFlags::from(b))
            );
        }
    }
    assert_eq!(both.to_string(), "ServiceFlags(NETWORK|WITNESS)");
    assert_eq!(ServiceFlags::none().to_string(), "ServiceFlags(NONE)");
}

#[test]
fn protocol_versions_may_be_unknown() {
    assert_eq!(
        PeerProtocolVersion::Known(70016).unwrap_or(MIN_PROTOCOL_VERSION),
        70016
    );
    assert_eq!(
        PeerProtocolVersion::Unknown.unwrap_or(MIN_PROTOCOL_VERSION),
        70001
    );
}

#[test]
fn peers_are_shown() {
    let peer = Peer::new(AddrV2::Ipv4([127, 0, 0, 1]), 8333);
    assert_eq!(
        peer.to_string(),
        "Ipv4(127.0.0.1):8333 ([peer] services: unknown, version: unknown)"
    );
    let peer = peer
        .with_known_services(ServiceFlags { bits: 9 })
        .with_known_version(70016);
    assert_eq!(
        peer.to_string(),
        "Ipv4(127.0.0.1):8333 ([peer] services: ServiceFlags(NETWORK|WITNESS), version: 70016)"
    );
    let shown = |address| Peer::new(address, 0).to_string();
    let rest = ":0 ([peer] services: unknown, version: unknown)";
    let debug = |address: outside::AddrV2| format!("{address:?}{rest}");
    assert_eq!(
        shown(AddrV2::Ipv6([1; 16])),
        debug(outside::AddrV2::Ipv6([1; 16].into()))
    );
    assert_eq!(
        shown(AddrV2::TorV2([2; 10])),
        debug(outside::AddrV2::TorV2([2; 10]))
    );
    assert_eq!(
        shown(AddrV2::TorV3([3; 32])),
        debug(outside::AddrV2::TorV3([3; 32]))
    );
    assert_eq!(
        shown(AddrV2::I2p([4; 32])),
        debug(outside::AddrV2::I2p([4; 32]))
    );
    assert_eq!(
        shown(AddrV2::Cjdns([0xFC; 16])),
        debug(outside::AddrV2::Cjdns([0xFC; 16].into()))
    );
    assert_eq!(
        shown(AddrV2::Unknown(9, vec![1, 2])),
        debug(outside::AddrV2::Unknown(9, vec![1, 2]))
    );
}

#[test]
fn peers_advertise_services() {
    let network = ServiceFlags {
        bits: ServiceFlags::NETWORK,
    };
    let peer = Peer::new(AddrV2::Ipv4([127, 0, 0, 1]), 8333);
    assert!(!peer.has_service(network));
    assert!(!peer.has_service(ServiceFlags::none()));
    let peer = Peer::with_services(AddrV2::Ipv4([127, 0, 0, 1]), 8333, network);
    assert!(peer.has_service(network));
    assert_eq!(peer.services, PeerServices::Known(network));
    assert_eq!(peer.version, PeerProtocolVersion::Unknown);
}

#[test]
fn peers_are_the_same_where_all_is() {
    let peer = Peer::new(AddrV2::Unknown(9, vec![1, 2]), 8333);
    assert_eq!(peer, peer.clone());
    assert_ne!(peer, Peer::new(AddrV2::Unknown(9, vec![1, 3]), 8333));
    assert_ne!(peer, Peer::new(AddrV2::Unknown(8, vec![1, 2]), 8333));
    assert_ne!(peer, Peer::new(AddrV2::Unknown(9, vec![1, 2]), 8334));
    assert_ne!(peer, peer.with_known_version(1));
    assert_ne!(peer, peer.with_known_services(ServiceFlags::none()));
    assert_ne!(AddrV2::Ipv6([0xFC; 16]), AddrV2::Cjdns([0xFC; 16]));
    let mut set = HashSet::new();
    assert!(set.insert(peer.clone()));
    assert!(!set.insert(peer));
}

/// The legacy address of an IP address, and what is read from it again.
fn there_and_back(ip: IpAddr) -> (Address, Option<SocketAddr>) {
    let address = Address::new(&SocketAddr { ip, port: 7 }, ServiceFlags { bits: 5 });
    let socket = address.socket_addr();
    (address, socket)
}

#[test]
fn legacy_addresses_hold_ip_addresses() {
    let (address, socket) = there_and_back(IpAddr::V4([1, 2, 3, 4]));
    assert_eq!(address.address, [0, 0, 0, 0, 0, 0xFFFF, 0x0102, 0x0304]);
    assert_eq!(address.port, 7);
    assert_eq!(address.services.bits, 5);
    let socket = socket.unwrap();
    assert!(matches!(socket.ip, IpAddr::V4([1, 2, 3, 4])));
    assert_eq!(socket.port, 7);

    let octets = [0x20, 1, 2, 3, 4, 5, 6, 7, 8, 9, 10, 11, 12, 13, 14, 15];
    let (address, socket) = there_and_back(IpAddr::V6(octets));
    assert_eq!(
        address.address,
        [0x2001, 0x0203, 0x0405, 0x0607, 0x0809, 0x0A0B, 0x0C0D, 0x0E0F]
    );
    match socket.unwrap().ip {
        IpAddr::V6(found) => assert_eq!(found, octets),
        ip => panic!("{ip:?}"),
    }
}

#[test]
fn legacy_addresses_may_hold_other_addresses() {
    // Tor.
    let mut octets = [1; 16];
    octets[..6].copy_from_slice(&[0xFD, 0x87, 0xD8, 0x7E, 0xEB, 0x43]);
    let (_, socket) = there_and_back(IpAddr::V6(octets));
    assert!(socket.is_none());
    // The loopback address is one that is compatible with IPv4.
    let mut octets = [0; 16];
    octets[15] = 1;
    let (_, socket) = there_and_back(IpAddr::V6(octets));
    assert!(matches!(socket.unwrap().ip, IpAddr::V4([0, 0, 0, 1])));
}

#[test]
fn numbers_are_written_in_decimal() {
    assert_eq!(decimal_text(0), "0");
    assert_eq!(decimal_text(9), "9");
    assert_eq!(decimal_text(10), "10");
    assert_eq!(decimal_text(8_765_432_109), "8765432109");
    assert_eq!(decimal_text(u64::MAX), u64::MAX.to_string());
}

#[test]
fn durations_are_reckoned_with() {
    let long = Duration::from_secs(2);
    let short = Duration::from_millis(1_999);
    assert_eq!(short, Duration { secs: 1, nanos: 999_000_000 });
    assert!(short.is_shorter_than(long));
    assert!(!long.is_shorter_than(short));
    assert!(!long.is_shorter_than(long));
    assert_eq!(long.shorter(short), short);
    assert_eq!(short.shorter(long), short);
    assert_eq!(
        long.saturating_sub(short),
        Duration { secs: 0, nanos: 1_000_000 }
    );
    assert_eq!(
        Duration::from_secs(5).saturating_sub(long),
        Duration::from_secs(3)
    );
    assert_eq!(short.saturating_sub(long), Duration { secs: 0, nanos: 0 });
}
