//! Configuration, negotiation and handshake.

use bitcoin::consensus::encode;
use bitcoin::p2p::message as outside;
use bitcoin::p2p::Magic;
use bitcoin_peers::connection::configuration::{
    default_connection_timeout, default_user_agent, non_listening_address, NON_LISTENING_PORT,
};
use bitcoin_peers::connection::describe::{describe, ConnectionPart};
use bitcoin_peers::connection::handshake::{
    address_to_socket, generate_nonce, handle_verack_message, timestamp_from_secs, unix_timestamp,
};
use bitcoin_peers::connection::tcp::{
    after_dial, after_encryption, inbound_encryption_failed, negotiate_inbound_transport,
    dial_limit, dial_timed_out, negotiate_outbound_transport, peer_from_socket_addr,
    socket_address, InboundStep, OutboundStep, TransportVersion,
};
use bitcoin_peers::transport::v1::{V1FrameReader, V1Step};
use bitcoin_peers::{
    AddrV2, AddrV2State, Address, Connection, ConnectionConfiguration, ConnectionError,
    ConnectionState, Duration, FeaturePreferences, Handshake, HandshakeState, IpAddr, Network,
    NetworkMessage, Peer, PeerProtocolVersion, PeerServices, PeersError, SendHeadersState,
    ServiceFlags, SocketAddr, TransportError, TransportPolicy, UserAgent, VersionMessage,
    WtxidRelayState,
};

#[test]
fn test_feature_preferences_default() {
    let prefs = FeaturePreferences::default();
    assert!(prefs.enable_addrv2);
    assert!(prefs.enable_sendheaders);
    assert!(prefs.enable_wtxidrelay);
}

#[test]
fn test_connection_configuration_timeout() {
    // Test default timeout
    let config = ConnectionConfiguration::non_listening(
        PeerProtocolVersion::Known(70016),
        TransportPolicy::V2Preferred,
        FeaturePreferences::default(),
        None,
    );
    assert_eq!(config.connection_timeout, default_connection_timeout());
    assert_eq!(config.connection_timeout, Duration::from_secs(10));

    // Test custom timeout
    let custom_timeout = Duration::from_secs(30);
    let config_with_timeout = config.with_connection_timeout(custom_timeout);
    assert_eq!(config_with_timeout.connection_timeout, custom_timeout);
}

fn configuration(version: u32, features: FeaturePreferences) -> ConnectionConfiguration {
    ConnectionConfiguration::non_listening(
        PeerProtocolVersion::Known(version),
        TransportPolicy::V2Preferred,
        features,
        None,
    )
}

fn local_peer() -> Peer {
    Peer::new(AddrV2::Ipv4([127, 0, 0, 1]), 8333)
}

fn connection(version: u32) -> Connection {
    Connection::new(
        local_peer(),
        configuration(version, FeaturePreferences::default()),
    )
}

fn create_version_message(version: u32, services: ServiceFlags, nonce: u64) -> NetworkMessage {
    let sender = SocketAddr {
        ip: IpAddr::V4([127, 0, 0, 1]),
        port: 8333,
    };
    let receiver = SocketAddr {
        ip: IpAddr::V4([127, 0, 0, 2]),
        port: 8333,
    };
    NetworkMessage::Version(VersionMessage {
        version,
        services,
        timestamp: 0,
        receiver: Address::new(&receiver, ServiceFlags::none()),
        sender: Address::new(&sender, services),
        nonce,
        user_agent: "/bitcoin-core:23.0/".to_string(),
        start_height: 0,
        relay: true,
    })
}

fn commands(messages: &[NetworkMessage]) -> Vec<String> {
    let mut commands = Vec::new();
    for message in messages {
        commands.push(message.command().to_string());
    }
    commands
}

#[test]
fn non_listening_nodes_offer_nothing() {
    let config = configuration(70016, FeaturePreferences::default());
    assert_eq!(config.services, ServiceFlags::none());
    assert_eq!(config.sender_address, non_listening_address());
    assert_eq!(config.sender_address, AddrV2::Ipv4([0, 0, 0, 0]));
    assert_eq!(config.sender_port, NON_LISTENING_PORT);
    assert_eq!(config.sender_port, 0);
    assert_eq!(config.start_height, 0);
    assert!(!config.relay);
    assert_eq!(default_user_agent().as_str(), "/bitcoin-peers:0.1.0/");
}

#[test]
fn configurations_are_shown() {
    let config = configuration(70016, FeaturePreferences::default());
    assert_eq!(
        config.to_string(),
        "ConnectionConfiguration { protocol: 70016, user_agent: \"none\", \
         services: ServiceFlags(NONE), transport: V2Preferred, \
         features: [AddrV2, SendHeaders, WtxidRelay], relay: false }"
    );
    let config = ConnectionConfiguration::non_listening(
        PeerProtocolVersion::Unknown,
        TransportPolicy::V2Required,
        FeaturePreferences {
            enable_addrv2: false,
            enable_sendheaders: true,
            enable_wtxidrelay: false,
        },
        Some(UserAgent::from_name_version("MyNode", "0.1.0")),
    );
    assert_eq!(
        config.clone().to_string(),
        "ConnectionConfiguration { protocol: unknown, user_agent: \"/MyNode:0.1.0/\", \
         services: ServiceFlags(NONE), transport: V2Required, \
         features: [SendHeaders], relay: false }"
    );
}

#[test]
fn features_are_shown_by_their_names() {
    let shown = |a, b, c| {
        FeaturePreferences {
            enable_addrv2: a,
            enable_sendheaders: b,
            enable_wtxidrelay: c,
        }
        .to_string()
    };
    assert_eq!(shown(false, false, false), "none");
    assert_eq!(shown(true, false, false), "AddrV2");
    assert_eq!(shown(true, false, true), "AddrV2, WtxidRelay");
    assert_eq!(shown(false, true, true), "SendHeaders, WtxidRelay");
    assert_eq!(shown(true, true, true), "AddrV2, SendHeaders, WtxidRelay");
}

#[test]
fn negotiation_states_change_on_both_sides_messages() {
    assert_eq!(
        AddrV2State::NotNegotiated.on_send(),
        AddrV2State::SentOnly
    );
    assert_eq!(
        AddrV2State::NotNegotiated.on_receive(),
        AddrV2State::ReceivedOnly
    );
    assert_eq!(AddrV2State::ReceivedOnly.on_send(), AddrV2State::Enabled);
    assert_eq!(AddrV2State::SentOnly.on_receive(), AddrV2State::Enabled);
    assert_eq!(AddrV2State::SentOnly.on_send(), AddrV2State::SentOnly);
    assert_eq!(AddrV2State::Enabled.on_send(), AddrV2State::Enabled);
    assert_eq!(AddrV2State::Enabled.on_receive(), AddrV2State::Enabled);
    assert_eq!(
        AddrV2State::ReceivedOnly.on_receive(),
        AddrV2State::ReceivedOnly
    );

    assert_eq!(
        SendHeadersState::NotNegotiated.on_send().on_receive(),
        SendHeadersState::Enabled
    );
    assert_eq!(
        SendHeadersState::NotNegotiated.on_receive(),
        SendHeadersState::ReceivedOnly
    );
    assert_eq!(
        WtxidRelayState::NotNegotiated.on_receive().on_send(),
        WtxidRelayState::Enabled
    );
    assert_eq!(
        WtxidRelayState::NotNegotiated.on_send(),
        WtxidRelayState::SentOnly
    );
}

#[test]
fn connection_state_is_shown() {
    let mut state = ConnectionState::default();
    assert_eq!(state, ConnectionState::new());
    assert_eq!(
        state.to_string(),
        "[connection state] protocol: Unknown, addrv2: NotNegotiated, \
         headers: NotNegotiated, wtxid: NotNegotiated"
    );
    state.effective_protocol_version = PeerProtocolVersion::Known(70016);
    state.on_sent(&NetworkMessage::SendAddrV2);
    state.on_received(&NetworkMessage::SendAddrV2);
    state.on_received(&NetworkMessage::SendHeaders);
    state.on_sent(&NetworkMessage::WtxidRelay);
    state.on_received(&NetworkMessage::Verack);
    assert_eq!(
        state.to_string(),
        "[connection state] protocol: Known(70016), addrv2: Enabled, \
         headers: ReceivedOnly, wtxid: SentOnly"
    );
}

#[test]
fn test_peer_connection_version_handshake() {
    let mut connection = connection(70016);
    let (mut handshake, first) = Handshake::begin(&connection, 7, 0);
    assert_eq!(first.command(), "version");
    assert!(!handshake.is_complete());
    assert_eq!(handshake.peer_services(&connection), None);

    // The peer sends its version, and is answered.
    let services = ServiceFlags {
        bits: ServiceFlags::NETWORK,
    };
    let version = create_version_message(70016, services, 42);
    let answer = handshake.on_message(&mut connection, &version).unwrap();
    assert_eq!(
        commands(&answer),
        ["sendaddrv2", "sendheaders", "wtxidrelay", "verack"]
    );
    for message in &answer {
        connection.on_sent(message);
    }
    assert!(!handshake.is_complete());

    // Then the peer sends its verack.
    let answer = handshake
        .on_message(&mut connection, &NetworkMessage::Verack)
        .unwrap();
    assert!(answer.is_empty());
    assert!(handshake.is_complete());
    assert_eq!(handshake.peer_services(&connection), Some(services));

    match connection.peer.services {
        PeerServices::Known(services) => assert_eq!(services.bits, ServiceFlags::NETWORK),
        _ => panic!("Expected known services"),
    }
    match connection.peer.version {
        PeerProtocolVersion::Known(version) => assert_eq!(version, 70016),
        _ => panic!("Expected known version"),
    }
    match connection.state.effective_protocol_version {
        PeerProtocolVersion::Known(version) => assert_eq!(version, 70016),
        _ => panic!("Expected known effective version"),
    }
    assert_eq!(connection.state.addr_v2, AddrV2State::SentOnly);
    assert_eq!(connection.state.send_headers, SendHeadersState::SentOnly);
    assert_eq!(connection.state.wtxid_relay, WtxidRelayState::SentOnly);
}

#[test]
fn handshake_completes_in_either_order() {
    let mut connection = connection(70016);
    let (mut handshake, _) = Handshake::begin(&connection, 7, 0);
    handshake
        .on_message(&mut connection, &NetworkMessage::Verack)
        .unwrap();
    assert_eq!(handshake.state, HandshakeState::VerackReceived);
    // Other messages are ignored, and so is a second verack.
    for message in [
        NetworkMessage::Ping(1),
        NetworkMessage::Verack,
        NetworkMessage::GetAddr,
    ] {
        let answer = handshake.on_message(&mut connection, &message).unwrap();
        assert!(answer.is_empty());
        assert_eq!(handshake.state, HandshakeState::VerackReceived);
    }
    let version = create_version_message(70001, ServiceFlags::none(), 42);
    let answer = handshake.on_message(&mut connection, &version).unwrap();
    assert_eq!(commands(&answer), ["verack"]);
    assert!(handshake.is_complete());
    assert_eq!(
        connection.state.effective_protocol_version,
        PeerProtocolVersion::Known(70001)
    );
}

#[test]
fn a_second_version_is_ignored() {
    let mut connection = connection(70016);
    let (mut handshake, _) = Handshake::begin(&connection, 7, 0);
    let first = create_version_message(70015, ServiceFlags { bits: 9 }, 42);
    handshake.on_message(&mut connection, &first).unwrap();
    let second = create_version_message(70001, ServiceFlags { bits: 1 }, 43);
    let answer = handshake.on_message(&mut connection, &second).unwrap();
    assert!(answer.is_empty());
    assert_eq!(handshake.state, HandshakeState::VersionReceived);
    assert_eq!(connection.peer.version, PeerProtocolVersion::Known(70015));
    assert_eq!(
        connection.peer.services,
        PeerServices::Known(ServiceFlags { bits: 9 })
    );
    assert_eq!(
        handshake.peer_services(&connection),
        Some(ServiceFlags { bits: 9 })
    );
}

#[test]
fn services_are_given_back_only_once_the_peer_has_sent_them() {
    // What was known of the peer before is not what it advertises.
    let mut connection = connection(70016);
    connection.peer = connection.peer.with_known_services(ServiceFlags { bits: 1 });
    let (mut handshake, _) = Handshake::begin(&connection, 7, 0);
    handshake
        .on_message(&mut connection, &NetworkMessage::Verack)
        .unwrap();
    assert_eq!(handshake.peer_services(&connection), None);
    let version = create_version_message(70016, ServiceFlags { bits: 1033 }, 42);
    handshake.on_message(&mut connection, &version).unwrap();
    assert!(handshake.is_complete());
    assert_eq!(
        handshake.peer_services(&connection),
        Some(ServiceFlags { bits: 1033 })
    );
}

#[test]
fn a_connection_to_oneself_is_found_out() {
    let mut connection = connection(70016);
    let (mut handshake, own) = Handshake::begin(&connection, 7, 0);
    let result = handshake.on_message(&mut connection, &own);
    assert!(matches!(result, Err(ConnectionError::ConnectionLoop)));
    assert_eq!(connection.peer.version, PeerProtocolVersion::Unknown);

    // Also once a version of another node was received.
    let version = create_version_message(70016, ServiceFlags::none(), 42);
    handshake.on_message(&mut connection, &version).unwrap();
    let result = handshake.on_message(&mut connection, &own);
    assert!(matches!(result, Err(ConnectionError::ConnectionLoop)));
}

#[test]
fn features_depend_on_version_and_preferences() {
    let asked = |local: u32, remote: u32, features: FeaturePreferences| {
        let mut connection = Connection::new(local_peer(), configuration(local, features));
        let (mut handshake, _) = Handshake::begin(&connection, 7, 0);
        let version = create_version_message(remote, ServiceFlags::none(), 42);
        let answer = handshake.on_message(&mut connection, &version).unwrap();
        commands(&answer)
    };
    let all = FeaturePreferences::default();
    assert_eq!(asked(70016, 70011, all), ["verack"]);
    assert_eq!(asked(70016, 70012, all), ["sendheaders", "verack"]);
    assert_eq!(asked(70015, 70016, all), ["sendheaders", "verack"]);
    assert_eq!(
        asked(70016, 70017, all),
        ["sendaddrv2", "sendheaders", "wtxidrelay", "verack"]
    );
    let some = FeaturePreferences {
        enable_addrv2: false,
        enable_sendheaders: false,
        enable_wtxidrelay: true,
    };
    assert_eq!(asked(70016, 70016, some), ["wtxidrelay", "verack"]);
}

#[test]
fn two_nodes_agree() {
    let some = FeaturePreferences {
        enable_addrv2: true,
        enable_sendheaders: false,
        enable_wtxidrelay: true,
    };
    let mut a = Connection::new(local_peer(), configuration(70016, some));
    let mut b = connection(70020);
    let (mut at_a, to_b) = Handshake::begin(&a, 1, 0);
    let (mut at_b, to_a) = Handshake::begin(&b, 2, 0);
    let from_a = at_a.on_message(&mut a, &to_a).unwrap();
    let from_b = at_b.on_message(&mut b, &to_b).unwrap();
    for message in &from_a {
        a.on_sent(message);
        at_b.on_message(&mut b, message).unwrap();
    }
    for message in &from_b {
        b.on_sent(message);
        at_a.on_message(&mut a, message).unwrap();
    }
    assert!(at_a.is_complete());
    assert!(at_b.is_complete());
    assert_eq!(
        a.state.effective_protocol_version,
        PeerProtocolVersion::Known(70016)
    );
    assert_eq!(
        b.state.effective_protocol_version,
        PeerProtocolVersion::Known(70016)
    );
    assert_eq!(a.state.addr_v2, AddrV2State::Enabled);
    assert_eq!(b.state.addr_v2, AddrV2State::Enabled);
    assert_eq!(a.state.send_headers, SendHeadersState::ReceivedOnly);
    assert_eq!(b.state.send_headers, SendHeadersState::SentOnly);
    assert_eq!(a.state.wtxid_relay, WtxidRelayState::Enabled);
    assert_eq!(b.state.wtxid_relay, WtxidRelayState::Enabled);
}

#[test]
fn version_messages_hold_what_is_known() {
    let mut config = configuration(70016, FeaturePreferences::default());
    config.services = ServiceFlags { bits: 1033 };
    config.sender_address = AddrV2::TorV3([7; 32]);
    config.sender_port = 9050;
    config.start_height = 12;
    config.relay = true;
    config.user_agent = Some(UserAgent::from_name_version("MyNode", "0.1.0"));
    let peer = local_peer().with_known_services(ServiceFlags { bits: 9 });
    let connection = Connection::new(peer, config);
    match connection.create_version_message(99, 1_700_000_000) {
        NetworkMessage::Version(version) => {
            assert_eq!(version.version, 70016);
            assert_eq!(version.services.bits, 1033);
            assert_eq!(version.timestamp, 1_700_000_000);
            assert_eq!(version.receiver.services.bits, 9);
            assert_eq!(
                version.receiver.address,
                [0, 0, 0, 0, 0, 0xFFFF, 0x7F00, 0x0001]
            );
            assert_eq!(version.receiver.port, 8333);
            // Tor does not fit in a version message.
            assert_eq!(version.sender.services.bits, 1033);
            assert_eq!(version.sender.address, [0; 8]);
            assert_eq!(version.sender.port, 9050);
            assert_eq!(version.nonce, 99);
            assert_eq!(version.user_agent, "/MyNode:0.1.0/");
            assert_eq!(version.start_height, 12);
            assert!(version.relay);
        }
        message => panic!("{message:?}"),
    }
    let unknown = ConnectionConfiguration::non_listening(
        PeerProtocolVersion::Unknown,
        TransportPolicy::V2Preferred,
        FeaturePreferences::default(),
        None,
    );
    match Connection::new(local_peer(), unknown).create_version_message(1, 2) {
        NetworkMessage::Version(version) => {
            assert_eq!(version.version, 70001);
            assert_eq!(version.receiver.services.bits, 0);
            assert_eq!(version.user_agent, "/bitcoin-peers:0.1.0/");
        }
        message => panic!("{message:?}"),
    }
}

/// The message in the bytes that another node sends, of which a connection takes note.
fn receive(connection: &mut Connection, sent: outside::NetworkMessage) -> NetworkMessage {
    let raw_msg = outside::RawNetworkMessage::new(Magic::BITCOIN, sent);
    let message_bytes = encode::serialize(&raw_msg);
    let mut reader = V1FrameReader::new(Network::Bitcoin.magic());
    match reader.read(&message_bytes) {
        (_, V1Step::Message(message)) => {
            connection.on_received(&message);
            message
        }
        (_, step) => panic!("Expected a message, got {step:?}"),
    }
}

#[test]
fn test_peer_connection_receive_message() {
    let mut connection = connection(70016);
    match receive(&mut connection, outside::NetworkMessage::Pong(42)) {
        NetworkMessage::Pong(nonce) => assert_eq!(nonce, 42),
        received => panic!("Expected Pong message, got {received:?}"),
    }
}

#[test]
fn test_peer_connection_no_auto_ping_pong() {
    // A connection does not answer pings by itself.
    let mut connection = connection(70016);
    match receive(&mut connection, outside::NetworkMessage::Ping(123)) {
        NetworkMessage::Ping(nonce) => assert_eq!(nonce, 123),
        received => panic!("Expected Ping message, got {received:?}"),
    }
    assert_eq!(connection.state, ConnectionState::new());
}

#[test]
fn test_split_receiver_protocol_state() {
    let mut connection = connection(70016);

    let msg = receive(&mut connection, outside::NetworkMessage::SendAddrV2);
    assert!(matches!(msg, NetworkMessage::SendAddrV2));
    assert_eq!(connection.state.addr_v2, AddrV2State::ReceivedOnly);

    let msg = receive(&mut connection, outside::NetworkMessage::SendHeaders);
    assert!(matches!(msg, NetworkMessage::SendHeaders));
    assert_eq!(connection.state.send_headers, SendHeadersState::ReceivedOnly);

    let msg = receive(&mut connection, outside::NetworkMessage::WtxidRelay);
    assert!(matches!(msg, NetworkMessage::WtxidRelay));
    assert_eq!(connection.state.wtxid_relay, WtxidRelayState::ReceivedOnly);
}

#[test]
fn veracks_are_handled() {
    assert_eq!(
        handle_verack_message(HandshakeState::VersionSent),
        HandshakeState::VerackReceived
    );
    assert_eq!(
        handle_verack_message(HandshakeState::VersionReceived),
        HandshakeState::Complete
    );
    assert_eq!(
        handle_verack_message(HandshakeState::VerackReceived),
        HandshakeState::VerackReceived
    );
    assert_eq!(
        handle_verack_message(HandshakeState::Complete),
        HandshakeState::Complete
    );
}

#[test]
fn nonces_mix_clock_and_process() {
    assert_eq!(generate_nonce(5, 1), 0x1_0000_0005);
    assert_eq!(generate_nonce(0xFFFF_FFFF_0000_0000, 3), 0xFFFF_FFFC_0000_0000);
    assert_eq!(generate_nonce((1 << 64) + 2, 0), 2);
    assert_eq!(generate_nonce(0, u32::MAX), 0xFFFF_FFFF_0000_0000);
}

#[test]
fn the_clock_is_read() {
    // The first of January 2020.
    assert!(unix_timestamp().unwrap() > 1_577_836_800);
    assert_eq!(timestamp_from_secs(1_577_836_800), 1_577_836_800);
    assert_eq!(timestamp_from_secs(u64::MAX), -1);
}

#[test]
fn version_addresses_are_those_of_ip() {
    let socket = address_to_socket(&AddrV2::Ipv4([1, 2, 3, 4]), 5);
    assert!(matches!(socket.ip, IpAddr::V4([1, 2, 3, 4])));
    assert_eq!(socket.port, 5);
    let octets = [1, 2, 3, 4, 5, 6, 7, 8, 9, 10, 11, 12, 13, 14, 15, 16];
    match address_to_socket(&AddrV2::Ipv6(octets), 5).ip {
        IpAddr::V6(found) => assert_eq!(found, octets),
        ip => panic!("{ip:?}"),
    }
    let socket = address_to_socket(&AddrV2::Cjdns([0xFC; 16]), 6);
    match socket.ip {
        IpAddr::V6(found) => assert_eq!(found, [0; 16]),
        ip => panic!("{ip:?}"),
    }
    assert_eq!(socket.port, 6);
}

#[test]
fn outbound_transports_follow_the_policy() {
    let unknown = local_peer();
    let plain = local_peer().with_known_services(ServiceFlags { bits: 1 });
    let encrypting = local_peer().with_known_services(ServiceFlags { bits: 1 | 2048 });
    let v1 = OutboundStep::Dial(TransportVersion::V1);
    let v2 = OutboundStep::Dial(TransportVersion::V2);
    for (peer, required, preferred) in [
        (&unknown, v2, v2),
        (&plain, v2, v1),
        (&encrypting, v2, v2),
    ] {
        assert_eq!(
            negotiate_outbound_transport(peer, TransportPolicy::V2Required),
            required
        );
        assert_eq!(
            negotiate_outbound_transport(peer, TransportPolicy::V2Preferred),
            preferred
        );
    }
    assert_eq!(
        after_dial(TransportVersion::V1),
        OutboundStep::Use(TransportVersion::V1)
    );
    assert_eq!(after_dial(TransportVersion::V2), OutboundStep::Encrypt);
    for policy in [TransportPolicy::V2Required, TransportPolicy::V2Preferred] {
        assert_eq!(
            after_encryption(policy, true).unwrap(),
            OutboundStep::Use(TransportVersion::V2)
        );
    }
    assert!(matches!(
        after_encryption(TransportPolicy::V2Required, false),
        Err(ConnectionError::V2TransportRequired)
    ));
    assert_eq!(
        after_encryption(TransportPolicy::V2Preferred, false).unwrap(),
        v1
    );
}

#[test]
fn inbound_transports_are_told_by_their_first_bytes() {
    let magic = Network::Regtest.magic();
    let choose =
        |bytes: &[u8], policy| negotiate_inbound_transport(Network::Regtest, bytes, policy);
    for policy in [TransportPolicy::V2Required, TransportPolicy::V2Preferred] {
        // As long as the bytes are those of the magic, four of them are needed to tell.
        for count in 0..4 {
            assert_eq!(choose(&magic[..count], policy).unwrap(), InboundStep::PeekMore);
        }
        for bytes in [&[1][..], &[magic[0], 1], &[1, 2, 3, 4, 5]] {
            assert_eq!(
                choose(bytes, policy).unwrap(),
                InboundStep::Use(TransportVersion::V2)
            );
        }
    }
    let mut plaintext = magic.to_vec();
    plaintext.push(7);
    assert_eq!(
        choose(&plaintext, TransportPolicy::V2Preferred).unwrap(),
        InboundStep::Use(TransportVersion::V1)
    );
    assert!(matches!(
        choose(&magic, TransportPolicy::V2Required),
        Err(ConnectionError::V2TransportRequired)
    ));
    // The magic of another network is no plaintext of this one.
    assert_eq!(
        choose(&Network::Bitcoin.magic(), TransportPolicy::V2Required).unwrap(),
        InboundStep::Use(TransportVersion::V2)
    );
    assert!(matches!(
        inbound_encryption_failed(),
        ConnectionError::TransportFailed(TransportError::Encryption)
    ));
}

#[test]
fn making_a_connection_takes_limited_time() {
    let config = configuration(70016, FeaturePreferences::default());
    assert_eq!(dial_limit(&config), Duration::from_secs(10));
    let config = config.with_connection_timeout(Duration::from_secs(30));
    assert_eq!(dial_limit(&config), Duration::from_secs(30));
    assert_eq!(
        dial_timed_out().to_string(),
        "Transport layer failed in peer connection: IO error: Connection attempt timed out"
    );
}

#[test]
fn only_ip_addresses_can_be_connected_to() {
    let socket = socket_address(&local_peer()).unwrap();
    assert!(matches!(socket.ip, IpAddr::V4([127, 0, 0, 1])));
    assert_eq!(socket.port, 8333);
    let tor = Peer::new(AddrV2::TorV3([1; 32]), 8333);
    assert!(matches!(
        socket_address(&tor),
        Err(ConnectionError::UnsupportedAddressType)
    ));
}

#[test]
fn inbound_peers_are_known_by_their_address() {
    let peer = peer_from_socket_addr(SocketAddr {
        ip: IpAddr::V4([192, 168, 1, 1]),
        port: 50000,
    });
    assert_eq!(peer, Peer::new(AddrV2::Ipv4([192, 168, 1, 1]), 50000));
    let peer = peer_from_socket_addr(SocketAddr {
        ip: IpAddr::V6([1; 16]),
        port: 1,
    });
    assert_eq!(peer, Peer::new(AddrV2::Ipv6([1; 16]), 1));
}

#[test]
fn connections_are_shown() {
    let peer = local_peer();
    let state = ConnectionState::new();
    assert_eq!(
        describe(
            ConnectionPart::Connection,
            TransportVersion::V2,
            Some(&peer),
            Some(&state)
        ),
        format!(
            "TCP/V2 connection to {} ({})",
            peer.to_string(),
            state.to_string()
        )
    );
    assert_eq!(
        describe(ConnectionPart::Receiver, TransportVersion::V1, None, None),
        "TCP/V1 receiver to <peer locked> (state: <locked>)"
    );
    assert_eq!(
        describe(
            ConnectionPart::Sender,
            TransportVersion::V1,
            None,
            Some(&state)
        ),
        "TCP/V1 sender to <peer locked>"
    );
}

#[test]
fn connection_errors_are_shown() {
    assert_eq!(
        ConnectionError::from(std::io::Error::other("broken")).to_string(),
        "Connection error: broken"
    );
    assert_eq!(
        ConnectionError::from(TransportError::MagicMismatch).to_string(),
        "Transport layer failed in peer connection: Network magic mismatch"
    );
    assert_eq!(
        ConnectionError::ProtocolFailed.to_string(),
        "Protocol handling failed in peer communication"
    );
    assert_eq!(
        ConnectionError::UnsupportedAddressType.to_string(),
        "Unsupported address type"
    );
    assert_eq!(
        ConnectionError::ConnectionLoop.to_string(),
        "Detected connection to self (matching nonce)"
    );
    assert_eq!(
        ConnectionError::V2TransportRequired.to_string(),
        "V2 encrypted transport required but could not be established. \
         To allow plaintext fallback, use TransportPolicy::V2Preferred"
    );
    assert_eq!(
        PeersError::from(std::io::Error::other("broken")).to_string(),
        "Connection error: broken"
    );
    assert_eq!(
        PeersError::PeerConnectionFailed.to_string(),
        "Failed to connect to peer"
    );
    assert_eq!(
        PeersError::UnsupportedAddressType.to_string(),
        "Unsupported address type"
    );
    assert_eq!(
        PeersError::ConnectionLoop.to_string(),
        "Detected connection to self (matching nonce)"
    );
}
