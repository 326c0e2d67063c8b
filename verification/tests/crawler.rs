//! Asking peers for peers, visiting them, and building crawlers.

use bitcoin_peers::crawler::builder::validate_user_agent;
use bitcoin_peers::crawler::connection::{CollectStep, PeerCollector};
use bitcoin_peers::crawler::peer_set::PeerSet;
use bitcoin_peers::crawler::session::{CrawlSession, SessionConfig, SessionStep};
use bitcoin_peers::crawler::task::{
    begin, filter_untested, process, TaskAction, TaskEvent, TaskResult,
};
use bitcoin_peers::{
    AddrV2, AddrV2Message, Address, CrawlerBuilder, CrawlerBuilderError, CrawlerMessage, Duration,
    IpAddr, Network, NetworkMessage, Peer, PeerProtocolVersion, ServiceFlags, SocketAddr,
    TransportPolicy, UserAgentError,
};
use std::collections::{HashMap, HashSet, VecDeque};

const NETWORK: ServiceFlags = ServiceFlags { bits: 1 };
const NETWORK_AND_WITNESS: ServiceFlags = ServiceFlags { bits: 9 };
const WITNESS: ServiceFlags = ServiceFlags { bits: 8 };

fn addr_message(addresses: &[([u8; 4], u16, ServiceFlags)]) -> NetworkMessage {
    let mut list = Vec::new();
    for (octets, port, services) in addresses {
        let socket = SocketAddr {
            ip: IpAddr::V4(*octets),
            port: *port,
        };
        list.push((0, Address::new(&socket, *services)));
    }
    NetworkMessage::Addr(list)
}

#[test]
fn test_get_peers() {
    let (mut collector, request) = PeerCollector::begin(Duration::from_millis(100));
    assert!(matches!(request, NetworkMessage::GetAddr));

    let reply = collector.on_message(addr_message(&[
        ([192, 168, 1, 1], 8333, NETWORK),
        ([10, 0, 0, 1], 8333, NETWORK_AND_WITNESS),
    ]));
    assert!(reply.is_none());

    let peers = collector.into_peers();
    assert_eq!(peers.len(), 2);
    let peer1 = &peers[0];
    assert_eq!(peer1.address, AddrV2::Ipv4([192, 168, 1, 1]));
    assert_eq!(peer1.port, 8333);
    assert!(peer1.has_service(NETWORK));
    let peer2 = &peers[1];
    assert_eq!(peer2.address, AddrV2::Ipv4([10, 0, 0, 1]));
    assert!(peer2.has_service(WITNESS));
}

#[test]
fn test_get_peers_timeout() {
    let timeout = Duration::from_millis(50);
    let (mut collector, request) = PeerCollector::begin(timeout);
    assert!(matches!(request, NetworkMessage::GetAddr));
    assert_eq!(
        collector.next_step(Duration::from_millis(0)),
        CollectStep::Wait(timeout)
    );
    // Nothing came, so the rest of the time is waited out.
    collector.on_silence();
    assert_eq!(
        collector.next_step(Duration::from_millis(30)),
        CollectStep::Wait(Duration::from_millis(20))
    );
    assert_eq!(
        collector.next_step(Duration::from_millis(50)),
        CollectStep::Done
    );
    assert_eq!(collector.into_peers().len(), 0);
}

#[test]
fn waits_for_one_message_are_limited() {
    let (mut collector, _) = PeerCollector::begin(Duration::from_secs(20));
    assert_eq!(
        collector.next_step(Duration::from_secs(0)),
        CollectStep::Wait(Duration::from_secs(5))
    );
    assert_eq!(
        collector.next_step(Duration::from_secs(18)),
        CollectStep::Wait(Duration::from_secs(2))
    );
    // Once there are peers, silence is the end.
    collector.on_message(addr_message(&[([1, 2, 3, 4], 1, NETWORK)]));
    assert!(matches!(
        collector.next_step(Duration::from_secs(1)),
        CollectStep::Wait(_)
    ));
    collector.on_silence();
    assert_eq!(
        collector.next_step(Duration::from_secs(1)),
        CollectStep::Done
    );
}

#[test]
fn peers_of_all_messages_are_collected() {
    let (mut collector, _) = PeerCollector::begin(Duration::from_secs(20));
    assert!(collector.on_message(NetworkMessage::Verack).is_none());
    match collector.on_message(NetworkMessage::Ping(77)) {
        Some(NetworkMessage::Pong(nonce)) => assert_eq!(nonce, 77),
        reply => panic!("{reply:?}"),
    }
    collector.on_message(NetworkMessage::AddrV2(vec![
        AddrV2Message {
            time: 0,
            services: NETWORK,
            addr: AddrV2::TorV3([1; 32]),
            port: 5,
        },
        AddrV2Message {
            time: 0,
            services: WITNESS,
            addr: AddrV2::Ipv6([2; 16]),
            port: 6,
        },
    ]));
    // A legacy address of Tor stands for no peer.
    let mut octets = [0; 16];
    octets[..6].copy_from_slice(&[0xFD, 0x87, 0xD8, 0x7E, 0xEB, 0x43]);
    let onion = SocketAddr {
        ip: IpAddr::V6(octets),
        port: 1,
    };
    let ipv6 = SocketAddr {
        ip: IpAddr::V6([0x20; 16]),
        port: 7,
    };
    collector.on_message(NetworkMessage::Addr(vec![
        (0, Address::new(&onion, NETWORK)),
        (0, Address::new(&ipv6, NETWORK)),
    ]));
    assert_eq!(
        collector.into_peers(),
        [
            Peer::with_services(AddrV2::TorV3([1; 32]), 5, NETWORK),
            Peer::with_services(AddrV2::Ipv6([2; 16]), 6, WITNESS),
            Peer::with_services(AddrV2::Ipv6([0x20; 16]), 7, NETWORK),
        ]
    );
}

fn local_peer() -> Peer {
    Peer::new(AddrV2::Ipv4([127, 0, 0, 1]), 8333)
}

#[test]
fn test_process_with_successful_connection() {
    let tested = PeerSet::new();
    let stage = begin(local_peer());
    let (stage, action) = process(stage, TaskEvent::Connected(local_peer()), &tested);
    match action {
        TaskAction::Report(CrawlerMessage::Listening(peer)) => {
            assert_eq!(peer.address, AddrV2::Ipv4([127, 0, 0, 1]));
            assert_eq!(peer.port, 8333);
        }
        action => panic!("Expected Listening message, got {action:?}"),
    }
    let (stage, action) = process(stage, TaskEvent::Sent, &tested);
    assert!(matches!(action, TaskAction::Ask));

    let (mut collector, _) = PeerCollector::begin(Duration::from_millis(50));
    collector.on_message(addr_message(&[
        ([192, 168, 1, 1], 8333, NETWORK),
        ([10, 0, 0, 1], 8333, NETWORK_AND_WITNESS),
    ]));
    let found = TaskEvent::PeersReceived(collector.into_peers());
    let (stage, action) = process(stage, found, &tested);
    let discovered_peers = match action {
        TaskAction::Announce(peers) => peers,
        action => panic!("Should have received discovered peers, got {action:?}"),
    };
    assert_eq!(discovered_peers.len(), 2);
    assert_eq!(
        discovered_peers[0].address,
        AddrV2::Ipv4([192, 168, 1, 1])
    );
    assert_eq!(discovered_peers[0].port, 8333);
    assert!(discovered_peers[0].has_service(NETWORK));
    assert_eq!(discovered_peers[1].address, AddrV2::Ipv4([10, 0, 0, 1]));
    assert_eq!(discovered_peers[1].port, 8333);
    assert!(discovered_peers[1].has_service(WITNESS));

    let (_, action) = process(stage, TaskEvent::Sent, &tested);
    assert!(matches!(action, TaskAction::Finish(TaskResult::FoundPeers)));
}

#[test]
fn test_process_with_no_peers_found() {
    let tested = PeerSet::new();
    let stage = begin(local_peer());
    let (stage, action) = process(stage, TaskEvent::Connected(local_peer()), &tested);
    match action {
        TaskAction::Report(CrawlerMessage::Listening(peer)) => {
            assert_eq!(peer.address, AddrV2::Ipv4([127, 0, 0, 1]));
            assert_eq!(peer.port, 8333);
        }
        action => panic!("Expected Listening message, got {action:?}"),
    }
    let (stage, _) = process(stage, TaskEvent::Sent, &tested);
    let (_, action) = process(stage, TaskEvent::PeersReceived(Vec::new()), &tested);
    assert!(matches!(
        action,
        TaskAction::Finish(TaskResult::NoPeersFound)
    ));
}

#[test]
fn test_process_with_connection_error() {
    let tested = PeerSet::new();
    let stage = begin(local_peer());
    let (stage, action) = process(stage, TaskEvent::Connected(local_peer()), &tested);
    assert!(matches!(
        action,
        TaskAction::Report(CrawlerMessage::Listening(_))
    ));
    let (stage, _) = process(stage, TaskEvent::Sent, &tested);
    let (_, action) = process(stage, TaskEvent::PeersFailed, &tested);
    assert!(matches!(
        action,
        TaskAction::Finish(TaskResult::NoPeersFound)
    ));
}

#[test]
fn test_process_with_connection_failure() {
    let tested = PeerSet::new();
    let test_peer = local_peer();
    let stage = begin(test_peer.clone());
    let (stage, action) = process(stage, TaskEvent::ConnectFailed, &tested);
    match action {
        TaskAction::Report(CrawlerMessage::NonListening(peer)) => {
            assert_eq!(peer.address, test_peer.address);
            assert_eq!(peer.port, test_peer.port);
        }
        action => panic!("Expected NonListening message, got {action:?}"),
    }
    let (_, action) = process(stage, TaskEvent::Sent, &tested);
    assert!(matches!(
        action,
        TaskAction::Finish(TaskResult::ConnectionFailed)
    ));
}

#[test]
fn visits_end_where_nobody_listens() {
    let tested = PeerSet::new();
    let (stage, _) = process(begin(local_peer()), TaskEvent::ConnectFailed, &tested);
    let (_, action) = process(stage, TaskEvent::Closed, &tested);
    assert!(matches!(
        action,
        TaskAction::Finish(TaskResult::ChannelClosed)
    ));
    let connected = TaskEvent::Connected(local_peer());
    let (stage, _) = process(begin(local_peer()), connected, &tested);
    let (_, action) = process(stage, TaskEvent::Closed, &tested);
    assert!(matches!(
        action,
        TaskAction::Finish(TaskResult::ChannelClosed)
    ));
    let connected = TaskEvent::Connected(local_peer());
    let (stage, _) = process(begin(local_peer()), connected, &tested);
    let (stage, _) = process(stage, TaskEvent::Sent, &tested);
    let found = TaskEvent::PeersReceived(vec![local_peer()]);
    let (stage, _) = process(stage, found, &tested);
    let (_, action) = process(stage, TaskEvent::Closed, &tested);
    assert!(matches!(
        action,
        TaskAction::Finish(TaskResult::ChannelClosed)
    ));
}

#[test]
fn only_untested_peers_are_passed_on() {
    let mut tested = PeerSet::new();
    let other = Peer::new(AddrV2::Ipv4([1, 1, 1, 1]), 1);
    assert!(tested.insert(local_peer()));
    let peers = vec![other.clone(), local_peer(), other.clone()];
    assert_eq!(
        filter_untested(peers, &tested),
        [other.clone(), other.clone()]
    );
    let connected = TaskEvent::Connected(local_peer());
    let (stage, _) = process(begin(local_peer()), connected, &tested);
    let (stage, _) = process(stage, TaskEvent::Sent, &tested);
    let found = TaskEvent::PeersReceived(vec![local_peer()]);
    let (_, action) = process(stage, found, &tested);
    assert!(matches!(
        action,
        TaskAction::Finish(TaskResult::NoPeersFound)
    ));
}

#[test]
fn peer_sets_hold_each_peer_once() {
    let mut set = PeerSet::new();
    let mut peers = Vec::new();
    for i in 0..50u8 {
        for port in [1u16, 2] {
            peers.push(Peer::new(AddrV2::Ipv4([10, 0, i, i]), port));
        }
        peers.push(Peer::new(AddrV2::Unknown(i, vec![1, 2, 3]), 1));
    }
    for peer in &peers {
        assert!(!set.contains(peer));
        assert!(set.insert(peer.clone()));
        assert!(set.contains(peer));
        assert!(!set.insert(peer.clone()));
    }
    // The same address with other services is another peer.
    assert!(!set.contains(&peers[0].with_known_services(NETWORK)));
    assert!(set.insert(peers[0].with_known_services(NETWORK)));
}

/// What a crawl of a network in memory came to.
struct Crawled {
    /// The peers that were visited, in order.
    visited: Vec<Peer>,
    /// The peers that were reported to be listening.
    listening: HashSet<(AddrV2, u16)>,
    /// The highest number of visits at a time.
    most: usize,
}

/// Crawls a network in memory. Of each peer, it is given how the peer presents itself and which
/// message it answers with, or nothing where it cannot be connected to.
fn crawl(
    mut connect: impl FnMut(&Peer) -> Option<(Peer, NetworkMessage)>,
    seed: Peer,
    max: usize,
) -> Crawled {
    let mut session = CrawlSession::new(&SessionConfig {
        max_concurrent_tasks: max,
        peer_timeout: Duration::from_millis(50),
    });
    let mut channel: VecDeque<Vec<Peer>> = VecDeque::new();
    let mut running: VecDeque<Peer> = VecDeque::new();
    let mut crawled = Crawled {
        visited: Vec::new(),
        listening: HashSet::new(),
        most: 0,
    };
    session.on_peers(vec![seed]);
    while !session.stops(false, channel.is_empty()) {
        match session.next_step() {
            SessionStep::Visit(peer) => {
                crawled.visited.push(peer.clone());
                running.push_back(peer);
                crawled.most = crawled.most.max(running.len());
                assert_eq!(session.active(), running.len());
            }
            SessionStep::AwaitNews if !channel.is_empty() => {
                session.on_peers(channel.pop_front().unwrap());
            }
            SessionStep::AwaitNews if session.is_over() => {}
            SessionStep::AwaitVisit | SessionStep::AwaitNews => {
                let peer = running.pop_front().unwrap();
                let (mut event, mut reply) = match connect(&peer) {
                    Some((met, reply)) => (TaskEvent::Connected(met), Some(reply)),
                    None => (TaskEvent::ConnectFailed, None),
                };
                let mut stage = begin(peer);
                loop {
                    let (next, action) = process(stage, event, session.tested());
                    stage = next;
                    event = match action {
                        TaskAction::Report(CrawlerMessage::Listening(met)) => {
                            crawled.listening.insert((met.address, met.port));
                            TaskEvent::Sent
                        }
                        TaskAction::Report(CrawlerMessage::NonListening(_)) => TaskEvent::Sent,
                        TaskAction::Ask => {
                            let (mut collector, _) =
                                PeerCollector::begin(Duration::from_millis(50));
                            collector.on_message(reply.take().unwrap());
                            TaskEvent::PeersReceived(collector.into_peers())
                        }
                        TaskAction::Announce(peers) => {
                            channel.push_back(peers);
                            TaskEvent::Sent
                        }
                        TaskAction::Finish(_) => break,
                    };
                }
                session.on_visit_over();
            }
        }
    }
    crawled
}

#[test]
fn test_coordinate_terminates_with_circular_references() {
    // Three peers that refer to each other in a circle.
    let a = [192, 168, 1, 1];
    let b = [192, 168, 1, 2];
    let c = [192, 168, 1, 3];
    let peer_a = Peer::new(AddrV2::Ipv4(a), 8333);
    let peer_b = Peer::new(AddrV2::Ipv4(b), 8333);
    let peer_c = Peer::new(AddrV2::Ipv4(c), 8333);
    // Connections are made in this order, and no more than these.
    let mut connections = VecDeque::from([
        (
            peer_a.clone(),
            addr_message(&[(b, 8333, NETWORK), (c, 8333, NETWORK)]),
        ),
        (
            peer_b.clone(),
            addr_message(&[(a, 8333, NETWORK), (c, 8333, NETWORK)]),
        ),
        (
            peer_c.clone(),
            addr_message(&[(a, 8333, NETWORK), (b, 8333, NETWORK)]),
        ),
    ]);
    let crawled = crawl(|_| connections.pop_front(), peer_a.clone(), 8);

    let seen_peers = crawled.listening;
    assert_eq!(seen_peers.len(), 3, "Should have seen 3 unique peers");
    assert!(seen_peers.contains(&(peer_a.address.clone(), peer_a.port)));
    assert!(seen_peers.contains(&(peer_b.address, peer_b.port)));
    assert!(seen_peers.contains(&(peer_c.address, peer_c.port)));

    // The seed came back with services, which makes it another peer.
    assert_eq!(
        crawled.visited,
        [
            peer_a.clone(),
            Peer::with_services(AddrV2::Ipv4(b), 8333, NETWORK),
            Peer::with_services(AddrV2::Ipv4(c), 8333, NETWORK),
            Peer::with_services(peer_a.address, 8333, NETWORK),
        ]
    );
}

#[test]
fn visits_are_limited_and_cover_the_network() {
    let mut network = HashMap::new();
    for i in 0..40u8 {
        let mut neighbors = Vec::new();
        for step in 1..6u8 {
            neighbors.push(([10, 0, 0, (i * step + step) % 40], 8333, NETWORK));
        }
        network.insert(AddrV2::Ipv4([10, 0, 0, i]), neighbors);
    }
    let seed = Peer::with_services(AddrV2::Ipv4([10, 0, 0, 0]), 8333, NETWORK);
    for max in [1, 3, 100] {
        let connect = |peer: &Peer| Some((peer.clone(), addr_message(&network[&peer.address])));
        let crawled = crawl(connect, seed.clone(), max);
        assert!(crawled.most <= max);
        assert_eq!(crawled.visited.len(), 40, "a peer was visited twice");
        assert_eq!(crawled.listening.len(), 40);
    }
}

#[test]
fn crawls_stop_when_they_ran_dry_or_nobody_listens() {
    let mut session = CrawlSession::new(&SessionConfig {
        max_concurrent_tasks: 2,
        peer_timeout: Duration::from_secs(1),
    });
    session.on_peers(vec![local_peer()]);
    // There is a peer to visit.
    assert!(!session.stops(false, true));
    assert!(session.stops(true, true));
    assert!(session.stops(true, false));
    assert!(matches!(session.next_step(), SessionStep::Visit(_)));
    // A visit is under way.
    assert!(!session.stops(false, true));
    assert!(session.stops(true, true));
    session.on_visit_over();
    assert!(session.stops(false, true));
    // The visit has left something in the channel.
    assert!(!session.stops(false, false));
    assert!(session.stops(true, false));
}

#[test]
fn sessions_wait_for_room() {
    let mut session = CrawlSession::new(&SessionConfig {
        max_concurrent_tasks: 1,
        peer_timeout: Duration::from_secs(1),
    });
    assert!(matches!(session.next_step(), SessionStep::AwaitNews));
    let first = Peer::new(AddrV2::Ipv4([1, 0, 0, 1]), 1);
    let second = Peer::new(AddrV2::Ipv4([1, 0, 0, 2]), 1);
    session.on_peers(vec![first.clone(), first.clone(), second.clone()]);
    match session.next_step() {
        SessionStep::Visit(peer) => assert_eq!(peer, first),
        step => panic!("{step:?}"),
    }
    assert!(matches!(session.next_step(), SessionStep::AwaitVisit));
    session.on_visit_over();
    assert!(!session.is_over());
    match session.next_step() {
        SessionStep::Visit(peer) => assert_eq!(peer, second),
        step => panic!("{step:?}"),
    }
    assert!(matches!(session.next_step(), SessionStep::AwaitNews));
    assert!(!session.is_over());
    session.on_visit_over();
    assert!(session.is_over());
    // Peers that came in last and were visited before change nothing.
    session.on_peers(vec![first]);
    assert!(!session.is_over());
    assert!(matches!(session.next_step(), SessionStep::AwaitNews));
    assert!(session.is_over());
}

#[test]
fn crawlers_are_built_with_defaults() {
    let crawler = CrawlerBuilder::new(Network::Bitcoin).build();
    let config = crawler.session_config();
    assert_eq!(config.max_concurrent_tasks, 8);
    assert_eq!(config.peer_timeout, Duration::from_secs(20));
    let connector = crawler.connector();
    assert_eq!(connector.network(), Network::Bitcoin);
    let configuration = connector.configuration();
    assert_eq!(
        configuration.protocol_version,
        PeerProtocolVersion::Known(70016)
    );
    assert_eq!(configuration.transport_policy, TransportPolicy::V2Preferred);
    assert!(configuration.user_agent.is_none());
    assert_eq!(configuration.connection_timeout, Duration::from_secs(20));
    assert!(configuration.feature_preferences.enable_addrv2);
}

#[test]
fn crawlers_are_built_with_settings() {
    let crawler = CrawlerBuilder::new(Network::Signet)
        .with_user_agent("/my-custom-crawler:1.0/")
        .unwrap()
        .with_transport_policy(TransportPolicy::V2Required)
        .with_protocol_version(70015)
        .with_max_concurrent_tasks(16)
        .with_peer_timeout(Duration::from_secs(3))
        .build()
        .clone();
    let config = crawler.session_config();
    assert_eq!(config.max_concurrent_tasks, 16);
    assert_eq!(config.peer_timeout, Duration::from_secs(3));
    let connector = crawler.connector().clone();
    assert_eq!(connector.network(), Network::Signet);
    let configuration = connector.configuration();
    assert_eq!(
        configuration.protocol_version,
        PeerProtocolVersion::Known(70015)
    );
    assert_eq!(configuration.transport_policy, TransportPolicy::V2Required);
    assert_eq!(configuration.connection_timeout, Duration::from_secs(3));
    assert_eq!(
        configuration.user_agent.unwrap().as_str(),
        "/my-custom-crawler:1.0/"
    );
}

#[test]
fn crawlers_refuse_invalid_user_agents() {
    let error = CrawlerBuilder::new(Network::Bitcoin)
        .with_user_agent("my-crawler")
        .unwrap_err();
    assert_eq!(
        error,
        CrawlerBuilderError::InvalidUserAgent(UserAgentError::InvalidFormat)
    );
    assert_eq!(
        error.to_string(),
        "Invalid user agent: User agent must follow format '/name:version/'"
    );
    assert_eq!(
        validate_user_agent("/:1/"),
        Err(CrawlerBuilderError::InvalidUserAgent(
            UserAgentError::MissingName
        ))
    );
    assert_eq!(validate_user_agent("/a:1/"), Ok(()));
}

#[test]
fn reports_are_shown() {
    let shown = local_peer().to_string();
    assert_eq!(
        CrawlerMessage::Listening(local_peer()).clone().to_string(),
        format!("Listening Peer: {shown}")
    );
    assert_eq!(
        CrawlerMessage::NonListening(local_peer()).to_string(),
        format!("Non-listening Peer: {shown}")
    );
}
