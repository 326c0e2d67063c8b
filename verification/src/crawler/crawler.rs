//! Crawlers.

use super::connection::PeerConnector;
use super::session::SessionConfig;
use crate::address::{AddrV2View, Network, ServiceFlags};
use crate::connection::configuration::{
    copy_user_agent, user_agent_text, ConfigurationView, ConnectionConfiguration,
    FeaturePreferences, TransportPolicy, NON_LISTENING_PORT,
};
use crate::peer::PeerProtocolVersion;
use crate::time::Duration;
use crate::user_agent::UserAgent;
use vstd::prelude::*;

verus! {

/// How many reports of a crawler may be waiting to be received.
pub const REPORT_CAPACITY: usize = 1000;

/// Visits the peers of a network, starting from one of them.
#[derive(Debug)]
pub struct Crawler {
    network: Network,
    user_agent: Option<UserAgent>,
    transport_policy: TransportPolicy,
    protocol_version: PeerProtocolVersion,
    max_concurrent_tasks: usize,
    peer_timeout: Duration,
}

/// What a `Crawler` stands for.
#[verifier::ext_equal]
pub struct CrawlerView {
    /// The network to crawl.
    pub network: Network,
    /// The user agent of the crawler, where it is not that of this software.
    pub user_agent: Option<Seq<char>>,
    /// Which transport connections may use.
    pub transport_policy: TransportPolicy,
    /// The protocol version of the crawler.
    pub protocol_version: PeerProtocolVersion,
    /// How many peers are visited at a time, at most.
    pub max_concurrent_tasks: usize,
    /// How long making a connection may take, and how long asking a peer for peers.
    pub peer_timeout: Duration,
}

impl View for Crawler {
    type V = CrawlerView;

    closed spec fn view(&self) -> CrawlerView {
        CrawlerView {
            network: self.network,
            user_agent: user_agent_text(self.user_agent),
            transport_policy: self.transport_policy,
            protocol_version: self.protocol_version,
            max_concurrent_tasks: self.max_concurrent_tasks,
            peer_timeout: self.peer_timeout,
        }
    }
}

impl Crawler {
    /// A crawler.
    pub fn new(
        network: Network,
        user_agent: Option<UserAgent>,
        transport_policy: TransportPolicy,
        protocol_version: PeerProtocolVersion,
        max_concurrent_tasks: usize,
        peer_timeout: Duration,
    ) -> (r: Crawler)
        ensures
            r@ == (CrawlerView {
                network,
                user_agent: user_agent_text(user_agent),
                transport_policy,
                protocol_version,
                max_concurrent_tasks,
                peer_timeout,
            }),
    {
        Crawler {
            network,
            user_agent,
            transport_policy,
            protocol_version,
            max_concurrent_tasks,
            peer_timeout,
        }
    }

    /// How a crawl is to go.
    pub fn session_config(&self) -> (r: SessionConfig)
        ensures
            r == (SessionConfig {
                max_concurrent_tasks: self@.max_concurrent_tasks,
                peer_timeout: self@.peer_timeout,
            }),
    {
        SessionConfig {
            max_concurrent_tasks: self.max_concurrent_tasks,
            peer_timeout: self.peer_timeout,
        }
    }

    /// What makes the connections of a crawl: connections of a node that does not listen, on which
    /// all features are asked for and that may take as long to make as a peer may take.
    pub fn connector(&self) -> (r: PeerConnector)
        ensures
            r.on() == self@.network,
            r.how() == (ConfigurationView {
                protocol_version: self@.protocol_version,
                user_agent: self@.user_agent,
                services: ServiceFlags { bits: 0 },
                sender_address: AddrV2View::Ipv4(seq![0u8, 0u8, 0u8, 0u8]),
                sender_port: NON_LISTENING_PORT,
                start_height: 0,
                relay: false,
                transport_policy: self@.transport_policy,
                feature_preferences: FeaturePreferences {
                    enable_addrv2: true,
                    enable_sendheaders: true,
                    enable_wtxidrelay: true,
                },
                connection_timeout: self@.peer_timeout,
            }),
    {
        let features = FeaturePreferences::default();
        let configuration = ConnectionConfiguration::non_listening(
            self.protocol_version,
            self.transport_policy,
            features,
            copy_user_agent(&self.user_agent),
        ).with_connection_timeout(self.peer_timeout);
        PeerConnector::new(self.network, configuration)
    }
}

impl Clone for Crawler {
    fn clone(&self) -> (r: Crawler)
        ensures
            r@ == self@,
    {
        Crawler {
            network: self.network,
            user_agent: copy_user_agent(&self.user_agent),
            transport_policy: self.transport_policy,
            protocol_version: self.protocol_version,
            max_concurrent_tasks: self.max_concurrent_tasks,
            peer_timeout: self.peer_timeout,
        }
    }
}

/// A crawler keeps what it is made of, and hands it on: to the crawl how many peers may be visited
/// at a time and how long a peer may take, and to its connections the network, the user agent, the
/// transport, the protocol version and, again, how long a peer may take.
pub proof fn law_crawlers_hand_on_what_they_are_made_of(
    network: Network,
    user_agent: Option<UserAgent>,
    transport_policy: TransportPolicy,
    protocol_version: PeerProtocolVersion,
    max_concurrent_tasks: usize,
    peer_timeout: Duration,
    crawler: Crawler,
    config: SessionConfig,
    connector: PeerConnector,
)
    requires
        call_ensures(
            Crawler::new,
            (
                network,
                user_agent,
                transport_policy,
                protocol_version,
                max_concurrent_tasks,
                peer_timeout,
            ),
            crawler,
        ),
        call_ensures(Crawler::session_config, (&crawler,), config),
        call_ensures(Crawler::connector, (&crawler,), connector),
    ensures
        config.max_concurrent_tasks == max_concurrent_tasks,
        config.peer_timeout == peer_timeout,
        connector.on() == network,
        connector.how().user_agent == (match user_agent {
            Some(given) => Some(given@),
            None => None,
        }),
        connector.how().transport_policy == transport_policy,
        connector.how().protocol_version == protocol_version,
        connector.how().connection_timeout == peer_timeout,
        connector.how().services.bits == 0,
        connector.how().sender_port == 0,
        connector.how().start_height == 0,
        !connector.how().relay,
        connector.how().feature_preferences.enable_addrv2,
        connector.how().feature_preferences.enable_sendheaders,
        connector.how().feature_preferences.enable_wtxidrelay,
{
}

} // verus!
