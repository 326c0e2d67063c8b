//! How a connection is to be made.

use crate::address::{service_flags_text, AddrV2, AddrV2View, ServiceFlags};
use crate::peer::PeerProtocolVersion;
use crate::time::Duration;
use crate::user_agent::{formatted, UserAgent};
use vstd::prelude::*;

verus! {

/// The name that this software gives itself.
pub const PACKAGE_NAME: &'static str = "bitcoin-peers";

/// The version of this software.
pub const PACKAGE_VERSION: &'static str = "0.1.0";

/// The port of a node that does not listen.
pub const NON_LISTENING_PORT: u16 = 0;

/// The default of the time that making a connection may take, in seconds.
pub const DEFAULT_CONNECTION_TIMEOUT_SECS: u64 = 10;

/// The user agent of this software.
pub fn default_user_agent() -> (r: UserAgent)
    ensures
        r@ == formatted(PACKAGE_NAME@, PACKAGE_VERSION@),
{
    UserAgent::from_name_version(PACKAGE_NAME, PACKAGE_VERSION)
}

/// The address of a node that does not listen.
///
/// It tells peers that this node takes no connections and should not be passed on.
pub fn non_listening_address() -> (r: AddrV2)
    ensures
        r@ == AddrV2View::Ipv4(seq![0u8, 0u8, 0u8, 0u8]),
{
    let octets: [u8; 4] = [0, 0, 0, 0];
    assert(octets@ =~= seq![0u8, 0u8, 0u8, 0u8]);
    AddrV2::Ipv4(octets)
}

/// The default of the time that making a connection may take.
pub fn default_connection_timeout() -> (r: Duration)
    ensures
        r == (Duration { secs: DEFAULT_CONNECTION_TIMEOUT_SECS, nanos: 0 }),
{
    Duration::from_secs(DEFAULT_CONNECTION_TIMEOUT_SECS)
}

/// Which transport a connection may use.
#[derive(Debug, Clone, Copy, PartialEq, Eq, Structural)]
pub enum TransportPolicy {
    /// The connection has to be encrypted.
    V2Required,
    /// The connection should be encrypted, but may be in plaintext where that fails.
    V2Preferred,
}

impl TransportPolicy {
    /// The name of the policy.
    pub open spec fn shown(self) -> Seq<char> {
        match self {
            TransportPolicy::V2Required => "V2Required"@,
            TransportPolicy::V2Preferred => "V2Preferred"@,
        }
    }

    /// Shows the policy by its name.
    pub fn to_string(&self) -> (r: String)
        ensures
            r@ == self.shown(),
    {
        match self {
            TransportPolicy::V2Required => "V2Required".to_owned(),
            TransportPolicy::V2Preferred => "V2Preferred".to_owned(),
        }
    }
}

/// Which features are to be asked for on a connection.
#[derive(Debug, Clone, Copy, PartialEq, Eq, Structural)]
pub struct FeaturePreferences {
    /// Whether to ask for `addrv2` messages (BIP-155).
    pub enable_addrv2: bool,
    /// Whether to ask for the announcement of blocks by their headers (BIP-130).
    pub enable_sendheaders: bool,
    /// Whether to ask for the announcement of transactions by witness identifiers (BIP-339).
    pub enable_wtxidrelay: bool,
}

impl Default for FeaturePreferences {
    fn default() -> (r: FeaturePreferences)
        ensures
            r.enable_addrv2,
            r.enable_sendheaders,
            r.enable_wtxidrelay,
    {
        FeaturePreferences {
            enable_addrv2: true,
            enable_sendheaders: true,
            enable_wtxidrelay: true,
        }
    }
}

/// A text followed by another, with a comma between them where neither is empty.
pub open spec fn listed(text: Seq<char>, enabled: bool, name: Seq<char>) -> Seq<char> {
    if !enabled {
        text
    } else if text.len() == 0 {
        name
    } else {
        text + ", "@ + name
    }
}

/// Adds a name to a list where it is enabled.
fn add_listed(text: &mut String, enabled: bool, name: &str)
    ensures
        final(text)@ == listed(old(text)@, enabled, name@),
{
    if enabled {
        if !text.as_str().is_empty() {
            text.append(", ");
        }
        text.append(name);
        proof {
            if old(text)@.len() == 0 {
                assert(text@ =~= name@);
            }
        }
    }
}

impl FeaturePreferences {
    /// The names of the features, or `none`.
    pub open spec fn shown(self) -> Seq<char> {
        let names = listed(
            listed(
                listed(Seq::empty(), self.enable_addrv2, "AddrV2"@),
                self.enable_sendheaders,
                "SendHeaders"@,
            ),
            self.enable_wtxidrelay,
            "WtxidRelay"@,
        );
        if self.enable_addrv2 || self.enable_sendheaders || self.enable_wtxidrelay {
            names
        } else {
            "none"@
        }
    }

    /// Shows the features by their names.
    pub fn to_string(&self) -> (r: String)
        ensures
            r@ == self.shown(),
    {
        if !self.enable_addrv2 && !self.enable_sendheaders && !self.enable_wtxidrelay {
            return "none".to_owned();
        }
        let mut text = String::new();
        add_listed(&mut text, self.enable_addrv2, "AddrV2");
        add_listed(&mut text, self.enable_sendheaders, "SendHeaders");
        add_listed(&mut text, self.enable_wtxidrelay, "WtxidRelay");
        text
    }
}

/// How a connection is to be made.
#[derive(Debug)]
pub struct ConnectionConfiguration {
    /// The protocol version of this node.
    pub protocol_version: PeerProtocolVersion,
    /// The user agent of this node, where it is not that of this software.
    pub user_agent: Option<UserAgent>,
    /// The services of this node.
    pub services: ServiceFlags,
    /// Where this node is.
    ///
    /// A version message has room for IP addresses only, and holds a placeholder for others.
    pub sender_address: AddrV2,
    /// The port of this node.
    pub sender_port: u16,
    /// The height of the chain that this node knows.
    pub start_height: i32,
    /// Whether the peer should relay transactions.
    pub relay: bool,
    /// Which transport the connection may use.
    pub transport_policy: TransportPolicy,
    /// Which features are to be asked for.
    pub feature_preferences: FeaturePreferences,
    /// The time that making the connection may take.
    pub connection_timeout: Duration,
}

/// What a `ConnectionConfiguration` stands for.
#[verifier::ext_equal]
pub struct ConfigurationView {
    /// The protocol version of this node.
    pub protocol_version: PeerProtocolVersion,
    /// The user agent of this node.
    pub user_agent: Option<Seq<char>>,
    /// The services of this node.
    pub services: ServiceFlags,
    /// Where this node is.
    pub sender_address: AddrV2View,
    /// The port of this node.
    pub sender_port: u16,
    /// The height of the chain that this node knows.
    pub start_height: i32,
    /// Whether the peer should relay transactions.
    pub relay: bool,
    /// Which transport the connection may use.
    pub transport_policy: TransportPolicy,
    /// Which features are to be asked for.
    pub feature_preferences: FeaturePreferences,
    /// The time that making the connection may take.
    pub connection_timeout: Duration,
}

/// What an optional user agent stands for.
pub open spec fn user_agent_text(user_agent: Option<UserAgent>) -> Option<Seq<char>> {
    match user_agent {
        Some(user_agent) => Some(user_agent@),
        None => None,
    }
}

impl View for ConnectionConfiguration {
    type V = ConfigurationView;

    open spec fn view(&self) -> ConfigurationView {
        ConfigurationView {
            protocol_version: self.protocol_version,
            user_agent: user_agent_text(self.user_agent),
            services: self.services,
            sender_address: self.sender_address@,
            sender_port: self.sender_port,
            start_height: self.start_height,
            relay: self.relay,
            transport_policy: self.transport_policy,
            feature_preferences: self.feature_preferences,
            connection_timeout: self.connection_timeout,
        }
    }
}

impl ConfigurationView {
    /// The configuration as text.
    pub open spec fn shown(self) -> Seq<char> {
        "ConnectionConfiguration { protocol: "@ + self.protocol_version.shown()
            + ", user_agent: \""@ + (match self.user_agent {
            Some(user_agent) => user_agent,
            None => "none"@,
        }) + "\", services: "@ + service_flags_text(self.services.bits) + ", transport: "@
            + self.transport_policy.shown() + ", features: ["@ + self.feature_preferences.shown()
            + "], relay: "@ + (if self.relay {
            "true"@
        } else {
            "false"@
        }) + " }"@
    }
}

/// A copy of an optional user agent.
pub fn copy_user_agent(user_agent: &Option<UserAgent>) -> (r: Option<UserAgent>)
    ensures
        user_agent_text(r) == user_agent_text(*user_agent),
{
    match user_agent {
        Some(user_agent) => Some(user_agent.clone()),
        None => None,
    }
}

impl ConnectionConfiguration {
    /// The configuration of a node that does not listen, offers no services and wants no
    /// transactions, such as a crawler.
    pub fn non_listening(
        protocol_version: PeerProtocolVersion,
        transport_policy: TransportPolicy,
        feature_preferences: FeaturePreferences,
        user_agent: Option<UserAgent>,
    ) -> (r: ConnectionConfiguration)
        ensures
            r@ == (ConfigurationView {
                protocol_version,
                user_agent: user_agent_text(user_agent),
                services: ServiceFlags { bits: 0 },
                sender_address: AddrV2View::Ipv4(seq![0u8, 0u8, 0u8, 0u8]),
                sender_port: NON_LISTENING_PORT,
                start_height: 0,
                relay: false,
                transport_policy,
                feature_preferences,
                connection_timeout: Duration { secs: DEFAULT_CONNECTION_TIMEOUT_SECS, nanos: 0 },
            }),
    {
        ConnectionConfiguration {
            protocol_version,
            user_agent,
            services: ServiceFlags::none(),
            sender_address: non_listening_address(),
            sender_port: NON_LISTENING_PORT,
            start_height: 0,
            relay: false,
            transport_policy,
            feature_preferences,
            connection_timeout: default_connection_timeout(),
        }
    }

    /// The same configuration with another time that making the connection may take.
    pub fn with_connection_timeout(self, timeout: Duration) -> (r: ConnectionConfiguration)
        ensures
            r@ == (ConfigurationView { connection_timeout: timeout, ..self@ }),
    {
        ConnectionConfiguration {
            protocol_version: self.protocol_version,
            user_agent: self.user_agent,
            services: self.services,
            sender_address: self.sender_address,
            sender_port: self.sender_port,
            start_height: self.start_height,
            relay: self.relay,
            transport_policy: self.transport_policy,
            feature_preferences: self.feature_preferences,
            connection_timeout: timeout,
        }
    }

    /// Shows the configuration.
    pub fn to_string(&self) -> (r: String)
        ensures
            r@ == self@.shown(),
    {
        let mut text = "ConnectionConfiguration { protocol: ".to_owned();
        text.append(self.protocol_version.to_string().as_str());
        text.append(", user_agent: \"");
        match &self.user_agent {
            Some(user_agent) => text.append(user_agent.as_str()),
            None => text.append("none"),
        }
        text.append("\", services: ");
        text.append(self.services.to_string().as_str());
        text.append(", transport: ");
        text.append(self.transport_policy.to_string().as_str());
        text.append(", features: [");
        text.append(self.feature_preferences.to_string().as_str());
        text.append("], relay: ");
        text.append(
            if self.relay {
                "true"
            } else {
                "false"
            },
        );
        text.append(" }");
        text
    }
}

impl Clone for ConnectionConfiguration {
    fn clone(&self) -> (r: ConnectionConfiguration)
        ensures
            r@ == self@,
    {
        ConnectionConfiguration {
            protocol_version: self.protocol_version,
            user_agent: copy_user_agent(&self.user_agent),
            services: self.services,
            sender_address: self.sender_address.clone(),
            sender_port: self.sender_port,
            start_height: self.start_height,
            relay: self.relay,
            transport_policy: self.transport_policy,
            feature_preferences: self.feature_preferences,
            connection_timeout: self.connection_timeout,
        }
    }
}

/// A node that does not listen offers no services, has no address, port or chain, and wants no
/// transactions; the rest is as given, and making a connection may take ten seconds.
pub proof fn law_nodes_that_do_not_listen_offer_nothing(
    protocol_version: PeerProtocolVersion,
    transport_policy: TransportPolicy,
    feature_preferences: FeaturePreferences,
    user_agent: Option<UserAgent>,
    r: ConnectionConfiguration,
)
    requires
        call_ensures(
            ConnectionConfiguration::non_listening,
            (protocol_version, transport_policy, feature_preferences, user_agent),
            r,
        ),
    ensures
        r.protocol_version == protocol_version,
        r.transport_policy == transport_policy,
        r.feature_preferences == feature_preferences,
        match user_agent {
            Some(given) => r.user_agent matches Some(kept) && kept@ == given@,
            None => r.user_agent is None,
        },
        r.services.bits == 0,
        r.sender_address matches AddrV2::Ipv4(o) && o@ == seq![0u8, 0u8, 0u8, 0u8],
        r.sender_port == 0,
        r.start_height == 0,
        !r.relay,
        r.connection_timeout.secs == 10 && r.connection_timeout.nanos == 0,
{
    assert(r@.protocol_version == protocol_version);
}

/// Another time for making the connection changes nothing else of a configuration.
pub proof fn law_timeouts_change_nothing_else(
    configuration: ConnectionConfiguration,
    timeout: Duration,
    r: ConnectionConfiguration,
)
    requires
        call_ensures(
            ConnectionConfiguration::with_connection_timeout,
            (configuration, timeout),
            r,
        ),
    ensures
        r.connection_timeout == timeout,
        r.protocol_version == configuration.protocol_version,
        match configuration.user_agent {
            Some(given) => r.user_agent matches Some(kept) && kept@ == given@,
            None => r.user_agent is None,
        },
        r.services == configuration.services,
        r.sender_address@ == configuration.sender_address@,
        r.sender_port == configuration.sender_port,
        r.start_height == configuration.start_height,
        r.relay == configuration.relay,
        r.transport_policy == configuration.transport_policy,
        r.feature_preferences == configuration.feature_preferences,
{
    assert(r@.connection_timeout == timeout);
    assert(r@.user_agent == configuration@.user_agent);
}

/// The text of feature preferences names exactly those that are enabled, in order and with commas
/// between them.
pub proof fn law_enabled_features_are_shown(features: FeaturePreferences, r: String)
    requires
        call_ensures(FeaturePreferences::to_string, (&features,), r),
    ensures
        match (features.enable_addrv2, features.enable_sendheaders, features.enable_wtxidrelay) {
            (true, true, true) => r@ == "AddrV2"@ + ", "@ + "SendHeaders"@ + ", "@ + "WtxidRelay"@,
            (true, true, false) => r@ == "AddrV2"@ + ", "@ + "SendHeaders"@,
            (true, false, true) => r@ == "AddrV2"@ + ", "@ + "WtxidRelay"@,
            (false, true, true) => r@ == "SendHeaders"@ + ", "@ + "WtxidRelay"@,
            (true, false, false) => r@ == "AddrV2"@,
            (false, true, false) => r@ == "SendHeaders"@,
            (false, false, true) => r@ == "WtxidRelay"@,
            (false, false, false) => r@ == "none"@,
        },
{
    reveal_strlit("AddrV2");
    reveal_strlit("SendHeaders");
    reveal_strlit("WtxidRelay");
}

/// The text of a configuration is made of those of its parts.
pub proof fn law_configurations_are_shown_part_by_part(
    configuration: ConnectionConfiguration,
    version: String,
    services: String,
    policy: String,
    features: String,
    r: String,
)
    requires
        call_ensures(
            PeerProtocolVersion::to_string,
            (&configuration.protocol_version,),
            version,
        ),
        call_ensures(ServiceFlags::to_string, (&configuration.services,), services),
        call_ensures(TransportPolicy::to_string, (&configuration.transport_policy,), policy),
        call_ensures(
            FeaturePreferences::to_string,
            (&configuration.feature_preferences,),
            features,
        ),
        call_ensures(ConnectionConfiguration::to_string, (&configuration,), r),
    ensures
        policy@ == (match configuration.transport_policy {
            TransportPolicy::V2Required => "V2Required"@,
            TransportPolicy::V2Preferred => "V2Preferred"@,
        }),
        r@ == "ConnectionConfiguration { protocol: "@ + version@ + ", user_agent: \""@ + (
        match configuration.user_agent {
            Some(user_agent) => user_agent@,
            None => "none"@,
        }) + "\", services: "@ + services@ + ", transport: "@ + policy@ + ", features: ["@
            + features@ + "], relay: "@ + (if configuration.relay {
            "true"@
        } else {
            "false"@
        }) + " }"@,
{
}

/// This software calls itself `/bitcoin-peers:0.1.0/`.
pub proof fn law_this_software_has_a_user_agent(r: UserAgent)
    requires
        call_ensures(default_user_agent, (), r),
    ensures
        r@ == "/bitcoin-peers:0.1.0/"@,
{
    reveal_strlit("/");
    reveal_strlit(":");
    reveal_strlit("bitcoin-peers");
    reveal_strlit("0.1.0");
    reveal_strlit("/bitcoin-peers:0.1.0/");
    assert(formatted(PACKAGE_NAME@, PACKAGE_VERSION@) =~= "/bitcoin-peers:0.1.0/"@);
}

} // verus!
