//! Building crawlers.

use super::crawler::{Crawler, CrawlerView};
use crate::address::Network;
use crate::connection::configuration::{copy_user_agent, user_agent_text, TransportPolicy};
use crate::peer::PeerProtocolVersion;
use crate::time::Duration;
use crate::user_agent::{validate_bitcoin_core_format, validation, UserAgent, UserAgentError};
use vstd::prelude::*;

verus! {

/// The default of the protocol version.
pub const DEFAULT_PROTOCOL_VERSION: u32 = 70016;

/// The default of the number of peers that are visited at a time.
pub const DEFAULT_MAX_CONCURRENT_TASKS: usize = 8;

/// The default of the time that dealing with a peer may take, in seconds.
pub const DEFAULT_PEER_TIMEOUT_SECS: u64 = 20;

/// What is wrong with the settings of a crawler.
#[derive(Debug, Clone, Copy, PartialEq, Eq, Structural)]
pub enum CrawlerBuilderError {
    /// The user agent is not valid.
    InvalidUserAgent(UserAgentError),
}

impl CrawlerBuilderError {
    /// The message that tells a person what is wrong.
    pub open spec fn message(self) -> Seq<char> {
        match self {
            CrawlerBuilderError::InvalidUserAgent(error) => {
                "Invalid user agent: "@ + error.message()
            },
        }
    }

    /// Says what is wrong.
    pub fn to_string(&self) -> (r: String)
        ensures
            r@ == self.message(),
    {
        match self {
            CrawlerBuilderError::InvalidUserAgent(error) => {
                let mut text = "Invalid user agent: ".to_owned();
                text.append(error.to_string().as_str());
                text
            },
        }
    }
}

/// Checks a user agent.
pub fn validate_user_agent(user_agent: &str) -> (r: Result<(), CrawlerBuilderError>)
    ensures
        match validation(user_agent@) {
            Ok(_) => r is Ok,
            Err(error) => r == Err::<(), CrawlerBuilderError>(
                CrawlerBuilderError::InvalidUserAgent(error),
            ),
        },
{
    match validate_bitcoin_core_format(user_agent) {
        Ok(_) => Ok(()),
        Err(error) => Err(CrawlerBuilderError::InvalidUserAgent(error)),
    }
}

/// Builds a crawler.
#[derive(Debug)]
pub struct CrawlerBuilder {
    network: Network,
    user_agent: Option<UserAgent>,
    transport_policy: TransportPolicy,
    protocol_version: PeerProtocolVersion,
    max_concurrent_tasks: usize,
    peer_timeout: Duration,
}

impl View for CrawlerBuilder {
    type V = CrawlerView;

    closed spec fn view(&self) -> CrawlerView {
        CrawlerView {
            network: self.network,
            user_agent: user_agent_text(self.user_agent),
            transport_policy: self.transport_policy,
            protocol_version: self.protocol_version,
            max_concurrent_tasks: self.max_concurrent_tasks,
            peer_timeout: self.peer_timeout,
        }
    }
}

impl CrawlerBuilder {
    /// Starts to build a crawler for a network, with defaults for everything else.
    pub fn new(network: Network) -> (r: CrawlerBuilder)
        ensures
            r@ == (CrawlerView {
                network,
                user_agent: None,
                transport_policy: TransportPolicy::V2Preferred,
                protocol_version: PeerProtocolVersion::Known(DEFAULT_PROTOCOL_VERSION),
                max_concurrent_tasks: DEFAULT_MAX_CONCURRENT_TASKS,
                peer_timeout: Duration { secs: DEFAULT_PEER_TIMEOUT_SECS, nanos: 0 },
            }),
    {
        CrawlerBuilder {
            network,
            user_agent: None,
            transport_policy: TransportPolicy::V2Preferred,
            protocol_version: PeerProtocolVersion::Known(DEFAULT_PROTOCOL_VERSION),
            max_concurrent_tasks: DEFAULT_MAX_CONCURRENT_TASKS,
            peer_timeout: Duration::from_secs(DEFAULT_PEER_TIMEOUT_SECS),
        }
    }

    /// Sets the user agent, where it is valid.
    pub fn with_user_agent(self, user_agent: &str) -> (r: Result<
        CrawlerBuilder,
        CrawlerBuilderError,
    >)
        ensures
            match validation(user_agent@) {
                Ok(_) => r matches Ok(builder) && builder@ == (CrawlerView {
                    user_agent: Some(user_agent@),
                    ..self@
                }),
                Err(error) => r matches Err(found) && found
                    == CrawlerBuilderError::InvalidUserAgent(error),
            },
    {
        match UserAgent::new(user_agent.to_owned()) {
            Ok(user_agent) => Ok(
                CrawlerBuilder {
                    network: self.network,
                    user_agent: Some(user_agent),
                    transport_policy: self.transport_policy,
                    protocol_version: self.protocol_version,
                    max_concurrent_tasks: self.max_concurrent_tasks,
                    peer_timeout: self.peer_timeout,
                },
            ),
            Err(error) => Err(CrawlerBuilderError::InvalidUserAgent(error)),
        }
    }

    /// Sets which transport connections may use.
    pub fn with_transport_policy(self, policy: TransportPolicy) -> (r: CrawlerBuilder)
        ensures
            r@ == (CrawlerView { transport_policy: policy, ..self@ }),
    {
        let mut builder = self;
        builder.transport_policy = policy;
        builder
    }

    /// Sets the protocol version.
    pub fn with_protocol_version(self, version: u32) -> (r: CrawlerBuilder)
        ensures
            r@ == (CrawlerView {
                protocol_version: PeerProtocolVersion::Known(version),
                ..self@
            }),
    {
        let mut builder = self;
        builder.protocol_version = PeerProtocolVersion::Known(version);
        builder
    }

    /// Sets how many peers are visited at a time, at most.
    ///
    /// One to four are for slow networks, eight suit most, and sixteen to thirty-two are for fast
    /// crawls with ample resources.
    pub fn with_max_concurrent_tasks(self, max_tasks: usize) -> (r: CrawlerBuilder)
        ensures
            r@ == (CrawlerView { max_concurrent_tasks: max_tasks, ..self@ }),
    {
        let mut builder = self;
        builder.max_concurrent_tasks = max_tasks;
        builder
    }

    /// Sets how long making a connection may take, and how long asking a peer for peers.
    pub fn with_peer_timeout(self, timeout: Duration) -> (r: CrawlerBuilder)
        ensures
            r@ == (CrawlerView { peer_timeout: timeout, ..self@ }),
    {
        let mut builder = self;
        builder.peer_timeout = timeout;
        builder
    }

    /// The crawler.
    pub fn build(self) -> (r: Crawler)
        ensures
            r@ == self@,
    {
        Crawler::new(
            self.network,
            self.user_agent,
            self.transport_policy,
            self.protocol_version,
            self.max_concurrent_tasks,
            self.peer_timeout,
        )
    }
}

impl Clone for CrawlerBuilder {
    fn clone(&self) -> (r: CrawlerBuilder)
        ensures
            r@ == self@,
    {
        CrawlerBuilder {
            network: self.network,
            user_agent: copy_user_agent(&self.user_agent),
            transport_policy: self.transport_policy,
            protocol_version: self.protocol_version,
            max_concurrent_tasks: self.max_concurrent_tasks,
            peer_timeout: self.peer_timeout,
        }
    }
}

/// A crawler that is built with nothing set prefers encryption, speaks protocol version 70016,
/// visits eight peers at a time, gives each twenty seconds, and has the user agent of this
/// software.
pub proof fn law_crawlers_are_built_with_defaults(
    network: Network,
    builder: CrawlerBuilder,
    built: Crawler,
)
    requires
        call_ensures(CrawlerBuilder::new, (network,), builder),
        call_ensures(CrawlerBuilder::build, (builder,), built),
    ensures
        built@.network == network,
        built@.user_agent is None,
        built@.transport_policy is V2Preferred,
        built@.protocol_version == PeerProtocolVersion::Known(70016),
        built@.max_concurrent_tasks == 8,
        built@.peer_timeout.secs == 20 && built@.peer_timeout.nanos == 0,
{
}

/// Each setting is kept as it was given, whatever else is set before or after it, and what is not
/// set stays as it was.
pub proof fn law_settings_are_kept(
    start: CrawlerBuilder,
    policy: TransportPolicy,
    version: u32,
    tasks: usize,
    timeout: Duration,
    first: CrawlerBuilder,
    second: CrawlerBuilder,
    third: CrawlerBuilder,
    fourth: CrawlerBuilder,
    built: Crawler,
)
    requires
        call_ensures(CrawlerBuilder::with_transport_policy, (start, policy), first),
        call_ensures(CrawlerBuilder::with_protocol_version, (first, version), second),
        call_ensures(CrawlerBuilder::with_max_concurrent_tasks, (second, tasks), third),
        call_ensures(CrawlerBuilder::with_peer_timeout, (third, timeout), fourth),
        call_ensures(CrawlerBuilder::build, (fourth,), built),
    ensures
        built@.network == start@.network,
        built@.user_agent == start@.user_agent,
        built@.transport_policy == policy,
        built@.protocol_version == PeerProtocolVersion::Known(version),
        built@.max_concurrent_tasks == tasks,
        built@.peer_timeout == timeout,
{
}

/// A user agent is set exactly when it is accepted as one, and changes nothing else; else what is
/// wrong with it is told.
pub proof fn law_accepted_user_agents_are_set(
    start: CrawlerBuilder,
    user_agent: &str,
    accepted: Result<(), UserAgentError>,
    validated: Result<(), CrawlerBuilderError>,
    r: Result<CrawlerBuilder, CrawlerBuilderError>,
)
    requires
        call_ensures(validate_bitcoin_core_format, (user_agent,), accepted),
        call_ensures(validate_user_agent, (user_agent,), validated),
        call_ensures(CrawlerBuilder::with_user_agent, (start, user_agent), r),
    ensures
        match accepted {
            Ok(_) => {
                &&& validated is Ok
                &&& r matches Ok(builder) && {
                    &&& builder@.user_agent == Some(user_agent@)
                    &&& builder@.network == start@.network
                    &&& builder@.transport_policy == start@.transport_policy
                    &&& builder@.protocol_version == start@.protocol_version
                    &&& builder@.max_concurrent_tasks == start@.max_concurrent_tasks
                    &&& builder@.peer_timeout == start@.peer_timeout
                }
            },
            Err(error) => {
                &&& validated matches Err(CrawlerBuilderError::InvalidUserAgent(told)) && told
                    == error
                &&& r matches Err(CrawlerBuilderError::InvalidUserAgent(told)) && told == error
            },
        },
{
}

/// A user agent that was refused is told of with what is wrong with it.
pub proof fn law_refused_user_agents_are_told_of(error: UserAgentError, told: String, r: String)
    requires
        call_ensures(UserAgentError::to_string, (&error,), told),
        call_ensures(
            CrawlerBuilderError::to_string,
            (&CrawlerBuilderError::InvalidUserAgent(error),),
            r,
        ),
    ensures
        r@ == "Invalid user agent: "@ + told@,
{
}

} // verus!
