//! Connections to peers of the bitcoin network, and discovery of such peers.
//!
//! What is here decides and computes: which bytes to send, what received bytes mean, what to do
//! next. Reading, writing and waiting are left to the caller, who reports what has happened.
//!
//! * `transport` takes messages apart and puts them together, in plaintext (v1) and for encryption
//!   (v2).
//! * `connection` chooses a transport and performs the version handshake.
//! * `crawler` visits the peers of a network, one after the other.

pub mod address;
pub mod bytes;
pub mod connection;
pub mod crawler;
pub mod message;
pub mod peer;
pub mod text;
pub mod time;
pub mod transport;
pub mod user_agent;
pub mod wire;

pub use address::{AddrV2, AddrV2Message, Address, IpAddr, Network, ServiceFlags, SocketAddr};
pub use connection::configuration::{
    ConnectionConfiguration, FeaturePreferences, TransportPolicy,
};
pub use connection::error::{ConnectionError, PeersError};
pub use connection::handshake::{Connection, Handshake, HandshakeState};
pub use connection::state::{AddrV2State, ConnectionState, SendHeadersState, WtxidRelayState};
pub use crawler::builder::{CrawlerBuilder, CrawlerBuilderError};
pub use crawler::crawler::Crawler;
pub use crawler::message::CrawlerMessage;
pub use message::{NetworkMessage, VersionMessage};
pub use peer::{Peer, PeerProtocolVersion, PeerServices};
pub use time::Duration;
pub use transport::error::{IoError, TransportError};
pub use user_agent::{UserAgent, UserAgentError};
