//! The version handshake, by which two nodes introduce themselves.
//!
//! Each side sends a version message and answers the other's with a verack. Between the two come
//! the features that a side asks for. The order in which version and verack of the peer arrive is
//! open.

use super::configuration::{
    default_user_agent, ConfigurationView, ConnectionConfiguration, FeaturePreferences,
    PACKAGE_NAME, PACKAGE_VERSION,
};
use super::error::ConnectionError;
use super::state::{
    initial_state, AddrV2State, ConnectionState, SendHeadersState, WtxidRelayState,
};
use crate::address::{
    ip_words, AddrV2, AddrV2View, Address, AddressView, IpAddr, ServiceFlags, SocketAddr,
};
use crate::message::{NetworkMessage, NetworkMessageView, VersionMessage, VersionView};
use crate::peer::{
    Peer, PeerProtocolVersion, PeerServices, PeerView, ADDRV2_MIN_PROTOCOL_VERSION,
    MIN_PROTOCOL_VERSION, SENDHEADERS_MIN_PROTOCOL_VERSION, WTXID_RELAY_MIN_PROTOCOL_VERSION,
};
use crate::user_agent::formatted;
use std::time::SystemTime;
use vstd::prelude::*;

verus! {

/// A moment, as the clock of the system has it.
#[verifier::external_type_specification]
#[verifier::external_body]
pub struct ExSystemTime(SystemTime);

/// The error of a moment that is later than another.
#[verifier::external_type_specification]
#[verifier::external_body]
pub struct ExSystemTimeError(std::time::SystemTimeError);

/// Reads the clock of the system. Nothing is claimed of what it shows.
pub assume_specification[ SystemTime::now ]() -> SystemTime;

/// The time between two moments. It depends on the clock, and nothing is claimed of it.
pub assume_specification[ SystemTime::duration_since ](
    this: &SystemTime,
    earlier: SystemTime,
) -> Result<std::time::Duration, std::time::SystemTimeError>;

/// The whole seconds of a span of time. The span comes from the clock, and nothing is claimed of
/// it.
pub assume_specification[ std::time::Duration::as_secs ](this: &std::time::Duration) -> u64;

/// The start of Unix time, which is `std::time::SystemTime::UNIX_EPOCH`. Nothing is claimed of it.
#[verifier::external_body]
fn unix_epoch() -> SystemTime {
    SystemTime::UNIX_EPOCH
}

/// The seconds since the Unix epoch, as version messages have them.
pub fn timestamp_from_secs(secs: u64) -> (r: i64)
    ensures
        r == secs as i64,
{
    secs as i64
}

/// Whether the clock of the system can show a moment.
pub open spec fn shown_by_clock(now: SystemTime) -> bool {
    call_ensures(SystemTime::now, (), now)
}

/// Whether this can be the time between the Unix epoch and a moment, or the error of a moment
/// before it.
pub closed spec fn since_unix_epoch(
    now: SystemTime,
    elapsed: Result<std::time::Duration, std::time::SystemTimeError>,
) -> bool {
    exists|epoch: SystemTime| #[trigger]
        call_ensures(unix_epoch, (), epoch) && call_ensures(
            SystemTime::duration_since,
            (&now, epoch),
            elapsed,
        )
}

/// Whether a timestamp is that of a time since the Unix epoch: its whole seconds. A moment before
/// the epoch has none.
pub open spec fn is_timestamp_of(
    timestamp: Option<i64>,
    elapsed: Result<std::time::Duration, std::time::SystemTimeError>,
) -> bool {
    match elapsed {
        Ok(elapsed) => exists|secs: u64| #[trigger]
            call_ensures(std::time::Duration::as_secs, (&elapsed,), secs) && timestamp == Some(
                secs as i64,
            ),
        Err(_) => timestamp is None,
    }
}

/// The seconds since the Unix epoch; nothing where the clock is set to an earlier time.
///
/// The clock is read once, and what it shows is left unsaid.
pub fn unix_timestamp() -> (r: Option<i64>)
    ensures
        exists|now: SystemTime, elapsed: Result<std::time::Duration, std::time::SystemTimeError>|
            shown_by_clock(now) && #[trigger] since_unix_epoch(now, elapsed) && is_timestamp_of(
                r,
                elapsed,
            ),
{
    let now = SystemTime::now();
    let elapsed = now.duration_since(unix_epoch());
    assert(since_unix_epoch(now, elapsed));
    match elapsed {
        Ok(span) => Some(timestamp_from_secs(span.as_secs())),
        Err(_) => None,
    }
}

/// The nonce of a version message, made of the nanoseconds since the Unix epoch and the number of
/// the process.
///
/// It serves to recognize a connection to oneself, and is not meant to be hard to guess.
pub fn generate_nonce(nanos: u128, process_id: u32) -> (r: u64)
    ensures
        r == (nanos as u64) ^ ((process_id as u64) << 32),
{
    (nanos as u64) ^ ((process_id as u64) << 32)
}

/// How far the handshake has come.
#[derive(Debug, Clone, Copy, PartialEq, Eq, Structural)]
pub enum HandshakeState {
    /// The version message has been sent, and nothing received.
    VersionSent,
    /// The peer's version has been received and answered, its verack has not been received.
    VersionReceived,
    /// The peer's verack has been received, its version has not.
    VerackReceived,
    /// The peer's version and verack have been received.
    Complete,
}

impl HandshakeState {
    /// The state in which version and verack have been received, or not.
    pub open spec fn of(version: bool, verack: bool) -> HandshakeState {
        if version && verack {
            HandshakeState::Complete
        } else if version {
            HandshakeState::VersionReceived
        } else if verack {
            HandshakeState::VerackReceived
        } else {
            HandshakeState::VersionSent
        }
    }

    /// Whether the peer's version has been received.
    pub open spec fn has_version(self) -> bool {
        self is VersionReceived || self is Complete
    }

    /// Whether the peer's verack has been received.
    pub open spec fn has_verack(self) -> bool {
        self is VerackReceived || self is Complete
    }

    /// The services that the peer advertises, once its version has been received.
    pub open spec fn peer_services(self, connection: ConnectionView) -> Option<ServiceFlags> {
        match (self.has_version(), connection.peer.services) {
            (true, PeerServices::Known(flags)) => Some(flags),
            _ => None,
        }
    }
}

/// The state once a verack has been received. A second verack changes nothing.
pub fn handle_verack_message(state: HandshakeState) -> (r: HandshakeState)
    ensures
        r == HandshakeState::of(state.has_version(), true),
{
    match state {
        HandshakeState::VersionSent => HandshakeState::VerackReceived,
        HandshakeState::VersionReceived => HandshakeState::Complete,
        _ => state,
    }
}

/// The octets that stand for an address in a version message: those of an IP address, and the
/// unspecified IPv6 address for any other.
pub open spec fn version_octets(address: AddrV2View) -> Seq<u8> {
    match address.ip() {
        Some(octets) => octets,
        None => Seq::new(16, |i: int| 0u8),
    }
}

/// The socket address that stands for an address in a version message.
pub fn address_to_socket(address: &AddrV2, port: u16) -> (r: SocketAddr)
    ensures
        r.ip.octets() == version_octets(address@),
        r.port == port,
{
    match address.ip() {
        Some(ip) => SocketAddr { ip, port },
        None => {
            let octets: [u8; 16] = [0u8; 16];
            assert(octets@ =~= Seq::new(16, |i: int| 0u8));
            SocketAddr { ip: IpAddr::V6(octets), port }
        },
    }
}

/// What messages stand for.
pub open spec fn message_views(messages: Seq<NetworkMessage>) -> Seq<NetworkMessageView> {
    messages.map_values(|message: NetworkMessage| message@)
}

/// What is known of a connection: how it is to be made, the peer, and what has been negotiated.
#[derive(Debug)]
pub struct Connection {
    /// How the connection is to be made.
    pub configuration: ConnectionConfiguration,
    /// The peer.
    pub peer: Peer,
    /// What has been negotiated.
    pub state: ConnectionState,
}

/// What a `Connection` stands for.
#[verifier::ext_equal]
pub struct ConnectionView {
    /// How the connection is to be made.
    pub configuration: ConfigurationView,
    /// The peer.
    pub peer: PeerView,
    /// What has been negotiated.
    pub state: ConnectionState,
}

impl View for Connection {
    type V = ConnectionView;

    open spec fn view(&self) -> ConnectionView {
        ConnectionView {
            configuration: self.configuration@,
            peer: self.peer@,
            state: self.state,
        }
    }
}

/// The features that are to be asked for at a protocol version, in this order: `sendaddrv2`,
/// `sendheaders`, `wtxidrelay`.
pub open spec fn negotiation(features: FeaturePreferences, version: u32) -> Seq<
    NetworkMessageView,
> {
    (if features.enable_addrv2 && version >= ADDRV2_MIN_PROTOCOL_VERSION {
        seq![NetworkMessageView::SendAddrV2]
    } else {
        Seq::empty()
    }) + (if features.enable_sendheaders && version >= SENDHEADERS_MIN_PROTOCOL_VERSION {
        seq![NetworkMessageView::SendHeaders]
    } else {
        Seq::empty()
    }) + (if features.enable_wtxidrelay && version >= WTXID_RELAY_MIN_PROTOCOL_VERSION {
        seq![NetworkMessageView::WtxidRelay]
    } else {
        Seq::empty()
    })
}

impl ConnectionView {
    /// The protocol version of this node.
    pub open spec fn local_version(self) -> u32 {
        self.configuration.protocol_version.or(MIN_PROTOCOL_VERSION)
    }

    /// The protocol version of the connection with a peer of some version: the lower of the two.
    pub open spec fn effective_version(self, peer_version: u32) -> u32 {
        if self.local_version() <= peer_version {
            self.local_version()
        } else {
            peer_version
        }
    }

    /// The version message of this node.
    pub open spec fn version_message(self, nonce: u64, timestamp: i64) -> VersionView {
        VersionView {
            version: self.local_version(),
            services: self.configuration.services,
            timestamp,
            receiver: AddressView {
                services: match self.peer.services {
                    PeerServices::Known(flags) => flags,
                    PeerServices::Unknown => ServiceFlags { bits: 0 },
                },
                address: ip_words(version_octets(self.peer.address)),
                port: self.peer.port,
            },
            sender: AddressView {
                services: self.configuration.services,
                address: ip_words(version_octets(self.configuration.sender_address)),
                port: self.configuration.sender_port,
            },
            nonce,
            user_agent: match self.configuration.user_agent {
                Some(user_agent) => user_agent,
                None => formatted(PACKAGE_NAME@, PACKAGE_VERSION@),
            },
            start_height: self.configuration.start_height,
            relay: self.configuration.relay,
        }
    }

    /// The connection once the peer has introduced itself.
    pub open spec fn introduced(self, version: VersionView) -> ConnectionView {
        ConnectionView {
            peer: PeerView {
                services: PeerServices::Known(version.services),
                version: PeerProtocolVersion::Known(version.version),
                ..self.peer
            },
            state: ConnectionState {
                effective_protocol_version: PeerProtocolVersion::Known(
                    self.effective_version(version.version),
                ),
                ..self.state
            },
            ..self
        }
    }

    /// The answer to a peer's introduction: the features that are to be asked for, and a verack.
    pub open spec fn answer(self, version: VersionView) -> Seq<NetworkMessageView> {
        negotiation(
            self.configuration.feature_preferences,
            self.effective_version(version.version),
        ).push(NetworkMessageView::Verack)
    }

    /// The connection after a message from the peer.
    pub open spec fn after_received(self, message: NetworkMessageView) -> ConnectionView {
        ConnectionView { state: self.state.after_received(message), ..self }
    }
}

impl Connection {
    /// A connection to a peer, with nothing negotiated.
    pub fn new(peer: Peer, configuration: ConnectionConfiguration) -> (r: Connection)
        ensures
            r@ == (ConnectionView {
                configuration: configuration@,
                peer: peer@,
                state: initial_state(),
            }),
    {
        Connection { configuration, peer, state: ConnectionState::new() }
    }

    /// Takes note of a message from the peer.
    pub fn on_received(&mut self, message: &NetworkMessage)
        ensures
            final(self)@ == old(self)@.after_received(message@),
    {
        self.state.on_received(message);
    }

    /// Takes note of a message of the handshake that has gone out to the peer.
    pub fn on_sent(&mut self, message: &NetworkMessage)
        ensures
            final(self)@ == (ConnectionView {
                state: old(self)@.state.after_sent(message@),
                ..old(self)@
            }),
    {
        self.state.on_sent(message);
    }

    /// The version message of this node.
    pub fn create_version_message(&self, nonce: u64, timestamp: i64) -> (r: NetworkMessage)
        ensures
            r@ == NetworkMessageView::Version(self@.version_message(nonce, timestamp)),
    {
        let receiver_services = match self.peer.services {
            PeerServices::Known(flags) => flags,
            PeerServices::Unknown => ServiceFlags::none(),
        };
        let receiver = address_to_socket(&self.peer.address, self.peer.port);
        let sender = address_to_socket(
            &self.configuration.sender_address,
            self.configuration.sender_port,
        );
        let user_agent = match &self.configuration.user_agent {
            Some(user_agent) => user_agent.to_string(),
            None => default_user_agent().to_string(),
        };
        NetworkMessage::Version(
            VersionMessage {
                version: self.configuration.protocol_version.unwrap_or(MIN_PROTOCOL_VERSION),
                services: self.configuration.services,
                timestamp,
                receiver: Address::new(&receiver, receiver_services),
                sender: Address::new(&sender, self.configuration.services),
                nonce,
                user_agent,
                start_height: self.configuration.start_height,
                relay: self.configuration.relay,
            },
        )
    }

    /// The features to ask for at a protocol version.
    pub fn negotiation_messages(&self, effective_version: u32) -> (r: Vec<NetworkMessage>)
        ensures
            message_views(r@) == negotiation(
                self@.configuration.feature_preferences,
                effective_version,
            ),
    {
        let features = self.configuration.feature_preferences;
        let mut messages: Vec<NetworkMessage> = Vec::new();
        if features.enable_addrv2 && effective_version >= ADDRV2_MIN_PROTOCOL_VERSION {
            messages.push(NetworkMessage::SendAddrV2);
        }
        if features.enable_sendheaders && effective_version >= SENDHEADERS_MIN_PROTOCOL_VERSION {
            messages.push(NetworkMessage::SendHeaders);
        }
        if features.enable_wtxidrelay && effective_version >= WTXID_RELAY_MIN_PROTOCOL_VERSION {
            messages.push(NetworkMessage::WtxidRelay);
        }
        assert(message_views(messages@) =~= negotiation(features, effective_version));
        messages
    }

    /// Handles a version message from the peer: refuses one of this node's own, takes note of the
    /// first other one, and ignores those that follow. Gives the state of the handshake, and what
    /// is to be sent.
    pub fn handle_version_message(
        &mut self,
        version: &VersionMessage,
        our_nonce: u64,
        state: HandshakeState,
    ) -> (r: Result<(HandshakeState, Vec<NetworkMessage>), ConnectionError>)
        ensures
            if version@.nonce == our_nonce {
                &&& r matches Err(error) && error == ConnectionError::ConnectionLoop
                &&& final(self)@ == old(self)@
            } else if state.has_version() {
                &&& r matches Ok((next, messages)) && next == state && messages@.len() == 0
                &&& final(self)@ == old(self)@
            } else {
                &&& r matches Ok((next, messages)) && next == HandshakeState::of(
                    true,
                    state.has_verack(),
                ) && message_views(messages@) == old(self)@.answer(version@)
                &&& final(self)@ == old(self)@.introduced(version@)
            },
            version.nonce != our_nonce && (state is VersionSent || state is VerackReceived) ==> {
                &&& final(self).peer.version == PeerProtocolVersion::Known(version.version)
                &&& final(self).peer.services == PeerServices::Known(version.services)
                &&& final(self).peer.address@ == old(self).peer.address@
                &&& final(self).peer.port == old(self).peer.port
            },
    {
        if version.nonce == our_nonce {
            return Err(ConnectionError::ConnectionLoop);
        }
        match state {
            HandshakeState::VersionSent | HandshakeState::VerackReceived => {
                self.peer.services = PeerServices::Known(version.services);
                self.peer.version = PeerProtocolVersion::Known(version.version);
                let local_version: u32 = self.configuration.protocol_version.unwrap_or(
                    MIN_PROTOCOL_VERSION,
                );
                let effective_version: u32 = if local_version <= version.version {
                    local_version
                } else {
                    version.version
                };
                self.state.effective_protocol_version = PeerProtocolVersion::Known(
                    effective_version,
                );
                let mut messages = self.negotiation_messages(effective_version);
                let ghost asked = messages@;
                messages.push(NetworkMessage::Verack);
                assert(message_views(messages@) =~= message_views(asked).push(
                    NetworkMessageView::Verack,
                ));
                let next = if state == HandshakeState::VerackReceived {
                    HandshakeState::Complete
                } else {
                    HandshakeState::VersionReceived
                };
                Ok((next, messages))
            },
            _ => Ok((state, Vec::new())),
        }
    }
}

/// A handshake under way.
#[derive(Debug, Clone, Copy)]
pub struct Handshake {
    /// The nonce of this node's version message.
    pub nonce: u64,
    /// How far the handshake has come.
    pub state: HandshakeState,
}

/// What a message from the peer does to a handshake.
#[verifier::ext_equal]
pub struct Reaction {
    /// How far the handshake has come.
    pub state: HandshakeState,
    /// The connection.
    pub connection: ConnectionView,
    /// What is to be sent in answer.
    pub answer: Seq<NetworkMessageView>,
}

/// What a message from the peer does to a handshake. Nothing where the peer turns out to be this
/// node.
pub open spec fn reaction(
    nonce: u64,
    state: HandshakeState,
    connection: ConnectionView,
    message: NetworkMessageView,
) -> Option<Reaction> {
    let connection = connection.after_received(message);
    match message {
        NetworkMessageView::Version(version) => if version.nonce == nonce {
            None
        } else if state.has_version() {
            Some(Reaction { state, connection, answer: Seq::empty() })
        } else {
            Some(
                Reaction {
                    state: HandshakeState::of(true, state.has_verack()),
                    connection: connection.introduced(version),
                    answer: connection.answer(version),
                },
            )
        },
        NetworkMessageView::Verack => Some(
            Reaction {
                state: HandshakeState::of(state.has_version(), true),
                connection,
                answer: Seq::empty(),
            },
        ),
        _ => Some(Reaction { state, connection, answer: Seq::empty() }),
    }
}

impl Handshake {
    /// Begins a handshake. Gives the version message that is to be sent first.
    pub fn begin(connection: &Connection, nonce: u64, timestamp: i64) -> (r: (
        Handshake,
        NetworkMessage,
    ))
        ensures
            r.0 == (Handshake { nonce, state: HandshakeState::VersionSent }),
            r.1@ == NetworkMessageView::Version(connection@.version_message(nonce, timestamp)),
    {
        let message = connection.create_version_message(nonce, timestamp);
        (Handshake { nonce, state: HandshakeState::VersionSent }, message)
    }

    /// Whether the handshake is complete.
    pub fn is_complete(&self) -> (r: bool)
        ensures
            r == (self.state is Complete),
    {
        self.state == HandshakeState::Complete
    }

    /// The services that the peer advertises, once its version has been received. A handshake that
    /// is complete gives them back.
    pub fn peer_services(&self, connection: &Connection) -> (r: Option<ServiceFlags>)
        ensures
            r == self.state.peer_services(connection@),
    {
        match self.state {
            HandshakeState::VersionReceived | HandshakeState::Complete => {
                match connection.peer.services {
                    PeerServices::Known(flags) => Some(flags),
                    PeerServices::Unknown => None,
                }
            },
            _ => None,
        }
    }

    /// Handles a message from the peer. Gives what is to be sent in answer, in this order; fails
    /// where the peer turns out to be this node.
    pub fn on_message(
        &mut self,
        connection: &mut Connection,
        message: &NetworkMessage,
    ) -> (r: Result<Vec<NetworkMessage>, ConnectionError>)
        ensures
            final(self).nonce == old(self).nonce,
            match reaction(old(self).nonce, old(self).state, old(connection)@, message@) {
                Some(after) => {
                    &&& r matches Ok(messages) && message_views(messages@) == after.answer
                    &&& final(self).state == after.state
                    &&& final(connection)@ == after.connection
                },
                None => {
                    &&& r matches Err(error) && error == ConnectionError::ConnectionLoop
                    &&& final(self).state == old(self).state
                    &&& final(connection)@ == old(connection)@.after_received(message@)
                },
            },
            final(connection).peer.address@ == old(connection).peer.address@,
            final(connection).peer.port == old(connection).peer.port,
            match message {
                NetworkMessage::Version(version) => if version.nonce == old(self).nonce {
                    r matches Err(error) && error is ConnectionLoop
                } else {
                    &&& r is Ok
                    &&& old(self).state is VersionSent || old(self).state is VerackReceived ==> {
                        &&& final(connection).peer.version == PeerProtocolVersion::Known(
                            version.version,
                        )
                        &&& final(connection).peer.services == PeerServices::Known(version.services)
                        &&& final(self).state == (if old(self).state is VersionSent {
                            HandshakeState::VersionReceived
                        } else {
                            HandshakeState::Complete
                        })
                    }
                    &&& old(self).state is VersionReceived || old(self).state is Complete ==> {
                        &&& final(self).state == old(self).state
                        &&& final(connection)@ == old(connection)@
                        &&& r matches Ok(messages) && messages@.len() == 0
                    }
                },
                _ => {
                    &&& r matches Ok(messages) && messages@.len() == 0
                    &&& final(connection).peer@ == old(connection).peer@
                    &&& final(connection).state.effective_protocol_version == old(
                        connection,
                    ).state.effective_protocol_version
                    &&& !(message is Verack) ==> final(self).state == old(self).state
                    &&& message is Verack ==> final(self).state == (match old(self).state {
                        HandshakeState::VersionSent => HandshakeState::VerackReceived,
                        HandshakeState::VersionReceived => HandshakeState::Complete,
                        same => same,
                    })
                },
            },
    {
        connection.on_received(message);
        assert(message_views(Seq::empty()) =~= Seq::<NetworkMessageView>::empty());
        match message {
            NetworkMessage::Version(version) => {
                match connection.handle_version_message(version, self.nonce, self.state) {
                    Ok((next, messages)) => {
                        self.state = next;
                        proof {
                            if messages@.len() == 0 {
                                assert(messages@ =~= Seq::<NetworkMessage>::empty());
                            }
                        }
                        Ok(messages)
                    },
                    Err(error) => Err(error),
                }
            },
            NetworkMessage::Verack => {
                self.state = handle_verack_message(self.state);
                Ok(Vec::new())
            },
            _ => Ok(Vec::new()),
        }
    }
}

/// The state of a connection after messages of the handshake have gone out to the peer.
pub open spec fn after_sent_all(
    state: ConnectionState,
    messages: Seq<NetworkMessageView>,
) -> ConnectionState
    decreases messages.len(),
{
    if messages.len() == 0 {
        state
    } else {
        after_sent_all(state, messages.drop_last()).after_sent(messages.last())
    }
}

/// What a handshake has come to once messages from the peer have been handled one after the other,
/// each answer being sent before the next message; the answers are put together. Nothing where the
/// peer turns out to be this node.
pub open spec fn run(
    nonce: u64,
    connection: ConnectionView,
    messages: Seq<NetworkMessageView>,
) -> Option<Reaction>
    decreases messages.len(),
{
    if messages.len() == 0 {
        Some(Reaction { state: HandshakeState::VersionSent, connection, answer: Seq::empty() })
    } else {
        match run(nonce, connection, messages.drop_last()) {
            None => None,
            Some(before) => match reaction(
                nonce,
                before.state,
                before.connection,
                messages.last(),
            ) {
                None => None,
                Some(after) => Some(
                    Reaction {
                        state: after.state,
                        connection: ConnectionView {
                            state: after_sent_all(after.connection.state, after.answer),
                            ..after.connection
                        },
                        answer: before.answer + after.answer,
                    },
                ),
            },
        }
    }
}

/// Whether a message is this node's own version message.
pub open spec fn is_own(nonce: u64, message: NetworkMessageView) -> bool {
    message matches NetworkMessageView::Version(version) && version.nonce == nonce
}

/// The first version message among messages.
pub open spec fn first_version(messages: Seq<NetworkMessageView>) -> Option<VersionView>
    decreases messages.len(),
{
    if messages.len() == 0 {
        None
    } else {
        match first_version(messages.drop_last()) {
            Some(version) => Some(version),
            None => match messages.last() {
                NetworkMessageView::Version(version) => Some(version),
                _ => None,
            },
        }
    }
}

/// The answer to messages from the peer.
pub open spec fn answer_to(
    connection: ConnectionView,
    messages: Seq<NetworkMessageView>,
) -> Seq<NetworkMessageView> {
    match first_version(messages) {
        Some(version) => connection.answer(version),
        None => Seq::empty(),
    }
}

/// A connection once messages from the peer have been handled: the peer is known by its first
/// version message, and each feature by who has asked for it.
pub open spec fn connection_after(
    connection: ConnectionView,
    messages: Seq<NetworkMessageView>,
) -> ConnectionView {
    let answer = answer_to(connection, messages);
    let met = match first_version(messages) {
        Some(version) => connection.introduced(version),
        None => connection,
    };
    ConnectionView {
        state: ConnectionState {
            addr_v2: AddrV2State::of(
                answer.contains(NetworkMessageView::SendAddrV2),
                messages.contains(NetworkMessageView::SendAddrV2),
            ),
            send_headers: SendHeadersState::of(
                answer.contains(NetworkMessageView::SendHeaders),
                messages.contains(NetworkMessageView::SendHeaders),
            ),
            wtxid_relay: WtxidRelayState::of(
                answer.contains(NetworkMessageView::WtxidRelay),
                messages.contains(NetworkMessageView::WtxidRelay),
            ),
            ..met.state
        },
        ..met
    }
}

/// What a sequence contains, by its last element.
proof fn lemma_contains_last(messages: Seq<NetworkMessageView>, message: NetworkMessageView)
    requires
        messages.len() > 0,
    ensures
        messages.contains(message) <==> messages.drop_last().contains(message) || messages.last()
            == message,
{
    let rest = messages.drop_last();
    if messages.contains(message) {
        let i = choose|i: int| 0 <= i < messages.len() && messages[i] == message;
        if i < rest.len() {
            assert(rest[i] == message);
        }
    }
    if rest.contains(message) {
        let i = choose|i: int| 0 <= i < rest.len() && rest[i] == message;
        assert(messages[i] == message);
    }
    if messages.last() == message {
        assert(messages[messages.len() - 1] == message);
    }
}

/// What an answer asks for, and the state of the connection once it has been sent.
proof fn lemma_answer(connection: ConnectionView, version: VersionView, state: ConnectionState)
    ensures
        ({
            let features = connection.configuration.feature_preferences;
            let effective = connection.effective_version(version.version);
            let answer = connection.answer(version);
            let addr_v2 = features.enable_addrv2 && effective >= ADDRV2_MIN_PROTOCOL_VERSION;
            let headers = features.enable_sendheaders && effective
                >= SENDHEADERS_MIN_PROTOCOL_VERSION;
            let wtxid = features.enable_wtxidrelay && effective
                >= WTXID_RELAY_MIN_PROTOCOL_VERSION;
            &&& answer.contains(NetworkMessageView::SendAddrV2) <==> addr_v2
            &&& answer.contains(NetworkMessageView::SendHeaders) <==> headers
            &&& answer.contains(NetworkMessageView::WtxidRelay) <==> wtxid
            &&& after_sent_all(state, answer) == (ConnectionState {
                addr_v2: AddrV2State::of(
                    addr_v2 || state.addr_v2.sent(),
                    state.addr_v2.received(),
                ),
                send_headers: SendHeadersState::of(
                    headers || state.send_headers.sent(),
                    state.send_headers.received(),
                ),
                wtxid_relay: WtxidRelayState::of(
                    wtxid || state.wtxid_relay.sent(),
                    state.wtxid_relay.received(),
                ),
                ..state
            })
        }),
{
    let features = connection.configuration.feature_preferences;
    let effective = connection.effective_version(version.version);
    let answer = connection.answer(version);
    let s0: Seq<NetworkMessageView> = Seq::empty();
    let s1 = if features.enable_addrv2 && effective >= ADDRV2_MIN_PROTOCOL_VERSION {
        s0.push(NetworkMessageView::SendAddrV2)
    } else {
        s0
    };
    let s2 = if features.enable_sendheaders && effective >= SENDHEADERS_MIN_PROTOCOL_VERSION {
        s1.push(NetworkMessageView::SendHeaders)
    } else {
        s1
    };
    let s3 = if features.enable_wtxidrelay && effective >= WTXID_RELAY_MIN_PROTOCOL_VERSION {
        s2.push(NetworkMessageView::WtxidRelay)
    } else {
        s2
    };
    let s4 = s3.push(NetworkMessageView::Verack);
    assert(s4 =~= answer);
    lemma_sent_push(state, s0, NetworkMessageView::SendAddrV2);
    lemma_sent_push(state, s1, NetworkMessageView::SendHeaders);
    lemma_sent_push(state, s2, NetworkMessageView::WtxidRelay);
    lemma_sent_push(state, s3, NetworkMessageView::Verack);
    assert(after_sent_all(state, s0) == state);
}

/// What one more message that goes out does.
proof fn lemma_sent_push(
    state: ConnectionState,
    messages: Seq<NetworkMessageView>,
    message: NetworkMessageView,
)
    ensures
        after_sent_all(state, messages.push(message)) == after_sent_all(state, messages).after_sent(
            message,
        ),
        forall|other: NetworkMessageView| #[trigger]
            messages.push(message).contains(other) <==> messages.contains(other) || other
                == message,
{
    assert(messages.push(message).drop_last() =~= messages);
    assert forall|other: NetworkMessageView| #[trigger]
        messages.push(message).contains(other) <==> messages.contains(other) || other
            == message by {
        lemma_contains_last(messages.push(message), other);
    }
}

/// A handshake finds out that the peer is this node exactly when one of the peer's messages is this
/// node's own version message. Else it comes to this: it is complete once a version and a verack
/// have been received, in any order; the first version message is answered, with one verack at the
/// end, and no other message is; the connection is that of `connection_after`; and the handshake
/// gives back the services of the first version message, which are those that the peer is known by.
/// So it does whenever it is complete.
pub proof fn law_handshake(
    nonce: u64,
    connection: ConnectionView,
    messages: Seq<NetworkMessageView>,
)
    requires
        connection.state == initial_state(),
    ensures
        run(nonce, connection, messages) is None <==> exists|i: int|
            0 <= i < messages.len() && is_own(nonce, #[trigger] messages[i]),
        run(nonce, connection, messages) is Some ==> run(nonce, connection, messages) == Some(
            Reaction {
                state: HandshakeState::of(
                    first_version(messages) is Some,
                    messages.contains(NetworkMessageView::Verack),
                ),
                connection: connection_after(connection, messages),
                answer: answer_to(connection, messages),
            },
        ),
        run(nonce, connection, messages) matches Some(end) ==> {
            &&& match first_version(messages) {
                Some(version) => {
                    &&& end.connection.peer.services == PeerServices::Known(version.services)
                    &&& end.state.peer_services(end.connection) == Some(version.services)
                },
                None => end.state.peer_services(end.connection) is None,
            }
            &&& end.state is Complete ==> first_version(messages) is Some
        },
    decreases messages.len(),
{
    if messages.len() == 0 {
        assert(connection_after(connection, messages) =~= connection);
    } else {
        let rest = messages.drop_last();
        let last = messages.last();
        law_handshake(nonce, connection, rest);
        lemma_contains_last(messages, NetworkMessageView::Verack);
        lemma_contains_last(messages, NetworkMessageView::SendAddrV2);
        lemma_contains_last(messages, NetworkMessageView::SendHeaders);
        lemma_contains_last(messages, NetworkMessageView::WtxidRelay);
        assert(forall|i: int| 0 <= i < rest.len() ==> messages[i] == #[trigger] rest[i]);
        if let Some(before) = run(nonce, connection, rest) {
            if is_own(nonce, last) {
                assert(is_own(nonce, messages[messages.len() - 1]));
            } else {
                let now = before.connection.after_received(last);
                if let NetworkMessageView::Version(version) = last {
                    lemma_answer(connection, version, now.introduced(version).state);
                }
                let after = reaction(nonce, before.state, before.connection, last)->0;
                assert(before.answer + after.answer =~= answer_to(connection, messages));
                assert(run(nonce, connection, messages)->0.connection =~= connection_after(
                    connection,
                    messages,
                ));
            }
        }
        if exists|i: int| 0 <= i < messages.len() && is_own(nonce, #[trigger] messages[i]) {
            let i = choose|i: int| 0 <= i < messages.len() && is_own(nonce, #[trigger] messages[i]);
            if i < rest.len() {
                assert(is_own(nonce, rest[i]));
            }
        }
    }
}

/// An answer ends with a verack, and holds no other.
pub proof fn law_answer_ends_with_verack(connection: ConnectionView, version: VersionView)
    ensures
        connection.answer(version).len() > 0,
        forall|i: int|
            0 <= i < connection.answer(version).len() ==> (connection.answer(version)[i]
                == NetworkMessageView::Verack <==> i == connection.answer(version).len() - 1),
{
}

/// A feature is asked for exactly when it is enabled and both sides' protocol versions have it.
pub proof fn law_features_follow_preferences(connection: ConnectionView, version: VersionView)
    ensures
        ({
            let features = connection.configuration.feature_preferences;
            let local = connection.local_version();
            let answer = connection.answer(version);
            &&& answer.contains(NetworkMessageView::SendAddrV2) <==> features.enable_addrv2
                && local >= ADDRV2_MIN_PROTOCOL_VERSION && version.version
                >= ADDRV2_MIN_PROTOCOL_VERSION
            &&& answer.contains(NetworkMessageView::SendHeaders) <==> features.enable_sendheaders
                && local >= SENDHEADERS_MIN_PROTOCOL_VERSION && version.version
                >= SENDHEADERS_MIN_PROTOCOL_VERSION
            &&& answer.contains(NetworkMessageView::WtxidRelay) <==> features.enable_wtxidrelay
                && local >= WTXID_RELAY_MIN_PROTOCOL_VERSION && version.version
                >= WTXID_RELAY_MIN_PROTOCOL_VERSION
        }),
{
    lemma_answer(connection, version, connection.state);
}

/// What a node receives from a peer that handshakes as this software does: the peer's version, the
/// features that it asks for, and its verack.
pub open spec fn peer_messages(
    peer: ConnectionView,
    peer_version: VersionView,
    own_version: VersionView,
) -> Seq<NetworkMessageView> {
    seq![NetworkMessageView::Version(peer_version)] + peer.answer(own_version)
}

/// What a sequence contains with one more element before it.
proof fn lemma_contains_after(
    first: NetworkMessageView,
    rest: Seq<NetworkMessageView>,
    message: NetworkMessageView,
)
    ensures
        (seq![first] + rest).contains(message) <==> first == message || rest.contains(message),
{
    let whole = seq![first] + rest;
    assert(whole[0] == first);
    if rest.contains(message) {
        let i = choose|i: int| 0 <= i < rest.len() && rest[i] == message;
        assert(whole[i + 1] == message);
    }
    if whole.contains(message) {
        let i = choose|i: int| 0 <= i < whole.len() && whole[i] == message;
        if i > 0 {
            assert(rest[i - 1] == message);
        }
    }
}

/// The first version message among messages that start with one.
proof fn lemma_first_version(first: VersionView, rest: Seq<NetworkMessageView>)
    ensures
        first_version(seq![NetworkMessageView::Version(first)] + rest) == Some(first),
    decreases rest.len(),
{
    let whole = seq![NetworkMessageView::Version(first)] + rest;
    if rest.len() == 0 {
        assert(whole.drop_last() =~= Seq::<NetworkMessageView>::empty());
        assert(first_version(whole.drop_last()) is None);
        assert(whole.last() == NetworkMessageView::Version(first));
    } else {
        assert(whole.drop_last() =~= seq![NetworkMessageView::Version(first)] + rest.drop_last());
        lemma_first_version(first, rest.drop_last());
    }
}

/// How the handshake of one of two nodes ends.
proof fn lemma_one_of_two_nodes(
    own: ConnectionView,
    own_nonce: u64,
    own_timestamp: i64,
    peer: ConnectionView,
    peer_nonce: u64,
    peer_timestamp: i64,
)
    requires
        own.state == initial_state(),
        own_nonce != peer_nonce,
    ensures
        ({
            let own_version = own.version_message(own_nonce, own_timestamp);
            let peer_version = peer.version_message(peer_nonce, peer_timestamp);
            let messages = peer_messages(peer, peer_version, own_version);
            run(own_nonce, own, messages) == Some(
                Reaction {
                    state: HandshakeState::Complete,
                    connection: connection_after(own, messages),
                    answer: own.answer(peer_version),
                },
            ) && first_version(messages) == Some(peer_version)
        }),
{
    let own_version = own.version_message(own_nonce, own_timestamp);
    let peer_version = peer.version_message(peer_nonce, peer_timestamp);
    let answer = peer.answer(own_version);
    let first = NetworkMessageView::Version(peer_version);
    let messages = peer_messages(peer, peer_version, own_version);
    law_handshake(own_nonce, own, messages);
    lemma_first_version(peer_version, answer);
    lemma_contains_after(first, answer, NetworkMessageView::Verack);
    assert(answer[answer.len() - 1] == NetworkMessageView::Verack);
    assert forall|i: int| 0 <= i < messages.len() implies !is_own(
        own_nonce,
        #[trigger] messages[i],
    ) by {
        if i > 0 {
            assert(messages[i] == answer[i - 1]);
        }
    }
}

/// Two nodes of this software that handshake with each other both complete the handshake, settle on
/// the same protocol version, and agree on every feature: it is enabled on one side exactly when it
/// is on the other.
pub proof fn law_two_nodes_agree(
    a: ConnectionView,
    a_nonce: u64,
    a_timestamp: i64,
    b: ConnectionView,
    b_nonce: u64,
    b_timestamp: i64,
)
    requires
        a.state == initial_state(),
        b.state == initial_state(),
        a_nonce != b_nonce,
    ensures
        ({
            let a_version = a.version_message(a_nonce, a_timestamp);
            let b_version = b.version_message(b_nonce, b_timestamp);
            let at_a = run(a_nonce, a, peer_messages(b, b_version, a_version));
            let at_b = run(b_nonce, b, peer_messages(a, a_version, b_version));
            &&& at_a is Some && at_a->0.state is Complete && at_a->0.answer == a.answer(b_version)
            &&& at_b is Some && at_b->0.state is Complete && at_b->0.answer == b.answer(a_version)
            &&& at_a->0.connection.state.effective_protocol_version
                == at_b->0.connection.state.effective_protocol_version
            &&& at_a->0.connection.state.addr_v2 is Enabled
                <==> at_b->0.connection.state.addr_v2 is Enabled
            &&& at_a->0.connection.state.send_headers is Enabled
                <==> at_b->0.connection.state.send_headers is Enabled
            &&& at_a->0.connection.state.wtxid_relay is Enabled
                <==> at_b->0.connection.state.wtxid_relay is Enabled
        }),
{
    let a_version = a.version_message(a_nonce, a_timestamp);
    let b_version = b.version_message(b_nonce, b_timestamp);
    lemma_one_of_two_nodes(a, a_nonce, a_timestamp, b, b_nonce, b_timestamp);
    lemma_one_of_two_nodes(b, b_nonce, b_timestamp, a, a_nonce, a_timestamp);
    let from_a = NetworkMessageView::Version(a_version);
    let from_b = NetworkMessageView::Version(b_version);
    lemma_contains_after(from_b, b.answer(a_version), NetworkMessageView::SendAddrV2);
    lemma_contains_after(from_b, b.answer(a_version), NetworkMessageView::SendHeaders);
    lemma_contains_after(from_b, b.answer(a_version), NetworkMessageView::WtxidRelay);
    lemma_contains_after(from_a, a.answer(b_version), NetworkMessageView::SendAddrV2);
    lemma_contains_after(from_a, a.answer(b_version), NetworkMessageView::SendHeaders);
    lemma_contains_after(from_a, a.answer(b_version), NetworkMessageView::WtxidRelay);
}

/// After any run of the handshake in which a version message was received, whatever came before and
/// after it, the peer is known by the first one: by the version and the services that it holds,
/// while its address and port stay what they were. The protocol version of the connection is the
/// lower of the two sides' versions. A feature is asked for exactly when it is enabled and that
/// version has it, and is enabled exactly when the peer asks for it too. The handshake is complete
/// exactly when a verack was received as well.
pub proof fn law_handshake_learns_what_the_peer_has_sent(
    nonce: u64,
    connection: ConnectionView,
    messages: Seq<NetworkMessageView>,
    first: int,
    version: VersionView,
)
    requires
        connection.state.effective_protocol_version is Unknown,
        connection.state.addr_v2 is NotNegotiated,
        connection.state.send_headers is NotNegotiated,
        connection.state.wtxid_relay is NotNegotiated,
        0 <= first < messages.len(),
        messages[first] == NetworkMessageView::Version(version),
        forall|i: int| 0 <= i < first ==> !(#[trigger] messages[i] is Version),
        forall|i: int|
            0 <= i < messages.len() ==> (#[trigger] messages[i] matches NetworkMessageView::Version(
                other,
            ) ==> other.nonce != nonce),
    ensures
        run(nonce, connection, messages) is Some,
        ({
            let end = run(nonce, connection, messages)->0;
            let local = match connection.configuration.protocol_version {
                PeerProtocolVersion::Known(number) => number,
                PeerProtocolVersion::Unknown => 70001u32,
            };
            let lower = if local < version.version {
                local
            } else {
                version.version
            };
            let features = connection.configuration.feature_preferences;
            let settled = end.connection.state;
            let answer = end.answer;
            &&& end.connection.peer.version == PeerProtocolVersion::Known(version.version)
            &&& end.connection.peer.services == PeerServices::Known(version.services)
            &&& end.connection.peer.address == connection.peer.address
            &&& end.connection.peer.port == connection.peer.port
            &&& end.connection.configuration == connection.configuration
            &&& settled.effective_protocol_version == PeerProtocolVersion::Known(lower)
            &&& end.state is Complete <==> messages.contains(NetworkMessageView::Verack)
            &&& end.state is VersionReceived <==> !messages.contains(NetworkMessageView::Verack)
            &&& answer.contains(NetworkMessageView::SendAddrV2) <==> features.enable_addrv2
                && lower >= 70016
            &&& settled.addr_v2 is Enabled <==> features.enable_addrv2 && lower >= 70016
                && messages.contains(NetworkMessageView::SendAddrV2)
            &&& settled.addr_v2 is SentOnly <==> features.enable_addrv2 && lower >= 70016
                && !messages.contains(NetworkMessageView::SendAddrV2)
            &&& settled.addr_v2 is ReceivedOnly <==> !(features.enable_addrv2 && lower >= 70016)
                && messages.contains(NetworkMessageView::SendAddrV2)
            &&& answer.contains(NetworkMessageView::SendHeaders) <==> features.enable_sendheaders
                && lower >= 70012
            &&& settled.send_headers is Enabled <==> features.enable_sendheaders && lower >= 70012
                && messages.contains(NetworkMessageView::SendHeaders)
            &&& settled.send_headers is SentOnly <==> features.enable_sendheaders && lower >= 70012
                && !messages.contains(NetworkMessageView::SendHeaders)
            &&& settled.send_headers is ReceivedOnly <==> !(features.enable_sendheaders
                && lower >= 70012) && messages.contains(NetworkMessageView::SendHeaders)
            &&& answer.contains(NetworkMessageView::WtxidRelay) <==> features.enable_wtxidrelay
                && lower >= 70016
            &&& settled.wtxid_relay is Enabled <==> features.enable_wtxidrelay && lower >= 70016
                && messages.contains(NetworkMessageView::WtxidRelay)
            &&& settled.wtxid_relay is SentOnly <==> features.enable_wtxidrelay && lower >= 70016
                && !messages.contains(NetworkMessageView::WtxidRelay)
            &&& settled.wtxid_relay is ReceivedOnly <==> !(features.enable_wtxidrelay
                && lower >= 70016) && messages.contains(NetworkMessageView::WtxidRelay)
        }),
{
    lemma_first_version_at(messages, first, version);
    law_handshake(nonce, connection, messages);
    lemma_answer(connection, version, connection.state);
    assert forall|i: int| 0 <= i < messages.len() implies !is_own(
        nonce,
        #[trigger] messages[i],
    ) by {}
}

/// As long as no version message was received, nothing is sent in answer, nothing is learned of the
/// peer, and no feature is enabled; a verack is taken note of.
pub proof fn law_handshake_waits_for_the_version(
    nonce: u64,
    connection: ConnectionView,
    messages: Seq<NetworkMessageView>,
)
    requires
        connection.state == initial_state(),
        forall|i: int| 0 <= i < messages.len() ==> !(#[trigger] messages[i] is Version),
    ensures
        run(nonce, connection, messages) is Some,
        ({
            let end = run(nonce, connection, messages)->0;
            let settled = end.connection.state;
            &&& end.answer.len() == 0
            &&& end.connection.peer == connection.peer
            &&& end.connection.configuration == connection.configuration
            &&& settled.effective_protocol_version is Unknown
            &&& end.state is VerackReceived <==> messages.contains(NetworkMessageView::Verack)
            &&& end.state is VersionSent <==> !messages.contains(NetworkMessageView::Verack)
            &&& settled.addr_v2 is ReceivedOnly || settled.addr_v2 is NotNegotiated
            &&& settled.addr_v2 is ReceivedOnly <==> messages.contains(
                NetworkMessageView::SendAddrV2,
            )
            &&& settled.send_headers is ReceivedOnly || settled.send_headers is NotNegotiated
            &&& settled.send_headers is ReceivedOnly <==> messages.contains(
                NetworkMessageView::SendHeaders,
            )
            &&& settled.wtxid_relay is ReceivedOnly || settled.wtxid_relay is NotNegotiated
            &&& settled.wtxid_relay is ReceivedOnly <==> messages.contains(
                NetworkMessageView::WtxidRelay,
            )
        }),
{
    lemma_no_version(messages);
    law_handshake(nonce, connection, messages);
    assert forall|i: int| 0 <= i < messages.len() implies !is_own(
        nonce,
        #[trigger] messages[i],
    ) by {}
    assert forall|message: NetworkMessageView| !answer_to(connection, messages).contains(
        message,
    ) by {}
}

/// A run of the handshake fails exactly when a version message with this node's own nonce was
/// received.
pub proof fn law_connections_to_oneself_are_found_out(
    nonce: u64,
    connection: ConnectionView,
    messages: Seq<NetworkMessageView>,
)
    requires
        connection.state == initial_state(),
    ensures
        run(nonce, connection, messages) is None <==> exists|i: int|
            0 <= i < messages.len() && (#[trigger] messages[i] matches NetworkMessageView::Version(
                version,
            ) && version.nonce == nonce),
{
    law_handshake(nonce, connection, messages);
    if exists|i: int| 0 <= i < messages.len() && is_own(nonce, #[trigger] messages[i]) {
        let i = choose|i: int| 0 <= i < messages.len() && is_own(nonce, #[trigger] messages[i]);
        assert(messages[i] matches NetworkMessageView::Version(version) && version.nonce == nonce);
    }
    if exists|i: int|
        0 <= i < messages.len() && (#[trigger] messages[i] matches NetworkMessageView::Version(
            version,
        ) && version.nonce == nonce) {
        let i = choose|i: int|
            0 <= i < messages.len() && (#[trigger] messages[i] matches NetworkMessageView::Version(
                version,
            ) && version.nonce == nonce);
        assert(is_own(nonce, messages[i]));
    }
}

/// An answer asks for features before its verack, each at most once, and in this order:
/// `sendaddrv2`, `sendheaders`, `wtxidrelay`. It holds nothing else.
pub proof fn law_answers_are_in_order(connection: ConnectionView, version: VersionView)
    ensures
        ({
            let answer = connection.answer(version);
            &&& answer.len() > 0
            &&& answer[answer.len() - 1] == NetworkMessageView::Verack
            &&& forall|i: int|
                0 <= i < answer.len() ==> {
                    ||| #[trigger] answer[i] == NetworkMessageView::SendAddrV2
                    ||| answer[i] == NetworkMessageView::SendHeaders
                    ||| answer[i] == NetworkMessageView::WtxidRelay
                    ||| answer[i] == NetworkMessageView::Verack
                }
            &&& forall|i: int, j: int|
                0 <= i < j < answer.len() ==> {
                    &&& #[trigger] answer[i] != NetworkMessageView::Verack
                    &&& #[trigger] answer[j] != NetworkMessageView::SendAddrV2
                    &&& answer[j] == NetworkMessageView::SendHeaders ==> answer[i]
                        == NetworkMessageView::SendAddrV2
                    &&& answer[i] == NetworkMessageView::WtxidRelay ==> answer[j]
                        == NetworkMessageView::Verack
                }
        }),
{
}

/// The words that stand for an address in a version message: those of an IP address, two octets to
/// a word, an IPv4 address being mapped into IPv6; all zeros for any other address.
pub open spec fn is_written_as(address: AddrV2, words: Seq<u16>) -> bool {
    match address {
        AddrV2::Ipv4(o) => {
            &&& forall|i: int| 0 <= i < 5 ==> #[trigger] words[i] == 0
            &&& words[5] == 0xFFFF
            &&& words[6] == o@[0] * 256 + o@[1]
            &&& words[7] == o@[2] * 256 + o@[3]
        },
        AddrV2::Ipv6(o) => forall|i: int|
            0 <= i < 8 ==> #[trigger] words[i] == o@[2 * i] * 256 + o@[2 * i + 1],
        _ => forall|i: int| 0 <= i < 8 ==> #[trigger] words[i] == 0,
    }
}

/// This node introduces itself as what it is configured to be, to the peer as it is known: with the
/// nonce and the time that are given, its own version, services, height, relay and user agent, and
/// the address, port and services of either side.
pub proof fn law_nodes_introduce_themselves_as_configured(
    connection: Connection,
    nonce: u64,
    timestamp: i64,
    r: NetworkMessage,
)
    requires
        call_ensures(Connection::create_version_message, (&connection, nonce, timestamp), r),
    ensures
        r matches NetworkMessage::Version(version) && {
            let own = connection.configuration;
            let peer = connection.peer;
            &&& version.nonce == nonce
            &&& version.timestamp == timestamp
            &&& version.version == (match own.protocol_version {
                PeerProtocolVersion::Known(number) => number,
                PeerProtocolVersion::Unknown => 70001u32,
            })
            &&& version.services == own.services
            &&& version.start_height == own.start_height
            &&& version.relay == own.relay
            &&& version.user_agent@ == (match own.user_agent {
                Some(user_agent) => user_agent@,
                None => "/bitcoin-peers:0.1.0/"@,
            })
            &&& version.receiver.port == peer.port
            &&& version.receiver.services.bits == (match peer.services {
                PeerServices::Known(flags) => flags.bits,
                PeerServices::Unknown => 0u64,
            })
            &&& is_written_as(peer.address, version.receiver.address@)
            &&& version.sender.port == own.sender_port
            &&& version.sender.services == own.services
            &&& is_written_as(own.sender_address, version.sender.address@)
        },
{
    if let NetworkMessage::Version(version) = r {
        let view = connection@.version_message(nonce, timestamp);
        assert(version@ == view);
        assert(version.receiver@.address == view.receiver.address);
        assert(version.sender@.address == view.sender.address);
        lemma_written_as(connection.peer.address, view.receiver.address);
        lemma_written_as(connection.configuration.sender_address, view.sender.address);
        reveal_strlit("/");
        reveal_strlit(":");
        reveal_strlit("bitcoin-peers");
        reveal_strlit("0.1.0");
        reveal_strlit("/bitcoin-peers:0.1.0/");
        assert(formatted(PACKAGE_NAME@, PACKAGE_VERSION@) =~= "/bitcoin-peers:0.1.0/"@);
    }
}

/// The words of an address in a version message are those that stand for it.
proof fn lemma_written_as(address: AddrV2, words: Seq<u16>)
    requires
        words == ip_words(version_octets(address@)),
    ensures
        is_written_as(address, words),
{
}

/// A handshake begins with this node's introduction, and with nothing received.
pub proof fn law_handshakes_begin_with_an_introduction(
    connection: Connection,
    nonce: u64,
    timestamp: i64,
    created: NetworkMessage,
    r: (Handshake, NetworkMessage),
)
    requires
        call_ensures(Connection::create_version_message, (&connection, nonce, timestamp), created),
        call_ensures(Handshake::begin, (&connection, nonce, timestamp), r),
    ensures
        r.0.nonce == nonce,
        r.0.state is VersionSent,
        r.1@ == created@,
        r.1 is Version,
{
}

/// A verack completes a handshake in which the version was received, and is taken note of where it
/// was not; a second one changes nothing.
pub proof fn law_veracks_are_taken_note_of(state: HandshakeState, r: HandshakeState)
    requires
        call_ensures(handle_verack_message, (state,), r),
    ensures
        r is Complete <==> state is VersionReceived || state is Complete,
        r is VerackReceived <==> state is VersionSent || state is VerackReceived,
{
}

/// The nonces of two moments differ in a process, and so do those of two processes at a moment; the
/// low half of a nonce is that of the moment.
pub proof fn law_nonces_tell_moments_and_processes_apart(
    nanos: u128,
    process_id: u32,
    nonce: u64,
    other_nanos: u128,
    other_process_id: u32,
    other_nonce: u64,
)
    requires
        call_ensures(generate_nonce, (nanos, process_id), nonce),
        call_ensures(generate_nonce, (other_nanos, other_process_id), other_nonce),
    ensures
        nonce & 0xFFFF_FFFF == (nanos as u64) & 0xFFFF_FFFF,
        process_id == other_process_id && nanos as u64 != other_nanos as u64 ==> nonce
            != other_nonce,
        nanos as u64 == other_nanos as u64 && process_id != other_process_id ==> nonce
            != other_nonce,
        nonce >> 32 == ((nanos as u64) >> 32) ^ (process_id as u64),
{
    let n = nanos as u64;
    let m = other_nanos as u64;
    let p = process_id;
    let q = other_process_id;
    assert((n ^ ((p as u64) << 32)) & 0xFFFF_FFFF == n & 0xFFFF_FFFF) by (bit_vector);
    assert((n ^ ((p as u64) << 32)) >> 32 == (n >> 32) ^ (p as u64)) by (bit_vector);
    assert(n != m ==> n ^ ((p as u64) << 32) != m ^ ((p as u64) << 32)) by (bit_vector);
    assert(p != q ==> n ^ ((p as u64) << 32) != n ^ ((q as u64) << 32)) by (bit_vector);
}

/// A timestamp is the number of seconds, as long as it fits.
pub proof fn law_timestamps_are_seconds(secs: u64, r: i64)
    requires
        call_ensures(timestamp_from_secs, (secs,), r),
        secs <= i64::MAX,
    ensures
        r == secs,
{
}

/// The first version message is the one at a place before which there is none.
proof fn lemma_first_version_at(
    messages: Seq<NetworkMessageView>,
    first: int,
    version: VersionView,
)
    requires
        0 <= first < messages.len(),
        messages[first] == NetworkMessageView::Version(version),
        forall|i: int| 0 <= i < first ==> !(#[trigger] messages[i] is Version),
    ensures
        first_version(messages) == Some(version),
    decreases messages.len(),
{
    let rest = messages.drop_last();
    if first < rest.len() {
        assert forall|i: int| 0 <= i < first implies !(#[trigger] rest[i] is Version) by {
            assert(rest[i] == messages[i]);
        }
        lemma_first_version_at(rest, first, version);
    } else {
        assert forall|i: int| 0 <= i < rest.len() implies !(#[trigger] rest[i] is Version) by {
            assert(rest[i] == messages[i]);
        }
        lemma_no_version(rest);
    }
}

/// There is no first version message where there is none at all.
proof fn lemma_no_version(messages: Seq<NetworkMessageView>)
    requires
        forall|i: int| 0 <= i < messages.len() ==> !(#[trigger] messages[i] is Version),
    ensures
        first_version(messages) is None,
    decreases messages.len(),
{
    if messages.len() > 0 {
        let rest = messages.drop_last();
        assert forall|i: int| 0 <= i < rest.len() implies !(#[trigger] rest[i] is Version) by {
            assert(rest[i] == messages[i]);
        }
        lemma_no_version(rest);
        assert(messages.last() == messages[messages.len() - 1]);
    }
}

/// A list of messages stands for its messages, in order.
pub proof fn law_lists_of_messages_stand_for_their_messages(messages: Seq<NetworkMessage>)
    ensures
        message_views(messages).len() == messages.len(),
        forall|i: int|
            0 <= i < messages.len() ==> #[trigger] message_views(messages)[i] == messages[i]@,
{
}

/// A connection starts with the peer and the configuration that are given, and with nothing
/// negotiated; it stands for what it holds.
pub proof fn law_connections_start_as_given(
    peer: Peer,
    configuration: ConnectionConfiguration,
    r: Connection,
)
    requires
        call_ensures(Connection::new, (peer, configuration), r),
    ensures
        r.peer@ == peer@,
        r.configuration@ == configuration@,
        r.state.effective_protocol_version is Unknown,
        r.state.addr_v2 is NotNegotiated,
        r.state.send_headers is NotNegotiated,
        r.state.wtxid_relay is NotNegotiated,
        r@.peer == r.peer@ && r@.configuration == r.configuration@ && r@.state == r.state,
{
}

/// What a version message from the peer does. With this node's own nonce it is refused, and nothing
/// changes. The first other one makes known the peer's version and services as the peer sends them,
/// and settles on the lower of the two versions; the peer's address, port and the features that
/// were negotiated stay what they were. It is answered with requests for the features that are
/// enabled and that the version has, and a verack. One that follows changes nothing and is not
/// answered.
pub proof fn law_version_messages_make_the_peer_known(
    connection: &mut Connection,
    version: VersionMessage,
    nonce: u64,
    state: HandshakeState,
    r: Result<(HandshakeState, Vec<NetworkMessage>), ConnectionError>,
)
    requires
        call_ensures(
            Connection::handle_version_message,
            (connection, &version, nonce, state),
            r,
        ),
    ensures
        ({
            let before = *old(connection);
            let after = *final(connection);
            let first = state is VersionSent || state is VerackReceived;
            let local = match before.configuration.protocol_version {
                PeerProtocolVersion::Known(number) => number,
                PeerProtocolVersion::Unknown => 70001u32,
            };
            let lower = if local < version.version {
                local
            } else {
                version.version
            };
            let features = before.configuration.feature_preferences;
            &&& after.configuration@ == before.configuration@
            &&& after.peer.address@ == before.peer.address@
            &&& after.peer.port == before.peer.port
            &&& after.state.addr_v2 == before.state.addr_v2
            &&& after.state.send_headers == before.state.send_headers
            &&& after.state.wtxid_relay == before.state.wtxid_relay
            &&& if version.nonce == nonce {
                &&& r matches Err(error) && error is ConnectionLoop
                &&& after.peer@ == before.peer@
                &&& after.state == before.state
            } else if !first {
                &&& r matches Ok((next, messages)) && next == state && messages@.len() == 0
                &&& after.peer@ == before.peer@
                &&& after.state == before.state
            } else {
                &&& after.peer.version == PeerProtocolVersion::Known(version.version)
                &&& after.peer.services == PeerServices::Known(version.services)
                &&& after.state.effective_protocol_version == PeerProtocolVersion::Known(lower)
                &&& r matches Ok((next, messages)) && {
                    let sent = messages@.map_values(|message: NetworkMessage| message@);
                    &&& next is Complete <==> state is VerackReceived
                    &&& next is VersionReceived <==> state is VersionSent
                    &&& sent.len() > 0 && sent[sent.len() - 1] == NetworkMessageView::Verack
                    &&& sent.contains(NetworkMessageView::SendAddrV2) <==> features.enable_addrv2
                        && lower >= 70016
                    &&& sent.contains(NetworkMessageView::SendHeaders)
                        <==> features.enable_sendheaders && lower >= 70012
                    &&& sent.contains(NetworkMessageView::WtxidRelay)
                        <==> features.enable_wtxidrelay && lower >= 70016
                }
            }
        }),
{
    let before = old(connection)@;
    law_answers_are_in_order(before, version@);
    lemma_answer(before, version@, before.state);
    if let Ok((next, messages)) = r {
        assert(messages@.map_values(|message: NetworkMessage| message@) =~= message_views(
            messages@,
        ));
    }
}

/// The features that are asked for at a protocol version are those that are enabled and that the
/// version has: `sendaddrv2` and `wtxidrelay` from 70016 on, `sendheaders` from 70012 on. Nothing
/// else is asked for.
pub proof fn law_features_are_asked_for_by_version(
    connection: Connection,
    effective: u32,
    r: Vec<NetworkMessage>,
)
    requires
        call_ensures(Connection::negotiation_messages, (&connection, effective), r),
    ensures
        ({
            let features = connection.configuration.feature_preferences;
            let asked = r@.map_values(|message: NetworkMessage| message@);
            let addr_v2 = features.enable_addrv2 && effective >= 70016;
            let headers = features.enable_sendheaders && effective >= 70012;
            let wtxid = features.enable_wtxidrelay && effective >= 70016;
            &&& asked.len() == (if addr_v2 {
                1int
            } else {
                0int
            }) + (if headers {
                1int
            } else {
                0int
            }) + (if wtxid {
                1int
            } else {
                0int
            })
            &&& addr_v2 ==> asked[0] == NetworkMessageView::SendAddrV2
            &&& headers ==> asked[if addr_v2 {
                1int
            } else {
                0int
            }] == NetworkMessageView::SendHeaders
            &&& wtxid ==> asked[asked.len() - 1] == NetworkMessageView::WtxidRelay
        }),
{
    assert(r@.map_values(|message: NetworkMessage| message@) =~= message_views(r@));
}

/// What a message from the peer does to a handshake under way. A version message with this node's
/// own nonce fails it. The first other one makes the peer known and is answered; the next ones do
/// nothing. A verack is taken note of. No other message moves the handshake or is answered. The
/// address and port of the peer never change, and a feature that the peer asks for is taken note
/// of.
pub proof fn law_handshakes_go_on_by_what_the_peer_sends(
    handshake: &mut Handshake,
    connection: &mut Connection,
    message: NetworkMessage,
    r: Result<Vec<NetworkMessage>, ConnectionError>,
)
    requires
        call_ensures(Handshake::on_message, (handshake, connection, &message), r),
    ensures
        ({
            let state = old(handshake).state;
            let next = final(handshake).state;
            let before = *old(connection);
            let after = *final(connection);
            let met = state is VersionReceived || state is Complete;
            &&& final(handshake).nonce == old(handshake).nonce
            &&& after.configuration@ == before.configuration@
            &&& after.peer.address@ == before.peer.address@
            &&& after.peer.port == before.peer.port
            &&& message is SendAddrV2 ==> {
                after.state.addr_v2 is Enabled || after.state.addr_v2 is ReceivedOnly
            }
            &&& message is SendHeaders ==> {
                after.state.send_headers is Enabled || after.state.send_headers is ReceivedOnly
            }
            &&& message is WtxidRelay ==> {
                after.state.wtxid_relay is Enabled || after.state.wtxid_relay is ReceivedOnly
            }
            &&& match message {
                NetworkMessage::Version(version) => if version.nonce == old(handshake).nonce {
                    &&& r matches Err(error) && error is ConnectionLoop
                    &&& after.peer@ == before.peer@
                } else if met {
                    &&& r matches Ok(messages) && messages@.len() == 0
                    &&& next == state
                    &&& after.peer@ == before.peer@
                    &&& after.state == before.state
                } else {
                    &&& r matches Ok(messages) && messages@.len() > 0 && messages@[messages@.len()
                        - 1]@ == NetworkMessageView::Verack
                    &&& next is Complete <==> state is VerackReceived
                    &&& next is VersionReceived <==> state is VersionSent
                    &&& after.peer.version == PeerProtocolVersion::Known(version.version)
                    &&& after.peer.services == PeerServices::Known(version.services)
                },
                NetworkMessage::Verack => {
                    &&& r matches Ok(messages) && messages@.len() == 0
                    &&& next is Complete <==> met
                    &&& next is VerackReceived <==> !met
                    &&& after.peer@ == before.peer@
                    &&& after.state == before.state
                },
                _ => {
                    &&& r matches Ok(messages) && messages@.len() == 0
                    &&& next == state
                    &&& after.peer@ == before.peer@
                },
            }
        }),
{
    if let NetworkMessage::Version(version) = message {
        law_answers_are_in_order(old(connection)@.after_received(message@), version@);
        if let Ok(messages) = r {
            if messages@.len() > 0 {
                assert(message_views(messages@)[messages@.len() - 1] == messages@[messages@.len()
                    - 1]@);
            }
        }
    }
}

/// A handshake gives back the services that the peer is known by, once it has received the peer's
/// version, and none before; it is complete when it says so.
pub proof fn law_handshakes_give_back_services(
    handshake: Handshake,
    connection: Connection,
    services: Option<ServiceFlags>,
    complete: bool,
)
    requires
        call_ensures(Handshake::peer_services, (&handshake, &connection), services),
        call_ensures(Handshake::is_complete, (&handshake,), complete),
    ensures
        complete <==> handshake.state is Complete,
        handshake.state is VersionSent || handshake.state is VerackReceived ==> services is None,
        handshake.state is VersionReceived || handshake.state is Complete ==> {
            &&& services matches Some(flags) ==> connection.peer.services == PeerServices::Known(
                flags,
            )
            &&& services is None ==> connection.peer.services is Unknown
        },
{
}

/// A version message has room for IP addresses, which keep their octets; any other address is
/// written as sixteen zeros. The port is kept.
pub proof fn law_addresses_are_written_as_ip(address: AddrV2, port: u16, r: SocketAddr)
    requires
        call_ensures(address_to_socket, (&address, port), r),
    ensures
        r.port == port,
        match address {
            AddrV2::Ipv4(o) => r.ip matches IpAddr::V4(p) && p@ == o@,
            AddrV2::Ipv6(o) => r.ip matches IpAddr::V6(p) && p@ == o@,
            _ => r.ip matches IpAddr::V6(p) && forall|i: int| 0 <= i < 16 ==> #[trigger] p@[i] == 0,
        },
{
    assert(r.ip.octets().len() == 4 || r.ip.octets().len() == 16);
}

/// A message that was received or sent changes, of a connection, the features that were negotiated
/// and nothing else: they change as those of the state alone do.
pub proof fn law_messages_change_features_alone(
    receiving: &mut Connection,
    sending: &mut Connection,
    message: NetworkMessage,
    received: &mut ConnectionState,
    sent: &mut ConnectionState,
)
    requires
        call_ensures(Connection::on_received, (receiving, &message), ()),
        call_ensures(Connection::on_sent, (sending, &message), ()),
        *old(received) == old(receiving).state,
        *old(sent) == old(sending).state,
        call_ensures(ConnectionState::on_received, (received, &message), ()),
        call_ensures(ConnectionState::on_sent, (sent, &message), ()),
    ensures
        final(receiving).state == *final(received),
        final(sending).state == *final(sent),
        final(receiving).peer@ == old(receiving).peer@,
        final(sending).peer@ == old(sending).peer@,
        final(receiving).configuration@ == old(receiving).configuration@,
        final(sending).configuration@ == old(sending).configuration@,
{
    assert(final(receiving)@.state == final(receiving).state);
    assert(final(sending)@.state == final(sending).state);
    assert(final(receiving)@.peer == final(receiving).peer@);
    assert(final(sending)@.peer == final(sending).peer@);
    assert(final(receiving)@.configuration == final(receiving).configuration@);
    assert(final(sending)@.configuration == final(sending).configuration@);
}

} // verus!
