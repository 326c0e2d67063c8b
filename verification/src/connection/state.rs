//! What has been negotiated on a connection.
//!
//! A connection starts with nothing negotiated and an unknown protocol version. The version
//! handshake settles the protocol version, which is the lower of the two sides' versions, and
//! the sides may ask for features in any order. A feature is enabled once both sides have asked
//! for it.

use crate::message::{NetworkMessage, NetworkMessageView};
use crate::peer::PeerProtocolVersion;
use crate::text::{decimal, decimal_text};
use vstd::prelude::*;

verus! {

/// How far the use of `addrv2` messages has been negotiated on a connection.
///
/// Once it is enabled, peers should pass addresses on in `addrv2` messages, but must still accept
/// `addr` messages. See BIP-155.
#[derive(Debug, Clone, Copy, PartialEq, Eq, Structural)]
pub enum AddrV2State {
    /// Neither side has sent `sendaddrv2`.
    NotNegotiated,
    /// This side has sent `sendaddrv2`, the peer has not.
    SentOnly,
    /// The peer has sent `sendaddrv2`, this side has not.
    ReceivedOnly,
    /// Both sides have sent `sendaddrv2`, and `addrv2` messages are in use.
    Enabled,
}

impl AddrV2State {
    /// The state in which `sendaddrv2` has been sent, received, both or neither.
    pub open spec fn of(sent: bool, received: bool) -> AddrV2State {
        if sent && received {
            AddrV2State::Enabled
        } else if sent {
            AddrV2State::SentOnly
        } else if received {
            AddrV2State::ReceivedOnly
        } else {
            AddrV2State::NotNegotiated
        }
    }

    /// Whether this side has sent `sendaddrv2`.
    pub open spec fn sent(self) -> bool {
        self is SentOnly || self is Enabled
    }

    /// Whether the peer has sent `sendaddrv2`.
    pub open spec fn received(self) -> bool {
        self is ReceivedOnly || self is Enabled
    }

    /// The state once this side has sent `sendaddrv2`.
    pub fn on_send(&self) -> (r: AddrV2State)
        ensures
            r == AddrV2State::of(true, self.received()),
    {
        match self {
            AddrV2State::NotNegotiated => AddrV2State::SentOnly,
            AddrV2State::ReceivedOnly => AddrV2State::Enabled,
            _ => *self,
        }
    }

    /// The state once the peer has sent `sendaddrv2`.
    pub fn on_receive(&self) -> (r: AddrV2State)
        ensures
            r == AddrV2State::of(self.sent(), true),
    {
        match self {
            AddrV2State::NotNegotiated => AddrV2State::ReceivedOnly,
            AddrV2State::SentOnly => AddrV2State::Enabled,
            _ => *self,
        }
    }

    /// The name of the state.
    pub open spec fn shown(self) -> Seq<char> {
        match self {
            AddrV2State::NotNegotiated => "NotNegotiated"@,
            AddrV2State::SentOnly => "SentOnly"@,
            AddrV2State::ReceivedOnly => "ReceivedOnly"@,
            AddrV2State::Enabled => "Enabled"@,
        }
    }

    /// Shows the state by its name.
    pub fn to_string(&self) -> (r: String)
        ensures
            r@ == self.shown(),
    {
        match self {
            AddrV2State::NotNegotiated => "NotNegotiated".to_owned(),
            AddrV2State::SentOnly => "SentOnly".to_owned(),
            AddrV2State::ReceivedOnly => "ReceivedOnly".to_owned(),
            AddrV2State::Enabled => "Enabled".to_owned(),
        }
    }
}

/// How far the announcement of blocks by their headers has been negotiated on a connection.
///
/// A node should announce new blocks by their headers to a peer that asks for it. See BIP-130.
#[derive(Debug, Clone, Copy, PartialEq, Eq, Structural)]
pub enum SendHeadersState {
    /// Neither side has sent `sendheaders`.
    NotNegotiated,
    /// This side has sent `sendheaders`, the peer has not.
    SentOnly,
    /// The peer has sent `sendheaders`, this side has not.
    ReceivedOnly,
    /// Both sides have sent `sendheaders`, and blocks are announced by their headers.
    Enabled,
}

impl SendHeadersState {
    /// The state in which `sendheaders` has been sent, received, both or neither.
    pub open spec fn of(sent: bool, received: bool) -> SendHeadersState {
        if sent && received {
            SendHeadersState::Enabled
        } else if sent {
            SendHeadersState::SentOnly
        } else if received {
            SendHeadersState::ReceivedOnly
        } else {
            SendHeadersState::NotNegotiated
        }
    }

    /// Whether this side has sent `sendheaders`.
    pub open spec fn sent(self) -> bool {
        self is SentOnly || self is Enabled
    }

    /// Whether the peer has sent `sendheaders`.
    pub open spec fn received(self) -> bool {
        self is ReceivedOnly || self is Enabled
    }

    /// The state once this side has sent `sendheaders`.
    pub fn on_send(&self) -> (r: SendHeadersState)
        ensures
            r == SendHeadersState::of(true, self.received()),
    {
        match self {
            SendHeadersState::NotNegotiated => SendHeadersState::SentOnly,
            SendHeadersState::ReceivedOnly => SendHeadersState::Enabled,
            _ => *self,
        }
    }

    /// The state once the peer has sent `sendheaders`.
    pub fn on_receive(&self) -> (r: SendHeadersState)
        ensures
            r == SendHeadersState::of(self.sent(), true),
    {
        match self {
            SendHeadersState::NotNegotiated => SendHeadersState::ReceivedOnly,
            SendHeadersState::SentOnly => SendHeadersState::Enabled,
            _ => *self,
        }
    }

    /// The name of the state.
    pub open spec fn shown(self) -> Seq<char> {
        match self {
            SendHeadersState::NotNegotiated => "NotNegotiated"@,
            SendHeadersState::SentOnly => "SentOnly"@,
            SendHeadersState::ReceivedOnly => "ReceivedOnly"@,
            SendHeadersState::Enabled => "Enabled"@,
        }
    }

    /// Shows the state by its name.
    pub fn to_string(&self) -> (r: String)
        ensures
            r@ == self.shown(),
    {
        match self {
            SendHeadersState::NotNegotiated => "NotNegotiated".to_owned(),
            SendHeadersState::SentOnly => "SentOnly".to_owned(),
            SendHeadersState::ReceivedOnly => "ReceivedOnly".to_owned(),
            SendHeadersState::Enabled => "Enabled".to_owned(),
        }
    }
}

/// How far the announcement of transactions by witness identifiers has been negotiated on a
/// connection.
///
/// Once it is enabled, transactions are announced by the identifiers that cover their witnesses.
/// See BIP-339.
#[derive(Debug, Clone, Copy, PartialEq, Eq, Structural)]
pub enum WtxidRelayState {
    /// Neither side has sent `wtxidrelay`.
    NotNegotiated,
    /// This side has sent `wtxidrelay`, the peer has not.
    SentOnly,
    /// The peer has sent `wtxidrelay`, this side has not.
    ReceivedOnly,
    /// Both sides have sent `wtxidrelay`, and transactions are announced by their witness
    /// identifiers.
    Enabled,
}

impl WtxidRelayState {
    /// The state in which `wtxidrelay` has been sent, received, both or neither.
    pub open spec fn of(sent: bool, received: bool) -> WtxidRelayState {
        if sent && received {
            WtxidRelayState::Enabled
        } else if sent {
            WtxidRelayState::SentOnly
        } else if received {
            WtxidRelayState::ReceivedOnly
        } else {
            WtxidRelayState::NotNegotiated
        }
    }

    /// Whether this side has sent `wtxidrelay`.
    pub open spec fn sent(self) -> bool {
        self is SentOnly || self is Enabled
    }

    /// Whether the peer has sent `wtxidrelay`.
    pub open spec fn received(self) -> bool {
        self is ReceivedOnly || self is Enabled
    }

    /// The state once this side has sent `wtxidrelay`.
    pub fn on_send(&self) -> (r: WtxidRelayState)
        ensures
            r == WtxidRelayState::of(true, self.received()),
    {
        match self {
            WtxidRelayState::NotNegotiated => WtxidRelayState::SentOnly,
            WtxidRelayState::ReceivedOnly => WtxidRelayState::Enabled,
            _ => *self,
        }
    }

    /// The state once the peer has sent `wtxidrelay`.
    pub fn on_receive(&self) -> (r: WtxidRelayState)
        ensures
            r == WtxidRelayState::of(self.sent(), true),
    {
        match self {
            WtxidRelayState::NotNegotiated => WtxidRelayState::ReceivedOnly,
            WtxidRelayState::SentOnly => WtxidRelayState::Enabled,
            _ => *self,
        }
    }

    /// The name of the state.
    pub open spec fn shown(self) -> Seq<char> {
        match self {
            WtxidRelayState::NotNegotiated => "NotNegotiated"@,
            WtxidRelayState::SentOnly => "SentOnly"@,
            WtxidRelayState::ReceivedOnly => "ReceivedOnly"@,
            WtxidRelayState::Enabled => "Enabled"@,
        }
    }

    /// Shows the state by its name.
    pub fn to_string(&self) -> (r: String)
        ensures
            r@ == self.shown(),
    {
        match self {
            WtxidRelayState::NotNegotiated => "NotNegotiated".to_owned(),
            WtxidRelayState::SentOnly => "SentOnly".to_owned(),
            WtxidRelayState::ReceivedOnly => "ReceivedOnly".to_owned(),
            WtxidRelayState::Enabled => "Enabled".to_owned(),
        }
    }
}

/// The state of a connection.
#[derive(Debug, Clone, Copy, PartialEq, Eq, Structural)]
pub struct ConnectionState {
    /// The lower of the two sides' protocol versions, once it is known.
    pub effective_protocol_version: PeerProtocolVersion,
    /// The use of `addrv2` messages.
    pub addr_v2: AddrV2State,
    /// The announcement of blocks by their headers.
    pub send_headers: SendHeadersState,
    /// The announcement of transactions by witness identifiers.
    pub wtxid_relay: WtxidRelayState,
}

/// The state in which nothing is negotiated.
pub open spec fn initial_state() -> ConnectionState {
    ConnectionState {
        effective_protocol_version: PeerProtocolVersion::Unknown,
        addr_v2: AddrV2State::NotNegotiated,
        send_headers: SendHeadersState::NotNegotiated,
        wtxid_relay: WtxidRelayState::NotNegotiated,
    }
}

impl ConnectionState {
    /// The state in which nothing is negotiated.
    pub fn new() -> (r: ConnectionState)
        ensures
            r == initial_state(),
    {
        ConnectionState {
            effective_protocol_version: PeerProtocolVersion::Unknown,
            addr_v2: AddrV2State::NotNegotiated,
            send_headers: SendHeadersState::NotNegotiated,
            wtxid_relay: WtxidRelayState::NotNegotiated,
        }
    }

    /// The state after a message from the peer.
    pub open spec fn after_received(self, message: NetworkMessageView) -> ConnectionState {
        match message {
            NetworkMessageView::SendAddrV2 => ConnectionState {
                addr_v2: AddrV2State::of(self.addr_v2.sent(), true),
                ..self
            },
            NetworkMessageView::SendHeaders => ConnectionState {
                send_headers: SendHeadersState::of(self.send_headers.sent(), true),
                ..self
            },
            NetworkMessageView::WtxidRelay => ConnectionState {
                wtxid_relay: WtxidRelayState::of(self.wtxid_relay.sent(), true),
                ..self
            },
            _ => self,
        }
    }

    /// The state after a message of the handshake has gone out to the peer.
    pub open spec fn after_sent(self, message: NetworkMessageView) -> ConnectionState {
        match message {
            NetworkMessageView::SendAddrV2 => ConnectionState {
                addr_v2: AddrV2State::of(true, self.addr_v2.received()),
                ..self
            },
            NetworkMessageView::SendHeaders => ConnectionState {
                send_headers: SendHeadersState::of(true, self.send_headers.received()),
                ..self
            },
            NetworkMessageView::WtxidRelay => ConnectionState {
                wtxid_relay: WtxidRelayState::of(true, self.wtxid_relay.received()),
                ..self
            },
            _ => self,
        }
    }

    /// Takes note of a message from the peer.
    pub fn on_received(&mut self, message: &NetworkMessage)
        ensures
            *final(self) == old(self).after_received(message@),
    {
        match message {
            NetworkMessage::SendAddrV2 => {
                self.addr_v2 = self.addr_v2.on_receive();
            },
            NetworkMessage::SendHeaders => {
                self.send_headers = self.send_headers.on_receive();
            },
            NetworkMessage::WtxidRelay => {
                self.wtxid_relay = self.wtxid_relay.on_receive();
            },
            _ => {},
        }
    }

    /// Takes note of a message of the handshake that has gone out to the peer.
    pub fn on_sent(&mut self, message: &NetworkMessage)
        ensures
            *final(self) == old(self).after_sent(message@),
    {
        match message {
            NetworkMessage::SendAddrV2 => {
                self.addr_v2 = self.addr_v2.on_send();
            },
            NetworkMessage::SendHeaders => {
                self.send_headers = self.send_headers.on_send();
            },
            NetworkMessage::WtxidRelay => {
                self.wtxid_relay = self.wtxid_relay.on_send();
            },
            _ => {},
        }
    }

    /// The protocol version as it stands in the text of the state.
    pub open spec fn version_shown(self) -> Seq<char> {
        match self.effective_protocol_version {
            PeerProtocolVersion::Known(version) => "Known("@ + decimal(version as nat) + ")"@,
            PeerProtocolVersion::Unknown => "Unknown"@,
        }
    }

    /// The state as text.
    pub open spec fn shown(self) -> Seq<char> {
        "[connection state] protocol: "@ + self.version_shown() + ", addrv2: "@
            + self.addr_v2.shown() + ", headers: "@ + self.send_headers.shown() + ", wtxid: "@
            + self.wtxid_relay.shown()
    }

    /// Shows the state.
    pub fn to_string(&self) -> (r: String)
        ensures
            r@ == self.shown(),
    {
        let mut text = "[connection state] protocol: ".to_owned();
        match self.effective_protocol_version {
            PeerProtocolVersion::Known(version) => {
                text.append("Known(");
                text.append(decimal_text(version as u64).as_str());
                text.append(")");
            },
            PeerProtocolVersion::Unknown => {
                text.append("Unknown");
            },
        }
        assert(text@ =~= "[connection state] protocol: "@ + self.version_shown());
        text.append(", addrv2: ");
        text.append(self.addr_v2.to_string().as_str());
        text.append(", headers: ");
        text.append(self.send_headers.to_string().as_str());
        text.append(", wtxid: ");
        text.append(self.wtxid_relay.to_string().as_str());
        text
    }
}

impl Default for ConnectionState {
    fn default() -> (r: ConnectionState)
        ensures
            r == initial_state(),
    {
        ConnectionState::new()
    }
}

/// A feature of BIP-155 is enabled exactly when both sides have asked for it.
pub proof fn law_addr_v2_enabled_by_both(state: AddrV2State)
    ensures
        state is Enabled <==> state.sent() && state.received(),
        state == AddrV2State::of(state.sent(), state.received()),
{
}

/// Blocks are announced by their headers exactly when both sides have asked for it.
pub proof fn law_send_headers_enabled_by_both(state: SendHeadersState)
    ensures
        state is Enabled <==> state.sent() && state.received(),
        state == SendHeadersState::of(state.sent(), state.received()),
{
}

/// Transactions are announced by witness identifiers exactly when both sides have asked for it.
pub proof fn law_wtxid_relay_enabled_by_both(state: WtxidRelayState)
    ensures
        state is Enabled <==> state.sent() && state.received(),
        state == WtxidRelayState::of(state.sent(), state.received()),
{
}

/// The order in which two sides ask for features makes no difference.
pub proof fn law_negotiation_order_is_free(
    state: ConnectionState,
    sent: NetworkMessageView,
    received: NetworkMessageView,
)
    ensures
        state.after_sent(sent).after_received(received) == state.after_received(
            received,
        ).after_sent(sent),
{
}

/// Asking again for a feature changes nothing.
pub proof fn law_negotiation_is_idempotent(state: ConnectionState, message: NetworkMessageView)
    ensures
        state.after_sent(message).after_sent(message) == state.after_sent(message),
        state.after_received(message).after_received(message) == state.after_received(message),
{
}

/// Addresses in the form of BIP-155: one side's asking moves the state on from where neither or
/// only the other side has asked, and changes nothing where that side has asked before.
pub proof fn law_addr_v2_is_asked_for_by_each_side(
    state: AddrV2State,
    sent: AddrV2State,
    received: AddrV2State,
)
    requires
        call_ensures(AddrV2State::on_send, (&state,), sent),
        call_ensures(AddrV2State::on_receive, (&state,), received),
    ensures
        match state {
            AddrV2State::NotNegotiated => sent is SentOnly && received is ReceivedOnly,
            AddrV2State::SentOnly => sent is SentOnly && received is Enabled,
            AddrV2State::ReceivedOnly => sent is Enabled && received is ReceivedOnly,
            AddrV2State::Enabled => sent is Enabled && received is Enabled,
        },
{
}

/// Blocks by their headers: one side's asking moves the state on from where neither or only the
/// other side has asked, and changes nothing where that side has asked before.
pub proof fn law_send_headers_is_asked_for_by_each_side(
    state: SendHeadersState,
    sent: SendHeadersState,
    received: SendHeadersState,
)
    requires
        call_ensures(SendHeadersState::on_send, (&state,), sent),
        call_ensures(SendHeadersState::on_receive, (&state,), received),
    ensures
        match state {
            SendHeadersState::NotNegotiated => sent is SentOnly && received is ReceivedOnly,
            SendHeadersState::SentOnly => sent is SentOnly && received is Enabled,
            SendHeadersState::ReceivedOnly => sent is Enabled && received is ReceivedOnly,
            SendHeadersState::Enabled => sent is Enabled && received is Enabled,
        },
{
}

/// Transactions by witness identifiers: one side's asking moves the state on from where neither or
/// only the other side has asked, and changes nothing where that side has asked before.
pub proof fn law_wtxid_relay_is_asked_for_by_each_side(
    state: WtxidRelayState,
    sent: WtxidRelayState,
    received: WtxidRelayState,
)
    requires
        call_ensures(WtxidRelayState::on_send, (&state,), sent),
        call_ensures(WtxidRelayState::on_receive, (&state,), received),
    ensures
        match state {
            WtxidRelayState::NotNegotiated => sent is SentOnly && received is ReceivedOnly,
            WtxidRelayState::SentOnly => sent is SentOnly && received is Enabled,
            WtxidRelayState::ReceivedOnly => sent is Enabled && received is ReceivedOnly,
            WtxidRelayState::Enabled => sent is Enabled && received is Enabled,
        },
{
}

/// A message from the peer moves on the feature that it asks for, and no other.
pub proof fn law_received_messages_move_their_feature(
    state: ConnectionState,
    message: NetworkMessageView,
)
    ensures
        ({
            let after = state.after_received(message);
            &&& after.effective_protocol_version == state.effective_protocol_version
            &&& after.addr_v2 == (if message is SendAddrV2 {
                match state.addr_v2 {
                    AddrV2State::NotNegotiated => AddrV2State::ReceivedOnly,
                    AddrV2State::SentOnly => AddrV2State::Enabled,
                    same => same,
                }
            } else {
                state.addr_v2
            })
            &&& after.send_headers == (if message is SendHeaders {
                match state.send_headers {
                    SendHeadersState::NotNegotiated => SendHeadersState::ReceivedOnly,
                    SendHeadersState::SentOnly => SendHeadersState::Enabled,
                    same => same,
                }
            } else {
                state.send_headers
            })
            &&& after.wtxid_relay == (if message is WtxidRelay {
                match state.wtxid_relay {
                    WtxidRelayState::NotNegotiated => WtxidRelayState::ReceivedOnly,
                    WtxidRelayState::SentOnly => WtxidRelayState::Enabled,
                    same => same,
                }
            } else {
                state.wtxid_relay
            })
        }),
{
}

/// A message to the peer moves on the feature that it asks for, and no other.
pub proof fn law_sent_messages_move_their_feature(
    state: ConnectionState,
    message: NetworkMessageView,
)
    ensures
        ({
            let after = state.after_sent(message);
            &&& after.effective_protocol_version == state.effective_protocol_version
            &&& after.addr_v2 == (if message is SendAddrV2 {
                match state.addr_v2 {
                    AddrV2State::NotNegotiated => AddrV2State::SentOnly,
                    AddrV2State::ReceivedOnly => AddrV2State::Enabled,
                    same => same,
                }
            } else {
                state.addr_v2
            })
            &&& after.send_headers == (if message is SendHeaders {
                match state.send_headers {
                    SendHeadersState::NotNegotiated => SendHeadersState::SentOnly,
                    SendHeadersState::ReceivedOnly => SendHeadersState::Enabled,
                    same => same,
                }
            } else {
                state.send_headers
            })
            &&& after.wtxid_relay == (if message is WtxidRelay {
                match state.wtxid_relay {
                    WtxidRelayState::NotNegotiated => WtxidRelayState::SentOnly,
                    WtxidRelayState::ReceivedOnly => WtxidRelayState::Enabled,
                    same => same,
                }
            } else {
                state.wtxid_relay
            })
        }),
{
}

/// A connection starts with nothing negotiated.
pub proof fn law_connections_start_with_nothing_negotiated(made: ConnectionState)
    requires
        call_ensures(ConnectionState::new, (), made),
    ensures
        made.effective_protocol_version is Unknown,
        made.addr_v2 is NotNegotiated,
        made.send_headers is NotNegotiated,
        made.wtxid_relay is NotNegotiated,
        made == initial_state(),
{
}

/// A message that was received or sent is taken note of for the feature that it asks for, and for
/// no other.
pub proof fn law_messages_are_taken_note_of(
    receiving: &mut ConnectionState,
    sending: &mut ConnectionState,
    message: NetworkMessage,
)
    requires
        call_ensures(ConnectionState::on_received, (receiving, &message), ()),
        call_ensures(ConnectionState::on_sent, (sending, &message), ()),
    ensures
        !(message is SendAddrV2) ==> final(receiving).addr_v2 == old(receiving).addr_v2
            && final(sending).addr_v2 == old(sending).addr_v2,
        !(message is SendHeaders) ==> final(receiving).send_headers == old(receiving).send_headers
            && final(sending).send_headers == old(sending).send_headers,
        !(message is WtxidRelay) ==> final(receiving).wtxid_relay == old(receiving).wtxid_relay
            && final(sending).wtxid_relay == old(sending).wtxid_relay,
        final(receiving).effective_protocol_version == old(receiving).effective_protocol_version,
        final(sending).effective_protocol_version == old(sending).effective_protocol_version,
        message is SendAddrV2 ==> {
            &&& final(receiving).addr_v2 is Enabled <==> old(receiving).addr_v2 is SentOnly || old(
                receiving,
            ).addr_v2 is Enabled
            &&& final(receiving).addr_v2 is Enabled || final(receiving).addr_v2 is ReceivedOnly
            &&& final(sending).addr_v2 is Enabled <==> old(sending).addr_v2 is ReceivedOnly || old(
                sending,
            ).addr_v2 is Enabled
            &&& final(sending).addr_v2 is Enabled || final(sending).addr_v2 is SentOnly
        },
        message is SendHeaders ==> {
            &&& final(receiving).send_headers is Enabled <==> old(
                receiving,
            ).send_headers is SentOnly || old(receiving).send_headers is Enabled
            &&& final(receiving).send_headers is Enabled
                || final(receiving).send_headers is ReceivedOnly
            &&& final(sending).send_headers is Enabled <==> old(
                sending,
            ).send_headers is ReceivedOnly || old(sending).send_headers is Enabled
            &&& final(sending).send_headers is Enabled || final(sending).send_headers is SentOnly
        },
        message is WtxidRelay ==> {
            &&& final(receiving).wtxid_relay is Enabled <==> old(receiving).wtxid_relay is SentOnly
                || old(receiving).wtxid_relay is Enabled
            &&& final(receiving).wtxid_relay is Enabled
                || final(receiving).wtxid_relay is ReceivedOnly
            &&& final(sending).wtxid_relay is Enabled <==> old(sending).wtxid_relay is ReceivedOnly
                || old(sending).wtxid_relay is Enabled
            &&& final(sending).wtxid_relay is Enabled || final(sending).wtxid_relay is SentOnly
        },
{
}

/// The state of `addrv2` messages is shown by its name.
pub proof fn law_addr_v2_states_are_shown_by_name(state: AddrV2State, r: String)
    requires
        call_ensures(AddrV2State::to_string, (&state,), r),
    ensures
        match state {
            AddrV2State::NotNegotiated => r@ == "NotNegotiated"@,
            AddrV2State::SentOnly => r@ == "SentOnly"@,
            AddrV2State::ReceivedOnly => r@ == "ReceivedOnly"@,
            AddrV2State::Enabled => r@ == "Enabled"@,
        },
{
}

/// The state of the announcement of blocks is shown by its name.
pub proof fn law_send_headers_states_are_shown_by_name(state: SendHeadersState, r: String)
    requires
        call_ensures(SendHeadersState::to_string, (&state,), r),
    ensures
        match state {
            SendHeadersState::NotNegotiated => r@ == "NotNegotiated"@,
            SendHeadersState::SentOnly => r@ == "SentOnly"@,
            SendHeadersState::ReceivedOnly => r@ == "ReceivedOnly"@,
            SendHeadersState::Enabled => r@ == "Enabled"@,
        },
{
}

/// The state of the announcement of transactions is shown by its name.
pub proof fn law_wtxid_relay_states_are_shown_by_name(state: WtxidRelayState, r: String)
    requires
        call_ensures(WtxidRelayState::to_string, (&state,), r),
    ensures
        match state {
            WtxidRelayState::NotNegotiated => r@ == "NotNegotiated"@,
            WtxidRelayState::SentOnly => r@ == "SentOnly"@,
            WtxidRelayState::ReceivedOnly => r@ == "ReceivedOnly"@,
            WtxidRelayState::Enabled => r@ == "Enabled"@,
        },
{
}

/// The text of a state is made of those of its parts.
pub proof fn law_states_are_shown_part_by_part(
    state: ConnectionState,
    addr_v2: String,
    headers: String,
    wtxid: String,
    r: String,
)
    requires
        call_ensures(AddrV2State::to_string, (&state.addr_v2,), addr_v2),
        call_ensures(SendHeadersState::to_string, (&state.send_headers,), headers),
        call_ensures(WtxidRelayState::to_string, (&state.wtxid_relay,), wtxid),
        call_ensures(ConnectionState::to_string, (&state,), r),
    ensures
        r@ == "[connection state] protocol: "@ + (match state.effective_protocol_version {
            PeerProtocolVersion::Known(version) => "Known("@ + decimal(version as nat) + ")"@,
            PeerProtocolVersion::Unknown => "Unknown"@,
        }) + ", addrv2: "@ + addr_v2@ + ", headers: "@ + headers@ + ", wtxid: "@ + wtxid@,
{
}

} // verus!
