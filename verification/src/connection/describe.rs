//! Connections as text.

use super::state::ConnectionState;
use super::tcp::TransportVersion;
use crate::peer::{Peer, PeerView};
use vstd::prelude::*;

verus! {

/// A connection or one of its halves.
#[derive(Debug, Clone, Copy, PartialEq, Eq, Structural)]
pub enum ConnectionPart {
    /// The connection.
    Connection,
    /// The half that receives.
    Receiver,
    /// The half that sends.
    Sender,
}

/// A connection or one of its halves as text. The peer and the state may be out of reach for the
/// moment; a sending half has no state.
pub open spec fn description(
    part: ConnectionPart,
    transport: TransportVersion,
    peer: Option<PeerView>,
    state: Option<ConnectionState>,
) -> Seq<char> {
    "TCP/"@ + (match transport {
        TransportVersion::V1 => "V1"@,
        TransportVersion::V2 => "V2"@,
    }) + (match part {
        ConnectionPart::Connection => " connection to "@,
        ConnectionPart::Receiver => " receiver to "@,
        ConnectionPart::Sender => " sender to "@,
    }) + (match peer {
        Some(peer) => peer.shown(),
        None => "<peer locked>"@,
    }) + (match (part, state) {
        (ConnectionPart::Sender, _) => Seq::empty(),
        (_, Some(state)) => " ("@ + state.shown() + ")"@,
        (_, None) => " (state: <locked>)"@,
    })
}

/// What an optional peer stands for.
pub open spec fn peer_view(peer: Option<&Peer>) -> Option<PeerView> {
    match peer {
        Some(peer) => Some(peer@),
        None => None,
    }
}

/// What an optional state stands for.
pub open spec fn state_view(state: Option<&ConnectionState>) -> Option<ConnectionState> {
    match state {
        Some(state) => Some(*state),
        None => None,
    }
}

/// Shows a connection or one of its halves.
pub fn describe(
    part: ConnectionPart,
    transport: TransportVersion,
    peer: Option<&Peer>,
    state: Option<&ConnectionState>,
) -> (r: String)
    ensures
        r@ == description(part, transport, peer_view(peer), state_view(state)),
{
    let mut text = "TCP/".to_owned();
    text.append(
        match transport {
            TransportVersion::V1 => "V1",
            TransportVersion::V2 => "V2",
        },
    );
    text.append(
        match part {
            ConnectionPart::Connection => " connection to ",
            ConnectionPart::Receiver => " receiver to ",
            ConnectionPart::Sender => " sender to ",
        },
    );
    match peer {
        Some(peer) => text.append(peer.to_string().as_str()),
        None => text.append("<peer locked>"),
    }
    let ghost before = text@;
    if part != ConnectionPart::Sender {
        match state {
            Some(state) => {
                text.append(" (");
                text.append(state.to_string().as_str());
                text.append(")");
                assert(text@ =~= before + (" ("@ + state.shown() + ")"@));
            },
            None => text.append(" (state: <locked>)"),
        }
    } else {
        assert(text@ =~= before + Seq::<char>::empty());
    }
    text
}

/// The text of a connection names its transport, which part of it is shown, and the peer, or says
/// that the peer is out of reach; then, but for a sending half, the state, or that it is out of
/// reach.
pub proof fn law_connections_are_shown_part_by_part(
    part: ConnectionPart,
    transport: TransportVersion,
    peer: Peer,
    state: ConnectionState,
    peer_shown: String,
    state_shown: String,
    within_reach: String,
    out_of_reach: String,
)
    requires
        call_ensures(Peer::to_string, (&peer,), peer_shown),
        call_ensures(ConnectionState::to_string, (&state,), state_shown),
        call_ensures(describe, (part, transport, Some(&peer), Some(&state)), within_reach),
        call_ensures(describe, (part, transport, None, None), out_of_reach),
    ensures
        ({
            let start = (match transport {
                TransportVersion::V1 => "TCP/"@ + "V1"@,
                TransportVersion::V2 => "TCP/"@ + "V2"@,
            }) + (match part {
                ConnectionPart::Connection => " connection to "@,
                ConnectionPart::Receiver => " receiver to "@,
                ConnectionPart::Sender => " sender to "@,
            });
            &&& within_reach@ == start + peer_shown@ + (if part is Sender {
                Seq::empty()
            } else {
                " ("@ + state_shown@ + ")"@
            })
            &&& out_of_reach@ == start + "<peer locked>"@ + (if part is Sender {
                Seq::empty()
            } else {
                " (state: <locked>)"@
            })
        }),
{
}

} // verus!
