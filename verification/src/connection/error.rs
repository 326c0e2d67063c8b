//! What can go wrong with a connection.

use crate::transport::error::TransportError;
use std::io;
use vstd::prelude::*;
use vstd::string::to_string_from_display_ensures;

verus! {

/// An error of making or using a connection.
#[derive(Debug)]
pub enum ConnectionError {
    /// Reading or writing failed.
    Io(io::Error),
    /// The transport failed.
    TransportFailed(TransportError),
    /// The peer did not follow the protocol.
    ProtocolFailed,
    /// The address of the peer is not one that can be connected to.
    UnsupportedAddressType,
    /// This node is connected to itself.
    ///
    /// Its own address may be in a list that a peer passed on, or a forwarded port may lead back to
    /// it.
    ConnectionLoop,
    /// The connection has to be encrypted, and that failed.
    V2TransportRequired,
}

impl ConnectionError {
    /// Whether a text is the one that shows the error.
    pub open spec fn shown_as(self, text: Seq<char>) -> bool {
        match self {
            ConnectionError::Io(error) => exists|shown: String|
                text == "Connection error: "@ + shown@
                    && #[trigger] to_string_from_display_ensures(&error, shown),
            ConnectionError::TransportFailed(error) => exists|shown: Seq<char>|
                text == "Transport layer failed in peer connection: "@ + shown
                    && #[trigger] error.shown_as(shown),
            ConnectionError::ProtocolFailed => {
                text == "Protocol handling failed in peer communication"@
            },
            ConnectionError::UnsupportedAddressType => text == "Unsupported address type"@,
            ConnectionError::ConnectionLoop => {
                text == "Detected connection to self (matching nonce)"@
            },
            ConnectionError::V2TransportRequired => {
                text == "V2 encrypted transport required but could not be established. To allow plaintext fallback, use TransportPolicy::V2Preferred"@
            },
        }
    }

    /// Shows the error.
    pub fn to_string(&self) -> (r: String)
        ensures
            self.shown_as(r@),
    {
        match self {
            ConnectionError::Io(error) => {
                let mut text = "Connection error: ".to_owned();
                let shown = error.to_string();
                text.append(shown.as_str());
                text
            },
            ConnectionError::TransportFailed(error) => {
                let mut text = "Transport layer failed in peer connection: ".to_owned();
                let shown = error.to_string();
                text.append(shown.as_str());
                text
            },
            ConnectionError::ProtocolFailed => {
                "Protocol handling failed in peer communication".to_owned()
            },
            ConnectionError::UnsupportedAddressType => "Unsupported address type".to_owned(),
            ConnectionError::ConnectionLoop => {
                "Detected connection to self (matching nonce)".to_owned()
            },
            ConnectionError::V2TransportRequired => {
                "V2 encrypted transport required but could not be established. To allow plaintext fallback, use TransportPolicy::V2Preferred".to_owned()
            },
        }
    }
}

impl From<io::Error> for ConnectionError {
    fn from(error: io::Error) -> (r: ConnectionError) {
        ConnectionError::Io(error)
    }
}

impl vstd::std_specs::convert::FromSpecImpl<io::Error> for ConnectionError {
    open spec fn obeys_from_spec() -> bool {
        true
    }

    open spec fn from_spec(error: io::Error) -> ConnectionError {
        ConnectionError::Io(error)
    }
}

impl From<TransportError> for ConnectionError {
    fn from(error: TransportError) -> (r: ConnectionError) {
        ConnectionError::TransportFailed(error)
    }
}

impl vstd::std_specs::convert::FromSpecImpl<TransportError> for ConnectionError {
    open spec fn obeys_from_spec() -> bool {
        true
    }

    open spec fn from_spec(error: TransportError) -> ConnectionError {
        ConnectionError::TransportFailed(error)
    }
}

/// An error of reaching a peer, in few words.
#[derive(Debug)]
pub enum PeersError {
    /// Reading or writing failed.
    ConnectionError(io::Error),
    /// The peer could not be connected to.
    PeerConnectionFailed,
    /// The address of the peer is not one that can be connected to.
    UnsupportedAddressType,
    /// This node is connected to itself.
    ConnectionLoop,
}

impl PeersError {
    /// Whether a text is the one that shows the error.
    pub open spec fn shown_as(self, text: Seq<char>) -> bool {
        match self {
            PeersError::ConnectionError(error) => exists|shown: String|
                text == "Connection error: "@ + shown@
                    && #[trigger] to_string_from_display_ensures(&error, shown),
            PeersError::PeerConnectionFailed => text == "Failed to connect to peer"@,
            PeersError::UnsupportedAddressType => text == "Unsupported address type"@,
            PeersError::ConnectionLoop => {
                text == "Detected connection to self (matching nonce)"@
            },
        }
    }

    /// Shows the error.
    pub fn to_string(&self) -> (r: String)
        ensures
            self.shown_as(r@),
    {
        match self {
            PeersError::ConnectionError(error) => {
                let mut text = "Connection error: ".to_owned();
                let shown = error.to_string();
                text.append(shown.as_str());
                text
            },
            PeersError::PeerConnectionFailed => "Failed to connect to peer".to_owned(),
            PeersError::UnsupportedAddressType => "Unsupported address type".to_owned(),
            PeersError::ConnectionLoop => "Detected connection to self (matching nonce)".to_owned(),
        }
    }
}

impl From<io::Error> for PeersError {
    fn from(error: io::Error) -> (r: PeersError) {
        PeersError::ConnectionError(error)
    }
}

impl vstd::std_specs::convert::FromSpecImpl<io::Error> for PeersError {
    open spec fn obeys_from_spec() -> bool {
        true
    }

    open spec fn from_spec(error: io::Error) -> PeersError {
        PeersError::ConnectionError(error)
    }
}

/// An error of a connection is told by its kind; what was the matter with the transport follows
/// where that failed.
pub proof fn law_connection_errors_are_told_by_kind(
    protocol: String,
    address: String,
    own: String,
    transport: String,
)
    requires
        call_ensures(ConnectionError::to_string, (&ConnectionError::ProtocolFailed,), protocol),
        call_ensures(
            ConnectionError::to_string,
            (&ConnectionError::UnsupportedAddressType,),
            address,
        ),
        call_ensures(ConnectionError::to_string, (&ConnectionError::ConnectionLoop,), own),
        call_ensures(
            ConnectionError::to_string,
            (&ConnectionError::TransportFailed(TransportError::MagicMismatch),),
            transport,
        ),
    ensures
        protocol@ == "Protocol handling failed in peer communication"@,
        address@ == "Unsupported address type"@,
        own@ == "Detected connection to self (matching nonce)"@,
        transport@ == "Transport layer failed in peer connection: "@ + "Network magic mismatch"@,
{
}

} // verus!
