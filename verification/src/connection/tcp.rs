//! Which transport a TCP connection uses.
//!
//! A connection that this node makes is encrypted where possible. Where the policy allows it, a
//! peer that is known not to encrypt is spoken to in plaintext from the start, and a peer with
//! which the encryption fails on a fresh connection. Of a connection that a peer makes, the first
//! four bytes tell whether it is in plaintext, in whatever pieces they arrive.

use super::configuration::{ConnectionConfiguration, TransportPolicy};
use super::error::ConnectionError;
use crate::address::{
    law_magic_bytes_tell_networks_apart, network_magic, AddrV2, AddrV2View, IpAddr, Network,
    ServiceFlags, SocketAddr,
};
use crate::bytes::same_bytes;
use crate::peer::{Peer, PeerProtocolVersion, PeerServices, PeerView};
use crate::time::Duration;
use crate::transport::error::{IoError, TransportError};
use crate::wire::v1_frame;
use vstd::prelude::*;

verus! {

/// The peer at the other end of a connection that it has made.
pub fn peer_from_socket_addr(socket: SocketAddr) -> (r: Peer)
    ensures
        r@ == (PeerView {
            address: AddrV2View::of_ip(socket.ip.octets()),
            port: socket.port,
            services: PeerServices::Unknown,
            version: PeerProtocolVersion::Unknown,
        }),
{
    Peer::new(socket.ip.to_addr_v2(), socket.port)
}

/// The socket address of a peer. Only IP addresses can be connected to.
pub fn socket_address(peer: &Peer) -> (r: Result<SocketAddr, ConnectionError>)
    ensures
        match r {
            Ok(socket) => peer@.address.ip() == Some(socket.ip.octets()) && socket.port
                == peer@.port,
            Err(error) => peer@.address.ip() is None && error
                == ConnectionError::UnsupportedAddressType,
        },
{
    match peer.address.ip() {
        Some(ip) => Ok(SocketAddr { ip, port: peer.port }),
        None => Err(ConnectionError::UnsupportedAddressType),
    }
}

/// How long making a connection to a peer may take, until its transport is settled.
pub fn dial_limit(configuration: &ConnectionConfiguration) -> (r: Duration)
    ensures
        r == configuration@.connection_timeout,
{
    configuration.connection_timeout
}

/// The error of a connection that could not be made in time.
pub fn dial_timed_out() -> (r: ConnectionError)
    ensures
        r == ConnectionError::TransportFailed(
            TransportError::Io(IoError::TimedOut("Connection attempt timed out")),
        ),
{
    ConnectionError::TransportFailed(
        TransportError::Io(IoError::TimedOut("Connection attempt timed out")),
    )
}

/// A transport.
#[derive(Debug, Clone, Copy, PartialEq, Eq, Structural)]
pub enum TransportVersion {
    /// Plaintext.
    V1,
    /// Encrypted.
    V2,
}

/// What is to be done next to make a connection.
#[derive(Debug, Clone, Copy, PartialEq, Eq, Structural)]
pub enum OutboundStep {
    /// Make a TCP connection that is to use this transport.
    Dial(TransportVersion),
    /// Encrypt the TCP connection that was made.
    Encrypt,
    /// Use the TCP connection that was made, with this transport.
    Use(TransportVersion),
}

/// Whether a peer may be one that encrypts: it says so, or has not said.
pub open spec fn may_encrypt(peer: PeerView) -> bool {
    peer.services is Unknown || peer.advertises(ServiceFlags { bits: ServiceFlags::P2P_V2 })
}

/// What is to be done first to make a connection to a peer.
pub open spec fn first_step(peer: PeerView, policy: TransportPolicy) -> OutboundStep {
    if !may_encrypt(peer) && policy == TransportPolicy::V2Preferred {
        OutboundStep::Dial(TransportVersion::V1)
    } else {
        OutboundStep::Dial(TransportVersion::V2)
    }
}

/// What is to be done once a TCP connection was made.
pub open spec fn dialed_step(transport: TransportVersion) -> OutboundStep {
    match transport {
        TransportVersion::V1 => OutboundStep::Use(TransportVersion::V1),
        TransportVersion::V2 => OutboundStep::Encrypt,
    }
}

/// What is to be done once the encryption has worked or failed; nothing where plaintext is not
/// allowed in its place.
pub open spec fn encryption_step(policy: TransportPolicy, worked: bool) -> Option<OutboundStep> {
    if worked {
        Some(OutboundStep::Use(TransportVersion::V2))
    } else {
        match policy {
            TransportPolicy::V2Required => None,
            TransportPolicy::V2Preferred => Some(OutboundStep::Dial(TransportVersion::V1)),
        }
    }
}

/// What is to be done first to make a connection to a peer: encrypt it, unless the peer is known
/// not to, and the policy allows plaintext.
pub fn negotiate_outbound_transport(peer: &Peer, policy: TransportPolicy) -> (r: OutboundStep)
    ensures
        r == first_step(peer@, policy),
{
    let peer_supports_v2: bool = match peer.services {
        PeerServices::Unknown => true,
        PeerServices::Known(flags) => flags.has(ServiceFlags { bits: ServiceFlags::P2P_V2 }),
    };
    if !peer_supports_v2 && policy == TransportPolicy::V2Preferred {
        OutboundStep::Dial(TransportVersion::V1)
    } else {
        OutboundStep::Dial(TransportVersion::V2)
    }
}

/// What is to be done once a TCP connection was made.
pub fn after_dial(transport: TransportVersion) -> (r: OutboundStep)
    ensures
        r == dialed_step(transport),
{
    match transport {
        TransportVersion::V1 => OutboundStep::Use(TransportVersion::V1),
        TransportVersion::V2 => OutboundStep::Encrypt,
    }
}

/// What is to be done once the encryption has worked or failed: where it failed, make another
/// connection for plaintext, if the policy allows it.
pub fn after_encryption(policy: TransportPolicy, worked: bool) -> (r: Result<
    OutboundStep,
    ConnectionError,
>)
    ensures
        match encryption_step(policy, worked) {
            Some(step) => r matches Ok(next) && next == step,
            None => r matches Err(error) && error == ConnectionError::V2TransportRequired,
        },
{
    if worked {
        return Ok(OutboundStep::Use(TransportVersion::V2));
    }
    match policy {
        TransportPolicy::V2Required => Err(ConnectionError::V2TransportRequired),
        TransportPolicy::V2Preferred => Ok(OutboundStep::Dial(TransportVersion::V1)),
    }
}

/// The transport that the steps from one on lead to, by whether the encryption works; nothing where
/// they lead to none.
pub open spec fn transport_from(
    step: OutboundStep,
    policy: TransportPolicy,
    works: bool,
) -> Option<TransportVersion>
    decreases
            match step {
                OutboundStep::Dial(TransportVersion::V2) => 3int,
                OutboundStep::Encrypt => 2int,
                OutboundStep::Dial(TransportVersion::V1) => 1int,
                OutboundStep::Use(_) => 0int,
            },
{
    match step {
        OutboundStep::Use(transport) => Some(transport),
        OutboundStep::Dial(transport) => transport_from(dialed_step(transport), policy, works),
        OutboundStep::Encrypt => match encryption_step(policy, works) {
            Some(next) => transport_from(next, policy, works),
            None => None,
        },
    }
}

/// Whether some bytes start with those of a plaintext message of a network.
pub open spec fn is_plaintext(peeked: Seq<u8>, network: Network) -> bool {
    peeked.len() >= 4 && peeked.take(4) == network_magic(network)
}

/// Whether some bytes are too few to tell, but may be the first of a plaintext message of a
/// network.
pub open spec fn may_be_plaintext(peeked: Seq<u8>, network: Network) -> bool {
    peeked.len() < 4 && peeked == network_magic(network).take(peeked.len() as int)
}

/// What is to be done next with a connection that a peer has made.
#[derive(Debug, Clone, Copy, PartialEq, Eq, Structural)]
pub enum InboundStep {
    /// Look at more of the first bytes.
    PeekMore,
    /// Use this transport; nothing of what was looked at is used up.
    Use(TransportVersion),
}

/// What is to be done next with a connection that a peer has made, by the first bytes from it;
/// nothing where they are plaintext and the policy does not allow that.
pub open spec fn inbound_step(
    network: Network,
    peeked: Seq<u8>,
    policy: TransportPolicy,
) -> Option<InboundStep> {
    if may_be_plaintext(peeked, network) {
        Some(InboundStep::PeekMore)
    } else if !is_plaintext(peeked, network) {
        Some(InboundStep::Use(TransportVersion::V2))
    } else {
        match policy {
            TransportPolicy::V2Required => None,
            TransportPolicy::V2Preferred => Some(InboundStep::Use(TransportVersion::V1)),
        }
    }
}

/// What is to be done next with a connection that a peer has made, by the first bytes from it: four
/// of them tell. Plaintext is refused where the policy does not allow it; anything else is taken to
/// be encrypted, as soon as it is not the start of plaintext.
pub fn negotiate_inbound_transport(
    network: Network,
    peeked: &[u8],
    policy: TransportPolicy,
) -> (r: Result<InboundStep, ConnectionError>)
    ensures
        match inbound_step(network, peeked@, policy) {
            Some(step) => r matches Ok(next) && next == step,
            None => r matches Err(error) && error == ConnectionError::V2TransportRequired,
        },
{
    let magic: [u8; 4] = network.magic();
    let size: usize = if peeked.len() < 4 {
        peeked.len()
    } else {
        4
    };
    let first = vstd::slice::slice_subrange(peeked, 0, size);
    let start = vstd::slice::slice_subrange(magic.as_slice(), 0, size);
    proof {
        assert(first@ =~= peeked@.take(size as int));
        assert(start@ =~= network_magic(network).take(size as int));
        assert(peeked@.len() < 4 ==> peeked@.take(size as int) =~= peeked@);
        assert(network_magic(network).take(4) =~= network_magic(network));
    }
    if !same_bytes(first, start) {
        return Ok(InboundStep::Use(TransportVersion::V2));
    }
    if size < 4 {
        return Ok(InboundStep::PeekMore);
    }
    match policy {
        TransportPolicy::V2Required => Err(ConnectionError::V2TransportRequired),
        TransportPolicy::V2Preferred => Ok(InboundStep::Use(TransportVersion::V1)),
    }
}

/// A peer whose first four bytes are those of plaintext is told by them, in whatever pieces they
/// arrive: as long as fewer have arrived, more are looked at; then the connection is in plaintext,
/// or refused where the policy requires encryption. It is never taken to be encrypted.
pub proof fn law_plaintext_is_told_in_any_pieces(
    network: Network,
    stream: Seq<u8>,
    arrived: int,
    policy: TransportPolicy,
)
    requires
        is_plaintext(stream, network),
        0 <= arrived <= stream.len(),
    ensures
        inbound_step(network, stream.take(arrived), policy) == (if arrived < 4 {
            Some(InboundStep::PeekMore)
        } else if policy == TransportPolicy::V2Required {
            None
        } else {
            Some(InboundStep::Use(TransportVersion::V1))
        }),
{
    if arrived < 4 {
        assert(stream.take(arrived) =~= stream.take(4).take(arrived));
    } else {
        assert(stream.take(arrived).take(4) =~= stream.take(4));
    }
}

/// A peer whose first bytes are not those of plaintext is taken to be encrypted once four of them
/// have arrived, if not before, and never to be in plaintext.
pub proof fn law_anything_else_is_taken_to_be_encrypted(
    network: Network,
    stream: Seq<u8>,
    arrived: int,
    policy: TransportPolicy,
)
    requires
        !is_plaintext(stream, network),
        0 <= arrived <= stream.len(),
    ensures
        ({
            let step = inbound_step(network, stream.take(arrived), policy);
            ||| step == Some(InboundStep::Use(TransportVersion::V2))
            ||| arrived < 4 && step == Some(InboundStep::PeekMore)
        }),
{
    if arrived >= 4 {
        assert(stream.take(arrived).take(4) =~= stream.take(4));
    }
}

/// The error of a connection that a peer has made and that could not be encrypted, or was closed
/// before its first bytes told what it is.
pub fn inbound_encryption_failed() -> (r: ConnectionError)
    ensures
        r == ConnectionError::TransportFailed(TransportError::Encryption),
{
    ConnectionError::TransportFailed(TransportError::Encryption)
}

/// Where the policy requires encryption, no connection to a peer is in plaintext: it is encrypted
/// or fails.
pub proof fn law_required_encryption_is_kept(peer: PeerView, works: bool)
    ensures
        transport_from(
            first_step(peer, TransportPolicy::V2Required),
            TransportPolicy::V2Required,
            works,
        ) == (if works {
            Some(TransportVersion::V2)
        } else {
            None
        }),
{
    reveal_with_fuel(transport_from, 5);
}

/// Where the policy prefers encryption, every connection to a peer comes to have a transport; it is
/// encrypted where that works, unless the peer is known not to encrypt.
pub proof fn law_preferred_encryption_falls_back(peer: PeerView, works: bool)
    ensures
        transport_from(
            first_step(peer, TransportPolicy::V2Preferred),
            TransportPolicy::V2Preferred,
            works,
        ) == Some(
            if works && may_encrypt(peer) {
                TransportVersion::V2
            } else {
                TransportVersion::V1
            },
        ),
{
    reveal_with_fuel(transport_from, 5);
}

/// Where encryption is preferred, a connection is made for plaintext exactly when the services of
/// the peer are known and the bit of encrypted connections, 2048, is not among them, whatever their
/// other bits are; else, and always where encryption is required, for encryption.
pub proof fn law_only_peers_known_not_to_encrypt_are_dialed_in_plaintext(
    peer: Peer,
    policy: TransportPolicy,
    r: OutboundStep,
)
    requires
        call_ensures(negotiate_outbound_transport, (&peer, policy), r),
    ensures
        r == OutboundStep::Dial(TransportVersion::V1) || r == OutboundStep::Dial(
            TransportVersion::V2,
        ),
        r == OutboundStep::Dial(TransportVersion::V1) <==> {
            &&& policy == TransportPolicy::V2Preferred
            &&& peer.services matches PeerServices::Known(flags) && flags.bits & 2048 == 0
        },
{
    if let PeerServices::Known(flags) = peer.services {
        let bits = flags.bits;
        assert((bits | 2048) == bits <==> bits & 2048 != 0) by (bit_vector);
    }
}

/// How a connection that was made goes on: one for plaintext is used as it is, one for encryption
/// is encrypted first; where that works it is used encrypted, and where it fails a new connection
/// is made for plaintext, or none where encryption is required.
pub proof fn law_transports_are_settled_step_by_step(
    transport: TransportVersion,
    policy: TransportPolicy,
    worked: bool,
    dialed: OutboundStep,
    tried: Result<OutboundStep, ConnectionError>,
)
    requires
        call_ensures(after_dial, (transport,), dialed),
        call_ensures(after_encryption, (policy, worked), tried),
    ensures
        dialed is Use <==> transport is V1,
        dialed is Use ==> dialed == OutboundStep::Use(TransportVersion::V1),
        dialed is Encrypt <==> transport is V2,
        worked ==> (tried matches Ok(step) && step == OutboundStep::Use(TransportVersion::V2)),
        !worked && policy is V2Preferred ==> (tried matches Ok(step) && step
            == OutboundStep::Dial(TransportVersion::V1)),
        !worked && policy is V2Required ==> (tried matches Err(error)
            && error is V2TransportRequired),
{
}

/// The transport that a connection to a peer comes to: where encryption is preferred, plaintext if
/// it does not work or the peer is known, by the bit 2048 of its services, not to take it; where it
/// is required, never plaintext.
pub proof fn law_connections_are_encrypted_where_possible(
    peer: PeerView,
    policy: TransportPolicy,
    works: bool,
)
    ensures
        ({
            let transport = transport_from(first_step(peer, policy), policy, works);
            let refuses = peer.services matches PeerServices::Known(flags) && flags.bits & 2048
                == 0;
            match policy {
                TransportPolicy::V2Preferred => {
                    &&& transport is Some
                    &&& transport == Some(TransportVersion::V2) <==> works && !refuses
                },
                TransportPolicy::V2Required => {
                    &&& transport != Some(TransportVersion::V1)
                    &&& transport == Some(TransportVersion::V2) <==> works
                },
            }
        }),
{
    reveal_with_fuel(transport_from, 5);
    if let PeerServices::Known(flags) = peer.services {
        let bits = flags.bits;
        assert((bits | 2048) == bits <==> bits & 2048 != 0) by (bit_vector);
    }
}

/// The first four bytes of a connection that a peer has made tell what it is: where they are the
/// magic bytes of this very network, it is in plaintext, and refused where encryption is required;
/// where they differ from them, be it in one byte, it is taken to be encrypted. Fewer bytes are
/// enough to tell that it is encrypted, and else call for more.
pub proof fn law_inbound_connections_are_told_by_the_magic_bytes(
    network: Network,
    peeked: &[u8],
    policy: TransportPolicy,
    r: Result<InboundStep, ConnectionError>,
)
    requires
        call_ensures(negotiate_inbound_transport, (network, peeked, policy), r),
    ensures
        ({
            let magic = match network {
                Network::Bitcoin => seq![0xF9u8, 0xBEu8, 0xB4u8, 0xD9u8],
                Network::Testnet => seq![0x0Bu8, 0x11u8, 0x09u8, 0x07u8],
                Network::Testnet4 => seq![0x1Cu8, 0x16u8, 0x3Fu8, 0x28u8],
                Network::Signet => seq![0x0Au8, 0x03u8, 0xCFu8, 0x40u8],
                Network::Regtest => seq![0xFAu8, 0xBFu8, 0xB5u8, 0xDAu8],
            };
            let agrees = forall|i: int|
                0 <= i < 4 && i < peeked@.len() ==> #[trigger] peeked@[i] == magic[i];
            if !agrees {
                r matches Ok(step) && step == InboundStep::Use(TransportVersion::V2)
            } else if peeked@.len() < 4 {
                r matches Ok(step) && step is PeekMore
            } else {
                match policy {
                    TransportPolicy::V2Preferred => r matches Ok(step) && step == InboundStep::Use(
                        TransportVersion::V1,
                    ),
                    TransportPolicy::V2Required => r matches Err(error)
                        && error is V2TransportRequired,
                }
            }
        }),
{
    let magic = network_magic(network);
    let bytes = peeked@;
    assert(magic.len() == 4);
    if bytes.len() < 4 {
        let start = magic.take(bytes.len() as int);
        if forall|i: int| 0 <= i < 4 && i < bytes.len() ==> #[trigger] bytes[i] == magic[i] {
            assert(bytes =~= start);
        } else if bytes == start {
            assert forall|i: int| 0 <= i < 4 && i < bytes.len() implies #[trigger] bytes[i]
                == magic[i] by {
                assert(start[i] == magic[i]);
            }
        }
    } else {
        let first = bytes.take(4);
        if forall|i: int| 0 <= i < 4 && i < bytes.len() ==> #[trigger] bytes[i] == magic[i] {
            assert(first =~= magic);
        } else if first == magic {
            assert forall|i: int| 0 <= i < 4 && i < bytes.len() implies #[trigger] bytes[i]
                == magic[i] by {
                assert(first[i] == bytes[i]);
            }
        }
    }
}

/// What a node writes in plaintext is told as plaintext by a node of the same network, and never by
/// a node of another network.
pub proof fn law_plaintext_of_a_network_is_told_on_it_alone(
    network: Network,
    other: Network,
    command: Seq<char>,
    payload: Seq<u8>,
)
    ensures
        ({
            let frame = v1_frame(network_magic(network), command, payload);
            &&& inbound_step(network, frame, TransportPolicy::V2Preferred) == Some(
                InboundStep::Use(TransportVersion::V1),
            )
            &&& inbound_step(network, frame, TransportPolicy::V2Required) is None
            &&& other != network ==> inbound_step(other, frame, TransportPolicy::V2Preferred)
                == Some(InboundStep::Use(TransportVersion::V2))
        }),
{
    let frame = v1_frame(network_magic(network), command, payload);
    assert(network_magic(network).len() == 4);
    assert(frame.take(4) =~= network_magic(network));
    law_magic_bytes_tell_networks_apart(network, other);
}

/// A peer is dialed at its own IP address and port; a peer at any other kind of address is refused.
pub proof fn law_peers_are_dialed_where_they_are(
    peer: Peer,
    r: Result<SocketAddr, ConnectionError>,
)
    requires
        call_ensures(socket_address, (&peer,), r),
    ensures
        match peer.address {
            AddrV2::Ipv4(o) => r matches Ok(socket) && socket.port == peer.port
                && (socket.ip matches IpAddr::V4(p) && p@ == o@),
            AddrV2::Ipv6(o) => r matches Ok(socket) && socket.port == peer.port
                && (socket.ip matches IpAddr::V6(p) && p@ == o@),
            _ => r matches Err(error) && error is UnsupportedAddressType,
        },
{
    if let Ok(socket) = r {
        assert(socket.ip.octets().len() == 4 || socket.ip.octets().len() == 16);
    }
}

/// A peer that has made a connection is known by the address and port that it came from, and by
/// nothing else.
pub proof fn law_inbound_peers_are_where_they_came_from(socket: SocketAddr, r: Peer)
    requires
        call_ensures(peer_from_socket_addr, (socket,), r),
    ensures
        r.port == socket.port,
        r.services is Unknown,
        r.version is Unknown,
        match socket.ip {
            IpAddr::V4(o) => r.address matches AddrV2::Ipv4(p) && p@ == o@,
            IpAddr::V6(o) => r.address matches AddrV2::Ipv6(p) && p@ == o@,
        },
{
}

/// Making a connection may take as long as its configuration says.
pub proof fn law_dialing_is_limited_as_configured(
    configuration: ConnectionConfiguration,
    r: Duration,
)
    requires
        call_ensures(dial_limit, (&configuration,), r),
    ensures
        r == configuration.connection_timeout,
{
}

/// A connection that could not be made in time has timed out; one that a peer has made and that
/// could not be encrypted has failed by its encryption.
pub proof fn law_failed_connections_say_why(late: ConnectionError, unencrypted: ConnectionError)
    requires
        call_ensures(dial_timed_out, (), late),
        call_ensures(inbound_encryption_failed, (), unencrypted),
    ensures
        late matches ConnectionError::TransportFailed(TransportError::Io(IoError::TimedOut(text)))
            && text@ == "Connection attempt timed out"@,
        unencrypted matches ConnectionError::TransportFailed(TransportError::Encryption),
{
}

} // verus!
