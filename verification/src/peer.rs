//! Peers of the bitcoin network, and what is known of them.

use crate::address::{addr_v2_text, service_flags_text, AddrV2, AddrV2View, ServiceFlags};
use crate::text::{decimal, decimal_text};
use vstd::prelude::*;

verus! {

/// The lowest protocol version that is compatible with today's nodes.
pub const MIN_PROTOCOL_VERSION: u32 = 70001;

/// The lowest protocol version with `addrv2` messages (BIP-155).
pub const ADDRV2_MIN_PROTOCOL_VERSION: u32 = 70016;

/// The lowest protocol version with `sendheaders` messages (BIP-130).
pub const SENDHEADERS_MIN_PROTOCOL_VERSION: u32 = 70012;

/// The lowest protocol version with `wtxidrelay` messages (BIP-339).
pub const WTXID_RELAY_MIN_PROTOCOL_VERSION: u32 = 70016;

/// The services of a peer, as far as they are known.
#[derive(Debug, Clone, Copy, PartialEq, Eq, Structural, Hash)]
pub enum PeerServices {
    /// The services are known.
    Known(ServiceFlags),
    /// The services are not known.
    Unknown,
}

impl PeerServices {
    /// The services as text.
    pub open spec fn shown(self) -> Seq<char> {
        match self {
            PeerServices::Known(flags) => service_flags_text(flags.bits),
            PeerServices::Unknown => "unknown"@,
        }
    }

    /// Shows the services.
    pub fn to_string(&self) -> (r: String)
        ensures
            r@ == self.shown(),
    {
        match self {
            PeerServices::Known(flags) => flags.to_string(),
            PeerServices::Unknown => "unknown".to_owned(),
        }
    }
}

/// The protocol version of a peer, as far as it is known.
#[derive(Debug, Clone, Copy, PartialEq, Eq, Structural, Hash)]
pub enum PeerProtocolVersion {
    /// The version is known.
    Known(u32),
    /// The version is not known.
    Unknown,
}

impl PeerProtocolVersion {
    /// The version where it is known, else a default.
    pub open spec fn or(self, default: u32) -> u32 {
        match self {
            PeerProtocolVersion::Known(version) => version,
            PeerProtocolVersion::Unknown => default,
        }
    }

    /// The version where it is known, else a default.
    pub fn unwrap_or(self, default: u32) -> (r: u32)
        ensures
            r == self.or(default),
    {
        match self {
            PeerProtocolVersion::Known(version) => version,
            PeerProtocolVersion::Unknown => default,
        }
    }

    /// The version as text.
    pub open spec fn shown(self) -> Seq<char> {
        match self {
            PeerProtocolVersion::Known(version) => decimal(version as nat),
            PeerProtocolVersion::Unknown => "unknown"@,
        }
    }

    /// Shows the version.
    pub fn to_string(&self) -> (r: String)
        ensures
            r@ == self.shown(),
    {
        match self {
            PeerProtocolVersion::Known(version) => decimal_text(*version as u64),
            PeerProtocolVersion::Unknown => "unknown".to_owned(),
        }
    }
}

/// A peer of the bitcoin network.
#[derive(Debug, Hash)]
pub struct Peer {
    /// Where the peer is.
    pub address: AddrV2,
    /// The port that the peer listens on.
    pub port: u16,
    /// The services that the peer advertises.
    pub services: PeerServices,
    /// The protocol version of the peer.
    pub version: PeerProtocolVersion,
}

/// What a `Peer` stands for.
#[verifier::ext_equal]
pub struct PeerView {
    /// Where the peer is.
    pub address: AddrV2View,
    /// The port that the peer listens on.
    pub port: u16,
    /// The services that the peer advertises.
    pub services: PeerServices,
    /// The protocol version of the peer.
    pub version: PeerProtocolVersion,
}

impl View for Peer {
    type V = PeerView;

    open spec fn view(&self) -> PeerView {
        PeerView {
            address: self.address@,
            port: self.port,
            services: self.services,
            version: self.version,
        }
    }
}

impl PeerView {
    /// Whether the peer advertises a service.
    pub open spec fn advertises(self, service: ServiceFlags) -> bool {
        match self.services {
            PeerServices::Known(flags) => (flags.bits | service.bits) == flags.bits,
            PeerServices::Unknown => false,
        }
    }

    /// The peer as text.
    pub open spec fn shown(self) -> Seq<char> {
        addr_v2_text(self.address) + ":"@ + decimal(self.port as nat) + " ([peer] services: "@
            + self.services.shown() + ", version: "@ + self.version.shown() + ")"@
    }
}

impl Peer {
    /// A peer of which nothing is known but where it is.
    pub fn new(address: AddrV2, port: u16) -> (r: Peer)
        ensures
            r@ == (PeerView {
                address: address@,
                port,
                services: PeerServices::Unknown,
                version: PeerProtocolVersion::Unknown,
            }),
    {
        Peer {
            address,
            port,
            services: PeerServices::Unknown,
            version: PeerProtocolVersion::Unknown,
        }
    }

    /// A peer whose services are known, as another peer passed it on.
    pub fn with_services(address: AddrV2, port: u16, services: ServiceFlags) -> (r: Peer)
        ensures
            r@ == (PeerView {
                address: address@,
                port,
                services: PeerServices::Known(services),
                version: PeerProtocolVersion::Unknown,
            }),
    {
        Peer {
            address,
            port,
            services: PeerServices::Known(services),
            version: PeerProtocolVersion::Unknown,
        }
    }

    /// Whether the peer advertises a service.
    pub fn has_service(&self, service: ServiceFlags) -> (r: bool)
        ensures
            r == self@.advertises(service),
    {
        match self.services {
            PeerServices::Known(flags) => flags.has(service),
            PeerServices::Unknown => false,
        }
    }

    /// The same peer with services that are now known.
    pub fn with_known_services(&self, services: ServiceFlags) -> (r: Peer)
        ensures
            r@ == (PeerView { services: PeerServices::Known(services), ..self@ }),
    {
        Peer {
            address: self.address.clone(),
            port: self.port,
            services: PeerServices::Known(services),
            version: self.version,
        }
    }

    /// The same peer with a version that is now known.
    pub fn with_known_version(&self, version: u32) -> (r: Peer)
        ensures
            r@ == (PeerView { version: PeerProtocolVersion::Known(version), ..self@ }),
    {
        Peer {
            address: self.address.clone(),
            port: self.port,
            services: self.services,
            version: PeerProtocolVersion::Known(version),
        }
    }

    /// Shows the peer.
    pub fn to_string(&self) -> (r: String)
        ensures
            r@ == self@.shown(),
    {
        let mut text = self.address.text();
        text.append(":");
        text.append(decimal_text(self.port as u64).as_str());
        text.append(" ([peer] services: ");
        text.append(self.services.to_string().as_str());
        text.append(", version: ");
        text.append(self.version.to_string().as_str());
        text.append(")");
        text
    }
}

impl Clone for Peer {
    fn clone(&self) -> (r: Peer)
        ensures
            r@ == self@,
    {
        Peer {
            address: self.address.clone(),
            port: self.port,
            services: self.services,
            version: self.version,
        }
    }
}

impl PartialEq for Peer {
    fn eq(&self, other: &Peer) -> (r: bool) {
        self.address == other.address && self.port == other.port && self.services == other.services
            && self.version == other.version
    }
}

impl Eq for Peer {

}

impl vstd::std_specs::cmp::PartialEqSpecImpl for Peer {
    open spec fn obeys_eq_spec() -> bool {
        true
    }

    open spec fn eq_spec(&self, other: &Peer) -> bool {
        self@ == other@
    }
}

/// A peer stands for its address, its port, its services and its version, as they are.
pub proof fn law_peers_stand_for_what_is_known_of_them(peer: Peer)
    ensures
        peer@.address == peer.address@,
        peer@.port == peer.port,
        peer@.services == peer.services,
        peer@.version == peer.version,
{
}

/// A peer is made of what is given: nothing more is known of a peer that was only named, and the
/// services of a peer that was passed on are those that were given.
pub proof fn law_peers_are_made_of_what_is_given(
    address: AddrV2,
    port: u16,
    services: ServiceFlags,
    named: Peer,
    passed_on: Peer,
)
    requires
        call_ensures(Peer::new, (address, port), named),
        call_ensures(Peer::with_services, (address, port, services), passed_on),
    ensures
        named.address@ == address@ && passed_on.address@ == address@,
        named.port == port && passed_on.port == port,
        named.services is Unknown,
        passed_on.services == PeerServices::Known(services),
        named.version is Unknown && passed_on.version is Unknown,
{
}

/// A peer advertises a service exactly when its services are known and hold every bit of it.
pub proof fn law_services_are_advertised_bit_by_bit(peer: Peer, service: ServiceFlags, r: bool)
    requires
        call_ensures(Peer::has_service, (&peer, service), r),
    ensures
        r <==> (peer.services matches PeerServices::Known(flags) && flags.bits & service.bits
            == service.bits),
{
    if let PeerServices::Known(flags) = peer.services {
        let s = flags.bits;
        let f = service.bits;
        assert((s | f) == s <==> s & f == f) by (bit_vector);
    }
}

/// What becomes known of a peer replaces what was known of it, and changes nothing else.
pub proof fn law_knowledge_of_peers_is_replaced(
    peer: Peer,
    services: ServiceFlags,
    version: u32,
    with_services: Peer,
    with_version: Peer,
)
    requires
        call_ensures(Peer::with_known_services, (&peer, services), with_services),
        call_ensures(Peer::with_known_version, (&peer, version), with_version),
    ensures
        with_services.services == PeerServices::Known(services),
        with_services.version == peer.version,
        with_services.address@ == peer.address@ && with_services.port == peer.port,
        with_version.version == PeerProtocolVersion::Known(version),
        with_version.services == peer.services,
        with_version.address@ == peer.address@ && with_version.port == peer.port,
{
}

/// A version that is not known is taken to be the default, and one that is known is not.
pub proof fn law_unknown_versions_are_the_default(
    version: PeerProtocolVersion,
    default: u32,
    r: u32,
)
    requires
        call_ensures(PeerProtocolVersion::unwrap_or, (version, default), r),
    ensures
        match version {
            PeerProtocolVersion::Known(number) => r == number,
            PeerProtocolVersion::Unknown => r == default,
        },
{
}

/// The text of a peer is made of those of its address, its port, its services and its version, and
/// what is not known is said to be so.
pub proof fn law_peers_are_shown_part_by_part(
    peer: Peer,
    services: String,
    version: String,
    r: String,
)
    requires
        call_ensures(PeerServices::to_string, (&peer.services,), services),
        call_ensures(PeerProtocolVersion::to_string, (&peer.version,), version),
        call_ensures(Peer::to_string, (&peer,), r),
    ensures
        r@ == addr_v2_text(peer.address@) + ":"@ + decimal(peer.port as nat)
            + " ([peer] services: "@ + services@ + ", version: "@ + version@ + ")"@,
        peer.services is Unknown ==> services@ == "unknown"@,
        peer.services matches PeerServices::Known(flags) ==> services@ == service_flags_text(
            flags.bits,
        ),
        peer.version is Unknown ==> version@ == "unknown"@,
        peer.version matches PeerProtocolVersion::Known(number) ==> version@ == decimal(
            number as nat,
        ),
{
}

} // verus!
