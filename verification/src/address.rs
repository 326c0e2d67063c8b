//! Networks, network addresses, and the services that peers advertise.

use crate::bytes::same_bytes;
use bitcoin::p2p::address as wire;
use vstd::prelude::*;

verus! {

/// A bitcoin network.
#[derive(Debug, Clone, Copy, PartialEq, Eq, Structural, Hash)]
pub enum Network {
    /// The main network.
    Bitcoin,
    /// The third test network.
    Testnet,
    /// The fourth test network.
    Testnet4,
    /// The signed test network.
    Signet,
    /// A local test network.
    Regtest,
}

/// The four bytes that start every plaintext message on a network.
pub open spec fn network_magic(network: Network) -> Seq<u8> {
    match network {
        Network::Bitcoin => seq![0xF9u8, 0xBEu8, 0xB4u8, 0xD9u8],
        Network::Testnet => seq![0x0Bu8, 0x11u8, 0x09u8, 0x07u8],
        Network::Testnet4 => seq![0x1Cu8, 0x16u8, 0x3Fu8, 0x28u8],
        Network::Signet => seq![0x0Au8, 0x03u8, 0xCFu8, 0x40u8],
        Network::Regtest => seq![0xFAu8, 0xBFu8, 0xB5u8, 0xDAu8],
    }
}

impl Network {
    /// The magic bytes of the network.
    ///
    /// Not proved: `bitcoin::Network::magic` and `bitcoin::p2p::Magic::to_bytes` are taken to give
    /// the four bytes that `network_magic` lists for each network.
    #[verifier::external_body]
    fn magic_bytes(self) -> (r: [u8; 4])
        ensures
            r@ == network_magic(self),
    {
        let network = match self {
            Network::Bitcoin => bitcoin::Network::Bitcoin,
            Network::Testnet => bitcoin::Network::Testnet,
            Network::Testnet4 => bitcoin::Network::Testnet4,
            Network::Signet => bitcoin::Network::Signet,
            Network::Regtest => bitcoin::Network::Regtest,
        };
        network.magic().to_bytes()
    }

    /// The magic bytes of the network.
    pub fn magic(self) -> (r: [u8; 4])
        ensures
            r@ == network_magic(self),
    {
        self.magic_bytes()
    }
}

/// A set of services, one bit for each.
#[derive(Debug, Clone, Copy, PartialEq, Eq, Structural, Hash)]
pub struct ServiceFlags {
    /// The bits of the services in the set.
    pub bits: u64,
}

/// How `bitcoin::p2p::ServiceFlags` shows a set of services.
pub uninterp spec fn service_flags_text(bits: u64) -> Seq<char>;

impl ServiceFlags {
    /// The bit of a node that serves full blocks.
    pub const NETWORK: u64 = 1;

    /// The bit of a node that serves witness data.
    pub const WITNESS: u64 = 8;

    /// The bit of a node that takes encrypted connections.
    pub const P2P_V2: u64 = 2048;

    /// No services.
    pub fn none() -> (r: ServiceFlags)
        ensures
            r.bits == 0,
    {
        ServiceFlags { bits: 0 }
    }

    /// Whether every one of some services is in the set.
    pub fn has(self, flags: ServiceFlags) -> (r: bool)
        ensures
            r == ((self.bits | flags.bits) == self.bits),
    {
        (self.bits | flags.bits) == self.bits
    }

    /// Shows the set of services.
    ///
    /// Not proved: the text is that of `Display` for `bitcoin::p2p::ServiceFlags`, which depends on
    /// the bits alone. What the text is for given bits is left unsaid.
    #[verifier::external_body]
    fn text(self) -> (r: String)
        ensures
            r@ == service_flags_text(self.bits),
    {
        bitcoin::p2p::ServiceFlags::from(self.bits).to_string()
    }

    /// Shows the set of services.
    pub fn to_string(&self) -> (r: String)
        ensures
            r@ == service_flags_text(self.bits),
    {
        self.text()
    }
}

/// An IP address, as its octets.
#[derive(Debug, Clone, Copy)]
pub enum IpAddr {
    /// An IPv4 address.
    V4([u8; 4]),
    /// An IPv6 address.
    V6([u8; 16]),
}

/// An IP address and a port.
#[derive(Debug, Clone, Copy)]
pub struct SocketAddr {
    /// The address.
    pub ip: IpAddr,
    /// The port.
    pub port: u16,
}

impl IpAddr {
    /// The octets of the address: four for IPv4, sixteen for IPv6.
    pub open spec fn octets(self) -> Seq<u8> {
        match self {
            IpAddr::V4(octets) => octets@,
            IpAddr::V6(octets) => octets@,
        }
    }
}

/// The word made of two octets, the high-order one first.
pub open spec fn word(high: u8, low: u8) -> u16 {
    (high * 256 + low) as u16
}

/// The octets of words, the high-order octet of each first.
pub open spec fn word_octets(words: Seq<u16>) -> Seq<u8> {
    Seq::new(
        2 * words.len(),
        |i: int| (if i % 2 == 0 { words[i / 2] / 256 } else { words[i / 2] % 256 }) as u8,
    )
}

/// The words of an IP address as IPv6 has them; an IPv4 address is mapped into IPv6.
pub open spec fn ip_words(octets: Seq<u8>) -> Seq<u16> {
    if octets.len() == 4 {
        seq![
            0u16,
            0u16,
            0u16,
            0u16,
            0u16,
            0xFFFFu16,
            word(octets[0], octets[1]),
            word(octets[2], octets[3]),
        ]
    } else {
        Seq::new(8, |i: int| word(octets[2 * i], octets[2 * i + 1]))
    }
}

/// Whether words hold a Tor address under the prefix that was set aside for those.
pub open spec fn is_onion(words: Seq<u16>) -> bool {
    words[0] == 0xFD87 && words[1] == 0xD87E && words[2] == 0xEB43
}

/// Whether words hold an IPv4 address, mapped into IPv6 or compatible with it.
pub open spec fn embeds_ipv4(words: Seq<u16>) -> bool {
    &&& words[0] == 0
    &&& words[1] == 0
    &&& words[2] == 0
    &&& words[3] == 0
    &&& words[4] == 0
    &&& words[5] == 0 || words[5] == 0xFFFF
}

/// The octets of the IP address that words hold; nothing for a Tor address.
pub open spec fn words_ip(words: Seq<u16>) -> Option<Seq<u8>> {
    if is_onion(words) {
        None
    } else if embeds_ipv4(words) {
        Some(word_octets(words.subrange(6, 8)))
    } else {
        Some(word_octets(words))
    }
}

/// An IPv4 address comes back from the words it was put in.
pub proof fn law_ipv4_comes_back(octets: Seq<u8>)
    requires
        octets.len() == 4,
    ensures
        words_ip(ip_words(octets)) == Some(octets),
{
    assert(word_octets(ip_words(octets).subrange(6, 8)) =~= octets);
}

/// An IPv6 address comes back from the words it was put in, unless those hold a Tor or an IPv4
/// address.
pub proof fn law_ipv6_comes_back(octets: Seq<u8>)
    requires
        octets.len() == 16,
        !is_onion(ip_words(octets)),
        !embeds_ipv4(ip_words(octets)),
    ensures
        words_ip(ip_words(octets)) == Some(octets),
{
    assert(word_octets(ip_words(octets)) =~= octets);
}

/// The words that stand for an IP address in a legacy address.
///
/// Not proved: `bitcoin::p2p::address::Address::new` is taken to put an IPv6 address in as its
/// eight segments, and an IPv4 address as those of the IPv6 address that it is mapped to.
#[verifier::external_body]
fn legacy_words(socket: &SocketAddr) -> (r: [u16; 8])
    ensures
        r@ == ip_words(socket.ip.octets()),
{
    let address = match socket.ip {
        IpAddr::V4(octets) => (octets, socket.port).into(),
        IpAddr::V6(octets) => (octets, socket.port).into(),
    };
    wire::Address::new(&address, bitcoin::p2p::ServiceFlags::NONE).address
}

/// Whether a legacy address is one of IPv4; nothing for a Tor address.
///
/// Not proved: `bitcoin::p2p::address::Address::socket_addr` is taken to fail on the words of a
/// Tor address alone, and to give an IPv4 address where one is mapped into the words or compatible
/// with them.
#[verifier::external_body]
fn legacy_is_ipv4(words: [u16; 8], port: u16) -> (r: Option<bool>)
    ensures
        r == (if is_onion(words@) {
            None
        } else {
            Some(embeds_ipv4(words@))
        }),
{
    let services = bitcoin::p2p::ServiceFlags::NONE;
    let address = wire::Address { services, address: words, port };
    address.socket_addr().ok().map(|socket| socket.is_ipv4())
}

/// The high-order octet of a word.
fn high(word: u16) -> (r: u8)
    ensures
        r == word / 256,
{
    (word / 256) as u8
}

/// The low-order octet of a word.
fn low(word: u16) -> (r: u8)
    ensures
        r == word % 256,
{
    (word % 256) as u8
}

/// A network address as legacy messages carry it.
#[derive(Debug, Clone, Copy)]
pub struct Address {
    /// The services of the node at the address.
    pub services: ServiceFlags,
    /// An IPv6 address, or an IPv4 address mapped into IPv6.
    pub address: [u16; 8],
    /// The port.
    pub port: u16,
}

/// What an `Address` stands for.
#[verifier::ext_equal]
pub struct AddressView {
    /// The services of the node at the address.
    pub services: ServiceFlags,
    /// The words of the address.
    pub address: Seq<u16>,
    /// The port.
    pub port: u16,
}

impl View for Address {
    type V = AddressView;

    open spec fn view(&self) -> AddressView {
        AddressView { services: self.services, address: self.address@, port: self.port }
    }
}

impl Address {
    /// The legacy form of a socket address.
    pub fn new(socket: &SocketAddr, services: ServiceFlags) -> (r: Address)
        ensures
            r@ == (AddressView {
                services,
                address: ip_words(socket.ip.octets()),
                port: socket.port,
            }),
    {
        Address { services, address: legacy_words(socket), port: socket.port }
    }

    /// The socket address that a legacy address stands for; nothing for a Tor address.
    pub fn socket_addr(&self) -> (r: Option<SocketAddr>)
        ensures
            match r {
                None => words_ip(self.address@) is None,
                Some(socket) => {
                    &&& words_ip(self.address@) == Some(socket.ip.octets())
                    &&& socket.port == self.port
                },
            },
    {
        let w = self.address;
        let ip = match legacy_is_ipv4(w, self.port) {
            None => return None,
            Some(true) => {
                let octets: [u8; 4] = [high(w[6]), low(w[6]), high(w[7]), low(w[7])];
                assert(octets@ =~= word_octets(w@.subrange(6, 8)));
                IpAddr::V4(octets)
            },
            Some(false) => {
                let octets: [u8; 16] = [
                    high(w[0]), low(w[0]), high(w[1]), low(w[1]),
                    high(w[2]), low(w[2]), high(w[3]), low(w[3]),
                    high(w[4]), low(w[4]), high(w[5]), low(w[5]),
                    high(w[6]), low(w[6]), high(w[7]), low(w[7]),
                ];
                assert(octets@ =~= word_octets(w@));
                IpAddr::V6(octets)
            },
        };
        Some(SocketAddr { ip, port: self.port })
    }
}

/// A network address as peers pass it on since BIP-155.
#[derive(Debug, Hash)]
pub enum AddrV2 {
    /// IPv4, as octets.
    Ipv4([u8; 4]),
    /// IPv6, as octets.
    Ipv6([u8; 16]),
    /// Tor, version two.
    TorV2([u8; 10]),
    /// Tor, version three.
    TorV3([u8; 32]),
    /// I2P.
    I2p([u8; 32]),
    /// CJDNS, as octets.
    Cjdns([u8; 16]),
    /// A network that is not one of these, by its number.
    Unknown(u8, Vec<u8>),
}

/// What an `AddrV2` stands for.
#[verifier::ext_equal]
pub enum AddrV2View {
    /// IPv4.
    Ipv4(Seq<u8>),
    /// IPv6.
    Ipv6(Seq<u8>),
    /// Tor, version two.
    TorV2(Seq<u8>),
    /// Tor, version three.
    TorV3(Seq<u8>),
    /// I2P.
    I2p(Seq<u8>),
    /// CJDNS.
    Cjdns(Seq<u8>),
    /// Another network.
    Unknown(u8, Seq<u8>),
}

impl View for AddrV2 {
    type V = AddrV2View;

    open spec fn view(&self) -> AddrV2View {
        match self {
            AddrV2::Ipv4(octets) => AddrV2View::Ipv4(octets@),
            AddrV2::Ipv6(octets) => AddrV2View::Ipv6(octets@),
            AddrV2::TorV2(bytes) => AddrV2View::TorV2(bytes@),
            AddrV2::TorV3(bytes) => AddrV2View::TorV3(bytes@),
            AddrV2::I2p(bytes) => AddrV2View::I2p(bytes@),
            AddrV2::Cjdns(octets) => AddrV2View::Cjdns(octets@),
            AddrV2::Unknown(network, bytes) => AddrV2View::Unknown(*network, bytes@),
        }
    }
}

/// An address that a peer passes on.
#[derive(Debug)]
pub struct AddrV2Message {
    /// When the node at the address was last seen.
    pub time: u32,
    /// The services of the node at the address.
    pub services: ServiceFlags,
    /// The address.
    pub addr: AddrV2,
    /// The port, or zero where the network has none.
    pub port: u16,
}

/// What an `AddrV2Message` stands for.
#[verifier::ext_equal]
pub struct AddrV2MessageView {
    /// When the node at the address was last seen.
    pub time: u32,
    /// The services of the node at the address.
    pub services: ServiceFlags,
    /// The address.
    pub addr: AddrV2View,
    /// The port.
    pub port: u16,
}

impl View for AddrV2Message {
    type V = AddrV2MessageView;

    open spec fn view(&self) -> AddrV2MessageView {
        AddrV2MessageView {
            time: self.time,
            services: self.services,
            addr: self.addr@,
            port: self.port,
        }
    }
}

/// How `bitcoin::p2p::address::AddrV2` shows an address for debugging.
pub uninterp spec fn addr_v2_text(address: AddrV2View) -> Seq<char>;

impl AddrV2 {
    /// Shows the address.
    ///
    /// Not proved: the text is that of `Debug` for `bitcoin::p2p::address::AddrV2`, which depends
    /// on the address alone. What the text is for a given address is left unsaid.
    #[verifier::external_body]
    pub(crate) fn text(&self) -> (r: String)
        ensures
            r@ == addr_v2_text(self@),
    {
        let address = match self {
            AddrV2::Ipv4(octets) => wire::AddrV2::Ipv4((*octets).into()),
            AddrV2::Ipv6(octets) => wire::AddrV2::Ipv6((*octets).into()),
            AddrV2::TorV2(bytes) => wire::AddrV2::TorV2(*bytes),
            AddrV2::TorV3(bytes) => wire::AddrV2::TorV3(*bytes),
            AddrV2::I2p(bytes) => wire::AddrV2::I2p(*bytes),
            AddrV2::Cjdns(octets) => wire::AddrV2::Cjdns((*octets).into()),
            AddrV2::Unknown(network, bytes) => wire::AddrV2::Unknown(*network, bytes.clone()),
        };
        format!("{address:?}")
    }

    /// The octets of an IP address; nothing for an address of another network.
    pub fn ip(&self) -> (r: Option<IpAddr>)
        ensures
            match r {
                Some(ip) => self@.ip() == Some(ip.octets()),
                None => self@.ip() is None,
            },
    {
        match self {
            AddrV2::Ipv4(octets) => Some(IpAddr::V4(*octets)),
            AddrV2::Ipv6(octets) => Some(IpAddr::V6(*octets)),
            _ => None,
        }
    }
}

impl AddrV2View {
    /// The octets of an IP address; nothing for an address of another network.
    pub open spec fn ip(self) -> Option<Seq<u8>> {
        match self {
            AddrV2View::Ipv4(octets) => Some(octets),
            AddrV2View::Ipv6(octets) => Some(octets),
            _ => None,
        }
    }

    /// The address of an IP host: IPv4 for four octets, IPv6 for sixteen.
    pub open spec fn of_ip(octets: Seq<u8>) -> AddrV2View {
        if octets.len() == 4 {
            AddrV2View::Ipv4(octets)
        } else {
            AddrV2View::Ipv6(octets)
        }
    }
}

impl IpAddr {
    /// The address in the form that peers pass it on.
    pub fn to_addr_v2(self) -> (r: AddrV2)
        ensures
            r@ == AddrV2View::of_ip(self.octets()),
    {
        match self {
            IpAddr::V4(octets) => AddrV2::Ipv4(octets),
            IpAddr::V6(octets) => AddrV2::Ipv6(octets),
        }
    }
}

impl Clone for AddrV2 {
    fn clone(&self) -> (r: AddrV2)
        ensures
            r@ == self@,
    {
        match self {
            AddrV2::Ipv4(octets) => AddrV2::Ipv4(*octets),
            AddrV2::Ipv6(octets) => AddrV2::Ipv6(*octets),
            AddrV2::TorV2(bytes) => AddrV2::TorV2(*bytes),
            AddrV2::TorV3(bytes) => AddrV2::TorV3(*bytes),
            AddrV2::I2p(bytes) => AddrV2::I2p(*bytes),
            AddrV2::Cjdns(octets) => AddrV2::Cjdns(*octets),
            AddrV2::Unknown(network, bytes) => AddrV2::Unknown(*network, bytes.clone()),
        }
    }
}

impl PartialEq for AddrV2 {
    fn eq(&self, other: &AddrV2) -> (r: bool) {
        match (self, other) {
            (AddrV2::Ipv4(a), AddrV2::Ipv4(b)) => same_bytes(a.as_slice(), b.as_slice()),
            (AddrV2::Ipv6(a), AddrV2::Ipv6(b)) => same_bytes(a.as_slice(), b.as_slice()),
            (AddrV2::TorV2(a), AddrV2::TorV2(b)) => same_bytes(a.as_slice(), b.as_slice()),
            (AddrV2::TorV3(a), AddrV2::TorV3(b)) => same_bytes(a.as_slice(), b.as_slice()),
            (AddrV2::I2p(a), AddrV2::I2p(b)) => same_bytes(a.as_slice(), b.as_slice()),
            (AddrV2::Cjdns(a), AddrV2::Cjdns(b)) => same_bytes(a.as_slice(), b.as_slice()),
            (AddrV2::Unknown(n, a), AddrV2::Unknown(m, b)) => {
                *n == *m && same_bytes(a.as_slice(), b.as_slice())
            },
            _ => false,
        }
    }
}

impl Eq for AddrV2 {

}

impl vstd::std_specs::cmp::PartialEqSpecImpl for AddrV2 {
    open spec fn obeys_eq_spec() -> bool {
        true
    }

    open spec fn eq_spec(&self, other: &AddrV2) -> bool {
        self@ == other@
    }
}

/// Each network has magic bytes of its own, which are those of the main network and of the four
/// test networks.
pub proof fn law_magic_bytes_are_those_of_the_network(network: Network, r: [u8; 4])
    requires
        call_ensures(Network::magic, (network,), r),
    ensures
        match network {
            Network::Bitcoin => r@ == seq![0xF9u8, 0xBEu8, 0xB4u8, 0xD9u8],
            Network::Testnet => r@ == seq![0x0Bu8, 0x11u8, 0x09u8, 0x07u8],
            Network::Testnet4 => r@ == seq![0x1Cu8, 0x16u8, 0x3Fu8, 0x28u8],
            Network::Signet => r@ == seq![0x0Au8, 0x03u8, 0xCFu8, 0x40u8],
            Network::Regtest => r@ == seq![0xFAu8, 0xBFu8, 0xB5u8, 0xDAu8],
        },
{
}

/// Two networks have the same magic bytes only where they are the same network.
pub proof fn law_magic_bytes_tell_networks_apart(a: Network, b: Network)
    ensures
        network_magic(a).len() == 4,
        a != b ==> network_magic(a) != network_magic(b),
{
    assert(network_magic(a)[0] != network_magic(b)[0] || a == b);
}

/// A set has some services exactly when it has all of their bits.
pub proof fn law_services_are_had_bit_by_bit(set: ServiceFlags, flags: ServiceFlags, r: bool)
    requires
        call_ensures(ServiceFlags::has, (set, flags), r),
    ensures
        r <==> set.bits & flags.bits == flags.bits,
{
    let s = set.bits;
    let f = flags.bits;
    assert((s | f) == s <==> s & f == f) by (bit_vector);
}

/// The legacy form of a socket address keeps its port and its octets, two to a word: an IPv6
/// address fills the eight words, an IPv4 address the last two, after five zeros and a word of
/// ones.
pub proof fn law_legacy_form_keeps_the_address(
    socket: SocketAddr,
    services: ServiceFlags,
    r: Address,
)
    requires
        call_ensures(Address::new, (&socket, services), r),
    ensures
        r.services == services,
        r.port == socket.port,
        match socket.ip {
            IpAddr::V4(o) => {
                &&& forall|i: int| 0 <= i < 5 ==> #[trigger] r.address@[i] == 0
                &&& r.address@[5] == 0xFFFF
                &&& r.address@[6] == o@[0] * 256 + o@[1]
                &&& r.address@[7] == o@[2] * 256 + o@[3]
            },
            IpAddr::V6(o) => forall|i: int|
                0 <= i < 8 ==> #[trigger] r.address@[i] == o@[2 * i] * 256 + o@[2 * i + 1],
        },
{
    let words = ip_words(socket.ip.octets());
    assert(r@.address == words);
}

/// A legacy address stands for a socket address unless it starts with the prefix that was set aside
/// for Tor. The port is the same; the octets are those of the words, the high-order octet first: of
/// the last two words where the others embed an IPv4 address, else of all eight.
pub proof fn law_legacy_form_gives_the_address(address: Address, r: Option<SocketAddr>)
    requires
        call_ensures(Address::socket_addr, (&address,), r),
    ensures
        ({
            let w = address.address@;
            let tor = w[0] == 0xFD87 && w[1] == 0xD87E && w[2] == 0xEB43;
            let embedded = w[0] == 0 && w[1] == 0 && w[2] == 0 && w[3] == 0 && w[4] == 0 && (w[5]
                == 0 || w[5] == 0xFFFF);
            match r {
                None => tor,
                Some(socket) => {
                    &&& !tor
                    &&& socket.port == address.port
                    &&& match socket.ip {
                        IpAddr::V4(o) => {
                            &&& embedded
                            &&& o@[0] * 256 + o@[1] == w[6]
                            &&& o@[2] * 256 + o@[3] == w[7]
                        },
                        IpAddr::V6(o) => {
                            &&& !embedded
                            &&& forall|i: int|
                                0 <= i < 8 ==> o@[2 * i] * 256 + o@[2 * i + 1] == #[trigger] w[i]
                        },
                    }
                },
            }
        }),
{
    let w = address.address@;
    if let Some(socket) = r {
        let octets = socket.ip.octets();
        if embeds_ipv4(w) {
            let last = w.subrange(6, 8);
            assert(octets == word_octets(last));
            assert(last[0] == w[6] && last[1] == w[7]);
            assert(octets[0] == last[0] / 256 && octets[1] == last[0] % 256);
            assert(octets[2] == last[1] / 256 && octets[3] == last[1] % 256);
        } else {
            assert(octets == word_octets(w));
            assert forall|i: int| 0 <= i < 8 implies octets[2 * i] * 256 + octets[2 * i + 1]
                == #[trigger] w[i] by {
                assert((2 * i) / 2 == i && (2 * i + 1) / 2 == i);
                assert(octets[2 * i] == w[i] / 256);
                assert(octets[2 * i + 1] == w[i] % 256);
            }
        }
    }
}

/// An address stands for its network and its bytes, and nothing else.
pub proof fn law_addresses_stand_for_their_bytes(address: AddrV2)
    ensures
        match address {
            AddrV2::Ipv4(octets) => address@ == AddrV2View::Ipv4(octets@),
            AddrV2::Ipv6(octets) => address@ == AddrV2View::Ipv6(octets@),
            AddrV2::TorV2(bytes) => address@ == AddrV2View::TorV2(bytes@),
            AddrV2::TorV3(bytes) => address@ == AddrV2View::TorV3(bytes@),
            AddrV2::I2p(bytes) => address@ == AddrV2View::I2p(bytes@),
            AddrV2::Cjdns(octets) => address@ == AddrV2View::Cjdns(octets@),
            AddrV2::Unknown(network, bytes) => address@ == AddrV2View::Unknown(network, bytes@),
        },
{
}

/// An IP address keeps its octets when it is put in the form that peers pass on, and gets them back
/// from it; an address of another network is no IP address.
pub proof fn law_ip_addresses_keep_their_octets(
    ip: IpAddr,
    passed_on: AddrV2,
    address: AddrV2,
    back: Option<IpAddr>,
)
    requires
        call_ensures(IpAddr::to_addr_v2, (ip,), passed_on),
        call_ensures(AddrV2::ip, (&address,), back),
    ensures
        match ip {
            IpAddr::V4(o) => passed_on matches AddrV2::Ipv4(p) && p@ == o@,
            IpAddr::V6(o) => passed_on matches AddrV2::Ipv6(p) && p@ == o@,
        },
        match address {
            AddrV2::Ipv4(o) => back matches Some(IpAddr::V4(p)) && p@ == o@,
            AddrV2::Ipv6(o) => back matches Some(IpAddr::V6(p)) && p@ == o@,
            _ => back is None,
        },
{
    assert(passed_on@ == AddrV2View::of_ip(ip.octets()));
    if let Some(found) = back {
        assert(found.octets().len() == 4 || found.octets().len() == 16);
    }
}

} // verus!
