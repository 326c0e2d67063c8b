//! The messages that peers send each other.

use crate::address::{AddrV2Message, AddrV2MessageView, Address, AddressView, ServiceFlags};
use crate::bytes::{
    byte_values, law_eight_bytes_count_upwards, le_bytes, le_value, lemma_le_bytes,
    lemma_le_value_bound, read_u64, write_u64,
};
use crate::text::same_text;
use crate::wire::{
    addr_entries, addr_payload, addr_v2_entries, addr_v2_payload, canonical, decode_addr,
    decode_addr_v2, decode_version, encode_addr, encode_addr_v2, encode_version, has_meaning,
    is_command, parsable, relayable, standard, version_fields, version_payload, WireMessage,
    MAX_USER_AGENT_BYTES,
};
use vstd::pervasive::unreached;
use vstd::prelude::*;
use vstd::utf8::encode_utf8;

verus! {

/// How a node introduces itself.
#[derive(Debug)]
pub struct VersionMessage {
    /// The protocol version of the node.
    pub version: u32,
    /// The services of the node.
    pub services: ServiceFlags,
    /// When the message was sent, in seconds since the Unix epoch.
    pub timestamp: i64,
    /// Where the receiver of the message is.
    pub receiver: Address,
    /// Where the sender of the message is.
    pub sender: Address,
    /// A number by which a node recognizes a connection to itself.
    pub nonce: u64,
    /// The software of the node.
    pub user_agent: String,
    /// The height of the chain that the node knows.
    pub start_height: i32,
    /// Whether the receiver should relay transactions.
    pub relay: bool,
}

/// What a `VersionMessage` stands for.
#[verifier::ext_equal]
pub struct VersionView {
    /// The protocol version of the node.
    pub version: u32,
    /// The services of the node.
    pub services: ServiceFlags,
    /// When the message was sent.
    pub timestamp: i64,
    /// Where the receiver of the message is.
    pub receiver: AddressView,
    /// Where the sender of the message is.
    pub sender: AddressView,
    /// A number by which a node recognizes a connection to itself.
    pub nonce: u64,
    /// The software of the node.
    pub user_agent: Seq<char>,
    /// The height of the chain that the node knows.
    pub start_height: i32,
    /// Whether the receiver should relay transactions.
    pub relay: bool,
}

impl View for VersionMessage {
    type V = VersionView;

    open spec fn view(&self) -> VersionView {
        VersionView {
            version: self.version,
            services: self.services,
            timestamp: self.timestamp,
            receiver: self.receiver@,
            sender: self.sender@,
            nonce: self.nonce,
            user_agent: self.user_agent@,
            start_height: self.start_height,
            relay: self.relay,
        }
    }
}

/// A message of the bitcoin network.
#[derive(Debug)]
pub enum NetworkMessage {
    /// How a node introduces itself.
    Version(VersionMessage),
    /// The answer to an introduction.
    Verack,
    /// Asks for addresses of peers.
    GetAddr,
    /// Asks for addresses in the form of BIP-155.
    SendAddrV2,
    /// Asks for new blocks to be announced by their headers.
    SendHeaders,
    /// Asks for transactions to be announced by their witness identifiers.
    WtxidRelay,
    /// Addresses of peers, each with the time it was last seen.
    Addr(Vec<(u32, Address)>),
    /// Addresses of peers in the form of BIP-155.
    AddrV2(Vec<AddrV2Message>),
    /// Asks for a pong with the same number.
    Ping(u64),
    /// The answer to a ping.
    Pong(u64),
    /// Any other message whose command has a meaning, by its command and its payload.
    Other(String, Vec<u8>),
    /// A message whose command has no meaning, by its command and its payload.
    Unknown(String, Vec<u8>),
}

/// What a `NetworkMessage` stands for.
#[verifier::ext_equal]
pub enum NetworkMessageView {
    /// How a node introduces itself.
    Version(VersionView),
    /// The answer to an introduction.
    Verack,
    /// Asks for addresses of peers.
    GetAddr,
    /// Asks for addresses in the form of BIP-155.
    SendAddrV2,
    /// Asks for new blocks to be announced by their headers.
    SendHeaders,
    /// Asks for transactions to be announced by their witness identifiers.
    WtxidRelay,
    /// Addresses of peers.
    Addr(Seq<(u32, AddressView)>),
    /// Addresses of peers in the form of BIP-155.
    AddrV2(Seq<AddrV2MessageView>),
    /// Asks for a pong with the same number.
    Ping(u64),
    /// The answer to a ping.
    Pong(u64),
    /// Any other message whose command has a meaning.
    Other(Seq<char>, Seq<u8>),
    /// A message whose command has no meaning.
    Unknown(Seq<char>, Seq<u8>),
}

/// What a list of legacy addresses stands for.
pub open spec fn addr_list(list: Seq<(u32, Address)>) -> Seq<(u32, AddressView)> {
    list.map_values(|entry: (u32, Address)| (entry.0, entry.1@))
}

/// What a list of addresses in the form of BIP-155 stands for.
pub open spec fn addr_v2_list(list: Seq<AddrV2Message>) -> Seq<AddrV2MessageView> {
    list.map_values(|entry: AddrV2Message| entry@)
}

impl View for NetworkMessage {
    type V = NetworkMessageView;

    open spec fn view(&self) -> NetworkMessageView {
        match self {
            NetworkMessage::Version(version) => NetworkMessageView::Version(version@),
            NetworkMessage::Verack => NetworkMessageView::Verack,
            NetworkMessage::GetAddr => NetworkMessageView::GetAddr,
            NetworkMessage::SendAddrV2 => NetworkMessageView::SendAddrV2,
            NetworkMessage::SendHeaders => NetworkMessageView::SendHeaders,
            NetworkMessage::WtxidRelay => NetworkMessageView::WtxidRelay,
            NetworkMessage::Addr(list) => NetworkMessageView::Addr(addr_list(list@)),
            NetworkMessage::AddrV2(list) => NetworkMessageView::AddrV2(addr_v2_list(list@)),
            NetworkMessage::Ping(nonce) => NetworkMessageView::Ping(*nonce),
            NetworkMessage::Pong(nonce) => NetworkMessageView::Pong(*nonce),
            NetworkMessage::Other(command, payload) => {
                NetworkMessageView::Other(command@, payload@)
            },
            NetworkMessage::Unknown(command, payload) => {
                NetworkMessageView::Unknown(command@, payload@)
            },
        }
    }
}

impl NetworkMessageView {
    /// The command of the message.
    pub open spec fn command(self) -> Seq<char> {
        match self {
            NetworkMessageView::Version(_) => "version"@,
            NetworkMessageView::Verack => "verack"@,
            NetworkMessageView::GetAddr => "getaddr"@,
            NetworkMessageView::SendAddrV2 => "sendaddrv2"@,
            NetworkMessageView::SendHeaders => "sendheaders"@,
            NetworkMessageView::WtxidRelay => "wtxidrelay"@,
            NetworkMessageView::Addr(_) => "addr"@,
            NetworkMessageView::AddrV2(_) => "addrv2"@,
            NetworkMessageView::Ping(_) => "ping"@,
            NetworkMessageView::Pong(_) => "pong"@,
            NetworkMessageView::Other(command, _) => command,
            NetworkMessageView::Unknown(command, _) => command,
        }
    }

    /// The payload of the message.
    pub open spec fn payload(self) -> Seq<u8> {
        match self {
            NetworkMessageView::Version(version) => version_payload(version),
            NetworkMessageView::Addr(list) => addr_payload(list),
            NetworkMessageView::AddrV2(list) => addr_v2_payload(list),
            NetworkMessageView::Ping(nonce) => le_bytes(nonce as nat, 8),
            NetworkMessageView::Pong(nonce) => le_bytes(nonce as nat, 8),
            NetworkMessageView::Other(_, payload) => payload,
            NetworkMessageView::Unknown(_, payload) => payload,
            _ => Seq::empty(),
        }
    }

    /// Whether the message is one that a peer reads as it was written: the user agent of a version
    /// message is not too long, each address of a list may be passed on, another message is not one
    /// of the kinds that have a name here and has a payload that its command gives back unchanged,
    /// and the command of an unknown message has no meaning.
    pub open spec fn readable(self) -> bool {
        match self {
            NetworkMessageView::Version(version) => {
                encode_utf8(version.user_agent).len() <= MAX_USER_AGENT_BYTES
            },
            NetworkMessageView::AddrV2(list) => {
                forall|i: int| 0 <= i < list.len() ==> relayable((#[trigger] list[i]).addr)
            },
            NetworkMessageView::Other(command, payload) => {
                &&& is_command(command)
                &&& canonical(command, payload)
                &&& interpretation(true, command, payload) == self
            },
            NetworkMessageView::Unknown(command, _) => {
                is_command(command) && !has_meaning(command)
            },
            _ => true,
        }
    }
}

/// The message with a command and a payload; `known` says whether the command has a meaning.
pub open spec fn interpretation(
    known: bool,
    command: Seq<char>,
    payload: Seq<u8>,
) -> NetworkMessageView {
    if !known {
        NetworkMessageView::Unknown(command, payload)
    } else if command == "version"@ {
        NetworkMessageView::Version(version_fields(payload)->0)
    } else if command == "verack"@ {
        NetworkMessageView::Verack
    } else if command == "getaddr"@ {
        NetworkMessageView::GetAddr
    } else if command == "sendaddrv2"@ {
        NetworkMessageView::SendAddrV2
    } else if command == "sendheaders"@ {
        NetworkMessageView::SendHeaders
    } else if command == "wtxidrelay"@ {
        NetworkMessageView::WtxidRelay
    } else if command == "addr"@ {
        NetworkMessageView::Addr(addr_entries(payload)->0)
    } else if command == "addrv2"@ {
        NetworkMessageView::AddrV2(addr_v2_entries(payload)->0)
    } else if command == "ping"@ {
        NetworkMessageView::Ping(le_value(payload) as u64)
    } else if command == "pong"@ {
        NetworkMessageView::Pong(le_value(payload) as u64)
    } else {
        NetworkMessageView::Other(command, payload)
    }
}

/// The commands that have a meaning here differ from each other.
proof fn lemma_commands_differ()
    ensures
        "verack"@ != "version"@,
        "getaddr"@ != "version"@ && "getaddr"@ != "verack"@,
        "sendaddrv2"@ != "version"@ && "sendaddrv2"@ != "verack"@ && "sendaddrv2"@ != "getaddr"@,
        "sendheaders"@ != "version"@ && "sendheaders"@ != "verack"@ && "sendheaders"@ != "getaddr"@
            && "sendheaders"@ != "sendaddrv2"@,
        "wtxidrelay"@ != "version"@ && "wtxidrelay"@ != "verack"@ && "wtxidrelay"@ != "getaddr"@
            && "wtxidrelay"@ != "sendaddrv2"@ && "wtxidrelay"@ != "sendheaders"@,
        "addr"@.len() == 4 && "ping"@.len() == 4 && "pong"@.len() == 4 && "addrv2"@.len() == 6,
        "version"@.len() == 7 && "verack"@.len() == 6 && "getaddr"@.len() == 7,
        "sendaddrv2"@.len() == 10 && "sendheaders"@.len() == 11 && "wtxidrelay"@.len() == 10,
        "addrv2"@ != "verack"@,
        "ping"@ != "addr"@ && "pong"@ != "addr"@ && "pong"@ != "ping"@,
{
    reveal_strlit("version");
    reveal_strlit("verack");
    reveal_strlit("getaddr");
    reveal_strlit("sendaddrv2");
    reveal_strlit("sendheaders");
    reveal_strlit("wtxidrelay");
    reveal_strlit("addr");
    reveal_strlit("addrv2");
    reveal_strlit("ping");
    reveal_strlit("pong");
    assert("version"@.len() == 7 && "verack"@.len() == 6 && "getaddr"@.len() == 7);
    assert("sendaddrv2"@.len() == 10 && "sendheaders"@.len() == 11 && "wtxidrelay"@.len() == 10);
    assert("getaddr"@[0] == 'g' && "version"@[0] == 'v');
    assert("sendaddrv2"@[0] == 's' && "wtxidrelay"@[0] == 'w');
    assert("addrv2"@[0] == 'a' && "verack"@[0] == 'v');
    assert("ping"@[1] == 'i' && "pong"@[1] == 'o' && "addr"@[1] == 'd');
}

impl NetworkMessage {
    /// The command of the message.
    pub fn command(&self) -> (r: &str)
        ensures
            r@ == self@.command(),
    {
        match self {
            NetworkMessage::Version(_) => "version",
            NetworkMessage::Verack => "verack",
            NetworkMessage::GetAddr => "getaddr",
            NetworkMessage::SendAddrV2 => "sendaddrv2",
            NetworkMessage::SendHeaders => "sendheaders",
            NetworkMessage::WtxidRelay => "wtxidrelay",
            NetworkMessage::Addr(_) => "addr",
            NetworkMessage::AddrV2(_) => "addrv2",
            NetworkMessage::Ping(_) => "ping",
            NetworkMessage::Pong(_) => "pong",
            NetworkMessage::Other(command, _) => command.as_str(),
            NetworkMessage::Unknown(command, _) => command.as_str(),
        }
    }

    /// The payload of the message.
    pub fn payload(&self) -> (r: Vec<u8>)
        ensures
            r@ == self@.payload(),
            self@.readable() && !(self@ is Other) && !(self@ is Unknown) ==> {
                &&& standard(self@.command(), r@)
                &&& interpretation(true, self@.command(), r@) == self@
            },
    {
        proof {
            lemma_commands_differ();
            reveal_with_fuel(byte_values, 9);
        }
        match self {
            NetworkMessage::Version(version) => encode_version(version),
            NetworkMessage::Addr(list) => encode_addr(list),
            NetworkMessage::AddrV2(list) => {
                proof {
                    assert forall|i: int|
                        self@.readable() && 0 <= i < list@.len() implies relayable(
                        (#[trigger] list@[i]).addr@,
                    ) by {
                        assert(addr_v2_list(list@)[i] == list@[i]@);
                    }
                }
                encode_addr_v2(list)
            },
            NetworkMessage::Ping(nonce) => {
                proof {
                    lemma_le_bytes(*nonce as nat, 8);
                }
                write_u64(*nonce)
            },
            NetworkMessage::Pong(nonce) => {
                proof {
                    lemma_le_bytes(*nonce as nat, 8);
                }
                write_u64(*nonce)
            },
            NetworkMessage::Other(_, payload) => payload.clone(),
            NetworkMessage::Unknown(_, payload) => payload.clone(),
            _ => Vec::new(),
        }
    }

    /// The message that was read from the wire.
    pub(crate) fn from_wire(read: WireMessage) -> (r: NetworkMessage)
        requires
            read.known ==> parsable(read.command@, read.payload@),
        ensures
            r@ == interpretation(read.known, read.command@, read.payload@),
            r@.command() == read.command@,
            r@ is Unknown <==> !read.known,
            is_command(read.command@) && (if read.known {
                canonical(read.command@, read.payload@)
            } else {
                !has_meaning(read.command@)
            }) ==> r@.readable(),
    {
        let command = read.command.as_str();
        if !read.known {
            NetworkMessage::Unknown(read.command, read.payload)
        } else if same_text(command, "version") {
            match decode_version(read.payload.as_slice()) {
                Some(version) => NetworkMessage::Version(version),
                None => unreached(),
            }
        } else if same_text(command, "verack") {
            NetworkMessage::Verack
        } else if same_text(command, "getaddr") {
            NetworkMessage::GetAddr
        } else if same_text(command, "sendaddrv2") {
            NetworkMessage::SendAddrV2
        } else if same_text(command, "sendheaders") {
            NetworkMessage::SendHeaders
        } else if same_text(command, "wtxidrelay") {
            NetworkMessage::WtxidRelay
        } else if same_text(command, "addr") {
            match decode_addr(read.payload.as_slice()) {
                Some(list) => NetworkMessage::Addr(list),
                None => unreached(),
            }
        } else if same_text(command, "addrv2") {
            match decode_addr_v2(read.payload.as_slice()) {
                Some(list) => NetworkMessage::AddrV2(list),
                None => unreached(),
            }
        } else if same_text(command, "ping") {
            NetworkMessage::Ping(read_u64(read.payload.as_slice()))
        } else if same_text(command, "pong") {
            NetworkMessage::Pong(read_u64(read.payload.as_slice()))
        } else {
            NetworkMessage::Other(read.command, read.payload)
        }
    }
}

/// A version message stands for its fields, each for itself.
pub proof fn law_version_messages_stand_for_their_fields(version: VersionMessage)
    ensures
        version@.version == version.version,
        version@.services == version.services,
        version@.timestamp == version.timestamp,
        version@.receiver.address == version.receiver.address@,
        version@.receiver.port == version.receiver.port,
        version@.receiver.services == version.receiver.services,
        version@.sender.address == version.sender.address@,
        version@.sender.port == version.sender.port,
        version@.sender.services == version.sender.services,
        version@.nonce == version.nonce,
        version@.user_agent == version.user_agent@,
        version@.start_height == version.start_height,
        version@.relay == version.relay,
{
}

/// A list of addresses stands for its entries, in order, each for its fields.
pub proof fn law_lists_stand_for_their_entries(
    legacy: Vec<(u32, Address)>,
    relayed: Vec<AddrV2Message>,
)
    ensures
        NetworkMessage::Addr(legacy)@ matches NetworkMessageView::Addr(list) && {
            &&& list.len() == legacy@.len()
            &&& forall|i: int|
                0 <= i < list.len() ==> {
                    &&& (#[trigger] list[i]).0 == legacy@[i].0
                    &&& list[i].1.address == legacy@[i].1.address@
                    &&& list[i].1.port == legacy@[i].1.port
                    &&& list[i].1.services == legacy@[i].1.services
                }
        },
        NetworkMessage::AddrV2(relayed)@ matches NetworkMessageView::AddrV2(list) && {
            &&& list.len() == relayed@.len()
            &&& forall|i: int|
                0 <= i < list.len() ==> {
                    &&& (#[trigger] list[i]).time == relayed@[i].time
                    &&& list[i].services == relayed@[i].services
                    &&& list[i].addr == relayed@[i].addr@
                    &&& list[i].port == relayed@[i].port
                }
        },
{
}

/// A message that carries no list stands for what it carries.
pub proof fn law_messages_stand_for_what_they_carry(message: NetworkMessage)
    ensures
        match message {
            NetworkMessage::Version(version) => message@ == NetworkMessageView::Version(version@),
            NetworkMessage::Verack => message@ is Verack,
            NetworkMessage::GetAddr => message@ is GetAddr,
            NetworkMessage::SendAddrV2 => message@ is SendAddrV2,
            NetworkMessage::SendHeaders => message@ is SendHeaders,
            NetworkMessage::WtxidRelay => message@ is WtxidRelay,
            NetworkMessage::Addr(_) => message@ is Addr,
            NetworkMessage::AddrV2(_) => message@ is AddrV2,
            NetworkMessage::Ping(nonce) => message@ == NetworkMessageView::Ping(nonce),
            NetworkMessage::Pong(nonce) => message@ == NetworkMessageView::Pong(nonce),
            NetworkMessage::Other(command, payload) => message@ == NetworkMessageView::Other(
                command@,
                payload@,
            ),
            NetworkMessage::Unknown(command, payload) => message@ == NetworkMessageView::Unknown(
                command@,
                payload@,
            ),
        },
{
}

/// Each kind of message has the command by which the network knows it, and any other message the
/// command that it carries.
pub proof fn law_messages_have_the_commands_of_the_network(message: NetworkMessage, r: &str)
    requires
        call_ensures(NetworkMessage::command, (&message,), r),
    ensures
        match message {
            NetworkMessage::Version(_) => r@ == "version"@,
            NetworkMessage::Verack => r@ == "verack"@,
            NetworkMessage::GetAddr => r@ == "getaddr"@,
            NetworkMessage::SendAddrV2 => r@ == "sendaddrv2"@,
            NetworkMessage::SendHeaders => r@ == "sendheaders"@,
            NetworkMessage::WtxidRelay => r@ == "wtxidrelay"@,
            NetworkMessage::Addr(_) => r@ == "addr"@,
            NetworkMessage::AddrV2(_) => r@ == "addrv2"@,
            NetworkMessage::Ping(_) => r@ == "ping"@,
            NetworkMessage::Pong(_) => r@ == "pong"@,
            NetworkMessage::Other(command, _) => r@ == command@,
            NetworkMessage::Unknown(command, _) => r@ == command@,
        },
{
}

/// The payload of a ping or a pong is its number in eight bytes, the first counting least; messages
/// that carry nothing have an empty payload, and any other message the payload that it carries. The
/// payload of a version message or of a list is that from which the same is read again.
pub proof fn law_payloads_hold_what_messages_carry(message: NetworkMessage, r: Vec<u8>)
    requires
        call_ensures(NetworkMessage::payload, (&message,), r),
    ensures
        match message {
            NetworkMessage::Ping(nonce) => is_number(r@, nonce),
            NetworkMessage::Pong(nonce) => is_number(r@, nonce),
            NetworkMessage::Other(_, payload) => r@ == payload@,
            NetworkMessage::Unknown(_, payload) => r@ == payload@,
            NetworkMessage::Version(version) => encode_utf8(version.user_agent@).len() <= 3_999_995
                ==> version_fields(r@) == Some(version@),
            NetworkMessage::Addr(list) => addr_entries(r@) == Some(addr_list(list@)),
            NetworkMessage::AddrV2(list) => {
                (forall|i: int| 0 <= i < list@.len() ==> relayable((#[trigger] list@[i]).addr@))
                    ==> addr_v2_entries(r@) == Some(addr_v2_list(list@))
            },
            _ => r@.len() == 0,
        },
{
    lemma_commands_differ();
    match message {
        NetworkMessage::Ping(nonce) => {
            lemma_number(r@, nonce);
        },
        NetworkMessage::Pong(nonce) => {
            lemma_number(r@, nonce);
        },
        NetworkMessage::AddrV2(list) => {
            if forall|i: int| 0 <= i < list@.len() ==> relayable((#[trigger] list@[i]).addr@) {
                assert(message@.readable());
            }
        },
        _ => {},
    }
}

/// Whether eight bytes stand for a number, the first counting least.
pub open spec fn is_number(bytes: Seq<u8>, n: u64) -> bool {
    &&& bytes.len() == 8
    &&& n == bytes[0] + 0x100 * bytes[1] + 0x1_0000 * bytes[2] + 0x100_0000 * bytes[3]
        + 0x1_0000_0000 * bytes[4] + 0x100_0000_0000 * bytes[5] + 0x1_0000_0000_0000 * bytes[6]
        + 0x100_0000_0000_0000 * bytes[7]
}

/// The bytes of a number stand for it.
proof fn lemma_number(bytes: Seq<u8>, n: u64)
    requires
        bytes == le_bytes(n as nat, 8),
    ensures
        is_number(bytes, n),
{
    reveal_with_fuel(byte_values, 9);
    lemma_le_bytes(n as nat, 8);
    law_eight_bytes_count_upwards(bytes);
}

/// What a command and a payload mean: each command of the network is that of its kind of message,
/// the number of a ping or a pong is in its eight bytes, and nothing is changed of what has no kind
/// of its own here or no meaning at all.
pub proof fn law_commands_mean_their_messages(command: Seq<char>, payload: Seq<u8>)
    ensures
        interpretation(false, command, payload) == NetworkMessageView::Unknown(command, payload),
        ({
            let meant = interpretation(true, command, payload);
            &&& meant is Version <==> command == "version"@
            &&& meant is Verack <==> command == "verack"@
            &&& meant is GetAddr <==> command == "getaddr"@
            &&& meant is SendAddrV2 <==> command == "sendaddrv2"@
            &&& meant is SendHeaders <==> command == "sendheaders"@
            &&& meant is WtxidRelay <==> command == "wtxidrelay"@
            &&& meant is Addr <==> command == "addr"@
            &&& meant is AddrV2 <==> command == "addrv2"@
            &&& meant is Ping <==> command == "ping"@
            &&& meant is Pong <==> command == "pong"@
            &&& !(meant is Unknown)
            &&& meant is Other ==> meant == NetworkMessageView::Other(command, payload)
            &&& payload.len() == 8 ==> {
                &&& meant matches NetworkMessageView::Ping(nonce) ==> is_number(payload, nonce)
                &&& meant matches NetworkMessageView::Pong(nonce) ==> is_number(payload, nonce)
            }
            &&& meant matches NetworkMessageView::Version(version) ==> version
                == version_fields(payload)->0
            &&& meant matches NetworkMessageView::Addr(list) ==> list == addr_entries(payload)->0
            &&& meant matches NetworkMessageView::AddrV2(list) ==> list
                == addr_v2_entries(payload)->0
        }),
{
    lemma_commands_differ();
    if payload.len() == 8 {
        reveal_with_fuel(byte_values, 9);
        lemma_le_value_bound(payload);
        law_eight_bytes_count_upwards(payload);
    }
}

/// Every message that carries nothing, a number or a list of legacy addresses is one that a peer
/// reads as it was written; a version message is where its user agent is not too long, a list in
/// the form of BIP-155 where each of its addresses may be passed on, and a message whose command
/// has no meaning where the command can be written.
pub proof fn law_ordinary_messages_are_readable(message: NetworkMessageView)
    ensures
        match message {
            NetworkMessageView::Version(version) => message.readable() <==> encode_utf8(
                version.user_agent,
            ).len() <= 3_999_995,
            NetworkMessageView::AddrV2(list) => message.readable() <==> forall|i: int|
                0 <= i < list.len() ==> relayable((#[trigger] list[i]).addr),
            NetworkMessageView::Unknown(command, _) => message.readable() <==> is_command(command)
                && !has_meaning(command),
            NetworkMessageView::Other(_, _) => true,
            _ => message.readable(),
        },
{
}

} // verus!
