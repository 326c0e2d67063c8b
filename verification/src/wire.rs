//! The parts of the wire format that the `bitcoin` and `bip324` crates provide.
//!
//! A message is known here by its command and its payload. The functions that call into the two
//! crates are not proved: each states what is taken to hold of the call.

use crate::address::{
    ip_words, is_onion, AddrV2, AddrV2Message, AddrV2MessageView, AddrV2View, Address, AddressView,
    ServiceFlags,
};
use crate::bytes::{le_bytes, le_value};
use crate::message::{addr_list, addr_v2_list, VersionMessage, VersionView};
use bitcoin::consensus::encode;
use bitcoin::p2p::address::{AddrV2 as OutsideAddress, AddrV2Message as OutsideEntry};
use bitcoin::p2p::message::{CommandString, RawNetworkMessage};
use bitcoin::p2p::{address, message, message_network, Magic};
use vstd::prelude::*;
use vstd::utf8::{encode_utf8, is_ascii_chars};

verus! {

/// The error of a failed deserialization.
#[verifier::external_type_specification]
#[verifier::external_body]
pub struct ExDeserializeError(encode::Error);

/// A message by its command and its payload.
#[derive(Debug)]
pub struct WireMessage {
    /// Whether the message was given a meaning by its command.
    pub known: bool,
    /// The command.
    pub command: String,
    /// The payload.
    pub payload: Vec<u8>,
}

/// The number of bytes before the payload of a plaintext message: magic, command, length of the
/// payload and checksum.
pub const HEADER_SIZE: usize = 24;

/// The number of bytes that a command takes.
pub const COMMAND_SIZE: usize = 12;

/// The longest payload, in bytes, that every encrypted message can be read with.
pub const MAX_ENCRYPTED_PAYLOAD: usize = 4_000_000;

/// The checksum that `bitcoin::p2p::message::RawNetworkMessage::new` computes of a payload.
pub uninterp spec fn payload_checksum(payload: Seq<u8>) -> Seq<u8>;

/// What `bitcoin::consensus::encode::deserialize` of a `bitcoin::p2p::message::RawNetworkMessage`
/// makes of the payload of a command: whether it gives the command a meaning, and the payload of
/// the message that was read. Nothing where it refuses the payload.
pub uninterp spec fn payload_reading(command: Seq<char>, payload: Seq<u8>) -> Option<
    (bool, Seq<u8>),
>;

/// How `bip324::serde::serialize` writes the message with this command and payload.
pub uninterp spec fn v2_contents(command: Seq<char>, payload: Seq<u8>) -> Seq<u8>;

/// What `bip324::serde::deserialize` reads: whether it gives the command a meaning, the command,
/// and the payload of the message that was read.
pub uninterp spec fn v2_reading(contents: Seq<u8>) -> Option<(bool, Seq<char>, Seq<u8>)>;

/// A command, filled up with zeros.
pub open spec fn padded_command(command: Seq<char>) -> Seq<u8> {
    encode_utf8(command) + Seq::new(
        (COMMAND_SIZE - encode_utf8(command).len()) as nat,
        |i: int| 0u8,
    )
}

/// A plaintext message.
pub open spec fn v1_frame(magic: Seq<u8>, command: Seq<char>, payload: Seq<u8>) -> Seq<u8> {
    magic + padded_command(command) + le_bytes(payload.len(), 4) + payload_checksum(payload)
        + payload
}

/// Bytes without the zeros at their end.
pub open spec fn trimmed(bytes: Seq<u8>) -> Seq<u8>
    decreases bytes.len(),
{
    if bytes.len() > 0 && bytes.last() == 0 {
        trimmed(bytes.drop_last())
    } else {
        bytes
    }
}

/// The text of ASCII bytes.
pub open spec fn ascii_text(bytes: Seq<u8>) -> Seq<char> {
    bytes.map_values(|b: u8| b as char)
}

/// What is read from a plaintext message: whether its command has a meaning, the command, and the
/// payload. Nothing where the message is refused.
pub open spec fn v1_reading(frame: Seq<u8>) -> Option<(bool, Seq<char>, Seq<u8>)> {
    let command = trimmed(frame.subrange(4, 16));
    let payload = frame.subrange(HEADER_SIZE as int, frame.len() as int);
    if frame.len() < HEADER_SIZE {
        None
    } else if exists|i: int| 0 <= i < command.len() && #[trigger] command[i] >= 128 {
        None
    } else if le_value(frame.subrange(16, 20)) != payload.len() {
        None
    } else if frame.subrange(20, 24) != payload_checksum(payload) {
        None
    } else {
        match payload_reading(ascii_text(command), payload) {
            Some((known, read)) => Some((known, ascii_text(command), read)),
            None => None,
        }
    }
}

/// Whether a text can be a command: ASCII, not too long, and not ending in zero.
pub open spec fn is_command(command: Seq<char>) -> bool {
    &&& is_ascii_chars(command)
    &&& command.len() <= COMMAND_SIZE
    &&& command.len() > 0 ==> command.last() != '\0'
}

/// Whether a command is one that the `bitcoin` crate gives a meaning to.
pub open spec fn has_meaning(command: Seq<char>) -> bool {
    ||| command == "version"@
    ||| command == "verack"@
    ||| command == "addr"@
    ||| command == "inv"@
    ||| command == "getdata"@
    ||| command == "notfound"@
    ||| command == "getblocks"@
    ||| command == "getheaders"@
    ||| command == "mempool"@
    ||| command == "block"@
    ||| command == "headers"@
    ||| command == "sendheaders"@
    ||| command == "getaddr"@
    ||| command == "ping"@
    ||| command == "pong"@
    ||| command == "merkleblock"@
    ||| command == "filterload"@
    ||| command == "filteradd"@
    ||| command == "filterclear"@
    ||| command == "tx"@
    ||| command == "getcfilters"@
    ||| command == "cfilter"@
    ||| command == "getcfheaders"@
    ||| command == "cfheaders"@
    ||| command == "getcfcheckpt"@
    ||| command == "cfcheckpt"@
    ||| command == "reject"@
    ||| command == "alert"@
    ||| command == "feefilter"@
    ||| command == "sendcmpct"@
    ||| command == "cmpctblock"@
    ||| command == "getblocktxn"@
    ||| command == "blocktxn"@
    ||| command == "wtxidrelay"@
    ||| command == "addrv2"@
    ||| command == "sendaddrv2"@
}

/// Whether an encrypted message with this command, spelled out in full, has a meaning.
pub open spec fn spelled_out(command: Seq<char>) -> bool {
    ||| command == "version"@
    ||| command == "verack"@
    ||| command == "sendheaders"@
    ||| command == "getaddr"@
    ||| command == "wtxidrelay"@
    ||| command == "sendaddrv2"@
    ||| command == "alert"@
    ||| command == "reject"@
}

/// Whether a payload is one that its command, which has a meaning, gives back unchanged.
pub open spec fn canonical(command: Seq<char>, payload: Seq<u8>) -> bool {
    payload_reading(command, payload) == Some((true, payload))
}

/// The contents of an encrypted message whose command is spelled out in full.
pub open spec fn v2_spelled_out(command: Seq<char>, payload: Seq<u8>) -> Seq<u8> {
    seq![0u8] + padded_command(command) + payload
}

/// Whether a payload is what its command calls for, written as it is read.
pub open spec fn standard(command: Seq<char>, payload: Seq<u8>) -> bool {
    ||| command == "verack"@ && payload.len() == 0
    ||| command == "getaddr"@ && payload.len() == 0
    ||| command == "sendaddrv2"@ && payload.len() == 0
    ||| command == "sendheaders"@ && payload.len() == 0
    ||| command == "wtxidrelay"@ && payload.len() == 0
    ||| command == "ping"@ && payload.len() == 8
    ||| command == "pong"@ && payload.len() == 8
    ||| {
        &&& command == "version"@
        &&& version_fields(payload) is Some
        &&& version_payload(version_fields(payload)->0) == payload
    }
    ||| {
        &&& command == "addr"@
        &&& addr_entries(payload) is Some
        &&& addr_payload(addr_entries(payload)->0) == payload
    }
    ||| {
        &&& command == "addrv2"@
        &&& addr_v2_entries(payload) is Some
        &&& addr_v2_payload(addr_v2_entries(payload)->0) == payload
    }
}

/// Whether the payload of a command that has a meaning can be read by it.
pub open spec fn parsable(command: Seq<char>, payload: Seq<u8>) -> bool {
    &&& command == "version"@ ==> version_fields(payload) is Some
    &&& command == "addr"@ ==> addr_entries(payload) is Some
    &&& command == "addrv2"@ ==> addr_v2_entries(payload) is Some
    &&& command == "ping"@ ==> payload.len() == 8
    &&& command == "pong"@ ==> payload.len() == 8
}

/// Whether the contents of an encrypted message are long enough to hold a command.
pub open spec fn holds_command(contents: Seq<u8>) -> bool {
    &&& contents.len() > 0
    &&& contents[0] == 0 ==> contents.len() > COMMAND_SIZE
}

/// Writes a plaintext message.
///
/// Not proved: `bitcoin::p2p::message::RawNetworkMessage::new` and
/// `bitcoin::consensus::encode::serialize` are taken to write the magic bytes, the command filled
/// up with zeros, the length of the payload, a checksum of four bytes that depends on the payload
/// alone, and the payload; and `deserialize` to read back the messages that `standard` lists, and
/// every message whose command has no meaning. Which checksum a payload has is left unsaid.
#[verifier::external_body]
pub(crate) fn encode_v1(magic: [u8; 4], command: &str, payload: Vec<u8>) -> (r: Vec<u8>)
    requires
        encode_utf8(command@).len() <= COMMAND_SIZE,
        payload@.len() <= u32::MAX,
    ensures
        r@ == v1_frame(magic@, command@, payload@),
        r@.len() == HEADER_SIZE + payload@.len(),
        r@.subrange(20, 24) == payload_checksum(payload@),
        standard(command@, payload@) ==> v1_reading(r@) == Some((true, command@, payload@)),
        is_command(command@) && !has_meaning(command@) ==> v1_reading(r@) == Some(
            (false, command@, payload@),
        ),
{
    let command = CommandString::try_from(command).expect("a command fits in its field");
    let contents = message::NetworkMessage::Unknown { command, payload };
    encode::serialize(&RawNetworkMessage::new(Magic::from_bytes(magic), contents))
}

/// Reads a plaintext message.
///
/// Not proved: `bitcoin::consensus::encode::deserialize` of a
/// `bitcoin::p2p::message::RawNetworkMessage` is taken to accept what `v1_reading` does: an ASCII
/// command, the right length and checksum, and a payload that the command allows. The commands that
/// `has_meaning` lists are those that are given one. What was read and is written again is read as
/// the same once more, whatever the command. Which payloads a command allows is left unsaid.
#[verifier::external_body]
pub(crate) fn decode_v1(frame: &[u8]) -> (r: Result<WireMessage, encode::Error>)
    ensures
        match r {
            Ok(read) => {
                &&& v1_reading(frame@) == Some((read.known, read.command@, read.payload@))
                &&& payload_reading(
                    read.command@,
                    frame@.subrange(HEADER_SIZE as int, frame@.len() as int),
                ) == Some((read.known, read.payload@))
                &&& payload_reading(read.command@, read.payload@) == Some(
                    (read.known, read.payload@),
                )
                &&& read.known == has_meaning(read.command@)
                &&& read.known ==> parsable(read.command@, read.payload@)
            },
            Err(_) => v1_reading(frame@) is None,
        },
{
    let raw: RawNetworkMessage = encode::deserialize(frame)?;
    Ok(WireMessage {
        known: !matches!(raw.payload(), message::NetworkMessage::Unknown { .. }),
        command: raw.command().to_string(),
        payload: encode::serialize(raw.payload()),
    })
}

/// Writes the contents of an encrypted message whose command has a meaning.
///
/// Not proved: the message is read from its command and payload by
/// `bitcoin::p2p::message::RawNetworkMessage`, or taken for an unknown one where that refuses it,
/// and written by `bip324::serde::serialize`, which depends on it alone; it starts with a byte that
/// stands for the command, or with a zero and the command. `bip324::serde::deserialize` reads back
/// the messages that `standard` lists, and those with a payload that their command gives back
/// unchanged, unless the payload is too long. The bytes themselves are left unsaid.
#[verifier::external_body]
pub(crate) fn encode_v2(command: &str, payload: Vec<u8>) -> (r: Vec<u8>)
    requires
        encode_utf8(command@).len() <= COMMAND_SIZE,
        payload@.len() <= u32::MAX,
    ensures
        r@ == v2_contents(command@, payload@),
        holds_command(r@),
        (standard(command@, payload@) || canonical(command@, payload@)) && payload@.len()
            <= MAX_ENCRYPTED_PAYLOAD ==> v2_reading(r@) == Some((true, command@, payload@)),
{
    let command = CommandString::try_from(command).expect("a command fits in its field");
    let contents = message::NetworkMessage::Unknown { command, payload };
    let raw = RawNetworkMessage::new(Magic::BITCOIN, contents);
    let typed = encode::deserialize(&encode::serialize(&raw)).unwrap_or(raw);
    bip324::serde::serialize(typed.into_payload())
}

/// Writes the contents of an encrypted message whose command has no meaning.
///
/// Not proved: `bip324::serde::serialize` is taken to write an unknown message as a zero, the
/// command filled up with zeros, and the payload; and `bip324::serde::deserialize` to read it back,
/// unless the command has a meaning where it is spelled out.
#[verifier::external_body]
pub(crate) fn encode_v2_unknown(command: &str, payload: Vec<u8>) -> (r: Vec<u8>)
    requires
        encode_utf8(command@).len() <= COMMAND_SIZE,
    ensures
        r@ == v2_spelled_out(command@, payload@),
        holds_command(r@),
        is_command(command@) && !spelled_out(command@) ==> v2_reading(r@) == Some(
            (false, command@, payload@),
        ),
{
    let command = CommandString::try_from(command).expect("a command fits in its field");
    bip324::serde::serialize(message::NetworkMessage::Unknown { command, payload })
}

/// Reads the contents of an encrypted message.
///
/// Not proved: `bip324::serde::deserialize` gives a message, or fails, by the contents alone. Its
/// command is an ASCII text that fits in its field; one that is given a meaning is among those that
/// `has_meaning` lists, one that is not is none of those that have a meaning where they are spelled
/// out. What was read with a meaning and is written again is read as the same once more by
/// `bitcoin::p2p::message::RawNetworkMessage`, which is stricter in one command only, `feefilter`.
/// Which contents give which message is left unsaid here. Contents that are too short for a
/// command, on which the call would panic, are left out.
#[verifier::external_body]
pub(crate) fn decode_v2(contents: &[u8]) -> (r: Option<WireMessage>)
    requires
        holds_command(contents@),
    ensures
        match r {
            Some(read) => {
                &&& v2_reading(contents@) == Some((read.known, read.command@, read.payload@))
                &&& is_command(read.command@)
                &&& read.known ==> has_meaning(read.command@)
                &&& !read.known ==> !spelled_out(read.command@)
                &&& read.known && read.command@ != "feefilter"@ ==> canonical(
                    read.command@,
                    read.payload@,
                )
                &&& read.known ==> parsable(read.command@, read.payload@)
            },
            None => v2_reading(contents@) is None,
        },
{
    let read = bip324::serde::deserialize(contents).ok()?;
    Some(WireMessage {
        known: !matches!(read, message::NetworkMessage::Unknown { .. }),
        command: read.command().to_string(),
        payload: encode::serialize(&read),
    })
}

/// How `bitcoin::consensus::encode::serialize` writes a version message.
pub uninterp spec fn version_payload(version: VersionView) -> Seq<u8>;

/// What `bitcoin::consensus::encode::deserialize` reads as a version message.
pub uninterp spec fn version_fields(payload: Seq<u8>) -> Option<VersionView>;

/// How `bitcoin::consensus::encode::serialize` writes a list of legacy addresses.
pub uninterp spec fn addr_payload(list: Seq<(u32, AddressView)>) -> Seq<u8>;

/// What `bitcoin::consensus::encode::deserialize` reads as a list of legacy addresses.
pub uninterp spec fn addr_entries(payload: Seq<u8>) -> Option<Seq<(u32, AddressView)>>;

/// How `bitcoin::consensus::encode::serialize` writes a list of addresses in the form of BIP-155.
pub uninterp spec fn addr_v2_payload(list: Seq<AddrV2MessageView>) -> Seq<u8>;

/// What `bitcoin::consensus::encode::deserialize` reads as a list of addresses in the form of
/// BIP-155.
pub uninterp spec fn addr_v2_entries(payload: Seq<u8>) -> Option<Seq<AddrV2MessageView>>;

/// The longest user agent, in bytes, that a version message can be read with.
pub const MAX_USER_AGENT_BYTES: usize = 3_999_995;

/// Whether an address is one that a peer may pass on in the form of BIP-155: IPv6 is not used to
/// hold a Tor or an IPv4 address, CJDNS has its prefix, and an unknown network is not one of those
/// that have a number here, and its address is at most 512 bytes long.
pub open spec fn relayable(address: AddrV2View) -> bool {
    match address {
        AddrV2View::Ipv6(octets) => {
            &&& !is_onion(ip_words(octets))
            &&& ip_words(octets).subrange(0, 6) != seq![0u16, 0u16, 0u16, 0u16, 0u16, 0xFFFFu16]
        },
        AddrV2View::Cjdns(octets) => octets[0] == 0xFC,
        AddrV2View::Unknown(network, bytes) => (network == 0 || network > 6) && bytes.len() <= 512,
        _ => true,
    }
}

/// Writes a version message.
///
/// Not proved: `bitcoin::consensus::encode::serialize` on a
/// `bitcoin::p2p::message_network::VersionMessage` writes what depends on the fields alone, and
/// `deserialize` reads the same fields from it, unless the user agent is too long. The bytes
/// themselves are left unsaid.
#[verifier::external_body]
pub(crate) fn encode_version(version: &VersionMessage) -> (r: Vec<u8>)
    ensures
        r@ == version_payload(version@),
        encode_utf8(version.user_agent@).len() <= MAX_USER_AGENT_BYTES ==> version_fields(r@)
            == Some(version@),
{
    let legacy = |a: &Address| address::Address {
        services: a.services.bits.into(), address: a.address, port: a.port };
    encode::serialize(&message_network::VersionMessage {
        version: version.version,
        services: version.services.bits.into(),
        timestamp: version.timestamp,
        receiver: legacy(&version.receiver),
        sender: legacy(&version.sender),
        nonce: version.nonce,
        user_agent: version.user_agent.clone(),
        start_height: version.start_height,
        relay: version.relay,
    })
}

/// Reads a version message.
///
/// Not proved: `bitcoin::consensus::encode::deserialize` gives the fields of a
/// `bitcoin::p2p::message_network::VersionMessage`, or fails, by the bytes alone; a user agent that
/// is too long is refused. Which bytes give which fields is left unsaid here.
#[verifier::external_body]
pub(crate) fn decode_version(payload: &[u8]) -> (r: Option<VersionMessage>)
    ensures
        match r {
            Some(version) => {
                &&& version_fields(payload@) == Some(version@)
                &&& encode_utf8(version.user_agent@).len() <= MAX_USER_AGENT_BYTES
            },
            None => version_fields(payload@) is None,
        },
{
    let legacy = |a: address::Address| Address {
        services: ServiceFlags { bits: a.services.to_u64() }, address: a.address, port: a.port };
    let v: message_network::VersionMessage = encode::deserialize(payload).ok()?;
    Some(VersionMessage {
        version: v.version,
        services: ServiceFlags { bits: v.services.to_u64() },
        timestamp: v.timestamp,
        receiver: legacy(v.receiver),
        sender: legacy(v.sender),
        nonce: v.nonce,
        user_agent: v.user_agent,
        start_height: v.start_height,
        relay: v.relay,
    })
}

/// Writes a list of legacy addresses.
///
/// Not proved: `bitcoin::consensus::encode::serialize` on a list of times and
/// `bitcoin::p2p::address::Address`es writes what depends on the list alone, and `deserialize`
/// reads the same list from it. The bytes themselves are left unsaid.
#[verifier::external_body]
pub(crate) fn encode_addr(list: &Vec<(u32, Address)>) -> (r: Vec<u8>)
    ensures
        r@ == addr_payload(addr_list(list@)),
        addr_entries(r@) == Some(addr_list(list@)),
{
    let entries: Vec<(u32, address::Address)> = list.iter().map(|(time, a)| (*time,
        address::Address { services: a.services.bits.into(), address: a.address, port: a.port },
    )).collect();
    encode::serialize(&entries)
}

/// Reads a list of legacy addresses.
///
/// Not proved: `bitcoin::consensus::encode::deserialize` gives a list of times and
/// `bitcoin::p2p::address::Address`es, or fails, by the bytes alone. Which bytes give which list is
/// left unsaid here.
#[verifier::external_body]
pub(crate) fn decode_addr(payload: &[u8]) -> (r: Option<Vec<(u32, Address)>>)
    ensures
        match r {
            Some(list) => addr_entries(payload@) == Some(addr_list(list@)),
            None => addr_entries(payload@) is None,
        },
{
    let entries: Vec<(u32, address::Address)> = encode::deserialize(payload).ok()?;
    Some(entries.into_iter().map(|(time, a)| (time, Address {
        services: ServiceFlags { bits: a.services.to_u64() }, address: a.address, port: a.port,
    })).collect())
}

/// Writes a list of addresses in the form of BIP-155.
///
/// Not proved: `bitcoin::consensus::encode::serialize` on a list of
/// `bitcoin::p2p::address::AddrV2Message`s writes what depends on the list alone, and `deserialize`
/// reads the same list from it where each address is one that may be passed on. The bytes
/// themselves are left unsaid.
#[verifier::external_body]
pub(crate) fn encode_addr_v2(list: &Vec<AddrV2Message>) -> (r: Vec<u8>)
    ensures
        r@ == addr_v2_payload(addr_v2_list(list@)),
        (forall|i: int| 0 <= i < list@.len() ==> relayable((#[trigger] list@[i]).addr@))
            ==> addr_v2_entries(r@) == Some(addr_v2_list(list@)),
{
    let entries: Vec<OutsideEntry> = list.iter().map(|m| OutsideEntry {
        time: m.time, services: m.services.bits.into(), port: m.port, addr: match &m.addr {
            AddrV2::Ipv4(octets) => OutsideAddress::Ipv4((*octets).into()),
            AddrV2::Ipv6(octets) => OutsideAddress::Ipv6((*octets).into()),
            AddrV2::TorV2(bytes) => OutsideAddress::TorV2(*bytes),
            AddrV2::TorV3(bytes) => OutsideAddress::TorV3(*bytes),
            AddrV2::I2p(bytes) => OutsideAddress::I2p(*bytes),
            AddrV2::Cjdns(octets) => OutsideAddress::Cjdns((*octets).into()),
            AddrV2::Unknown(network, bytes) => OutsideAddress::Unknown(*network, bytes.clone()),
        },
    }).collect();
    encode::serialize(&entries)
}

/// Reads a list of addresses in the form of BIP-155.
///
/// Not proved: `bitcoin::consensus::encode::deserialize` gives a list of
/// `bitcoin::p2p::address::AddrV2Message`s, or fails, by the bytes alone; an address that may not
/// be passed on is refused. Which bytes give which list is left unsaid here.
#[verifier::external_body]
pub(crate) fn decode_addr_v2(payload: &[u8]) -> (r: Option<Vec<AddrV2Message>>)
    ensures
        match r {
            Some(list) => {
                &&& addr_v2_entries(payload@) == Some(addr_v2_list(list@))
                &&& forall|i: int| 0 <= i < list@.len() ==> relayable((#[trigger] list@[i]).addr@)
            },
            None => addr_v2_entries(payload@) is None,
        },
{
    let entries: Vec<OutsideEntry> = encode::deserialize(payload).ok()?;
    Some(entries.into_iter().map(|m| AddrV2Message { time: m.time, port: m.port,
        services: ServiceFlags { bits: m.services.to_u64() }, addr: match m.addr {
            OutsideAddress::Ipv4(ip) => AddrV2::Ipv4(ip.octets()),
            OutsideAddress::Ipv6(ip) => AddrV2::Ipv6(ip.octets()),
            OutsideAddress::TorV2(bytes) => AddrV2::TorV2(bytes),
            OutsideAddress::TorV3(bytes) => AddrV2::TorV3(bytes),
            OutsideAddress::I2p(bytes) => AddrV2::I2p(bytes),
            OutsideAddress::Cjdns(ip) => AddrV2::Cjdns(ip.octets()),
            OutsideAddress::Unknown(network, bytes) => AddrV2::Unknown(network, bytes),
        },
    }).collect())
}

/// An address of IPv4, Tor or I2P may always be passed on; one of IPv6 where it does not embed a
/// Tor address or an IPv4 address that is mapped into it; one of CJDNS where it has the prefix of
/// that network; and one of an unknown network where that is none of the known ones and the address
/// is not too long.
pub proof fn law_addresses_may_be_passed_on(address: AddrV2View)
    ensures
        match address {
            AddrV2View::Ipv6(o) => o.len() == 16 ==> (relayable(address) <==> {
                let tor = o[0] == 0xFD && o[1] == 0x87 && o[2] == 0xD8 && o[3] == 0x7E && o[4]
                    == 0xEB && o[5] == 0x43;
                let mapped = (forall|i: int| 0 <= i < 10 ==> #[trigger] o[i] == 0) && o[10] == 0xFF
                    && o[11] == 0xFF;
                !tor && !mapped
            }),
            AddrV2View::Cjdns(o) => relayable(address) <==> o[0] == 0xFC,
            AddrV2View::Unknown(network, bytes) => relayable(address) <==> !(1 <= network <= 6)
                && bytes.len() <= 512,
            _ => relayable(address),
        },
{
    if let AddrV2View::Ipv6(o) = address {
        if o.len() == 16 {
            let w = ip_words(o);
            let start = w.subrange(0, 6);
            let mapped = seq![0u16, 0u16, 0u16, 0u16, 0u16, 0xFFFFu16];
            assert forall|i: int| 0 <= i < 8 implies #[trigger] w[i] == o[2 * i] * 256 + o[2 * i
                + 1] by {}
            assert(start[0] == w[0] && start[1] == w[1] && start[2] == w[2]);
            assert(start[3] == w[3] && start[4] == w[4] && start[5] == w[5]);
            assert(w[0] == o[0] * 256 + o[1] && w[1] == o[2] * 256 + o[3]);
            assert(w[2] == o[4] * 256 + o[5] && w[3] == o[6] * 256 + o[7]);
            assert(w[4] == o[8] * 256 + o[9] && w[5] == o[10] * 256 + o[11]);
            if (forall|i: int| 0 <= i < 10 ==> #[trigger] o[i] == 0) && o[10] == 0xFF && o[11]
                == 0xFF {
                assert(start =~= mapped);
            } else if start == mapped {
                assert(mapped[0] == 0 && mapped[5] == 0xFFFF);
                assert forall|i: int| 0 <= i < 10 implies #[trigger] o[i] == 0 by {
                    assert(mapped[i / 2] == 0);
                    assert(start[i / 2] == 0);
                }
            }
        }
    }
}

} // verus!
