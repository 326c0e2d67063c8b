//! Plaintext and encrypted messages.

use bitcoin::consensus::encode;
use bitcoin::p2p::message as outside;
use bitcoin::p2p::message_blockdata::Inventory;
use bitcoin::p2p::Magic;
use bitcoin_peers::transport::v1::{
    V1FrameReader, V1FrameWriter, V1ReceiveState, V1Step, PAYLOAD_LENGTH_OFFSET,
};
use bitcoin_peers::transport::v2;
use bitcoin_peers::wire::HEADER_SIZE;
use bitcoin_peers::{
    AddrV2, AddrV2Message, Address, IoError, IpAddr, Network, NetworkMessage, ServiceFlags,
    SocketAddr, TransportError, VersionMessage,
};

fn create_test_message(network_magic: Magic, payload: outside::NetworkMessage) -> Vec<u8> {
    let raw_msg = outside::RawNetworkMessage::new(network_magic, payload);
    encode::serialize(&raw_msg)
}

fn bitcoin_reader() -> V1FrameReader {
    V1FrameReader::new(Network::Bitcoin.magic())
}

fn bitcoin_writer() -> V1FrameWriter {
    V1FrameWriter::new(Network::Bitcoin.magic())
}

/// Reads one message from bytes that hold exactly one.
fn read_one(bytes: &[u8]) -> NetworkMessage {
    let mut reader = bitcoin_reader();
    match reader.read(bytes) {
        (taken, V1Step::Message(message)) => {
            assert_eq!(taken, bytes.len());
            message
        }
        (_, step) => panic!("Expected a message, got {step:?}"),
    }
}

#[test]
fn v1_test_basic_message_receive() {
    let message_bytes = create_test_message(Magic::BITCOIN, outside::NetworkMessage::Ping(42));
    match read_one(&message_bytes) {
        NetworkMessage::Ping(nonce) => assert_eq!(nonce, 42),
        received => panic!("Expected Ping message, got {received:?}"),
    }
}

#[test]
fn v1_test_send_message() {
    let written = bitcoin_writer().encode(&NetworkMessage::Ping(42)).unwrap();
    let expected = create_test_message(Magic::BITCOIN, outside::NetworkMessage::Ping(42));
    assert_eq!(written, expected);
}

#[test]
fn v1_test_magic_mismatch() {
    let message_bytes = create_test_message(Magic::TESTNET4, outside::NetworkMessage::Ping(42));
    let mut reader = bitcoin_reader();
    let (_, step) = reader.read(&message_bytes);
    assert!(matches!(
        step,
        V1Step::Failed(TransportError::MagicMismatch)
    ));
    // What is not a message of the network stays where it is.
    assert!(matches!(
        reader.poll(),
        V1Step::Failed(TransportError::MagicMismatch)
    ));
}

#[test]
fn v1_test_invalid_message() {
    // A valid header, but a payload that cannot be deserialized.
    let mut header = [0u8; HEADER_SIZE];
    header[0..4].copy_from_slice(&Magic::BITCOIN.to_bytes());
    header[4] = b'p';
    header[5] = b'i';
    header[6] = b'n';
    header[7] = b'g';
    let payload_len: u32 = 6;
    header[PAYLOAD_LENGTH_OFFSET..PAYLOAD_LENGTH_OFFSET + 4]
        .copy_from_slice(&payload_len.to_le_bytes());
    let invalid_payload = vec![0xFF; payload_len as usize];

    let mut test_data = Vec::new();
    test_data.extend_from_slice(&header);
    test_data.extend_from_slice(&invalid_payload);

    let mut reader = bitcoin_reader();
    let (_, step) = reader.read(&test_data);
    assert!(matches!(
        step,
        V1Step::Failed(TransportError::Deserialize(_))
    ));
    assert!(matches!(
        reader.poll(),
        V1Step::Failed(TransportError::Deserialize(_))
    ));
}

#[test]
fn v1_test_unexpected_eof_during_header() {
    let partial_data = vec![0; 10];
    let mut reader = bitcoin_reader();
    let (taken, step) = reader.read(&partial_data);
    assert_eq!(taken, 10);
    assert!(matches!(step, V1Step::NeedBytes(14)));
    match reader.closed() {
        TransportError::Io(IoError::UnexpectedEof(message)) => {
            assert_eq!(message, "connection closed while reading header")
        }
        error => panic!("Expected an I/O error, got {error:?}"),
    }
}

#[test]
fn v1_test_unexpected_eof_during_payload() {
    let mut message_bytes = create_test_message(Magic::BITCOIN, outside::NetworkMessage::Ping(42));
    message_bytes.truncate(HEADER_SIZE + 2);
    let mut reader = bitcoin_reader();
    let (taken, step) = reader.read(&message_bytes);
    assert_eq!(taken, HEADER_SIZE + 2);
    assert!(matches!(step, V1Step::NeedBytes(6)));
    let error = reader.closed();
    assert_eq!(
        error.to_string(),
        "IO error: connection closed while reading payload"
    );
    assert!(matches!(error, TransportError::Io(_)));
}

#[test]
fn v1_test_cancellation_safety() {
    let message_bytes = create_test_message(Magic::BITCOIN, outside::NetworkMessage::Ping(42));
    let mut reader = bitcoin_reader();
    for i in 0..message_bytes.len() {
        match reader.poll() {
            V1Step::NeedBytes(need) => assert!(need > 0),
            step => panic!("Expected to need bytes, got {step:?}"),
        }
        reader.receive(&message_bytes[i..i + 1]);
    }
    match reader.poll() {
        V1Step::Message(NetworkMessage::Ping(nonce)) => assert_eq!(nonce, 42),
        received => panic!("Expected Ping message, got {received:?}"),
    }
}

#[test]
fn v1_test_multiple_messages() {
    let message1 = create_test_message(Magic::BITCOIN, outside::NetworkMessage::Ping(42));
    let message2 = create_test_message(Magic::BITCOIN, outside::NetworkMessage::Ping(43));
    let mut combined = Vec::new();
    combined.extend_from_slice(&message1);
    combined.extend_from_slice(&message2);

    let mut reader = bitcoin_reader();
    let (taken, step) = reader.read(&combined);
    assert_eq!(taken, message1.len());
    match step {
        V1Step::Message(NetworkMessage::Ping(nonce)) => assert_eq!(nonce, 42),
        received1 => panic!("Expected Ping message, got {received1:?}"),
    }
    let (taken, step) = reader.read(&combined[taken..]);
    assert_eq!(taken, message2.len());
    match step {
        V1Step::Message(NetworkMessage::Ping(nonce)) => assert_eq!(nonce, 43),
        received2 => panic!("Expected Ping message, got {received2:?}"),
    }
}

#[test]
fn a_stream_may_be_cut_anywhere() {
    let mut stream = Vec::new();
    for nonce in 0..3u64 {
        stream.extend_from_slice(&bitcoin_writer().encode(&NetworkMessage::Ping(nonce)).unwrap());
        stream.extend_from_slice(&bitcoin_writer().encode(&NetworkMessage::Verack).unwrap());
    }
    for cut in 0..stream.len() {
        let mut reader = bitcoin_reader();
        let mut commands = Vec::new();
        for piece in [&stream[..cut], &stream[cut..]] {
            let mut position = 0;
            loop {
                let (taken, step) = reader.read(&piece[position..]);
                position += taken;
                match step {
                    V1Step::Message(message) => commands.push(message.command().to_string()),
                    V1Step::NeedBytes(_) => break,
                    V1Step::Failed(error) => panic!("{error:?}"),
                }
            }
        }
        assert_eq!(
            commands,
            ["ping", "verack", "ping", "verack", "ping", "verack"]
        );
    }
}

#[test]
fn corrupt_messages_are_refused() {
    let message_bytes = create_test_message(Magic::BITCOIN, outside::NetworkMessage::Ping(42));
    for place in 16..message_bytes.len() {
        let mut corrupt = message_bytes.clone();
        corrupt[place] ^= 1;
        let (_, step) = bitcoin_reader().read(&corrupt);
        assert!(
            !matches!(step, V1Step::Message(_)),
            "a bit flipped at {place} went unnoticed"
        );
    }
}

#[test]
fn receive_states_start_empty() {
    match V1ReceiveState::reading_header() {
        V1ReceiveState::ReadingHeader { header, bytes_read } => {
            assert_eq!(header, [0u8; HEADER_SIZE]);
            assert_eq!(bytes_read, 0);
        }
        state => panic!("{state:?}"),
    }
    match V1ReceiveState::reading_payload([7u8; HEADER_SIZE], 3) {
        V1ReceiveState::ReadingPayload { buffer, bytes_read } => {
            assert_eq!(buffer[..HEADER_SIZE], [7u8; HEADER_SIZE]);
            assert_eq!(buffer[HEADER_SIZE..], [0u8; 3]);
            assert_eq!(bytes_read, HEADER_SIZE);
        }
        state => panic!("{state:?}"),
    }
}

fn version() -> VersionMessage {
    let receiver = SocketAddr {
        ip: IpAddr::V4([127, 0, 0, 1]),
        port: 8333,
    };
    let sender = SocketAddr {
        ip: IpAddr::V6([0x20, 1, 0xd, 0xb8, 0, 0, 0, 0, 0, 0, 0, 0, 0, 0, 0, 9]),
        port: 18333,
    };
    VersionMessage {
        version: 70016,
        services: ServiceFlags { bits: 1033 },
        timestamp: 1_700_000_000,
        receiver: Address::new(&receiver, ServiceFlags { bits: 1 }),
        sender: Address::new(&sender, ServiceFlags { bits: 1033 }),
        nonce: 0x0123_4567_89ab_cdef,
        user_agent: "/bitcoin-peers:0.1.0/".to_string(),
        start_height: 840_000,
        relay: true,
    }
}

fn check_version(read: &VersionMessage) {
    let expected = version();
    assert_eq!(read.version, expected.version);
    assert_eq!(read.services, expected.services);
    assert_eq!(read.timestamp, expected.timestamp);
    assert_eq!(read.receiver.services, expected.receiver.services);
    assert_eq!(read.receiver.address, expected.receiver.address);
    assert_eq!(read.receiver.port, expected.receiver.port);
    assert_eq!(read.sender.services, expected.sender.services);
    assert_eq!(read.sender.address, expected.sender.address);
    assert_eq!(read.sender.port, expected.sender.port);
    assert_eq!(read.nonce, expected.nonce);
    assert_eq!(read.user_agent, expected.user_agent);
    assert_eq!(read.start_height, expected.start_height);
    assert_eq!(read.relay, expected.relay);
}

fn addresses() -> Vec<(u32, Address)> {
    let first = SocketAddr {
        ip: IpAddr::V4([192, 168, 1, 1]),
        port: 8333,
    };
    let second = SocketAddr {
        ip: IpAddr::V6([0xfe, 0x80, 0, 0, 0, 0, 0, 0, 0, 0, 0, 0, 0, 0, 0, 1]),
        port: 1,
    };
    vec![
        (5, Address::new(&first, ServiceFlags { bits: 1 })),
        (6, Address::new(&second, ServiceFlags { bits: 8 })),
    ]
}

fn relayed() -> Vec<AddrV2Message> {
    let addresses = vec![
        AddrV2::Ipv4([10, 0, 0, 1]),
        AddrV2::Ipv6([0x20, 1, 0, 0, 0, 0, 0, 0, 0, 0, 0, 0, 0, 0, 0, 1]),
        AddrV2::TorV2([3; 10]),
        AddrV2::TorV3([4; 32]),
        AddrV2::I2p([5; 32]),
        AddrV2::Cjdns([0xFC; 16]),
        AddrV2::Unknown(77, vec![1, 2, 3]),
    ];
    let mut list = Vec::new();
    for (i, addr) in addresses.into_iter().enumerate() {
        list.push(AddrV2Message {
            time: i as u32,
            services: ServiceFlags { bits: 2048 + i as u64 },
            addr,
            port: 8333 + i as u16,
        });
    }
    list
}

/// Every kind of message that is read as it was written.
fn all_messages() -> Vec<NetworkMessage> {
    vec![
        NetworkMessage::Version(version()),
        NetworkMessage::Verack,
        NetworkMessage::GetAddr,
        NetworkMessage::SendAddrV2,
        NetworkMessage::SendHeaders,
        NetworkMessage::WtxidRelay,
        NetworkMessage::Addr(addresses()),
        NetworkMessage::AddrV2(relayed()),
        NetworkMessage::Ping(u64::MAX),
        NetworkMessage::Pong(1),
    ]
}

fn check_same(read: &NetworkMessage, written: &NetworkMessage) {
    match (read, written) {
        (NetworkMessage::Version(read), NetworkMessage::Version(_)) => check_version(read),
        (NetworkMessage::Addr(read), NetworkMessage::Addr(written)) => {
            assert_eq!(read.len(), written.len());
            for (read, written) in read.iter().zip(written) {
                assert_eq!(read.0, written.0);
                assert_eq!(read.1.services, written.1.services);
                assert_eq!(read.1.address, written.1.address);
                assert_eq!(read.1.port, written.1.port);
            }
        }
        (NetworkMessage::AddrV2(read), NetworkMessage::AddrV2(written)) => {
            assert_eq!(read.len(), written.len());
            for (read, written) in read.iter().zip(written) {
                assert_eq!(read.time, written.time);
                assert_eq!(read.services, written.services);
                assert_eq!(read.addr, written.addr);
                assert_eq!(read.port, written.port);
            }
        }
        (NetworkMessage::Ping(read), NetworkMessage::Ping(written)) => assert_eq!(read, written),
        (NetworkMessage::Pong(read), NetworkMessage::Pong(written)) => assert_eq!(read, written),
        (read, written) => {
            assert_eq!(read.command(), written.command());
            assert_eq!(read.payload(), written.payload());
        }
    }
    assert_eq!(
        matches!(read, NetworkMessage::Other(_, _)),
        matches!(written, NetworkMessage::Other(_, _))
    );
    assert_eq!(
        matches!(read, NetworkMessage::Unknown(_, _)),
        matches!(written, NetworkMessage::Unknown(_, _))
    );
}

#[test]
fn plaintext_messages_are_read_as_written() {
    for message in all_messages() {
        let frame = bitcoin_writer().encode(&message).unwrap();
        assert_eq!(frame[..4], [0xF9, 0xBE, 0xB4, 0xD9]);
        assert_eq!(
            u32::from_le_bytes([frame[16], frame[17], frame[18], frame[19]]) as usize,
            frame.len() - HEADER_SIZE
        );
        check_same(&read_one(&frame), &message);
    }
}

#[test]
fn encrypted_messages_are_read_as_written() {
    for message in all_messages() {
        let contents = v2::encode(&message).unwrap();
        assert!(v2::long_enough(&contents));
        check_same(&v2::decode(&contents).unwrap(), &message);
    }
}

#[test]
fn encrypted_messages_have_short_commands() {
    assert_eq!(
        v2::encode(&NetworkMessage::Ping(1)).unwrap(),
        [18, 1, 0, 0, 0, 0, 0, 0, 0]
    );
    let mut verack = vec![0];
    verack.extend_from_slice(b"verack\0\0\0\0\0\0");
    assert_eq!(v2::encode(&NetworkMessage::Verack).unwrap(), verack);
    // A message that has no variant of its own keeps its short command.
    let mempool = NetworkMessage::Other("mempool".to_string(), Vec::new());
    assert_eq!(v2::encode(&mempool).unwrap(), [15]);
    match v2::decode(&[15]).unwrap() {
        NetworkMessage::Other(command, payload) => {
            assert_eq!(command, "mempool");
            assert!(payload.is_empty());
        }
        message => panic!("{message:?}"),
    }
}

#[test]
fn encrypted_commands_in_full_are_not_given_a_meaning() {
    // A ping has a short command; written in full it is an unknown message.
    let mut contents = vec![0];
    contents.extend_from_slice(b"ping\0\0\0\0\0\0\0\0");
    contents.extend_from_slice(&[1, 0, 0, 0, 0, 0, 0, 0]);
    match v2::decode(&contents).unwrap() {
        NetworkMessage::Unknown(command, payload) => {
            assert_eq!(command, "ping");
            assert_eq!(payload, [1, 0, 0, 0, 0, 0, 0, 0]);
        }
        message => panic!("{message:?}"),
    }
}

#[test]
fn encrypted_messages_that_cannot_be_read_fail() {
    assert!(matches!(
        v2::decode(&[99]),
        Err(TransportError::Encryption)
    ));
    assert!(matches!(
        v2::decode(&[18, 1, 2]),
        Err(TransportError::Encryption)
    ));
    assert!(!v2::long_enough(&[]));
    assert!(!v2::long_enough(&[0; 12]));
    assert!(v2::long_enough(&[0; 13]));
    assert!(v2::long_enough(&[1]));
}

#[test]
fn unknown_messages_keep_command_and_payload() {
    let message = NetworkMessage::Unknown("sometest".to_string(), vec![1, 2, 3]);
    let frame = bitcoin_writer().encode(&message).unwrap();
    check_same(&read_one(&frame), &message);
    let contents = v2::encode(&message).unwrap();
    check_same(&v2::decode(&contents).unwrap(), &message);
}

#[test]
fn unknown_messages_are_spelled_out_when_encrypted() {
    let message = NetworkMessage::Unknown("ping".to_string(), vec![1, 0, 0, 0, 0, 0, 0, 0]);
    let contents = v2::encode(&message).unwrap();
    assert_eq!(&contents[..13], b"\0ping\0\0\0\0\0\0\0\0");
    assert_eq!(contents[13..], [1, 0, 0, 0, 0, 0, 0, 0]);
    check_same(&v2::decode(&contents).unwrap(), &message);
}

/// A message of each kind that has a meaning but no name in the library.
fn other_messages() -> Vec<outside::NetworkMessage> {
    let tx = bitcoin::Transaction {
        version: bitcoin::transaction::Version::TWO,
        lock_time: bitcoin::absolute::LockTime::ZERO,
        input: Vec::new(),
        output: Vec::new(),
    };
    let header = bitcoin::block::Header {
        version: bitcoin::block::Version::TWO,
        prev_blockhash: bitcoin::hashes::Hash::all_zeros(),
        merkle_root: bitcoin::hashes::Hash::all_zeros(),
        time: 1,
        bits: bitcoin::CompactTarget::from_consensus(2),
        nonce: 3,
    };
    let block = bitcoin::Block {
        header,
        txdata: vec![tx.clone()],
    };
    let inventory = vec![
        Inventory::Block(block.block_hash()),
        Inventory::Unknown {
            inv_type: 9,
            hash: [7; 32],
        },
    ];
    vec![
        outside::NetworkMessage::Inv(inventory.clone()),
        outside::NetworkMessage::GetData(inventory),
        outside::NetworkMessage::MemPool,
        outside::NetworkMessage::Tx(tx),
        outside::NetworkMessage::Headers(vec![header, header]),
        outside::NetworkMessage::Block(block),
        outside::NetworkMessage::FeeFilter(1000),
        outside::NetworkMessage::Alert(vec![1, 2, 3]),
    ]
}

#[test]
fn other_messages_are_sent_on_as_they_were_received() {
    for sent in other_messages() {
        let frame = create_test_message(Magic::BITCOIN, sent.clone());
        let message = read_one(&frame);
        assert!(matches!(message, NetworkMessage::Other(_, _)));
        assert_eq!(message.command(), sent.cmd());
        // In plaintext.
        assert_eq!(bitcoin_writer().encode(&message).unwrap(), frame);
        // Encrypted.
        let contents = v2::encode(&message).unwrap();
        assert_eq!(contents, bip324::serde::serialize(sent));
        check_same(&v2::decode(&contents).unwrap(), &message);
    }
}

#[test]
fn commands_that_are_too_long_are_not_written() {
    let message = NetworkMessage::Unknown("thirteenchars".to_string(), Vec::new());
    assert!(bitcoin_writer().encode(&message).is_none());
    assert!(v2::encode(&message).is_none());
    let message = NetworkMessage::Unknown("twelve_chars".to_string(), Vec::new());
    assert!(bitcoin_writer().encode(&message).is_some());
}

#[test]
fn addresses_that_may_not_be_passed_on_are_refused() {
    let mut list = relayed();
    list[1].addr = AddrV2::Ipv6([0, 0, 0, 0, 0, 0, 0, 0, 0, 0, 0xFF, 0xFF, 1, 2, 3, 4]);
    let frame = bitcoin_writer()
        .encode(&NetworkMessage::AddrV2(list))
        .unwrap();
    let (_, step) = bitcoin_reader().read(&frame);
    assert!(matches!(
        step,
        V1Step::Failed(TransportError::Deserialize(_))
    ));
}

#[test]
fn version_messages_are_those_of_the_network() {
    let frame = bitcoin_writer()
        .encode(&NetworkMessage::Version(version()))
        .unwrap();
    let raw: outside::RawNetworkMessage = encode::deserialize(&frame).unwrap();
    match raw.payload() {
        outside::NetworkMessage::Version(read) => {
            assert_eq!(read.version, 70016);
            assert_eq!(read.services.to_u64(), 1033);
            assert_eq!(read.nonce, 0x0123_4567_89ab_cdef);
            assert_eq!(read.user_agent, "/bitcoin-peers:0.1.0/");
            assert_eq!(read.start_height, 840_000);
            assert!(read.relay);
            assert_eq!(
                read.receiver.socket_addr().unwrap().to_string(),
                "127.0.0.1:8333"
            );
            assert_eq!(
                read.sender.socket_addr().unwrap().to_string(),
                "[2001:db8::9]:18333"
            );
        }
        message => panic!("{message:?}"),
    }
}

#[test]
fn transport_errors_are_shown() {
    assert_eq!(
        TransportError::MagicMismatch.to_string(),
        "Network magic mismatch"
    );
    assert_eq!(
        TransportError::Encryption.to_string(),
        "BIP324 encryption/decryption error"
    );
    assert_eq!(
        TransportError::from(std::io::Error::other("broken")).to_string(),
        "IO error: broken"
    );
    let error = encode::deserialize::<u64>(&[1]).unwrap_err();
    let shown = error.to_string();
    assert_eq!(
        TransportError::from(error).to_string(),
        format!("Message deserialization error: {shown}")
    );
}
