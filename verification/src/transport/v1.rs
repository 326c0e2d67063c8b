//! Plaintext messages.

use super::error::{IoError, TransportError};
use crate::bytes::{
    byte_values, law_four_bytes_count_upwards, le_bytes, le_value, lemma_le_bytes, read_u32,
    same_bytes,
};
use crate::message::{interpretation, NetworkMessage, NetworkMessageView};
use crate::wire::{
    ascii_text, decode_v1, encode_v1, is_command, padded_command, payload_checksum,
    payload_reading, trimmed, v1_frame, v1_reading, COMMAND_SIZE, HEADER_SIZE,
};
use vstd::prelude::*;
use vstd::utf8::{encode_utf8, is_ascii_chars_encode_utf8};

verus! {

/// Where the length of the payload stands in the header of a message.
pub const PAYLOAD_LENGTH_OFFSET: usize = 16;

/// The length of a message, by its header.
pub open spec fn frame_len(frame: Seq<u8>) -> nat {
    HEADER_SIZE as nat + le_value(
        frame.subrange(PAYLOAD_LENGTH_OFFSET as int, PAYLOAD_LENGTH_OFFSET + 4),
    )
}

/// How many bytes the first bytes of a message are short of what is to be read next: the rest of
/// the header, or the rest of the message.
pub open spec fn missing(received: Seq<u8>) -> int {
    if received.len() < HEADER_SIZE {
        HEADER_SIZE - received.len()
    } else {
        frame_len(received) - received.len()
    }
}

/// What has been received of a message.
#[derive(Debug)]
pub enum V1ReceiveState {
    /// The header is being received.
    ReadingHeader {
        /// The header, as far as it has been received.
        header: [u8; HEADER_SIZE],
        /// How many bytes have been received.
        bytes_read: usize,
    },
    /// The payload is being received.
    ReadingPayload {
        /// The header and the payload, as far as they have been received.
        buffer: Vec<u8>,
        /// How many bytes have been received.
        bytes_read: usize,
    },
}

impl V1ReceiveState {
    /// Whether no more bytes have been received than there is room for, and the room is that for
    /// the message that the header announces.
    pub open spec fn well_formed(self) -> bool {
        match self {
            V1ReceiveState::ReadingHeader { header, bytes_read } => bytes_read <= HEADER_SIZE,
            V1ReceiveState::ReadingPayload { buffer, bytes_read } => {
                &&& HEADER_SIZE <= bytes_read <= buffer@.len()
                &&& buffer@.len() == frame_len(buffer@)
            },
        }
    }

    /// The bytes that have been received.
    pub open spec fn received(self) -> Seq<u8> {
        match self {
            V1ReceiveState::ReadingHeader { header, bytes_read } => header@.take(bytes_read as int),
            V1ReceiveState::ReadingPayload { buffer, bytes_read } => buffer@.take(
                bytes_read as int,
            ),
        }
    }

    /// The state before the first byte of a message.
    pub fn reading_header() -> (r: V1ReceiveState)
        ensures
            r matches V1ReceiveState::ReadingHeader { header, bytes_read } && bytes_read == 0
                && header@ == Seq::new(HEADER_SIZE as nat, |i: int| 0u8),
            r.well_formed(),
            r.received() == Seq::<u8>::empty(),
    {
        let header: [u8; HEADER_SIZE] = [0u8; HEADER_SIZE];
        assert(header@ =~= Seq::new(HEADER_SIZE as nat, |i: int| 0u8));
        let r = V1ReceiveState::ReadingHeader { header, bytes_read: 0 };
        assert(r.received() =~= Seq::<u8>::empty());
        r
    }

    /// The state once a header has been received: there is room for the payload, and the header
    /// stands before it.
    pub fn reading_payload(header: [u8; HEADER_SIZE], payload_len: usize) -> (r: V1ReceiveState)
        requires
            HEADER_SIZE + payload_len <= usize::MAX,
        ensures
            r matches V1ReceiveState::ReadingPayload { buffer, bytes_read }
                && bytes_read == HEADER_SIZE
                && buffer@ == header@ + Seq::new(payload_len as nat, |i: int| 0u8),
            r.received() == header@,
    {
        let mut buffer: Vec<u8> = Vec::with_capacity(HEADER_SIZE + payload_len);
        buffer.extend_from_slice(header.as_slice());
        assert(buffer@ =~= header@);
        buffer.resize(HEADER_SIZE + payload_len, 0);
        assert(buffer@.subrange(0, HEADER_SIZE as int) =~= header@);
        assert(forall|i: int|
            0 <= i < HEADER_SIZE ==> buffer@[i] == #[trigger] buffer@.subrange(
                0,
                HEADER_SIZE as int,
            )[i]);
        assert(buffer@ =~= header@ + Seq::new(payload_len as nat, |i: int| 0u8));
        let r = V1ReceiveState::ReadingPayload { buffer, bytes_read: HEADER_SIZE };
        assert(r.received() =~= header@);
        r
    }
}

/// What comes next while a message is received.
#[derive(Debug)]
pub enum V1Step {
    /// This many bytes, or fewer at a time, are to be received.
    NeedBytes(usize),
    /// A message has been received.
    Message(NetworkMessage),
    /// What has been received is not a message.
    Failed(TransportError),
}

/// What is read from the bytes of a message.
pub open spec fn v1_message(frame: Seq<u8>) -> Option<NetworkMessageView> {
    match v1_reading(frame) {
        Some((known, command, payload)) => Some(interpretation(known, command, payload)),
        None => None,
    }
}

/// What comes next on a network once some bytes have been received: more bytes while the message is
/// not complete, else the message, unless it cannot be read or is one of another network.
pub open spec fn next_step(magic: Seq<u8>, received: Seq<u8>, step: V1Step) -> bool {
    if missing(received) > 0 {
        step == V1Step::NeedBytes(missing(received) as usize)
    } else {
        match v1_message(received) {
            None => step matches V1Step::Failed(error) && error is Deserialize,
            Some(message) => if received.take(4) == magic {
                step matches V1Step::Message(read) && read@ == message
            } else {
                step == V1Step::Failed(TransportError::MagicMismatch)
            },
        }
    }
}

/// Receives the plaintext messages of a network.
///
/// What has been received of a message is kept until the message is complete, so that receiving
/// can stop and go on at any byte.
#[derive(Debug)]
pub struct V1FrameReader {
    /// The magic bytes of the network.
    network_magic: [u8; 4],
    /// What has been received of the current message.
    receive_state: V1ReceiveState,
}

impl V1FrameReader {
    /// The invariant of the reader.
    pub closed spec fn well_formed(self) -> bool {
        self.receive_state.well_formed()
    }

    /// The magic bytes of the network.
    pub closed spec fn magic(self) -> Seq<u8> {
        self.network_magic@
    }

    /// What has been received of the current message.
    pub closed spec fn received(self) -> Seq<u8> {
        self.receive_state.received()
    }

    /// Whether the current message fits in memory, as far as its length is known.
    pub open spec fn fits(self) -> bool {
        self.received().len() >= HEADER_SIZE ==> frame_len(self.received()) <= usize::MAX
    }

    /// No more bytes have been received than the current message has.
    proof fn lemma_missing(&self)
        requires
            self.well_formed(),
        ensures
            missing(self.received()) >= 0,
    {
        match self.receive_state {
            V1ReceiveState::ReadingHeader { header, bytes_read } => {},
            V1ReceiveState::ReadingPayload { buffer, bytes_read } => {
                lemma_frame_len_of_prefix(buffer@, bytes_read as int);
            },
        }
    }

    /// A reader for a network, before the first byte.
    pub fn new(network_magic: [u8; 4]) -> (r: V1FrameReader)
        ensures
            r.well_formed(),
            r.magic() == network_magic@,
            r.received() == Seq::<u8>::empty(),
    {
        V1FrameReader { network_magic, receive_state: V1ReceiveState::reading_header() }
    }

    /// The length of the payload, by a header.
    fn payload_len(header: &[u8; HEADER_SIZE]) -> (r: u32)
        ensures
            HEADER_SIZE + r == frame_len(header@),
    {
        let bytes: [u8; 4] = [
            header[PAYLOAD_LENGTH_OFFSET],
            header[PAYLOAD_LENGTH_OFFSET + 1],
            header[PAYLOAD_LENGTH_OFFSET + 2],
            header[PAYLOAD_LENGTH_OFFSET + 3],
        ];
        assert(bytes@ =~= header@.subrange(
            PAYLOAD_LENGTH_OFFSET as int,
            PAYLOAD_LENGTH_OFFSET + 4,
        ));
        read_u32(bytes)
    }

    /// Goes on from a complete header to the payload.
    fn advance(&mut self)
        requires
            old(self).well_formed(),
            old(self).fits(),
        ensures
            final(self).well_formed(),
            final(self).magic() == old(self).magic(),
            final(self).received() == old(self).received(),
            final(self).receive_state is ReadingHeader ==> final(self).received().len()
                < HEADER_SIZE,
    {
        let next = match &self.receive_state {
            V1ReceiveState::ReadingHeader { header, bytes_read } => {
                if *bytes_read < HEADER_SIZE {
                    return ;
                }
                assert(header@.take(HEADER_SIZE as int) =~= header@);
                let payload_len: u32 = V1FrameReader::payload_len(header);
                let next = V1ReceiveState::reading_payload(*header, payload_len as usize);
                assert(next->buffer@.subrange(
                    PAYLOAD_LENGTH_OFFSET as int,
                    PAYLOAD_LENGTH_OFFSET + 4,
                ) =~= header@.subrange(PAYLOAD_LENGTH_OFFSET as int, PAYLOAD_LENGTH_OFFSET + 4));
                next
            },
            V1ReceiveState::ReadingPayload { buffer, bytes_read } => {
                return ;
            },
        };
        self.receive_state = next;
    }

    /// What comes next. Once a message has been received, the next one is awaited; what is not a
    /// message stays where it is. A peer to which a message is sent on reads it as it was read
    /// here.
    pub fn poll(&mut self) -> (r: V1Step)
        requires
            old(self).well_formed(),
            old(self).fits(),
        ensures
            final(self).well_formed(),
            final(self).magic() == old(self).magic(),
            next_step(old(self).magic(), old(self).received(), r),
            r matches V1Step::Message(message) ==> message@.readable(),
            final(self).received() == (if r is Message {
                Seq::empty()
            } else {
                old(self).received()
            }),
    {
        self.advance();
        let step = match &self.receive_state {
            V1ReceiveState::ReadingHeader { header, bytes_read } => {
                V1Step::NeedBytes(HEADER_SIZE - *bytes_read)
            },
            V1ReceiveState::ReadingPayload { buffer, bytes_read } => {
                proof {
                    lemma_frame_len_of_prefix(buffer@, *bytes_read as int);
                }
                if *bytes_read < buffer.len() {
                    V1Step::NeedBytes(buffer.len() - *bytes_read)
                } else {
                    assert(buffer@.take(*bytes_read as int) =~= buffer@);
                    match decode_v1(buffer.as_slice()) {
                        Err(error) => V1Step::Failed(TransportError::Deserialize(error)),
                        Ok(read) => {
                            proof {
                                lemma_read_command(buffer@);
                            }
                            let magic: [u8; 4] = [buffer[0], buffer[1], buffer[2], buffer[3]];
                            assert(magic@ =~= buffer@.take(4));
                            if same_bytes(magic.as_slice(), self.network_magic.as_slice()) {
                                V1Step::Message(NetworkMessage::from_wire(read))
                            } else {
                                V1Step::Failed(TransportError::MagicMismatch)
                            }
                        },
                    }
                }
            },
        };
        if let V1Step::Message(_) = &step {
            self.receive_state = V1ReceiveState::reading_header();
        }
        step
    }

    /// Takes bytes that have been received, no more than are missing.
    pub fn receive(&mut self, chunk: &[u8])
        requires
            old(self).well_formed(),
            old(self).fits(),
            chunk@.len() <= missing(old(self).received()),
        ensures
            final(self).well_formed(),
            final(self).magic() == old(self).magic(),
            final(self).received() == old(self).received() + chunk@,
    {
        self.advance();
        let ghost before = self.received();
        match &mut self.receive_state {
            V1ReceiveState::ReadingHeader { header, bytes_read } => {
                let start: usize = *bytes_read;
                fill_header(header, start, chunk);
                *bytes_read = start + chunk.len();
                assert(header@.take(start + chunk@.len()) =~= before + chunk@);
            },
            V1ReceiveState::ReadingPayload { buffer, bytes_read } => {
                let start: usize = *bytes_read;
                let ghost room = buffer@;
                proof {
                    lemma_frame_len_of_prefix(room, start as int);
                }
                fill_buffer(buffer, start, chunk);
                *bytes_read = start + chunk.len();
                proof {
                    lemma_frame_len_of_prefix(room, HEADER_SIZE as int);
                    lemma_frame_len_of_prefix(buffer@, HEADER_SIZE as int);
                    assert(buffer@.take(HEADER_SIZE as int) =~= room.take(HEADER_SIZE as int));
                    assert(buffer@.take(start + chunk@.len()) =~= before + chunk@);
                }
            },
        }
    }

    /// Takes bytes from the start of a stream until a message is complete or the stream is used up.
    /// Gives the number of bytes that were taken, and what comes next.
    pub fn read(&mut self, stream: &[u8]) -> (r: (usize, V1Step))
        requires
            old(self).well_formed(),
            (old(self).received() + stream@).len() >= HEADER_SIZE ==> frame_len(
                old(self).received() + stream@,
            ) <= usize::MAX,
        ensures
            final(self).well_formed(),
            final(self).magic() == old(self).magic(),
            r.1 matches V1Step::Message(message) ==> message@.readable(),
            ({
                let all = old(self).received() + stream@;
                if starts_with_frame(all) {
                    let frame = all.take(frame_len(all) as int);
                    &&& r.0 == frame_len(all) - old(self).received().len()
                    &&& next_step(old(self).magic(), frame, r.1)
                    &&& final(self).received() == (if r.1 is Message {
                        Seq::empty()
                    } else {
                        frame
                    })
                } else {
                    &&& r.0 == stream@.len()
                    &&& next_step(old(self).magic(), all, r.1)
                    &&& final(self).received() == all
                }
            }),
    {
        let ghost start = self.received();
        let ghost all = start + stream@;
        let mut taken: usize = 0;
        proof {
            assert(start + stream@.take(0) =~= start);
            self.lemma_missing();
        }
        loop
            invariant
                self.well_formed(),
                self.magic() == old(self).magic(),
                start == old(self).received(),
                all == start + stream@,
                all.len() >= HEADER_SIZE ==> frame_len(all) <= usize::MAX,
                taken <= stream@.len(),
                self.received() == start + stream@.take(taken as int),
                missing(self.received()) >= 0,
            decreases stream@.len() - taken,
        {
            let ghost now = self.received();
            proof {
                assert(all.take(now.len() as int) =~= now);
                if now.len() >= HEADER_SIZE {
                    lemma_frame_len_of_prefix(all, now.len() as int);
                }
            }
            let step = self.poll();
            let need: usize = match &step {
                V1Step::NeedBytes(need) => *need,
                _ => {
                    assert(all.take(frame_len(all) as int) =~= now);
                    return (taken, step);
                },
            };
            if taken == stream.len() {
                assert(stream@.take(taken as int) =~= stream@);
                return (taken, step);
            }
            let left: usize = stream.len() - taken;
            let size: usize = if need < left {
                need
            } else {
                left
            };
            let chunk = vstd::slice::slice_subrange(stream, taken, taken + size);
            self.receive(chunk);
            taken = taken + size;
            proof {
                assert(self.received() =~= start + stream@.take(taken as int));
                if now.len() >= HEADER_SIZE {
                    lemma_frame_len_of_prefix(self.received(), now.len() as int);
                    assert(self.received().take(now.len() as int) =~= now);
                }
            }
        }
    }

    /// The error of a connection that was closed in the middle of a message.
    pub fn closed(&self) -> (r: TransportError)
        requires
            self.well_formed(),
        ensures
            r == TransportError::Io(
                IoError::UnexpectedEof(
                    if self.received().len() < HEADER_SIZE {
                        "connection closed while reading header"
                    } else {
                        "connection closed while reading payload"
                    },
                ),
            ),
    {
        let in_header: bool = match &self.receive_state {
            V1ReceiveState::ReadingHeader { header, bytes_read } => *bytes_read < HEADER_SIZE,
            V1ReceiveState::ReadingPayload { buffer, bytes_read } => false,
        };
        if in_header {
            TransportError::Io(IoError::UnexpectedEof("connection closed while reading header"))
        } else {
            TransportError::Io(IoError::UnexpectedEof("connection closed while reading payload"))
        }
    }
}

/// Writes the plaintext messages of a network.
#[derive(Debug, Clone, Copy)]
pub struct V1FrameWriter {
    /// The magic bytes of the network.
    network_magic: [u8; 4],
}

/// What a peer reads from a message that was written with a command and a payload.
pub open spec fn written_reading(message: NetworkMessageView) -> Option<NetworkMessageView> {
    match payload_reading(message.command(), message.payload()) {
        Some((known, payload)) => Some(interpretation(known, message.command(), payload)),
        None => None,
    }
}

impl V1FrameWriter {
    /// The magic bytes of the network.
    pub closed spec fn magic(self) -> Seq<u8> {
        self.network_magic@
    }

    /// A writer for a network.
    pub fn new(network_magic: [u8; 4]) -> (r: V1FrameWriter)
        ensures
            r.magic() == network_magic@,
    {
        V1FrameWriter { network_magic }
    }

    /// The bytes of a message; nothing where the command or the payload is too long.
    ///
    /// A peer on the same network reads from them a message that is `readable`.
    pub fn encode(&self, message: &NetworkMessage) -> (r: Option<Vec<u8>>)
        ensures
            match r {
                None => encode_utf8(message@.command()).len() > COMMAND_SIZE
                    || message@.payload().len() > u32::MAX,
                Some(frame) => {
                    &&& encode_utf8(message@.command()).len() <= COMMAND_SIZE
                    &&& message@.payload().len() <= u32::MAX
                    &&& frame@ == v1_frame(
                        self.magic(),
                        message@.command(),
                        message@.payload(),
                    )
                    &&& frame@.len() == frame_len(frame@)
                    &&& frame@.take(4) == self.magic()
                    &&& is_command(message@.command()) ==> v1_message(frame@) == written_reading(
                        message@,
                    )
                    &&& message@.readable() ==> v1_message(frame@) == Some(message@)
                },
            },
    {
        let command = message.command();
        let payload = message.payload();
        if command.as_bytes().len() > COMMAND_SIZE || payload.len() > u32::MAX as usize {
            return None;
        }
        let frame = encode_v1(self.network_magic, command, payload);
        proof {
            lemma_frame_reading(self.magic(), message@.command(), message@.payload(), frame@);
        }
        Some(frame)
    }
}

/// What is read from a message that was written.
proof fn lemma_frame_reading(magic: Seq<u8>, command: Seq<char>, payload: Seq<u8>, frame: Seq<u8>)
    requires
        magic.len() == 4,
        encode_utf8(command).len() <= COMMAND_SIZE,
        payload.len() <= u32::MAX,
        frame == v1_frame(magic, command, payload),
        frame.len() == HEADER_SIZE + payload.len(),
    ensures
        frame.len() == frame_len(frame),
        frame.take(4) == magic,
        is_command(command) ==> v1_reading(frame) == (match payload_reading(command, payload) {
            Some((known, read)) => Some((known, command, read)),
            None => None,
        }),
{
    reveal_with_fuel(byte_values, 5);
    lemma_le_bytes(payload.len(), 4);
    let padded = padded_command(command);
    assert(padded.len() == COMMAND_SIZE);
    assert(frame.take(4) =~= magic);
    assert(frame.subrange(4, 16) =~= padded);
    assert(frame.subrange(16, 20) =~= le_bytes(payload.len(), 4));
    assert(frame.subrange(20, 24) =~= payload_checksum(payload));
    assert(frame.subrange(HEADER_SIZE as int, frame.len() as int) =~= payload);
    if is_command(command) {
        is_ascii_chars_encode_utf8(command);
        assert(padded.take(encode_utf8(command).len() as int) =~= encode_utf8(command));
        lemma_trimmed(encode_utf8(command), padded);
        assert(ascii_text(encode_utf8(command)) =~= command);
    }
}

/// The zeros that fill up a command are trimmed again.
proof fn lemma_trimmed(bytes: Seq<u8>, padded: Seq<u8>)
    requires
        bytes.len() > 0 ==> bytes.last() != 0,
        bytes.len() <= padded.len(),
        padded.take(bytes.len() as int) == bytes,
        forall|i: int| bytes.len() <= i < padded.len() ==> padded[i] == 0,
    ensures
        trimmed(padded) == bytes,
    decreases padded.len(),
{
    if bytes.len() < padded.len() {
        assert(padded.drop_last().take(bytes.len() as int) =~= bytes);
        lemma_trimmed(bytes, padded.drop_last());
    } else {
        assert(padded =~= bytes);
    }
}

/// The command of a message that was read is one that can be written.
proof fn lemma_read_command(frame: Seq<u8>)
    requires
        frame.len() >= HEADER_SIZE,
    ensures
        v1_reading(frame) matches Some((_, command, _)) ==> is_command(command),
{
    let bytes = trimmed(frame.subrange(4, 16));
    lemma_trimmed_end(frame.subrange(4, 16));
    if let Some((_, command, _)) = v1_reading(frame) {
        assert forall|i: int| 0 <= i < bytes.len() implies bytes[i] < 128 by {}
        assert(command == ascii_text(bytes));
    }
}

/// What is trimmed does not end in zero.
proof fn lemma_trimmed_end(bytes: Seq<u8>)
    ensures
        trimmed(bytes).len() <= bytes.len(),
        trimmed(bytes).len() > 0 ==> trimmed(bytes).last() != 0,
    decreases bytes.len(),
{
    if bytes.len() > 0 && bytes.last() == 0 {
        lemma_trimmed_end(bytes.drop_last());
    }
}

/// Whether some bytes start with a whole message.
pub open spec fn starts_with_frame(stream: Seq<u8>) -> bool {
    stream.len() >= HEADER_SIZE && stream.len() >= frame_len(stream)
}

/// The whole messages at the start of a stream, one after the other.
pub open spec fn frames(stream: Seq<u8>) -> Seq<Seq<u8>>
    decreases stream.len(),
{
    if starts_with_frame(stream) {
        seq![stream.take(frame_len(stream) as int)] + frames(stream.skip(frame_len(stream) as int))
    } else {
        Seq::empty()
    }
}

/// What follows the whole messages at the start of a stream.
pub open spec fn remainder(stream: Seq<u8>) -> Seq<u8>
    decreases stream.len(),
{
    if starts_with_frame(stream) {
        remainder(stream.skip(frame_len(stream) as int))
    } else {
        stream
    }
}

/// Receiving may stop and go on at any byte: a stream that comes in two pieces holds the messages
/// of the first piece, then those of what is left of it and the second piece; and the same is left
/// in the end.
pub proof fn law_receiving_may_be_interrupted(first: Seq<u8>, second: Seq<u8>)
    ensures
        frames(first + second) == frames(first) + frames(remainder(first) + second),
        remainder(first + second) == remainder(remainder(first) + second),
    decreases first.len(),
{
    if starts_with_frame(first) {
        let n = frame_len(first) as int;
        let whole = first + second;
        lemma_frame_len_of_prefix(whole, first.len() as int);
        assert(whole.take(first.len() as int) =~= first);
        assert(whole.take(n) =~= first.take(n));
        assert(whole.skip(n) =~= first.skip(n) + second);
        law_receiving_may_be_interrupted(first.skip(n), second);
        assert(frames(whole) =~= seq![first.take(n)] + frames(first.skip(n) + second));
        assert(frames(whole) =~= frames(first) + frames(remainder(first) + second));
    } else {
        assert(frames(first + second) =~= frames(first) + frames(remainder(first) + second));
    }
}

/// Whole messages put one after the other come out one after the other, and nothing is left.
pub proof fn law_messages_come_out_in_order(messages: Seq<Seq<u8>>)
    requires
        forall|i: int|
            0 <= i < messages.len() ==> (#[trigger] messages[i]).len() >= HEADER_SIZE
                && messages[i].len() == frame_len(messages[i]),
    ensures
        frames(messages.flatten()) == messages,
        remainder(messages.flatten()) == Seq::<u8>::empty(),
    decreases messages.len(),
{
    if messages.len() > 0 {
        let first = messages[0];
        let rest = messages.drop_first();
        let stream = messages.flatten();
        assert(stream == first + rest.flatten());
        assert forall|i: int| 0 <= i < rest.len() implies (#[trigger] rest[i]).len() >= HEADER_SIZE
            && rest[i].len() == frame_len(rest[i]) by {
            assert(rest[i] == messages[i + 1]);
        }
        law_messages_come_out_in_order(rest);
        lemma_frame_len_of_prefix(stream, first.len() as int);
        assert(stream.take(first.len() as int) =~= first);
        assert(stream.skip(first.len() as int) =~= rest.flatten());
        assert(frames(stream) =~= messages);
    } else {
        assert(messages.flatten() =~= Seq::<u8>::empty());
        assert(frames(messages.flatten()) =~= messages);
    }
}

/// What is sent is received: the bytes of messages, as `V1FrameWriter::encode` gives them for
/// messages that are `readable`, put one after the other are read as those messages, in the same
/// order, and nothing is left.
pub proof fn law_what_is_sent_is_received(
    written: Seq<Seq<u8>>,
    messages: Seq<NetworkMessageView>,
)
    requires
        written.len() == messages.len(),
        forall|i: int|
            0 <= i < written.len() ==> (#[trigger] written[i]).len() >= HEADER_SIZE
                && written[i].len() == frame_len(written[i]) && v1_message(written[i]) == Some(
                messages[i],
            ),
    ensures
        frames(written.flatten()).map_values(|frame: Seq<u8>| v1_message(frame))
            == messages.map_values(|message: NetworkMessageView| Some(message)),
        remainder(written.flatten()) == Seq::<u8>::empty(),
{
    law_messages_come_out_in_order(written);
    assert(written.map_values(|frame: Seq<u8>| v1_message(frame)) =~= messages.map_values(
        |message: NetworkMessageView| Some(message),
    ));
}

/// A message whose checksum is not that of its payload is refused.
pub proof fn law_corrupt_messages_are_refused(frame: Seq<u8>)
    requires
        frame.len() >= HEADER_SIZE,
        frame.subrange(20, 24) != payload_checksum(
            frame.subrange(HEADER_SIZE as int, frame.len() as int),
        ),
    ensures
        v1_message(frame) is None,
{
}

/// Bytes with others put in their place from some point on.
spec fn overwritten(bytes: Seq<u8>, start: int, chunk: Seq<u8>) -> Seq<u8> {
    bytes.take(start) + chunk + bytes.skip(start + chunk.len())
}

/// Puts bytes in a header.
fn fill_header(header: &mut [u8; HEADER_SIZE], start: usize, chunk: &[u8])
    requires
        start + chunk@.len() <= HEADER_SIZE,
    ensures
        final(header)@ == overwritten(old(header)@, start as int, chunk@),
{
    let ghost room = header@;
    let mut i: usize = 0;
    assert(header@ =~= overwritten(room, start as int, chunk@.take(0)));
    while i < chunk.len()
        invariant
            i <= chunk@.len(),
            start + chunk@.len() <= HEADER_SIZE,
            room.len() == HEADER_SIZE,
            header@ == overwritten(room, start as int, chunk@.take(i as int)),
        decreases chunk@.len() - i,
    {
        header[start + i] = chunk[i];
        i = i + 1;
        assert(header@ =~= overwritten(room, start as int, chunk@.take(i as int)));
    }
    assert(chunk@.take(chunk@.len() as int) =~= chunk@);
}

/// Puts bytes in a buffer.
fn fill_buffer(buffer: &mut Vec<u8>, start: usize, chunk: &[u8])
    requires
        start + chunk@.len() <= old(buffer)@.len(),
    ensures
        final(buffer)@ == overwritten(old(buffer)@, start as int, chunk@),
{
    let ghost room = buffer@;
    let mut i: usize = 0;
    assert(buffer.len() == room.len());
    assert(buffer@ =~= overwritten(room, start as int, chunk@.take(0)));
    while i < chunk.len()
        invariant
            i <= chunk@.len(),
            start + chunk@.len() <= room.len() <= usize::MAX,
            buffer@ == overwritten(room, start as int, chunk@.take(i as int)),
        decreases chunk@.len() - i,
    {
        buffer.set(start + i, chunk[i]);
        i = i + 1;
        assert(buffer@ =~= overwritten(room, start as int, chunk@.take(i as int)));
    }
    assert(chunk@.take(chunk@.len() as int) =~= chunk@);
}

/// The length of a message is known from its header on.
proof fn lemma_frame_len_of_prefix(bytes: Seq<u8>, n: int)
    requires
        HEADER_SIZE <= n <= bytes.len(),
    ensures
        frame_len(bytes.take(n)) == frame_len(bytes),
{
    assert(bytes.take(n).subrange(
        PAYLOAD_LENGTH_OFFSET as int,
        PAYLOAD_LENGTH_OFFSET + 4,
    ) =~= bytes.subrange(PAYLOAD_LENGTH_OFFSET as int, PAYLOAD_LENGTH_OFFSET + 4));
}

/// A message is written unless its command or its payload is too long. It is laid out as the magic
/// bytes of the network, the command filled up with zeros to twelve bytes, the length of the
/// payload in four bytes with the first counting least, four bytes of checksum, and the payload. A
/// peer reads it back where it is one that can be read.
pub proof fn law_plaintext_messages_are_laid_out_in_order(
    writer: V1FrameWriter,
    message: NetworkMessage,
    r: Option<Vec<u8>>,
)
    requires
        call_ensures(V1FrameWriter::encode, (&writer, &message), r),
    ensures
        ({
            let command = encode_utf8(message@.command());
            let payload = message@.payload();
            match r {
                None => command.len() > 12 || payload.len() > 0xFFFF_FFFF,
                Some(written) => {
                    let frame = written@;
                    &&& command.len() <= 12 && payload.len() <= 0xFFFF_FFFF
                    &&& frame.len() == 24 + payload.len()
                    &&& frame.subrange(0, 4) == writer.magic()
                    &&& frame.subrange(4, 4 + command.len() as int) == command
                    &&& forall|i: int| 4 + command.len() <= i < 16 ==> #[trigger] frame[i] == 0
                    &&& frame[16] + 0x100 * frame[17] + 0x1_0000 * frame[18] + 0x100_0000
                        * frame[19] == payload.len()
                    &&& frame.subrange(20, 24) == payload_checksum(payload)
                    &&& frame.subrange(24, frame.len() as int) == payload
                    &&& message@.readable() ==> v1_message(frame) == Some(message@)
                },
            }
        }),
{
    if let Some(written) = r {
        let frame = written@;
        let magic = writer.magic();
        let command = encode_utf8(message@.command());
        let payload = message@.payload();
        let padded = padded_command(message@.command());
        reveal_with_fuel(byte_values, 5);
        lemma_le_bytes(payload.len(), 4);
        assert(magic.len() == 4);
        assert(padded.len() == 12);
        assert(frame.subrange(0, 4) =~= magic);
        assert(frame.subrange(4, 16) =~= padded);
        assert(frame.subrange(4, 4 + command.len() as int) =~= command);
        assert forall|i: int| 4 + command.len() <= i < 16 implies #[trigger] frame[i] == 0 by {
            assert(frame[i] == padded[i - 4]);
        }
        let length = frame.subrange(16, 20);
        assert(length =~= le_bytes(payload.len(), 4));
        law_four_bytes_count_upwards(length);
        assert(frame.len() == 20 + payload_checksum(payload).len() + payload.len());
        assert(frame.subrange(20, 24) =~= payload_checksum(payload));
        assert(frame.subrange(24, frame.len() as int) =~= payload);
    }
}

/// What comes next while a message is received: the rest of the 24 bytes of its header, then the
/// rest of the payload, whose length stands in the bytes from the sixteenth on, the first counting
/// least. A message that is complete is given only where it starts with the magic bytes of the
/// network; one that can be read and does not is refused as one of another network; and one that
/// cannot be read is refused as such.
pub proof fn law_messages_are_received_whole_and_on_their_network(
    magic: Seq<u8>,
    received: Seq<u8>,
    step: V1Step,
)
    requires
        next_step(magic, received, step),
    ensures
        received.len() < 24 ==> step == V1Step::NeedBytes((24 - received.len()) as usize),
        received.len() >= 24 ==> {
            let length = 24 + received[16] + 0x100 * received[17] + 0x1_0000 * received[18]
                + 0x100_0000 * received[19];
            &&& received.len() < length ==> step == V1Step::NeedBytes(
                (length - received.len()) as usize,
            )
            &&& received.len() >= length ==> match step {
                V1Step::NeedBytes(_) => false,
                V1Step::Message(message) => {
                    &&& received.take(4) == magic
                    &&& v1_message(received) == Some(message@)
                },
                V1Step::Failed(TransportError::MagicMismatch) => {
                    &&& received.take(4) != magic
                    &&& v1_message(received) is Some
                },
                V1Step::Failed(error) => error is Deserialize && v1_message(received) is None,
            }
        },
{
    if received.len() >= 24 {
        let length = received.subrange(16, 20);
        law_four_bytes_count_upwards(length);
        assert(length[0] == received[16] && length[1] == received[17]);
        assert(length[2] == received[18] && length[3] == received[19]);
    }
}

/// Writers and readers are made for the magic bytes that are given, and a reader starts with
/// nothing received.
pub proof fn law_transports_are_made_for_their_network(
    magic: [u8; 4],
    writer: V1FrameWriter,
    reader: V1FrameReader,
)
    requires
        call_ensures(V1FrameWriter::new, (magic,), writer),
        call_ensures(V1FrameReader::new, (magic,), reader),
    ensures
        writer.magic() == magic@,
        reader.magic() == magic@,
        reader.received().len() == 0,
{
}

/// What a reader makes of what it has received: it asks for the rest of the header, then for the
/// rest of the message; a whole message is given, and the next one awaited, only where it is one of
/// the network of the reader. Nothing that was received is lost else.
pub proof fn law_readers_give_whole_messages_of_their_network(
    reader: &mut V1FrameReader,
    r: V1Step,
)
    requires
        call_ensures(V1FrameReader::poll, (reader,), r),
    ensures
        ({
            let received = old(reader).received();
            &&& final(reader).magic() == old(reader).magic()
            &&& r is Message ==> final(reader).received().len() == 0
            &&& !(r is Message) ==> final(reader).received() == received
            &&& received.len() < 24 ==> r == V1Step::NeedBytes((24 - received.len()) as usize)
            &&& received.len() >= 24 ==> {
                let length = 24 + received[16] + 0x100 * received[17] + 0x1_0000 * received[18]
                    + 0x100_0000 * received[19];
                &&& received.len() < length <==> r is NeedBytes
                &&& r matches V1Step::NeedBytes(count) ==> count == (length
                    - received.len()) as usize
                &&& r matches V1Step::Message(message) ==> {
                    &&& received.take(4) == old(reader).magic()
                    &&& v1_message(received) == Some(message@)
                }
                &&& received.len() >= length && v1_message(received) is Some ==> {
                    &&& r is Message <==> received.take(4) == old(reader).magic()
                    &&& r is Message || r == V1Step::Failed(TransportError::MagicMismatch)
                }
            }
        }),
{
    law_messages_are_received_whole_and_on_their_network(
        old(reader).magic(),
        old(reader).received(),
        r,
    );
}

/// Bytes that are received are kept behind those that were received before.
pub proof fn law_received_bytes_are_kept(reader: &mut V1FrameReader, chunk: &[u8])
    requires
        call_ensures(V1FrameReader::receive, (reader, chunk), ()),
    ensures
        final(reader).received() == old(reader).received() + chunk@,
        final(reader).magic() == old(reader).magic(),
{
}

/// A connection that is closed in the middle of a message is told by where it was: in the header or
/// in the payload.
pub proof fn law_closed_connections_are_told(reader: V1FrameReader, r: TransportError)
    requires
        call_ensures(V1FrameReader::closed, (&reader,), r),
    ensures
        r == TransportError::Io(
            IoError::UnexpectedEof(
                if reader.received().len() < 24 {
                    "connection closed while reading header"
                } else {
                    "connection closed while reading payload"
                },
            ),
        ),
{
}

/// From a stream, a reader takes exactly the bytes that its message is short of, where the stream
/// has them, and then gives the message or says why not; else it takes the whole stream, keeps it,
/// and asks for more. What a message is short of goes by the length in its header.
pub proof fn law_readers_take_one_message_at_a_time(
    reader: &mut V1FrameReader,
    stream: &[u8],
    r: (usize, V1Step),
)
    requires
        call_ensures(V1FrameReader::read, (reader, stream), r),
    ensures
        ({
            let start = old(reader).received();
            let all = start + stream@;
            let length = 24 + all[16] + 0x100 * all[17] + 0x1_0000 * all[18] + 0x100_0000 * all[19];
            &&& final(reader).magic() == old(reader).magic()
            &&& r.1 is Message ==> final(reader).received().len() == 0
            &&& if all.len() >= 24 && all.len() >= length {
                &&& r.0 == length - start.len()
                &&& !(r.1 is NeedBytes)
                &&& r.1 matches V1Step::Message(message) ==> {
                    &&& all.take(4) == old(reader).magic()
                    &&& v1_message(all.take(length)) == Some(message@)
                }
                &&& v1_message(all.take(length)) is Some && all.take(4) == old(reader).magic()
                    ==> r.1 is Message
                &&& !(r.1 is Message) ==> final(reader).received() == all.take(length)
            } else {
                &&& r.0 == stream@.len()
                &&& r.1 is NeedBytes
                &&& final(reader).received() == all
            }
        }),
{
    let start = old(reader).received();
    let all = start + stream@;
    if all.len() >= 24 {
        let header = all.subrange(16, 20);
        law_four_bytes_count_upwards(header);
        assert(header[0] == all[16] && header[1] == all[17]);
        assert(header[2] == all[18] && header[3] == all[19]);
        if starts_with_frame(all) {
            let n = frame_len(all) as int;
            let frame = all.take(n);
            lemma_frame_len_of_prefix(all, n);
            assert(frame.take(4) =~= all.take(4));
        }
    }
}

} // verus!
