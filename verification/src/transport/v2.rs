//! The contents of encrypted messages.

use super::error::TransportError;
use crate::bytes::{byte_values, lemma_le_bytes};
use crate::message::{interpretation, NetworkMessage, NetworkMessageView};
use crate::wire::{
    decode_v2, encode_v2, encode_v2_unknown, holds_command, is_command, padded_command, spelled_out,
    v2_contents, v2_reading, v2_spelled_out, COMMAND_SIZE, MAX_ENCRYPTED_PAYLOAD,
};
use vstd::prelude::*;
use vstd::utf8::encode_utf8;

verus! {

/// What is read from the contents of an encrypted message.
pub open spec fn v2_message(contents: Seq<u8>) -> Option<NetworkMessageView> {
    match v2_reading(contents) {
        Some((known, command, payload)) => Some(interpretation(known, command, payload)),
        None => None,
    }
}

/// Whether the contents of an encrypted message are long enough to hold a command.
pub fn long_enough(contents: &[u8]) -> (r: bool)
    ensures
        r == holds_command(contents@),
{
    contents.len() > 0 && (contents[0] != 0 || contents.len() > COMMAND_SIZE)
}

/// The contents of an encrypted message.
pub open spec fn written(message: NetworkMessageView) -> Seq<u8> {
    match message {
        NetworkMessageView::Unknown(command, payload) => v2_spelled_out(command, payload),
        _ => v2_contents(message.command(), message.payload()),
    }
}

/// Whether a message can be written: its command fits in its field, and so does the length of its
/// payload, which is left out of account where the command has no meaning.
pub open spec fn can_be_written(message: NetworkMessageView) -> bool {
    &&& encode_utf8(message.command()).len() <= COMMAND_SIZE
    &&& message is Unknown || message.payload().len() <= u32::MAX
}

/// Whether the message is one that a peer reads as it was written: an unknown message has a command
/// without a meaning where it is spelled out, and any other message is one that a peer reads as it
/// was written in plaintext, and is not too long.
pub open spec fn is_read_as_written(message: NetworkMessageView) -> bool {
    match message {
        NetworkMessageView::Unknown(command, _) => is_command(command) && !spelled_out(command),
        _ => message.readable() && message.payload().len() <= MAX_ENCRYPTED_PAYLOAD,
    }
}

/// The message in the contents of an encrypted message.
///
/// A peer to which it is sent on reads it as it was read here: in plaintext, unless it is a
/// `feefilter` message or an unknown one; encrypted, where it is an unknown one.
pub fn decode(contents: &[u8]) -> (r: Result<NetworkMessage, TransportError>)
    requires
        holds_command(contents@),
    ensures
        match r {
            Ok(message) => {
                &&& v2_message(contents@) == Some(message@)
                &&& !(message@ is Unknown) && message@.command() != "feefilter"@
                    ==> message@.readable()
                &&& message@ is Unknown ==> is_read_as_written(message@)
            },
            Err(error) => v2_message(contents@) is None && error == TransportError::Encryption,
        },
{
    match decode_v2(contents) {
        Some(read) => Ok(NetworkMessage::from_wire(read)),
        None => Err(TransportError::Encryption),
    }
}

/// The contents of an encrypted message; nothing where the command or the payload is too long.
///
/// A peer reads from them a message for which `is_read_as_written` holds.
pub fn encode(message: &NetworkMessage) -> (r: Option<Vec<u8>>)
    ensures
        match r {
            None => !can_be_written(message@),
            Some(contents) => {
                &&& can_be_written(message@)
                &&& contents@ == written(message@)
                &&& holds_command(contents@)
                &&& is_read_as_written(message@) ==> v2_message(contents@) == Some(message@)
            },
        },
{
    let command = message.command();
    let payload = message.payload();
    if command.as_bytes().len() > COMMAND_SIZE {
        return None;
    }
    if let NetworkMessage::Unknown(_, _) = message {
        return Some(encode_v2_unknown(command, payload));
    }
    if payload.len() > u32::MAX as usize {
        return None;
    }
    Some(encode_v2(command, payload))
}

/// A message is put in encrypted contents unless its command is too long, or its payload where its
/// command has a meaning. An unknown message is spelled out: a zero, its command filled up with
/// zeros to twelve bytes, and its payload. A peer reads back every message that carries nothing or
/// a number, every other readable message that is not too long, and every unknown message whose
/// command has no meaning where it is spelled out.
pub proof fn law_encrypted_contents_are_read_as_written(
    message: NetworkMessage,
    r: Option<Vec<u8>>,
)
    requires
        call_ensures(encode, (&message,), r),
    ensures
        ({
            let command = encode_utf8(message@.command());
            let payload = message@.payload();
            let too_long = command.len() > 12 || (!(message is Unknown) && payload.len()
                > 0xFFFF_FFFF);
            match r {
                None => too_long,
                Some(written) => {
                    let contents = written@;
                    &&& !too_long
                    &&& message matches NetworkMessage::Unknown(name, body) ==> {
                        &&& contents.len() == 13 + body@.len()
                        &&& contents[0] == 0
                        &&& contents.subrange(1, 1 + command.len() as int) == encode_utf8(name@)
                        &&& forall|i: int|
                            1 + command.len() <= i < 13 ==> #[trigger] contents[i] == 0
                        &&& contents.subrange(13, contents.len() as int) == body@
                        &&& is_command(name@) && !spelled_out(name@) ==> v2_message(contents)
                            == Some(message@)
                    }
                    &&& message is Verack || message is GetAddr || message is SendAddrV2
                        || message is SendHeaders || message is WtxidRelay || message is Ping
                        || message is Pong ==> v2_message(contents) == Some(message@)
                    &&& !(message is Unknown) && message@.readable() && payload.len() <= 4_000_000
                        ==> v2_message(contents) == Some(message@)
                },
            }
        }),
{
    if let Some(written) = r {
        let contents = written@;
        if let NetworkMessage::Unknown(name, body) = message {
            let command = encode_utf8(name@);
            let padded = padded_command(name@);
            assert(padded.len() == 12);
            assert(contents.subrange(1, 1 + command.len() as int) =~= command);
            assert forall|i: int| 1 + command.len() <= i < 13 implies #[trigger] contents[i]
                == 0 by {
                assert(contents[i] == padded[i - 1]);
            }
            assert(contents.subrange(13, contents.len() as int) =~= body@);
        }
        if let NetworkMessage::Ping(nonce) = message {
            reveal_with_fuel(byte_values, 9);
            lemma_le_bytes(nonce as nat, 8);
        }
        if let NetworkMessage::Pong(nonce) = message {
            reveal_with_fuel(byte_values, 9);
            lemma_le_bytes(nonce as nat, 8);
        }
    }
}

/// Contents are long enough where they start with a byte that stands for a command, or with a zero
/// and twelve bytes of a command.
pub proof fn law_contents_hold_a_command(contents: &[u8], r: bool)
    requires
        call_ensures(long_enough, (contents,), r),
    ensures
        r <==> contents@.len() >= 13 || (contents@.len() >= 1 && contents@[0] != 0),
{
}

/// What is read from contents is the message in them, and an error of the encryption where there is
/// none.
pub proof fn law_contents_give_their_message(
    contents: &[u8],
    r: Result<NetworkMessage, TransportError>,
)
    requires
        call_ensures(decode, (contents,), r),
    ensures
        match r {
            Ok(message) => v2_reading(contents@) matches Some((known, command, payload))
                && message@ == interpretation(known, command, payload),
            Err(error) => error is Encryption && v2_reading(contents@) is None,
        },
{
}

} // verus!
