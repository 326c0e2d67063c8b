//! What can go wrong in a transport.

use bitcoin::consensus::encode;
use std::io;
use vstd::prelude::*;
use vstd::string::to_string_from_display_ensures;

verus! {

/// An error of the operating system.
#[verifier::external_type_specification]
#[verifier::external_body]
pub struct ExIoError(io::Error);

/// An error of reading or writing.
#[derive(Debug)]
pub enum IoError {
    /// The connection was closed in the middle of a message.
    UnexpectedEof(&'static str),
    /// Something took too long.
    TimedOut(&'static str),
    /// The operating system reported an error.
    System(io::Error),
}

impl IoError {
    /// Whether a text is the one that shows the error.
    pub open spec fn shown_as(self, text: Seq<char>) -> bool {
        match self {
            IoError::UnexpectedEof(message) => text == message@,
            IoError::TimedOut(message) => text == message@,
            IoError::System(error) => exists|shown: String|
                text == shown@ && #[trigger] to_string_from_display_ensures(&error, shown),
        }
    }

    /// Shows the error.
    pub fn to_string(&self) -> (r: String)
        ensures
            self.shown_as(r@),
    {
        match self {
            IoError::UnexpectedEof(message) => (*message).to_owned(),
            IoError::TimedOut(message) => (*message).to_owned(),
            IoError::System(error) => error.to_string(),
        }
    }
}

/// An error of a transport.
#[derive(Debug)]
pub enum TransportError {
    /// Reading or writing failed.
    Io(IoError),
    /// A message could not be read.
    Deserialize(encode::Error),
    /// A message is one of another network.
    MagicMismatch,
    /// Encryption or decryption failed.
    Encryption,
}

impl TransportError {
    /// Whether a text is the one that shows the error.
    pub open spec fn shown_as(self, text: Seq<char>) -> bool {
        match self {
            TransportError::Io(error) => exists|shown: Seq<char>|
                text == "IO error: "@ + shown && #[trigger] error.shown_as(shown),
            TransportError::Deserialize(error) => exists|shown: String|
                text == "Message deserialization error: "@ + shown@
                    && #[trigger] to_string_from_display_ensures(&error, shown),
            TransportError::MagicMismatch => text == "Network magic mismatch"@,
            TransportError::Encryption => text == "BIP324 encryption/decryption error"@,
        }
    }

    /// Shows the error.
    pub fn to_string(&self) -> (r: String)
        ensures
            self.shown_as(r@),
    {
        match self {
            TransportError::Io(error) => {
                let mut text = "IO error: ".to_owned();
                let shown = error.to_string();
                text.append(shown.as_str());
                text
            },
            TransportError::Deserialize(error) => {
                let mut text = "Message deserialization error: ".to_owned();
                let shown = error.to_string();
                text.append(shown.as_str());
                text
            },
            TransportError::MagicMismatch => "Network magic mismatch".to_owned(),
            TransportError::Encryption => "BIP324 encryption/decryption error".to_owned(),
        }
    }
}

impl From<io::Error> for TransportError {
    fn from(error: io::Error) -> (r: TransportError) {
        TransportError::Io(IoError::System(error))
    }
}

impl vstd::std_specs::convert::FromSpecImpl<io::Error> for TransportError {
    open spec fn obeys_from_spec() -> bool {
        true
    }

    open spec fn from_spec(error: io::Error) -> TransportError {
        TransportError::Io(IoError::System(error))
    }
}

impl From<encode::Error> for TransportError {
    fn from(error: encode::Error) -> (r: TransportError) {
        TransportError::Deserialize(error)
    }
}

impl vstd::std_specs::convert::FromSpecImpl<encode::Error> for TransportError {
    open spec fn obeys_from_spec() -> bool {
        true
    }

    open spec fn from_spec(error: encode::Error) -> TransportError {
        TransportError::Deserialize(error)
    }
}

/// An error of a transport is told by its kind; what was the matter with reading or writing follows
/// where that failed.
pub proof fn law_transport_errors_are_told_by_kind(
    message: &'static str,
    eof: String,
    late: String,
    mismatch: String,
    encryption: String,
)
    requires
        call_ensures(
            TransportError::to_string,
            (&TransportError::Io(IoError::UnexpectedEof(message)),),
            eof,
        ),
        call_ensures(
            TransportError::to_string,
            (&TransportError::Io(IoError::TimedOut(message)),),
            late,
        ),
        call_ensures(TransportError::to_string, (&TransportError::MagicMismatch,), mismatch),
        call_ensures(TransportError::to_string, (&TransportError::Encryption,), encryption),
    ensures
        eof@ == "IO error: "@ + message@,
        late@ == "IO error: "@ + message@,
        mismatch@ == "Network magic mismatch"@,
        encryption@ == "BIP324 encryption/decryption error"@,
{
}

} // verus!
