//! The one error channel: what went wrong, and the line to show for it.

use vstd::prelude::*;

verus! {

/// The kinds of failure that the library tells apart.
#[derive(Debug, Clone, PartialEq, Eq)]
pub enum FailureKind {
    /// A file could not be read.
    ReadFailure,
    /// A file could not be written.
    WriteFailure,
    /// Stored or received text is no encoding of the expected shape.
    DecodeFailure,
    /// No record has the identifier that was asked for.
    NotFound { id: String },
    /// The directory that an asset should go to is not there.
    DirectoryMissing,
    /// A service could not be reached.
    TransportFailure,
    /// The gateway answered with a status that is no success.
    GatewayFailure { status: u16, body: String },
}

/// A failure, ready to be shown: every operation that fails returns one.
#[derive(Debug, Clone, PartialEq, Eq)]
pub struct Failure {
    pub kind: FailureKind,
    pub message: String,
}

/// A kind of failure, with its texts as sequences of characters.
pub enum FailureKindText {
    ReadFailure,
    WriteFailure,
    DecodeFailure,
    NotFound { id: Seq<char> },
    DirectoryMissing,
    TransportFailure,
    GatewayFailure { status: u16, body: Seq<char> },
}

impl View for FailureKind {
    type V = FailureKindText;

    open spec fn view(&self) -> FailureKindText {
        match *self {
            FailureKind::ReadFailure => FailureKindText::ReadFailure,
            FailureKind::WriteFailure => FailureKindText::WriteFailure,
            FailureKind::DecodeFailure => FailureKindText::DecodeFailure,
            FailureKind::NotFound { id } => FailureKindText::NotFound { id: id@ },
            FailureKind::DirectoryMissing => FailureKindText::DirectoryMissing,
            FailureKind::TransportFailure => FailureKindText::TransportFailure,
            FailureKind::GatewayFailure { status, body } => FailureKindText::GatewayFailure {
                status,
                body: body@,
            },
        }
    }
}

/// A failure, with its texts as sequences of characters.
pub struct FailureText {
    pub kind: FailureKindText,
    pub message: Seq<char>,
}

impl View for Failure {
    type V = FailureText;

    open spec fn view(&self) -> FailureText {
        FailureText { kind: self.kind@, message: self.message@ }
    }
}

/// Whether `r` is the failure of the given kind with the given message.
pub open spec fn fails_with<T>(r: Result<T, Failure>, kind: FailureKindText, message: Seq<char>) -> bool {
    r matches Err(f) && f@ == (FailureText { kind, message })
}

} // verus!
