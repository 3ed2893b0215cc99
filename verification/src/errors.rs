//! What can go wrong, by how far it reaches.
//!
//! Only [`Error`] ever leaves an exchange. The other kinds are outcomes of a
//! single decoding step: an [`EnvelopeError`] ends the exchange, a
//! [`Rejection`] merely drops one datagram.

use vstd::prelude::*;

verus! {

/// A failure that ends a probe or a telemetry exchange.
#[derive(Clone, Copy, Debug, PartialEq, Eq, Structural)]
pub enum Error {
    /// An internal consistency fault, such as a frame that does not fit its buffer.
    InternalError,
    /// A received IPv4 datagram whose header framing is malformed.
    DecodeV4Error,
    /// The time budget ran out before an acceptable answer came; `elapsed` is
    /// the time in microseconds at which this was found.
    Timeout { elapsed: u64 },
    /// The operating system refused a socket operation; `code` is its error number.
    IoError { code: i32 },
    /// An accepted telemetry reply whose record is not well-formed UTF-8.
    DecodeTextError,
}

/// Why a frame could not be written.
#[derive(Clone, Copy, Debug, PartialEq, Eq, Structural)]
pub enum EncodeError {
    /// The destination is shorter than header and payload together.
    BufferTooSmall,
}

/// Why the IPv4 header in front of a message could not be taken off.
#[derive(Clone, Copy, Debug, PartialEq, Eq, Structural)]
pub enum EnvelopeError {
    /// The datagram is shorter than the smallest IPv4 header.
    TooShort,
    /// The header declares more bytes than the datagram holds.
    HeaderLength,
}

/// Why a region did not decode as an echo message.
#[derive(Clone, Copy, Debug, PartialEq, Eq, Structural)]
pub enum ClassificationError {
    /// The region is shorter than the echo header.
    TooShort,
    /// Type and code are those of neither an echo request nor an echo reply.
    UnknownType,
}

/// Why a well-framed datagram is not the awaited answer. None of these ends
/// an exchange.
#[derive(Clone, Copy, Debug, PartialEq, Eq, Structural)]
pub enum Rejection {
    /// It is no echo message at all.
    Classification(ClassificationError),
    /// It is an echo message of the other kind than the awaited one.
    UnexpectedKind,
    /// It carries another identifier than the outstanding request.
    IdentifierMismatch,
    /// Its payload does not begin with the awaited tag.
    TagMismatch,
}

/// Why a command cannot be carried out as it was given.
#[derive(Clone, Copy, Debug, PartialEq, Eq, Structural)]
pub enum CommandError {
    /// The interval is no number of seconds.
    BadInterval,
    /// The line of the hosts list at this index, counted from 0, names no
    /// station.
    BadHostLine { line: usize },
    /// The pattern that tells comments from entries could not be compiled.
    BadPattern,
}

/// A short description of `error`, fit for a log line.
pub open spec fn message_of(error: Error) -> Seq<char> {
    match error {
        Error::InternalError => "internal error"@,
        Error::DecodeV4Error => "malformed IPv4 datagram"@,
        Error::Timeout { .. } => "timeout occurred"@,
        Error::IoError { .. } => "socket operation failed"@,
        Error::DecodeTextError => "record is not valid UTF-8"@,
    }
}

impl Error {
    /// A short description of the failure, fit for a log line.
    pub fn message(&self) -> (text: &'static str)
        ensures
            text@ == message_of(*self),
    {
        match self {
            Error::InternalError => "internal error",
            Error::DecodeV4Error => "malformed IPv4 datagram",
            Error::Timeout { .. } => "timeout occurred",
            Error::IoError { .. } => "socket operation failed",
            Error::DecodeTextError => "record is not valid UTF-8",
        }
    }
}

} // verus!
