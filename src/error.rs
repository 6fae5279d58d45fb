//! The failures that each stage of the pipeline reports.
use vstd::prelude::*;

verus! {

/// Failures of the framed byte-stream transport.
#[derive(Clone, Copy, Debug, PartialEq, Eq, Structural)]
pub enum TransportError {
    /// The header did not start with the configured preamble: the stream is
    /// no longer aligned on frame boundaries.
    BadPreamble,
    /// Fewer bytes arrived than the header or the declared length asked for.
    Truncated,
    /// A length does not fit the size field, or a decoded length does not fit
    /// in `usize`.
    LengthOverflow,
    /// A size field was handed over with another number of bytes than its
    /// configured width.
    SizeFieldWidth,
    /// The underlying stream failed to read or to write.
    Io,
}

/// Failures to turn a value into wire bytes or wire bytes into a value.
#[derive(Clone, Copy, Debug, PartialEq, Eq, Structural)]
pub enum CodecError {
    /// The bytes are no well-formed document of the wire format.
    Malformed,
    /// The response names no status.
    MissingStatus,
    /// The status field holds a value of the wrong kind.
    StatusType,
    /// The status value is none of those the protocol defines.
    UnknownStatus,
    /// The message field holds something other than text.
    MessageType,
    /// The request kind has no encoding in this format.
    UnsupportedRequest,
}

/// Failures of one request/response exchange with the controller.
#[derive(Clone, Copy, Debug, PartialEq, Eq, Structural)]
pub enum ClientError {
    Codec(CodecError),
    Transport(TransportError),
}

} // verus!
