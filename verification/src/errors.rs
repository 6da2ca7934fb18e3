//! The error values that the stream decoders report.

use vstd::prelude::*;

verus! {

/// What can go wrong while decoding a chunked byte stream.
///
/// The decoders never guess an item complete: every failure surfaces as one
/// of these values, never as silent truncation or corruption.
#[derive(Clone, Copy, Debug, PartialEq, Eq, Structural)]
pub enum DecodeError {
    /// The underlying chunk source failed; the decoder's state is discarded.
    Transport,
    /// The chunk stream ended while a frame was only partially buffered.
    UnexpectedEof,
    /// A record's bytes are not valid UTF-8.
    InvalidEncoding,
    /// A record decoded as text but failed structured parsing.
    Deserialization,
}

impl DecodeError {
    /// A short description of the error, in place of `Display`.
    pub fn message(&self) -> (r: &'static str)
        ensures
            r@ == match self {
                DecodeError::Transport => "transport failure"@,
                DecodeError::UnexpectedEof => "stream ended mid-frame"@,
                DecodeError::InvalidEncoding => "record is not valid utf-8"@,
                DecodeError::Deserialization => "record failed structured parsing"@,
            },
    {
        match self {
            DecodeError::Transport => "transport failure",
            DecodeError::UnexpectedEof => "stream ended mid-frame",
            DecodeError::InvalidEncoding => "record is not valid utf-8",
            DecodeError::Deserialization => "record failed structured parsing",
        }
    }
}

} // verus!
