//! Errors reported by the codec.
use vstd::prelude::*;

verus! {

/// Errors that can occur while decoding.
#[derive(Debug, Clone, Copy, PartialEq, Eq, Structural)]
pub enum MessageError {
    /// The message type byte named no known message.
    UnknownMessageType,
    /// Not enough bytes were left: for a fixed-size read this holds the
    /// number of bytes asked for, for a variable-length read the number of
    /// bytes that were left.
    Incomplete(usize),
}

/// Errors that can occur while encoding.
#[derive(Debug, Clone, Copy, PartialEq, Eq, Structural)]
pub enum EncodeError {
    /// A token or payload is longer than its 16-bit length prefix can state.
    PayloadTooLarge,
}

} // verus!
