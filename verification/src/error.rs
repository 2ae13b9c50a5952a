use vstd::prelude::*;

verus! {

/// Why a buffer could not be decoded.
#[derive(Clone, Copy, Debug, PartialEq, Eq, Structural)]
pub enum ParseError {
    /// A header is shorter than the fixed part of its layer: either the
    /// buffer ends before it, or the length that the header declares for
    /// itself is below it.
    TooShort,
    /// The header declares a length that reaches past the end of the buffer.
    HeaderLengthExceedsPacket,
}

} // verus!
