//! The ways in which a flashing operation ends without success.

use vstd::prelude::*;

verus! {

/// Why an operation was given up. The transport's failures are kept apart from
/// the codec's, so that a caller can tell whether the link, the device or the
/// image data is at fault.
#[derive(Clone, Copy, Debug, PartialEq, Eq, Structural)]
pub enum Error {
    /// The transport could not carry a command or its response.
    Transport,
    /// No response arrived before the command's deadline.
    Timeout,
    /// The device answered, and refused the command.
    Protocol,
    /// The codec could not compress the segment.
    Compression,
    /// The codec refused a chunk of the compressed stream.
    Decompression,
    /// The compressed stream does not decode to as many bytes as the segment
    /// holds.
    LengthMismatch,
    /// A size does not fit the fields of the command that must carry it, or the
    /// write block size is zero.
    OutOfRange,
    /// The operation was resumed after its end, or with an event that does not
    /// answer what it had asked for.
    InvalidState,
}

impl Error {
    /// Whether the codec, not the link or the device, is at fault.
    pub open spec fn spec_is_codec(self) -> bool {
        self == Error::Compression || self == Error::Decompression || self
            == Error::LengthMismatch
    }

    /// Whether the codec, not the link or the device, is at fault.
    #[verifier::when_used_as_spec(spec_is_codec)]
    pub fn is_codec(self) -> (r: bool)
        ensures
            r == self.spec_is_codec(),
    {
        match self {
            Error::Compression | Error::Decompression | Error::LengthMismatch => true,
            _ => false,
        }
    }
}

} // verus!
