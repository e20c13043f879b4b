//! The error states of serialising and of parsing.
use vstd::prelude::*;

verus! {

/// Everything that can go wrong while writing a frame or reading one.
#[derive(Copy, Clone, Debug, PartialEq, Eq, Structural)]
#[non_exhaustive]
pub enum Error {
    /// Serialisation buffer should be at least 10 bytes long
    BufferTooShort,
    /// A complete packet was received but its checksum was invalid
    BadChecksum,
    /// Command not recognised; the raw value is returned
    InvalidCommand(u8),
    /// A parameter byte is not one of the codes of the parameter's
    /// enumeration
    InvalidParameterValue,
}

} // verus!
