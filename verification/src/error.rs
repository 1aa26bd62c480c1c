//! Errors raised while framing, parsing and enciphering packets.

use vstd::prelude::*;

verus! {

/// An I/O error from the standard library, carried through unchanged.
#[verifier::external_type_specification]
#[verifier::external_body]
pub struct ExIoError(std::io::Error);

#[derive(Debug)]
pub enum PacketError {
    /// The buffer is shorter than a header or a declared size needs.
    TooSmall { needed: usize, have: usize },
    /// A header declares more bytes than the buffer holds.
    SizeMismatch { declared: usize, available: usize },
    /// A Blowfish input length that is not a multiple of 8.
    BlowfishBlockMisaligned(usize),
    /// An error from an underlying reader or writer.
    Io(std::io::Error),
}

} // verus!
