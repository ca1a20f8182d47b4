//! Interfaces for endian-aware byte input and output.
//!
//! These traits name the operations a type offers when it can be read from
//! or written to a buffer in an explicit byte order.  No type of this layer
//! implements them yet: the wire types use the shared serialize contract
//! instead, which is big-endian throughout.

use vstd::prelude::*;

verus! {

/// An error raised by an endian-aware read or write.
#[derive(Clone, Debug, PartialEq, Eq)]
pub enum Error {
    /// The buffer is too small.  The first field is the needed number of
    /// bytes, the second field is the available number of bytes.
    BufferTooSmall(usize, usize),
    /// Any other failure, described in text.
    OtherError(String),
}

/// Reading a value from the front of a buffer in big-endian byte order.
pub trait ReadBytesBigEndian {
    /// The type read from the buffer.
    type Output;

    /// Reads a value from the front of `buf`, most significant byte first.
    fn read_bytes_be(buf: &[u8]) -> Result<Self::Output, Error>;
}

/// Writing a value to the front of a buffer in big-endian byte order.
pub trait WriteBytesBigEndian {
    /// Writes the value to the front of `buf`, most significant byte first,
    /// and returns the number of bytes written.
    fn write_bytes_be(&self, buf: &mut [u8]) -> Result<usize, Error>;
}

/// Reading a value from the front of a buffer in little-endian byte order.
pub trait ReadBytesLittleEndian {
    /// The type read from the buffer.
    type Output;

    /// Reads a value from the front of `buf`, least significant byte first.
    fn read_bytes_le(buf: &[u8]) -> Result<Self::Output, Error>;
}

/// Writing a value to the front of a buffer in little-endian byte order.
pub trait WriteBytesLittleEndian {
    /// Writes the value to the front of `buf`, least significant byte
    /// first, and returns the number of bytes written.
    fn write_bytes_le(&self, buf: &mut [u8]) -> Result<usize, Error>;
}

} // verus!
