//! The shared serialize / deserialize contract and its error taxonomy.
//!
//! Every wire type of the library implements [`Serialize`] and, where the wire
//! form alone determines the value, [`Deserialize`].  `serialize` writes the
//! value's canonical wire bytes at offset 0 of a caller-supplied buffer and
//! performs no partial write when the buffer is too small; `deserialize` reads
//! the canonical wire bytes from the front of a buffer.

use vstd::prelude::*;

verus! {

/// The lower-level failure wrapped by an encoding or decoding error.
#[derive(Clone, Copy, Debug, PartialEq, Eq, Structural)]
pub enum Cause {
    /// A failure of the bounded-string layer.
    Text(crate::i2p_string::I2pStringError),
    /// A failure of the timestamp layer.
    Time(crate::i2p_date::I2pDateError),
    /// A failure of the certificate layer.
    Certificate(crate::certificate::CertificateError),
}

/// An error raised while serializing or deserializing a value.
#[derive(Clone, Copy, Debug, PartialEq, Eq, Structural)]
pub enum Error {
    /// The buffer is too small.  The first field is the number of bytes
    /// needed, the second field is the number of bytes available.
    BufferTooSmall(usize, usize),
    /// A value could not be encoded; the field holds the underlying failure.
    Encoding(Cause),
    /// The bytes are structurally present but semantically invalid; the field
    /// holds the underlying failure.
    Decoding(Cause),
}

impl Error {
    /// Builds the capacity error from the needed and available byte counts.
    pub fn buffer_too_small(need: usize, have: usize) -> (r: Error)
        ensures
            r == Error::BufferTooSmall(need, have),
    {
        Error::BufferTooSmall(need, have)
    }
}

/// What `serialize` promises: writing into a buffer of `old_buf.len()` bytes
/// either places the wire bytes at offset 0, leaves the tail unchanged and
/// returns the number of bytes written, or -- exactly when the buffer is
/// shorter than the wire form -- changes nothing and reports how many bytes
/// would have been needed.
pub open spec fn serialize_post(
    wire: Seq<u8>,
    old_buf: Seq<u8>,
    new_buf: Seq<u8>,
    r: Result<usize, Error>,
) -> bool {
    &&& new_buf.len() == old_buf.len()
    &&& if wire.len() <= old_buf.len() {
        &&& r == Ok::<usize, Error>(wire.len() as usize)
        &&& new_buf == wire + old_buf.skip(wire.len() as int)
    } else {
        &&& r == Err::<usize, Error>(
            Error::BufferTooSmall(wire.len() as usize, old_buf.len() as usize),
        )
        &&& new_buf == old_buf
    }
}

/// Encoding of a typed value into its canonical wire bytes.
pub trait Serialize {
    /// The type's internal invariant; constructors establish it and every
    /// method preserves it.
    spec fn wf(&self) -> bool;

    /// The canonical wire bytes of the value.
    spec fn wire(&self) -> Seq<u8>;

    /// A well-formed value has a wire form that fits in memory.
    proof fn lemma_wire_len(&self)
        requires
            self.wf(),
        ensures
            self.wire().len() <= usize::MAX,
    ;

    /// Writes the value's canonical wire bytes into `buf` starting at offset
    /// 0.  Fails, writing nothing, exactly when `buf` is shorter than the
    /// wire form.
    fn serialize(&self, buf: &mut [u8]) -> (r: Result<usize, Error>)
        requires
            self.wf(),
        ensures
            serialize_post(self.wire(), old(buf)@, final(buf)@, r),
    ;
}

/// Decoding of a typed value from the front of a byte buffer.
pub trait Deserialize: Sized {
    /// The decoded type.
    type Output;

    /// What `deserialize` returns on each input buffer, result and errors
    /// both pinned exactly.
    spec fn deserialize_post(buf: Seq<u8>, r: Result<Self::Output, Error>) -> bool;

    /// Reads a value's canonical wire bytes from the front of `buf`.
    fn deserialize(buf: &[u8]) -> (r: Result<Self::Output, Error>)
        ensures
            Self::deserialize_post(buf@, r),
    ;
}

} // verus!
