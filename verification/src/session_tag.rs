//! The session tag blob.

use vstd::prelude::*;

use crate::serialize::{Deserialize, Error, Serialize};
use crate::simple_data_structure::{
    base64_of, binary_of, lower_hex_of, upper_hex_of, zero_bytes, SimpleDataStructure,
};

verus! {

/// The byte length of a session tag.
pub const I2P_SESSION_TAG_LENGTH: usize = 32;

/// A session tag: exactly 32 raw bytes, drawn at random by the caller.
///
/// The field is exposed so that specifications can speak about it; construct
/// values through the constructors, which establish [`SessionTag::wf`].
#[derive(Clone, Debug, PartialEq, Eq)]
pub struct SessionTag {
    /// The stored bytes, always exactly 32 of them.
    pub inner: SimpleDataStructure<32>,
}

impl View for SessionTag {
    type V = Seq<u8>;

    open spec fn view(&self) -> Seq<u8> {
        self.inner@
    }
}

impl SessionTag {
    /// Invariant: exactly 32 bytes are stored.
    pub open spec fn wf(self) -> bool {
        self.inner.wf()
    }

    /// Builds a session tag from exactly 32 moved bytes.
    pub fn new(data: Vec<u8>) -> (r: SessionTag)
        requires
            data@.len() == 32,
        ensures
            r@ == data@,
            r.wf(),
    {
        SessionTag { inner: SimpleDataStructure::new(data) }
    }

    /// The length of the session tag in bytes.
    pub fn len(&self) -> (r: usize)
        ensures
            r == 32,
    {
        self.inner.len()
    }

    /// Builds a session tag from at most 32 bytes, read as the low-order
    /// bytes: the front is padded with zeros.  A longer slice is refused.
    pub fn from_bytes(slice: &[u8]) -> (r: Option<SessionTag>)
        ensures
            match r {
                Some(b) => slice@.len() <= 32 && b.wf() && b@ == zero_bytes(
                    (32 - slice@.len()) as nat,
                ) + slice@,
                None => slice@.len() > 32,
            },
    {
        match SimpleDataStructure::from_bytes(slice) {
            Some(inner) => Some(SessionTag { inner }),
            None => None,
        }
    }

    /// The stored bytes.
    pub fn as_slice(&self) -> (r: &[u8])
        ensures
            r@ == self@,
    {
        self.inner.as_slice()
    }

    /// The session tag's base64 text, standard alphabet, unpadded.
    pub fn to_base64(&self) -> (r: String)
        ensures
            r@ == base64_of(self@),
    {
        self.inner.to_base64()
    }

    /// The session tag's lower-case hexadecimal text.
    pub fn to_lower_hex(&self) -> (r: String)
        ensures
            r@ == lower_hex_of(self@),
    {
        self.inner.to_lower_hex()
    }

    /// The session tag's upper-case hexadecimal text.
    pub fn to_upper_hex(&self) -> (r: String)
        ensures
            r@ == upper_hex_of(self@),
    {
        self.inner.to_upper_hex()
    }

    /// The session tag's binary text.
    pub fn to_binary(&self) -> (r: String)
        ensures
            r@ == binary_of(self@),
    {
        self.inner.to_binary()
    }
}

impl Default for SessionTag {
    /// The default session tag is all zero bytes.
    fn default() -> (r: SessionTag)
        ensures
            r.wf(),
            r@ == zero_bytes(32 as nat),
    {
        SessionTag { inner: SimpleDataStructure::zeroed() }
    }
}

impl Serialize for SessionTag {
    open spec fn wf(&self) -> bool {
        SessionTag::wf(*self)
    }

    open spec fn wire(&self) -> Seq<u8> {
        self.inner.data@
    }

    proof fn lemma_wire_len(&self) {
    }

    fn serialize(&self, buf: &mut [u8]) -> (r: Result<usize, Error>) {
        self.inner.serialize(buf)
    }
}

impl Deserialize for SessionTag {
    type Output = SessionTag;

    open spec fn deserialize_post(buf: Seq<u8>, r: Result<SessionTag, Error>) -> bool {
        if buf.len() >= 32 {
            match r {
                Ok(b) => b.wf() && b@ == buf.take(32),
                Err(_) => false,
            }
        } else {
            r == Err::<SessionTag, Error>(Error::BufferTooSmall(32, buf.len() as usize))
        }
    }

    fn deserialize(buf: &[u8]) -> (r: Result<SessionTag, Error>) {
        match SimpleDataStructure::deserialize(buf) {
            Ok(inner) => Ok(SessionTag { inner }),
            Err(err) => Err(err),
        }
    }
}

/// Round trip: decoding the serialized bytes of a well-formed session tag,
/// whatever bytes follow them, yields one with the same bytes; its renewed
/// serialization is therefore byte-identical.
pub proof fn lemma_session_tag_round_trip(v: SessionTag, rest: Seq<u8>, r: Result<SessionTag, Error>)
    requires
        v.wf(),
        <SessionTag as Deserialize>::deserialize_post(Serialize::wire(&v) + rest, r),
    ensures
        match r {
            Ok(w) => w@ == v@ && w.wf() && Serialize::wire(&w) == Serialize::wire(&v),
            Err(_) => false,
        },
{
    assert((v.inner.data@ + rest).take(32) =~= v.inner.data@);
}

} // verus!
