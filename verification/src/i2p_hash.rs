//! The SHA256 hash blob.

use vstd::prelude::*;

use crate::serialize::{Deserialize, Error, Serialize};
use crate::simple_data_structure::{
    base64_of, binary_of, lower_hex_of, upper_hex_of, zero_bytes, SimpleDataStructure,
};

verus! {

/// The byte length of a hash.
pub const I2P_SHA256_HASH_LENGTH: usize = 32;

/// The SHA256 hash of some data: exactly 32 raw bytes.
///
/// The field is exposed so that specifications can speak about it; construct
/// values through the constructors, which establish [`Hash256::wf`].
#[derive(Clone, Debug, PartialEq, Eq)]
pub struct Hash256 {
    /// The stored bytes, always exactly 32 of them.
    pub inner: SimpleDataStructure<32>,
}

impl View for Hash256 {
    type V = Seq<u8>;

    open spec fn view(&self) -> Seq<u8> {
        self.inner@
    }
}

impl Hash256 {
    /// Invariant: exactly 32 bytes are stored.
    pub open spec fn wf(self) -> bool {
        self.inner.wf()
    }

    /// Builds a hash from exactly 32 moved bytes.
    pub fn new(data: Vec<u8>) -> (r: Hash256)
        requires
            data@.len() == 32,
        ensures
            r@ == data@,
            r.wf(),
    {
        Hash256 { inner: SimpleDataStructure::new(data) }
    }

    /// The length of the hash in bytes.
    pub fn len(&self) -> (r: usize)
        ensures
            r == 32,
    {
        self.inner.len()
    }

    /// Builds a hash from at most 32 bytes, read as the low-order
    /// bytes: the front is padded with zeros.  A longer slice is refused.
    pub fn from_bytes(slice: &[u8]) -> (r: Option<Hash256>)
        ensures
            match r {
                Some(b) => slice@.len() <= 32 && b.wf() && b@ == zero_bytes(
                    (32 - slice@.len()) as nat,
                ) + slice@,
                None => slice@.len() > 32,
            },
    {
        match SimpleDataStructure::from_bytes(slice) {
            Some(inner) => Some(Hash256 { inner }),
            None => None,
        }
    }

    /// The stored bytes.
    pub fn as_slice(&self) -> (r: &[u8])
        ensures
            r@ == self@,
    {
        self.inner.as_slice()
    }

    /// The hash's base64 text, standard alphabet, unpadded.
    pub fn to_base64(&self) -> (r: String)
        ensures
            r@ == base64_of(self@),
    {
        self.inner.to_base64()
    }

    /// The hash's lower-case hexadecimal text.
    pub fn to_lower_hex(&self) -> (r: String)
        ensures
            r@ == lower_hex_of(self@),
    {
        self.inner.to_lower_hex()
    }

    /// The hash's upper-case hexadecimal text.
    pub fn to_upper_hex(&self) -> (r: String)
        ensures
            r@ == upper_hex_of(self@),
    {
        self.inner.to_upper_hex()
    }

    /// The hash's binary text.
    pub fn to_binary(&self) -> (r: String)
        ensures
            r@ == binary_of(self@),
    {
        self.inner.to_binary()
    }
}

impl Default for Hash256 {
    /// The default hash is all zero bytes.
    fn default() -> (r: Hash256)
        ensures
            r.wf(),
            r@ == zero_bytes(32 as nat),
    {
        Hash256 { inner: SimpleDataStructure::zeroed() }
    }
}

impl Serialize for Hash256 {
    open spec fn wf(&self) -> bool {
        Hash256::wf(*self)
    }

    open spec fn wire(&self) -> Seq<u8> {
        self.inner.data@
    }

    proof fn lemma_wire_len(&self) {
    }

    fn serialize(&self, buf: &mut [u8]) -> (r: Result<usize, Error>) {
        self.inner.serialize(buf)
    }
}

impl Deserialize for Hash256 {
    type Output = Hash256;

    open spec fn deserialize_post(buf: Seq<u8>, r: Result<Hash256, Error>) -> bool {
        if buf.len() >= 32 {
            match r {
                Ok(b) => b.wf() && b@ == buf.take(32),
                Err(_) => false,
            }
        } else {
            r == Err::<Hash256, Error>(Error::BufferTooSmall(32, buf.len() as usize))
        }
    }

    fn deserialize(buf: &[u8]) -> (r: Result<Hash256, Error>) {
        match SimpleDataStructure::deserialize(buf) {
            Ok(inner) => Ok(Hash256 { inner }),
            Err(err) => Err(err),
        }
    }
}

/// Round trip: decoding the serialized bytes of a well-formed hash,
/// whatever bytes follow them, yields one with the same bytes; its renewed
/// serialization is therefore byte-identical.
pub proof fn lemma_hash256_round_trip(v: Hash256, rest: Seq<u8>, r: Result<Hash256, Error>)
    requires
        v.wf(),
        <Hash256 as Deserialize>::deserialize_post(Serialize::wire(&v) + rest, r),
    ensures
        match r {
            Ok(w) => w@ == v@ && w.wf() && Serialize::wire(&w) == Serialize::wire(&v),
            Err(_) => false,
        },
{
    assert((v.inner.data@ + rest).take(32) =~= v.inner.data@);
}

/// An interface for producing the SHA256 hash of a piece of data.
pub trait Hashable256 {
    /// Computes the SHA256 hash.
    fn hash_sha256(&self) -> Hash256;
}

impl Hashable256 for Hash256 {
    /// A hash is its own SHA256 digest at this layer.
    fn hash_sha256(&self) -> Hash256 {
        match Hash256::from_bytes(self.inner.as_slice()) {
            Some(h) => h,
            None => Hash256::default(),
        }
    }
}

} // verus!
