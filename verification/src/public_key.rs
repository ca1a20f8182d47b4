//! The ElGamal public key blob.

use vstd::prelude::*;

use crate::serialize::{Deserialize, Error, Serialize};
use crate::simple_data_structure::{
    base64_of, binary_of, lower_hex_of, upper_hex_of, zero_bytes, SimpleDataStructure,
};

verus! {

/// The byte length of a public key.
pub const I2P_PUBLIC_KEY_LENGTH: usize = 256;

/// An ElGamal encryption public key: exactly 256 raw bytes.
///
/// The field is exposed so that specifications can speak about it; construct
/// values through the constructors, which establish [`PublicKey::wf`].
#[derive(Clone, Debug, PartialEq, Eq)]
pub struct PublicKey {
    /// The stored bytes, always exactly 256 of them.
    pub inner: SimpleDataStructure<256>,
}

impl View for PublicKey {
    type V = Seq<u8>;

    open spec fn view(&self) -> Seq<u8> {
        self.inner@
    }
}

impl PublicKey {
    /// Invariant: exactly 256 bytes are stored.
    pub open spec fn wf(self) -> bool {
        self.inner.wf()
    }

    /// Builds a public key from exactly 256 moved bytes.
    pub fn new(data: Vec<u8>) -> (r: PublicKey)
        requires
            data@.len() == 256,
        ensures
            r@ == data@,
            r.wf(),
    {
        PublicKey { inner: SimpleDataStructure::new(data) }
    }

    /// The length of the public key in bytes.
    pub fn len(&self) -> (r: usize)
        ensures
            r == 256,
    {
        self.inner.len()
    }

    /// Builds a public key from at most 256 bytes, read as the low-order
    /// bytes: the front is padded with zeros.  A longer slice is refused.
    pub fn from_slice(slice: &[u8]) -> (r: Option<PublicKey>)
        ensures
            match r {
                Some(b) => slice@.len() <= 256 && b.wf() && b@ == zero_bytes(
                    (256 - slice@.len()) as nat,
                ) + slice@,
                None => slice@.len() > 256,
            },
    {
        match SimpleDataStructure::from_bytes(slice) {
            Some(inner) => Some(PublicKey { inner }),
            None => None,
        }
    }

    /// The stored bytes.
    pub fn as_slice(&self) -> (r: &[u8])
        ensures
            r@ == self@,
    {
        self.inner.as_slice()
    }

    /// The public key's base64 text, standard alphabet, unpadded.
    pub fn to_base64(&self) -> (r: String)
        ensures
            r@ == base64_of(self@),
    {
        self.inner.to_base64()
    }

    /// The public key's lower-case hexadecimal text.
    pub fn to_lower_hex(&self) -> (r: String)
        ensures
            r@ == lower_hex_of(self@),
    {
        self.inner.to_lower_hex()
    }

    /// The public key's upper-case hexadecimal text.
    pub fn to_upper_hex(&self) -> (r: String)
        ensures
            r@ == upper_hex_of(self@),
    {
        self.inner.to_upper_hex()
    }

    /// The public key's binary text.
    pub fn to_binary(&self) -> (r: String)
        ensures
            r@ == binary_of(self@),
    {
        self.inner.to_binary()
    }
}

impl Default for PublicKey {
    /// The default public key is all zero bytes.
    fn default() -> (r: PublicKey)
        ensures
            r.wf(),
            r@ == zero_bytes(256 as nat),
    {
        PublicKey { inner: SimpleDataStructure::zeroed() }
    }
}

impl Serialize for PublicKey {
    open spec fn wf(&self) -> bool {
        PublicKey::wf(*self)
    }

    open spec fn wire(&self) -> Seq<u8> {
        self.inner.data@
    }

    proof fn lemma_wire_len(&self) {
    }

    fn serialize(&self, buf: &mut [u8]) -> (r: Result<usize, Error>) {
        self.inner.serialize(buf)
    }
}

impl Deserialize for PublicKey {
    type Output = PublicKey;

    open spec fn deserialize_post(buf: Seq<u8>, r: Result<PublicKey, Error>) -> bool {
        if buf.len() >= 256 {
            match r {
                Ok(b) => b.wf() && b@ == buf.take(256),
                Err(_) => false,
            }
        } else {
            r == Err::<PublicKey, Error>(Error::BufferTooSmall(256, buf.len() as usize))
        }
    }

    fn deserialize(buf: &[u8]) -> (r: Result<PublicKey, Error>) {
        match SimpleDataStructure::deserialize(buf) {
            Ok(inner) => Ok(PublicKey { inner }),
            Err(err) => Err(err),
        }
    }
}

/// Round trip: decoding the serialized bytes of a well-formed public key,
/// whatever bytes follow them, yields one with the same bytes; its renewed
/// serialization is therefore byte-identical.
pub proof fn lemma_public_key_round_trip(v: PublicKey, rest: Seq<u8>, r: Result<PublicKey, Error>)
    requires
        v.wf(),
        <PublicKey as Deserialize>::deserialize_post(Serialize::wire(&v) + rest, r),
    ensures
        match r {
            Ok(w) => w@ == v@ && w.wf() && Serialize::wire(&w) == Serialize::wire(&v),
            Err(_) => false,
        },
{
    assert((v.inner.data@ + rest).take(256) =~= v.inner.data@);
}

} // verus!
