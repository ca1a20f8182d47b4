//! The ElGamal private key blob: only the exponent, not the primes,
//! which are constant and fixed by the cryptography specification.

use vstd::prelude::*;

use crate::serialize::{Deserialize, Error, Serialize};
use crate::simple_data_structure::{
    base64_of, binary_of, lower_hex_of, upper_hex_of, zero_bytes, SimpleDataStructure,
};

verus! {

/// The byte length of a private key.
pub const I2P_PRIVATE_KEY_LENGTH: usize = 256;

/// An ElGamal decryption private key: exactly 256 raw bytes.
///
/// The field is exposed so that specifications can speak about it; construct
/// values through the constructors, which establish [`PrivateKey::wf`].
#[derive(Clone, Debug, PartialEq, Eq)]
pub struct PrivateKey {
    /// The stored bytes, always exactly 256 of them.
    pub inner: SimpleDataStructure<256>,
}

impl View for PrivateKey {
    type V = Seq<u8>;

    open spec fn view(&self) -> Seq<u8> {
        self.inner@
    }
}

impl PrivateKey {
    /// Invariant: exactly 256 bytes are stored.
    pub open spec fn wf(self) -> bool {
        self.inner.wf()
    }

    /// Builds a private key from exactly 256 moved bytes.
    pub fn new(data: Vec<u8>) -> (r: PrivateKey)
        requires
            data@.len() == 256,
        ensures
            r@ == data@,
            r.wf(),
    {
        PrivateKey { inner: SimpleDataStructure::new(data) }
    }

    /// The length of the private key in bytes.
    pub fn len(&self) -> (r: usize)
        ensures
            r == 256,
    {
        self.inner.len()
    }

    /// Builds a private key from at most 256 bytes, read as the low-order
    /// bytes: the front is padded with zeros.  A longer slice is refused.
    pub fn from_bytes(slice: &[u8]) -> (r: Option<PrivateKey>)
        ensures
            match r {
                Some(b) => slice@.len() <= 256 && b.wf() && b@ == zero_bytes(
                    (256 - slice@.len()) as nat,
                ) + slice@,
                None => slice@.len() > 256,
            },
    {
        match SimpleDataStructure::from_bytes(slice) {
            Some(inner) => Some(PrivateKey { inner }),
            None => None,
        }
    }

    /// The stored bytes.
    pub fn as_slice(&self) -> (r: &[u8])
        ensures
            r@ == self@,
    {
        self.inner.as_slice()
    }

    /// The private key's base64 text, standard alphabet, unpadded.
    pub fn to_base64(&self) -> (r: String)
        ensures
            r@ == base64_of(self@),
    {
        self.inner.to_base64()
    }

    /// The private key's lower-case hexadecimal text.
    pub fn to_lower_hex(&self) -> (r: String)
        ensures
            r@ == lower_hex_of(self@),
    {
        self.inner.to_lower_hex()
    }

    /// The private key's upper-case hexadecimal text.
    pub fn to_upper_hex(&self) -> (r: String)
        ensures
            r@ == upper_hex_of(self@),
    {
        self.inner.to_upper_hex()
    }

    /// The private key's binary text.
    pub fn to_binary(&self) -> (r: String)
        ensures
            r@ == binary_of(self@),
    {
        self.inner.to_binary()
    }
}

impl Default for PrivateKey {
    /// The default private key is all zero bytes.
    fn default() -> (r: PrivateKey)
        ensures
            r.wf(),
            r@ == zero_bytes(256 as nat),
    {
        PrivateKey { inner: SimpleDataStructure::zeroed() }
    }
}

impl Serialize for PrivateKey {
    open spec fn wf(&self) -> bool {
        PrivateKey::wf(*self)
    }

    open spec fn wire(&self) -> Seq<u8> {
        self.inner.data@
    }

    proof fn lemma_wire_len(&self) {
    }

    fn serialize(&self, buf: &mut [u8]) -> (r: Result<usize, Error>) {
        self.inner.serialize(buf)
    }
}

impl Deserialize for PrivateKey {
    type Output = PrivateKey;

    open spec fn deserialize_post(buf: Seq<u8>, r: Result<PrivateKey, Error>) -> bool {
        if buf.len() >= 256 {
            match r {
                Ok(b) => b.wf() && b@ == buf.take(256),
                Err(_) => false,
            }
        } else {
            r == Err::<PrivateKey, Error>(Error::BufferTooSmall(256, buf.len() as usize))
        }
    }

    fn deserialize(buf: &[u8]) -> (r: Result<PrivateKey, Error>) {
        match SimpleDataStructure::deserialize(buf) {
            Ok(inner) => Ok(PrivateKey { inner }),
            Err(err) => Err(err),
        }
    }
}

/// Round trip: decoding the serialized bytes of a well-formed private key,
/// whatever bytes follow them, yields one with the same bytes; its renewed
/// serialization is therefore byte-identical.
pub proof fn lemma_private_key_round_trip(v: PrivateKey, rest: Seq<u8>, r: Result<PrivateKey, Error>)
    requires
        v.wf(),
        <PrivateKey as Deserialize>::deserialize_post(Serialize::wire(&v) + rest, r),
    ensures
        match r {
            Ok(w) => w@ == v@ && w.wf() && Serialize::wire(&w) == Serialize::wire(&v),
            Err(_) => false,
        },
{
    assert((v.inner.data@ + rest).take(256) =~= v.inner.data@);
}

} // verus!
