//! Digital-signature material.
//!
//! Three record kinds share one shape: an algorithm tag and a byte payload
//! whose length the tag determines.  A [`SigningPublicKey`] verifies
//! signatures, a [`SigningPrivateKey`] creates them, and a [`Signature`] is
//! the signature proper; each kind has its own length table.  The wire form
//! is the exact-length payload alone: the tag travels out of band, for
//! example inside a certificate.

use vstd::prelude::*;

use crate::serialize::{Error, Serialize};
use crate::simple_data_structure::{
    base64_of, binary_of, bytes_to_base64, lower_hex_of, serialize_bytes, to_binary_str,
    to_lower_hex_str, to_upper_hex_str, upper_hex_of, zero_bytes,
};

verus! {

/// The key type contained in a key certificate.  The legacy tag is the
/// default; recent router identities and destinations use the EdDSA tags.
#[allow(non_camel_case_types)]
#[derive(Clone, Copy, Debug, PartialEq, Eq, Structural, Hash)]
pub enum SignatureType {
    /// Legacy router identities and destinations.
    DSA_SHA1,
    /// Recent destinations.
    ECDSA_SHA256_P256,
    /// Rarely used for destinations.
    ECDSA_SHA384_P384,
    /// Rarely used for destinations.
    ECDSA_SHA512_P521,
    /// Offline signing, never used for router identities or destinations.
    RSA_SHA256_2048,
    /// Offline signing, never used for router identities or destinations.
    RSA_SHA384_3072,
    /// Offline signing, never used for router identities or destinations.
    RSA_SHA512_4096,
    /// Recent router identities and destinations.
    EdDSA_SHA512_Ed25519,
    /// Offline signing, never used for router identities or destinations.
    EdDSA_SHA512_Ed25519ph,
}

/// The verification-key length of each algorithm tag.
pub open spec fn spec_signing_public_key_length(sigtype: SignatureType) -> nat {
    match sigtype {
        SignatureType::DSA_SHA1 => 128,
        SignatureType::ECDSA_SHA256_P256 => 64,
        SignatureType::ECDSA_SHA384_P384 => 96,
        SignatureType::ECDSA_SHA512_P521 => 132,
        SignatureType::RSA_SHA256_2048 => 256,
        SignatureType::RSA_SHA384_3072 => 384,
        SignatureType::RSA_SHA512_4096 => 512,
        SignatureType::EdDSA_SHA512_Ed25519 => 32,
        SignatureType::EdDSA_SHA512_Ed25519ph => 32,
    }
}

/// The signing-key length of each algorithm tag.
pub open spec fn spec_signing_private_key_length(sigtype: SignatureType) -> nat {
    match sigtype {
        SignatureType::DSA_SHA1 => 20,
        SignatureType::ECDSA_SHA256_P256 => 32,
        SignatureType::ECDSA_SHA384_P384 => 48,
        SignatureType::ECDSA_SHA512_P521 => 66,
        SignatureType::RSA_SHA256_2048 => 512,
        SignatureType::RSA_SHA384_3072 => 768,
        SignatureType::RSA_SHA512_4096 => 1024,
        SignatureType::EdDSA_SHA512_Ed25519 => 32,
        SignatureType::EdDSA_SHA512_Ed25519ph => 32,
    }
}

/// The signature length of each algorithm tag.
pub open spec fn spec_signature_length(sigtype: SignatureType) -> nat {
    match sigtype {
        SignatureType::DSA_SHA1 => 40,
        SignatureType::ECDSA_SHA256_P256 => 64,
        SignatureType::ECDSA_SHA384_P384 => 96,
        SignatureType::ECDSA_SHA512_P521 => 132,
        SignatureType::RSA_SHA256_2048 => 256,
        SignatureType::RSA_SHA384_3072 => 384,
        SignatureType::RSA_SHA512_4096 => 512,
        SignatureType::EdDSA_SHA512_Ed25519 => 64,
        SignatureType::EdDSA_SHA512_Ed25519ph => 64,
    }
}

impl SignatureType {
    /// The byte length of a verification key of this algorithm.
    pub fn signing_public_key_length(&self) -> (r: usize)
        ensures
            r == spec_signing_public_key_length(*self),
    {
        match *self {
            SignatureType::DSA_SHA1 => 128,
            SignatureType::ECDSA_SHA256_P256 => 64,
            SignatureType::ECDSA_SHA384_P384 => 96,
            SignatureType::ECDSA_SHA512_P521 => 132,
            SignatureType::RSA_SHA256_2048 => 256,
            SignatureType::RSA_SHA384_3072 => 384,
            SignatureType::RSA_SHA512_4096 => 512,
            SignatureType::EdDSA_SHA512_Ed25519 => 32,
            SignatureType::EdDSA_SHA512_Ed25519ph => 32,
        }
    }

    /// The byte length of a signing key of this algorithm.
    pub fn signing_private_key_length(&self) -> (r: usize)
        ensures
            r == spec_signing_private_key_length(*self),
    {
        match *self {
            SignatureType::DSA_SHA1 => 20,
            SignatureType::ECDSA_SHA256_P256 => 32,
            SignatureType::ECDSA_SHA384_P384 => 48,
            SignatureType::ECDSA_SHA512_P521 => 66,
            SignatureType::RSA_SHA256_2048 => 512,
            SignatureType::RSA_SHA384_3072 => 768,
            SignatureType::RSA_SHA512_4096 => 1024,
            SignatureType::EdDSA_SHA512_Ed25519 => 32,
            SignatureType::EdDSA_SHA512_Ed25519ph => 32,
        }
    }

    /// The byte length of a signature of this algorithm.
    pub fn signature_length(&self) -> (r: usize)
        ensures
            r == spec_signature_length(*self),
    {
        match *self {
            SignatureType::DSA_SHA1 => 40,
            SignatureType::ECDSA_SHA256_P256 => 64,
            SignatureType::ECDSA_SHA384_P384 => 96,
            SignatureType::ECDSA_SHA512_P521 => 132,
            SignatureType::RSA_SHA256_2048 => 256,
            SignatureType::RSA_SHA384_3072 => 384,
            SignatureType::RSA_SHA512_4096 => 512,
            SignatureType::EdDSA_SHA512_Ed25519 => 64,
            SignatureType::EdDSA_SHA512_Ed25519ph => 64,
        }
    }
}

/// The length of a signature data structure for a given algorithm tag.
pub trait SigningLength {
    /// The byte length the tag requires, as a specification-level value.
    spec fn spec_signing_length(sigtype: SignatureType) -> nat;

    /// Returns the byte length the tag requires.
    fn signing_length(sigtype: SignatureType) -> (r: usize)
        ensures
            r == Self::spec_signing_length(sigtype),
    ;
}

/// Builds a zero-filled byte vector of the given length.
fn zero_filled(n: usize) -> (r: Vec<u8>)
    ensures
        r@ == zero_bytes(n as nat),
{
    let mut data: Vec<u8> = Vec::new();
    let mut i: usize = 0;
    while i < n
        invariant
            i <= n,
            data@ =~= zero_bytes(i as nat),
        decreases n - i,
    {
        data.push(0x00);
        i = i + 1;
        proof {
            assert(data@ =~= zero_bytes(i as nat));
        }
    }
    data
}

/// A key for verifying digital signatures.
///
/// The fields are exposed so that specifications can speak about them;
/// construct values through the constructors, which establish
/// [`SigningPublicKey::wf`].
#[derive(Clone, Debug, PartialEq, Eq)]
pub struct SigningPublicKey {
    /// The algorithm tag.
    pub sigtype: SignatureType,
    /// The payload, exactly as long as the tag requires.
    pub data: Vec<u8>,
}

impl View for SigningPublicKey {
    type V = Seq<u8>;

    open spec fn view(&self) -> Seq<u8> {
        self.data@
    }
}

impl SigningLength for SigningPublicKey {
    open spec fn spec_signing_length(sigtype: SignatureType) -> nat {
        spec_signing_public_key_length(sigtype)
    }

    fn signing_length(sigtype: SignatureType) -> (r: usize) {
        sigtype.signing_public_key_length()
    }
}

impl SigningPublicKey {
    /// Invariant: the payload length is the one the tag requires.
    pub open spec fn wf(self) -> bool {
        self.data@.len() == spec_signing_public_key_length(self.sigtype)
    }

    /// Builds the record of a tag with a zero-filled payload of the tag's
    /// required length.
    pub fn new(sigtype: SignatureType) -> (r: SigningPublicKey)
        ensures
            r.sigtype == sigtype,
            r@ == zero_bytes(spec_signing_public_key_length(sigtype)),
            r.wf(),
    {
        let data = zero_filled(Self::signing_length(sigtype));
        SigningPublicKey { sigtype, data }
    }

    /// What [`SigningPublicKey::from_bytes`] returns for a tag and bytes: the record,
    /// exactly when the byte count is the one the tag requires.
    pub open spec fn from_bytes_post(
        sigtype: SignatureType,
        bytes: Seq<u8>,
        r: Option<SigningPublicKey>,
    ) -> bool {
        match r {
            Some(k) => bytes.len() == spec_signing_public_key_length(sigtype) && k.sigtype == sigtype && k@ == bytes
                && k.wf(),
            None => bytes.len() != spec_signing_public_key_length(sigtype),
        }
    }

    /// Builds the record of a tag from its exact-length payload: no
    /// truncation, no padding.
    pub fn from_bytes(sigtype: SignatureType, bytes: &[u8]) -> (r: Option<SigningPublicKey>)
        ensures
            SigningPublicKey::from_bytes_post(sigtype, bytes@, r),
    {
        if Self::signing_length(sigtype) == bytes.len() {
            let data = vstd::slice::slice_to_vec(bytes);
            Some(SigningPublicKey { sigtype, data })
        } else {
            None
        }
    }

    /// The length of the payload in bytes.
    pub fn len(&self) -> (r: usize)
        ensures
            r == self@.len(),
    {
        self.data.len()
    }

    /// The payload bytes.
    pub fn as_slice(&self) -> (r: &[u8])
        ensures
            r@ == self@,
    {
        self.data.as_slice()
    }

    /// The payload's base64 text, standard alphabet, unpadded.
    pub fn to_base64(&self) -> (r: String)
        ensures
            r@ == base64_of(self@),
    {
        bytes_to_base64(self.data.as_slice())
    }

    /// The payload's lower-case hexadecimal text.
    pub fn to_lower_hex(&self) -> (r: String)
        ensures
            r@ == lower_hex_of(self@),
    {
        to_lower_hex_str(self.data.as_slice())
    }

    /// The payload's upper-case hexadecimal text.
    pub fn to_upper_hex(&self) -> (r: String)
        ensures
            r@ == upper_hex_of(self@),
    {
        to_upper_hex_str(self.data.as_slice())
    }

    /// The payload's binary text.
    pub fn to_binary(&self) -> (r: String)
        ensures
            r@ == binary_of(self@),
    {
        to_binary_str(self.data.as_slice())
    }
}

impl Default for SigningPublicKey {
    /// The default record carries the legacy tag with a zero-filled payload.
    fn default() -> (r: SigningPublicKey)
        ensures
            r.sigtype == SignatureType::DSA_SHA1,
            r@ == zero_bytes(spec_signing_public_key_length(SignatureType::DSA_SHA1)),
            r.wf(),
    {
        SigningPublicKey::new(SignatureType::DSA_SHA1)
    }
}

impl Serialize for SigningPublicKey {
    open spec fn wf(&self) -> bool {
        SigningPublicKey::wf(*self)
    }

    open spec fn wire(&self) -> Seq<u8> {
        self.data@
    }

    proof fn lemma_wire_len(&self) {
    }

    fn serialize(&self, buf: &mut [u8]) -> (r: Result<usize, Error>) {
        serialize_bytes(self.data.as_slice(), buf)
    }
}

/// Round trip: rebuilding a well-formed record from its own tag and
/// serialized bytes yields a record with the same tag and payload.
pub proof fn lemma_signing_public_key_round_trip(v: SigningPublicKey, r: Option<SigningPublicKey>)
    requires
        v.wf(),
        SigningPublicKey::from_bytes_post(v.sigtype, Serialize::wire(&v), r),
    ensures
        match r {
            Some(w) => w.sigtype == v.sigtype && w@ == v@ && w.wf(),
            None => false,
        },
{
}

/// A key for creating digital signatures.
///
/// The fields are exposed so that specifications can speak about them;
/// construct values through the constructors, which establish
/// [`SigningPrivateKey::wf`].
#[derive(Clone, Debug, PartialEq, Eq)]
pub struct SigningPrivateKey {
    /// The algorithm tag.
    pub sigtype: SignatureType,
    /// The payload, exactly as long as the tag requires.
    pub data: Vec<u8>,
}

impl View for SigningPrivateKey {
    type V = Seq<u8>;

    open spec fn view(&self) -> Seq<u8> {
        self.data@
    }
}

impl SigningLength for SigningPrivateKey {
    open spec fn spec_signing_length(sigtype: SignatureType) -> nat {
        spec_signing_private_key_length(sigtype)
    }

    fn signing_length(sigtype: SignatureType) -> (r: usize) {
        sigtype.signing_private_key_length()
    }
}

impl SigningPrivateKey {
    /// Invariant: the payload length is the one the tag requires.
    pub open spec fn wf(self) -> bool {
        self.data@.len() == spec_signing_private_key_length(self.sigtype)
    }

    /// Builds the record of a tag with a zero-filled payload of the tag's
    /// required length.
    pub fn new(sigtype: SignatureType) -> (r: SigningPrivateKey)
        ensures
            r.sigtype == sigtype,
            r@ == zero_bytes(spec_signing_private_key_length(sigtype)),
            r.wf(),
    {
        let data = zero_filled(Self::signing_length(sigtype));
        SigningPrivateKey { sigtype, data }
    }

    /// What [`SigningPrivateKey::from_bytes`] returns for a tag and bytes: the record,
    /// exactly when the byte count is the one the tag requires.
    pub open spec fn from_bytes_post(
        sigtype: SignatureType,
        bytes: Seq<u8>,
        r: Option<SigningPrivateKey>,
    ) -> bool {
        match r {
            Some(k) => bytes.len() == spec_signing_private_key_length(sigtype) && k.sigtype == sigtype && k@ == bytes
                && k.wf(),
            None => bytes.len() != spec_signing_private_key_length(sigtype),
        }
    }

    /// Builds the record of a tag from its exact-length payload: no
    /// truncation, no padding.
    pub fn from_bytes(sigtype: SignatureType, bytes: &[u8]) -> (r: Option<SigningPrivateKey>)
        ensures
            SigningPrivateKey::from_bytes_post(sigtype, bytes@, r),
    {
        if Self::signing_length(sigtype) == bytes.len() {
            let data = vstd::slice::slice_to_vec(bytes);
            Some(SigningPrivateKey { sigtype, data })
        } else {
            None
        }
    }

    /// The length of the payload in bytes.
    pub fn len(&self) -> (r: usize)
        ensures
            r == self@.len(),
    {
        self.data.len()
    }

    /// The payload bytes.
    pub fn as_slice(&self) -> (r: &[u8])
        ensures
            r@ == self@,
    {
        self.data.as_slice()
    }

    /// The payload's base64 text, standard alphabet, unpadded.
    pub fn to_base64(&self) -> (r: String)
        ensures
            r@ == base64_of(self@),
    {
        bytes_to_base64(self.data.as_slice())
    }

    /// The payload's lower-case hexadecimal text.
    pub fn to_lower_hex(&self) -> (r: String)
        ensures
            r@ == lower_hex_of(self@),
    {
        to_lower_hex_str(self.data.as_slice())
    }

    /// The payload's upper-case hexadecimal text.
    pub fn to_upper_hex(&self) -> (r: String)
        ensures
            r@ == upper_hex_of(self@),
    {
        to_upper_hex_str(self.data.as_slice())
    }

    /// The payload's binary text.
    pub fn to_binary(&self) -> (r: String)
        ensures
            r@ == binary_of(self@),
    {
        to_binary_str(self.data.as_slice())
    }
}

impl Default for SigningPrivateKey {
    /// The default record carries the legacy tag with a zero-filled payload.
    fn default() -> (r: SigningPrivateKey)
        ensures
            r.sigtype == SignatureType::DSA_SHA1,
            r@ == zero_bytes(spec_signing_private_key_length(SignatureType::DSA_SHA1)),
            r.wf(),
    {
        SigningPrivateKey::new(SignatureType::DSA_SHA1)
    }
}

impl Serialize for SigningPrivateKey {
    open spec fn wf(&self) -> bool {
        SigningPrivateKey::wf(*self)
    }

    open spec fn wire(&self) -> Seq<u8> {
        self.data@
    }

    proof fn lemma_wire_len(&self) {
    }

    fn serialize(&self, buf: &mut [u8]) -> (r: Result<usize, Error>) {
        serialize_bytes(self.data.as_slice(), buf)
    }
}

/// Round trip: rebuilding a well-formed record from its own tag and
/// serialized bytes yields a record with the same tag and payload.
pub proof fn lemma_signing_private_key_round_trip(v: SigningPrivateKey, r: Option<SigningPrivateKey>)
    requires
        v.wf(),
        SigningPrivateKey::from_bytes_post(v.sigtype, Serialize::wire(&v), r),
    ensures
        match r {
            Some(w) => w.sigtype == v.sigtype && w@ == v@ && w.wf(),
            None => false,
        },
{
}

/// The digital signature of some data.
///
/// The fields are exposed so that specifications can speak about them;
/// construct values through the constructors, which establish
/// [`Signature::wf`].
#[derive(Clone, Debug, PartialEq, Eq)]
pub struct Signature {
    /// The algorithm tag.
    pub sigtype: SignatureType,
    /// The payload, exactly as long as the tag requires.
    pub data: Vec<u8>,
}

impl View for Signature {
    type V = Seq<u8>;

    open spec fn view(&self) -> Seq<u8> {
        self.data@
    }
}

impl SigningLength for Signature {
    open spec fn spec_signing_length(sigtype: SignatureType) -> nat {
        spec_signature_length(sigtype)
    }

    fn signing_length(sigtype: SignatureType) -> (r: usize) {
        sigtype.signature_length()
    }
}

impl Signature {
    /// Invariant: the payload length is the one the tag requires.
    pub open spec fn wf(self) -> bool {
        self.data@.len() == spec_signature_length(self.sigtype)
    }

    /// Builds the record of a tag with a zero-filled payload of the tag's
    /// required length.
    pub fn new(sigtype: SignatureType) -> (r: Signature)
        ensures
            r.sigtype == sigtype,
            r@ == zero_bytes(spec_signature_length(sigtype)),
            r.wf(),
    {
        let data = zero_filled(Self::signing_length(sigtype));
        Signature { sigtype, data }
    }

    /// What [`Signature::from_bytes`] returns for a tag and bytes: the record,
    /// exactly when the byte count is the one the tag requires.
    pub open spec fn from_bytes_post(
        sigtype: SignatureType,
        bytes: Seq<u8>,
        r: Option<Signature>,
    ) -> bool {
        match r {
            Some(k) => bytes.len() == spec_signature_length(sigtype) && k.sigtype == sigtype && k@ == bytes
                && k.wf(),
            None => bytes.len() != spec_signature_length(sigtype),
        }
    }

    /// Builds the record of a tag from its exact-length payload: no
    /// truncation, no padding.
    pub fn from_bytes(sigtype: SignatureType, bytes: &[u8]) -> (r: Option<Signature>)
        ensures
            Signature::from_bytes_post(sigtype, bytes@, r),
    {
        if Self::signing_length(sigtype) == bytes.len() {
            let data = vstd::slice::slice_to_vec(bytes);
            Some(Signature { sigtype, data })
        } else {
            None
        }
    }

    /// The length of the payload in bytes.
    pub fn len(&self) -> (r: usize)
        ensures
            r == self@.len(),
    {
        self.data.len()
    }

    /// The payload bytes.
    pub fn as_slice(&self) -> (r: &[u8])
        ensures
            r@ == self@,
    {
        self.data.as_slice()
    }

    /// The payload's base64 text, standard alphabet, unpadded.
    pub fn to_base64(&self) -> (r: String)
        ensures
            r@ == base64_of(self@),
    {
        bytes_to_base64(self.data.as_slice())
    }

    /// The payload's lower-case hexadecimal text.
    pub fn to_lower_hex(&self) -> (r: String)
        ensures
            r@ == lower_hex_of(self@),
    {
        to_lower_hex_str(self.data.as_slice())
    }

    /// The payload's upper-case hexadecimal text.
    pub fn to_upper_hex(&self) -> (r: String)
        ensures
            r@ == upper_hex_of(self@),
    {
        to_upper_hex_str(self.data.as_slice())
    }

    /// The payload's binary text.
    pub fn to_binary(&self) -> (r: String)
        ensures
            r@ == binary_of(self@),
    {
        to_binary_str(self.data.as_slice())
    }
}

impl Default for Signature {
    /// The default record carries the legacy tag with a zero-filled payload.
    fn default() -> (r: Signature)
        ensures
            r.sigtype == SignatureType::DSA_SHA1,
            r@ == zero_bytes(spec_signature_length(SignatureType::DSA_SHA1)),
            r.wf(),
    {
        Signature::new(SignatureType::DSA_SHA1)
    }
}

impl Serialize for Signature {
    open spec fn wf(&self) -> bool {
        Signature::wf(*self)
    }

    open spec fn wire(&self) -> Seq<u8> {
        self.data@
    }

    proof fn lemma_wire_len(&self) {
    }

    fn serialize(&self, buf: &mut [u8]) -> (r: Result<usize, Error>) {
        serialize_bytes(self.data.as_slice(), buf)
    }
}

/// Round trip: rebuilding a well-formed record from its own tag and
/// serialized bytes yields a record with the same tag and payload.
pub proof fn lemma_signature_round_trip(v: Signature, r: Option<Signature>)
    requires
        v.wf(),
        Signature::from_bytes_post(v.sigtype, Serialize::wire(&v), r),
    ensures
        match r {
            Some(w) => w.sigtype == v.sigtype && w@ == v@ && w.wf(),
            None => false,
        },
{
}

} // verus!
