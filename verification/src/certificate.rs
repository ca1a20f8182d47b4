//! The certificate container.
//!
//! A [`Certificate`] is a container for various receipts or proofs of work
//! used throughout the network: a type code, a two-byte declared length and
//! that many payload bytes.  The payload byte count always equals the
//! declared length.  Only the `KEY` type is interpreted further at this
//! layer: its payload starts with a two-byte signature-algorithm code and a
//! two-byte crypto-algorithm code, each mapped through its own lookup table;
//! unrecognized codes are reported, never guessed at.  All other certificate
//! types carry their payload opaquely and round-trip byte for byte.

use vstd::prelude::*;

use crate::i2p_integer::{
    be_bytes_of, be_value_of, byte_bound, lemma_be_bytes_len, lemma_be_value_of_be_bytes,
    lemma_byte_bound_values, I2pInt16,
};
use crate::serialize::{Cause, Deserialize, Error, Serialize};
use crate::signature::SignatureType;

verus! {

/// The kind of cryptography named in a key certificate.
#[derive(Clone, Copy, Debug, PartialEq, Eq, Structural)]
pub enum CryptoType {
    /// ElGamal encryption.
    ElGamal,
}

/// The kinds of certificate.
#[allow(non_camel_case_types)]
#[derive(Clone, Copy, Debug, PartialEq, Eq, Structural)]
pub enum CertificateType {
    /// No certificate.
    NULL,
    /// Experimental, unused.  The payload holds an ASCII colon-separated
    /// hashcash string.
    HASHCASH,
    /// Experimental, unused.  Hidden routers generally do not announce that
    /// they are hidden.
    HIDDEN,
    /// Experimental, unused.  The payload holds a 40-byte DSA signature,
    /// optionally followed by a 32-byte hash of the signing destination.
    SIGNED,
    /// Experimental, unused.  The payload holds multiple certificates.
    MULTIPLE,
    /// A key certificate: the payload names the signature and crypto
    /// algorithms and carries extended key material.
    KEY,
}

/// An error raised while decoding a certificate.
#[derive(Clone, Copy, Debug, PartialEq, Eq, Structural)]
pub enum CertificateError {
    /// The type-code byte names no known certificate type.
    UnsupportedCertificateType(u8),
    /// A key certificate's signature-algorithm code names no known
    /// algorithm.
    UnsupportedSignatureType(u16),
    /// A key certificate's crypto-algorithm code names no known algorithm.
    UnsupportedCryptoType(u16),
    /// A key certificate's payload is too short to hold its two algorithm
    /// codes; the field is the payload length.
    KeyPayloadTooShort(usize),
}

/// The wire code of each certificate type.
pub open spec fn spec_type_code(t: CertificateType) -> u8 {
    match t {
        CertificateType::NULL => 0,
        CertificateType::HASHCASH => 1,
        CertificateType::HIDDEN => 2,
        CertificateType::SIGNED => 3,
        CertificateType::MULTIPLE => 4,
        CertificateType::KEY => 5,
    }
}

/// The certificate type of a wire code, if the code is known.
pub open spec fn spec_type_from_code(code: u8) -> Option<CertificateType> {
    if code == 0 {
        Some(CertificateType::NULL)
    } else if code == 1 {
        Some(CertificateType::HASHCASH)
    } else if code == 2 {
        Some(CertificateType::HIDDEN)
    } else if code == 3 {
        Some(CertificateType::SIGNED)
    } else if code == 4 {
        Some(CertificateType::MULTIPLE)
    } else if code == 5 {
        Some(CertificateType::KEY)
    } else {
        None
    }
}

/// The signature algorithm of a key certificate's code, if the code is
/// known.
pub open spec fn spec_sigtype_from_code(type_code: int) -> Option<SignatureType> {
    if type_code == 0 {
        Some(SignatureType::DSA_SHA1)
    } else if type_code == 1 {
        Some(SignatureType::ECDSA_SHA256_P256)
    } else if type_code == 2 {
        Some(SignatureType::ECDSA_SHA384_P384)
    } else if type_code == 3 {
        Some(SignatureType::ECDSA_SHA512_P521)
    } else if type_code == 4 {
        Some(SignatureType::RSA_SHA256_2048)
    } else if type_code == 5 {
        Some(SignatureType::RSA_SHA384_3072)
    } else if type_code == 6 {
        Some(SignatureType::RSA_SHA512_4096)
    } else if type_code == 7 {
        Some(SignatureType::EdDSA_SHA512_Ed25519)
    } else if type_code == 8 {
        Some(SignatureType::EdDSA_SHA512_Ed25519ph)
    } else {
        None
    }
}

/// The crypto algorithm of a key certificate's code, if the code is known.
pub open spec fn spec_crypto_type_from_code(type_code: int) -> Option<CryptoType> {
    if type_code == 0 {
        Some(CryptoType::ElGamal)
    } else {
        None
    }
}

/// Whether a key certificate's payload carries two known algorithm codes.
pub open spec fn key_payload_valid(p: Seq<u8>) -> bool {
    &&& p.len() >= 4
    &&& spec_sigtype_from_code(be_value_of(p.take(2)) as int) is Some
    &&& spec_crypto_type_from_code(be_value_of(p.subrange(2, 4)) as int) is Some
}

impl CertificateType {
    /// The wire code of this certificate type.
    pub fn type_code(&self) -> (r: u8)
        ensures
            r == spec_type_code(*self),
    {
        match *self {
            CertificateType::NULL => 0,
            CertificateType::HASHCASH => 1,
            CertificateType::HIDDEN => 2,
            CertificateType::SIGNED => 3,
            CertificateType::MULTIPLE => 4,
            CertificateType::KEY => 5,
        }
    }

    /// Reads a certificate type back from its wire code.
    pub fn from_type_code(code: u8) -> (r: Option<CertificateType>)
        ensures
            r == spec_type_from_code(code),
    {
        if code == 0 {
            Some(CertificateType::NULL)
        } else if code == 1 {
            Some(CertificateType::HASHCASH)
        } else if code == 2 {
            Some(CertificateType::HIDDEN)
        } else if code == 3 {
            Some(CertificateType::SIGNED)
        } else if code == 4 {
            Some(CertificateType::MULTIPLE)
        } else if code == 5 {
            Some(CertificateType::KEY)
        } else {
            None
        }
    }
}

/// A certificate: a type code, a declared length and that many payload
/// bytes.
///
/// The fields are exposed so that specifications can speak about them;
/// construct values through the constructors, which establish
/// [`Certificate::wf`].
#[derive(Clone, Debug, PartialEq, Eq)]
pub struct Certificate {
    /// The kind of the certificate.
    pub certificate_type: CertificateType,
    /// The declared payload length.
    pub length: I2pInt16,
    /// The payload, exactly as many bytes as declared.
    pub payload: Vec<u8>,
}

impl Certificate {
    /// Invariant: the declared length always equals the payload byte count.
    pub open spec fn wf(self) -> bool {
        self.length.wf() && self.length.value() == self.payload@.len()
    }

    /// A certificate whose payload a decoder accepts: it is well formed,
    /// and a key certificate names known algorithms.
    pub open spec fn decodable(self) -> bool {
        self.wf() && (self.certificate_type == CertificateType::KEY ==> key_payload_valid(
            self.payload@,
        ))
    }

    /// Builds a certificate, validating that the declared length equals the
    /// payload byte count.
    pub fn new(certificate_type: CertificateType, length: I2pInt16, payload: Vec<u8>) -> (r:
        Option<Certificate>)
        requires
            length.wf(),
        ensures
            match r {
                Some(c) => length.value() == payload@.len() && c.certificate_type
                    == certificate_type && c.length == length && c.payload@ == payload@ && c.wf(),
                None => length.value() != payload@.len(),
            },
    {
        if payload.len() as u64 == length.to_u64() {
            Some(Certificate { certificate_type, length, payload })
        } else {
            None
        }
    }

    /// The kind of the certificate.
    pub fn certificate_type(&self) -> (r: CertificateType)
        ensures
            r == self.certificate_type,
    {
        self.certificate_type
    }

    /// The declared payload length, always the payload byte count.
    pub fn length(&self) -> (r: I2pInt16)
        requires
            self.wf(),
        ensures
            r == self.length,
            r.value() == self.payload@.len(),
    {
        self.length
    }

    /// The payload bytes.
    pub fn payload(&self) -> (r: &[u8])
        ensures
            r@ == self.payload@,
    {
        self.payload.as_slice()
    }

    /// The signature algorithm of a key certificate's code, if the code is
    /// known.
    pub fn type_code_to_sigtype(type_code: usize) -> (r: Option<SignatureType>)
        ensures
            r == spec_sigtype_from_code(type_code as int),
    {
        if type_code == 0 {
            Some(SignatureType::DSA_SHA1)
        } else if type_code == 1 {
            Some(SignatureType::ECDSA_SHA256_P256)
        } else if type_code == 2 {
            Some(SignatureType::ECDSA_SHA384_P384)
        } else if type_code == 3 {
            Some(SignatureType::ECDSA_SHA512_P521)
        } else if type_code == 4 {
            Some(SignatureType::RSA_SHA256_2048)
        } else if type_code == 5 {
            Some(SignatureType::RSA_SHA384_3072)
        } else if type_code == 6 {
            Some(SignatureType::RSA_SHA512_4096)
        } else if type_code == 7 {
            Some(SignatureType::EdDSA_SHA512_Ed25519)
        } else if type_code == 8 {
            Some(SignatureType::EdDSA_SHA512_Ed25519ph)
        } else {
            None
        }
    }

    /// The crypto algorithm of a key certificate's code, if the code is
    /// known.
    pub fn type_code_to_crypto_type(type_code: usize) -> (r: Option<CryptoType>)
        ensures
            r == spec_crypto_type_from_code(type_code as int),
    {
        if type_code == 0 {
            Some(CryptoType::ElGamal)
        } else {
            None
        }
    }

    /// Splits a key certificate's payload into its signature and crypto
    /// algorithms, reporting a too-short payload or an unknown code as a
    /// decoding error.
    pub fn key_algorithms(&self) -> (r: Result<(SignatureType, CryptoType), Error>)
        requires
            self.wf(),
        ensures
            ({
                let p = self.payload@;
                if p.len() < 4 {
                    r == Err::<(SignatureType, CryptoType), Error>(
                        Error::Decoding(
                            Cause::Certificate(
                                CertificateError::KeyPayloadTooShort(p.len() as usize),
                            ),
                        ),
                    )
                } else {
                    let sig_code = be_value_of(p.take(2));
                    let crypto_code = be_value_of(p.subrange(2, 4));
                    match spec_sigtype_from_code(sig_code as int) {
                        Some(sigtype) => match spec_crypto_type_from_code(crypto_code as int) {
                            Some(crypto) => r == Ok::<(SignatureType, CryptoType), Error>(
                                (sigtype, crypto),
                            ),
                            None => r == Err::<(SignatureType, CryptoType), Error>(
                                Error::Decoding(
                                    Cause::Certificate(
                                        CertificateError::UnsupportedCryptoType(crypto_code as u16),
                                    ),
                                ),
                            ),
                        },
                        None => r == Err::<(SignatureType, CryptoType), Error>(
                            Error::Decoding(
                                Cause::Certificate(
                                    CertificateError::UnsupportedSignatureType(sig_code as u16),
                                ),
                            ),
                        ),
                    }
                }
            }),
    {
        if self.payload.len() < 4 {
            return Err(
                Error::Decoding(
                    Cause::Certificate(CertificateError::KeyPayloadTooShort(self.payload.len())),
                ),
            );
        }
        let b0 = self.payload[0];
        let b1 = self.payload[1];
        let b2 = self.payload[2];
        let b3 = self.payload[3];
        let sig_code: usize = (b0 as usize) * 256 + (b1 as usize);
        let crypto_code: usize = (b2 as usize) * 256 + (b3 as usize);
        proof {
            lemma_be_value_two(self.payload@.take(2));
            lemma_be_value_two(self.payload@.subrange(2, 4));
            assert(self.payload@.take(2)[0] == b0 && self.payload@.take(2)[1] == b1);
            assert(self.payload@.subrange(2, 4)[0] == b2 && self.payload@.subrange(2, 4)[1] == b3);
        }
        let sigtype = match Certificate::type_code_to_sigtype(sig_code) {
            Some(sigtype) => sigtype,
            None => {
                return Err(
                    Error::Decoding(
                        Cause::Certificate(
                            CertificateError::UnsupportedSignatureType(sig_code as u16),
                        ),
                    ),
                );
            },
        };
        match Certificate::type_code_to_crypto_type(crypto_code) {
            Some(crypto) => Ok((sigtype, crypto)),
            None => Err(
                Error::Decoding(
                    Cause::Certificate(CertificateError::UnsupportedCryptoType(crypto_code as u16)),
                ),
            ),
        }
    }
}

/// A two-byte big-endian sequence encodes its first byte times 256 plus its
/// second byte.
pub proof fn lemma_be_value_two(s: Seq<u8>)
    requires
        s.len() == 2,
    ensures
        be_value_of(s) == s[0] * 256 + s[1],
        be_value_of(s) < 0x1_0000,
{
    let d = s.drop_last();
    assert(d.len() == 1);
    assert(d.drop_last() =~= Seq::<u8>::empty());
    assert(be_value_of(d.drop_last()) == 0);
    assert(be_value_of(d) == (be_value_of(d.drop_last()) * 256 + d.last()) as nat);
    assert(d.last() == s[0]);
    assert(be_value_of(s) == (be_value_of(d) * 256 + s.last()) as nat);
    assert(s.last() == s[1]);
}

impl Serialize for Certificate {
    open spec fn wf(&self) -> bool {
        Certificate::wf(*self)
    }

    open spec fn wire(&self) -> Seq<u8> {
        seq![spec_type_code(self.certificate_type)] + be_bytes_of(self.length.value() as nat, 2)
            + self.payload@
    }

    proof fn lemma_wire_len(&self) {
        lemma_be_bytes_len(self.length.value() as nat, 2);
        lemma_byte_bound_values();
    }

    fn serialize(&self, buf: &mut [u8]) -> (r: Result<usize, Error>) {
        proof {
            lemma_be_bytes_len(self.length.value() as nat, 2);
            lemma_byte_bound_values();
        }
        let n = self.payload.len();
        if buf.len() >= 3 && n <= buf.len() - 3 {
            buf[0] = self.certificate_type.type_code();
            let length_bytes = self.length.to_bytes_be();
            buf[1] = length_bytes[0];
            buf[2] = length_bytes[1];
            let mut i: usize = 0;
            while i < n
                invariant
                    i <= n,
                    n == self.payload@.len(),
                    n + 3 <= buf@.len() <= usize::MAX,
                    buf@.len() == old(buf)@.len(),
                    buf@[0] == spec_type_code(self.certificate_type),
                    buf@[1] == be_bytes_of(self.length.value() as nat, 2)[0],
                    buf@[2] == be_bytes_of(self.length.value() as nat, 2)[1],
                    be_bytes_of(self.length.value() as nat, 2).len() == 2,
                    forall|j: int| 0 <= j < i ==> buf@[j + 3] == self.payload@[j],
                    forall|j: int| i + 3 <= j < buf@.len() ==> buf@[j] == old(buf)@[j],
                decreases n - i,
            {
                let byte = self.payload[i];
                buf[i + 3] = byte;
                i = i + 1;
            }
            proof {
                assert(buf@ =~= Serialize::wire(self) + old(buf)@.skip(
                    Serialize::wire(self).len() as int,
                ));
            }
            Ok(n + 3)
        } else {
            Err(Error::buffer_too_small(n + 3, buf.len()))
        }
    }
}

impl Deserialize for Certificate {
    type Output = Certificate;

    open spec fn deserialize_post(buf: Seq<u8>, r: Result<Certificate, Error>) -> bool {
        if buf.len() < 3 {
            r == Err::<Certificate, Error>(Error::BufferTooSmall(3, buf.len() as usize))
        } else {
            match spec_type_from_code(buf[0]) {
                None => r == Err::<Certificate, Error>(
                    Error::Decoding(
                        Cause::Certificate(CertificateError::UnsupportedCertificateType(buf[0])),
                    ),
                ),
                Some(certificate_type) => {
                    let n = be_value_of(buf.subrange(1, 3)) as int;
                    if buf.len() < n + 3 {
                        r == Err::<Certificate, Error>(
                            Error::BufferTooSmall((n + 3) as usize, buf.len() as usize),
                        )
                    } else {
                        let payload = buf.subrange(3, n + 3);
                        if certificate_type == CertificateType::KEY && !key_payload_valid(
                            payload,
                        ) {
                            match r {
                                Ok(_) => false,
                                Err(e) => e matches Error::Decoding(Cause::Certificate(_)),
                            }
                        } else {
                            match r {
                                Ok(c) => c.decodable() && c.certificate_type == certificate_type
                                    && c.length.value() == n && c.payload@ == payload,
                                Err(_) => false,
                            }
                        }
                    }
                },
            }
        }
    }

    fn deserialize(buf: &[u8]) -> (r: Result<Certificate, Error>) {
        if buf.len() < 3 {
            return Err(Error::buffer_too_small(3, buf.len()));
        }
        let certificate_type = match CertificateType::from_type_code(buf[0]) {
            Some(t) => t,
            None => {
                return Err(
                    Error::Decoding(
                        Cause::Certificate(CertificateError::UnsupportedCertificateType(buf[0])),
                    ),
                );
            },
        };
        let b1 = buf[1];
        let b2 = buf[2];
        let n: usize = (b1 as usize) * 256 + (b2 as usize);
        proof {
            lemma_be_value_two(buf@.subrange(1, 3));
            assert(buf@.subrange(1, 3)[0] == b1 && buf@.subrange(1, 3)[1] == b2);
        }
        if buf.len() < 3 || buf.len() - 3 < n {
            return Err(Error::buffer_too_small(n + 3, buf.len()));
        }
        let mut payload: Vec<u8> = Vec::new();
        let mut i: usize = 0;
        while i < n
            invariant
                i <= n,
                n + 3 <= buf@.len() <= usize::MAX,
                payload@ =~= buf@.subrange(3, i + 3),
            decreases n - i,
        {
            let byte = buf[i + 3];
            payload.push(byte);
            i = i + 1;
            proof {
                assert(payload@ =~= buf@.subrange(3, i + 3));
            }
        }
        let length = I2pInt16::new(n as u64);
        proof {
            lemma_byte_bound_values();
            vstd::arithmetic::div_mod::lemma_small_mod(n as nat, byte_bound(2));
        }
        let certificate = Certificate { certificate_type, length, payload };
        if matches!(certificate_type, CertificateType::KEY) {
            match certificate.key_algorithms() {
                Ok(_) => Ok(certificate),
                Err(err) => Err(err),
            }
        } else {
            Ok(certificate)
        }
    }
}

/// Length consistency: the declared length of a well-formed certificate
/// always equals its payload byte count.
pub proof fn lemma_certificate_length_consistency(c: Certificate)
    requires
        c.wf(),
    ensures
        c.length.value() == c.payload@.len(),
{
}

/// Re-serialization stability: whatever certificate a buffer decodes to
/// serializes back to exactly the bytes that were consumed.
pub proof fn lemma_certificate_reserialize(buf: Seq<u8>, r: Result<Certificate, Error>)
    requires
        buf.len() >= 3,
        spec_type_from_code(buf[0]) is Some,
        buf.len() >= be_value_of(buf.subrange(1, 3)) + 3,
        (spec_type_from_code(buf[0]) == Some(CertificateType::KEY) ==> key_payload_valid(
            buf.subrange(3, (be_value_of(buf.subrange(1, 3)) + 3) as int),
        )),
        <Certificate as Deserialize>::deserialize_post(buf, r),
    ensures
        match r {
            Ok(w) => w.decodable() && Serialize::wire(&w) == buf.take(
                (be_value_of(buf.subrange(1, 3)) + 3) as int,
            ),
            Err(_) => false,
        },
{
    let n = be_value_of(buf.subrange(1, 3)) as int;
    lemma_be_value_two(buf.subrange(1, 3));
    crate::i2p_integer::lemma_be_bytes_of_be_value(buf.subrange(1, 3));
    match r {
        Ok(w) => {
            assert(spec_type_code(w.certificate_type) == buf[0]);
            assert(be_bytes_of(w.length.value() as nat, 2) == buf.subrange(1, 3));
            assert(Serialize::wire(&w) =~= buf.take(n + 3));
        },
        Err(_) => {
            assert(false);
        },
    }
}

/// Round trip: decoding the serialized bytes of a decodable certificate,
/// whatever bytes follow them, yields a certificate with the same type,
/// declared length and payload; its renewed serialization is therefore
/// byte-identical.
pub proof fn lemma_certificate_round_trip(
    v: Certificate,
    rest: Seq<u8>,
    r: Result<Certificate, Error>,
)
    requires
        v.decodable(),
        <Certificate as Deserialize>::deserialize_post(Serialize::wire(&v) + rest, r),
    ensures
        match r {
            Ok(w) => w.certificate_type == v.certificate_type && w.length == v.length && w.payload@
                == v.payload@ && w.decodable() && Serialize::wire(&w) == Serialize::wire(&v),
            Err(_) => false,
        },
{
    let buf = Serialize::wire(&v) + rest;
    let lb = be_bytes_of(v.length.value() as nat, 2);
    lemma_be_bytes_len(v.length.value() as nat, 2);
    assert(buf[0] == spec_type_code(v.certificate_type));
    assert(spec_type_from_code(spec_type_code(v.certificate_type)) == Some(v.certificate_type));
    assert(buf.subrange(1, 3) =~= lb);
    lemma_be_value_of_be_bytes(v.length.value() as nat, 2);
    lemma_byte_bound_values();
    vstd::arithmetic::div_mod::lemma_small_mod(v.length.value() as nat, byte_bound(2));
    let n = v.length.value() as int;
    assert(buf.subrange(3, n + 3) =~= v.payload@);
    match r {
        Ok(w) => {
            assert(w.length.data == v.length.data);
            assert(Serialize::wire(&w) =~= Serialize::wire(&v));
        },
        Err(_) => {
            assert(false);
        },
    }
}

} // verus!
