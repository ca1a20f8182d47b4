use rusti2p::certificate::{Certificate, CertificateError, CertificateType, CryptoType};
use rusti2p::i2p_integer::I2pInt16;
use rusti2p::serialize::{Cause, Deserialize, Error, Serialize};
use rusti2p::signature::SignatureType;

#[test]
fn test_type_code_to_sigtype_table() {
    assert_eq!(Certificate::type_code_to_sigtype(0), Some(SignatureType::DSA_SHA1));
    assert_eq!(Certificate::type_code_to_sigtype(1), Some(SignatureType::ECDSA_SHA256_P256));
    assert_eq!(Certificate::type_code_to_sigtype(2), Some(SignatureType::ECDSA_SHA384_P384));
    assert_eq!(Certificate::type_code_to_sigtype(3), Some(SignatureType::ECDSA_SHA512_P521));
    assert_eq!(Certificate::type_code_to_sigtype(4), Some(SignatureType::RSA_SHA256_2048));
    assert_eq!(Certificate::type_code_to_sigtype(5), Some(SignatureType::RSA_SHA384_3072));
    assert_eq!(Certificate::type_code_to_sigtype(6), Some(SignatureType::RSA_SHA512_4096));
    assert_eq!(Certificate::type_code_to_sigtype(7), Some(SignatureType::EdDSA_SHA512_Ed25519));
    assert_eq!(Certificate::type_code_to_sigtype(8), Some(SignatureType::EdDSA_SHA512_Ed25519ph));
    assert_eq!(Certificate::type_code_to_sigtype(9), None);
    assert_eq!(Certificate::type_code_to_sigtype(99), None);
}

#[test]
fn test_type_code_to_crypto_type_table() {
    assert_eq!(Certificate::type_code_to_crypto_type(0), Some(CryptoType::ElGamal));
    assert_eq!(Certificate::type_code_to_crypto_type(1), None);
    assert_eq!(Certificate::type_code_to_crypto_type(99), None);
}

#[test]
fn test_certificate_type_codes_round_trip() {
    let all = [
        CertificateType::NULL,
        CertificateType::HASHCASH,
        CertificateType::HIDDEN,
        CertificateType::SIGNED,
        CertificateType::MULTIPLE,
        CertificateType::KEY,
    ];
    for (code, t) in all.iter().enumerate() {
        assert_eq!(t.type_code(), code as u8);
        assert_eq!(CertificateType::from_type_code(code as u8), Some(*t));
    }
    assert_eq!(CertificateType::from_type_code(6), None);
}

#[test]
fn test_new_validates_the_declared_length() {
    let payload = vec![0x01, 0x02, 0x03];
    let cert = Certificate::new(CertificateType::HASHCASH, I2pInt16::new(3), payload.clone());
    assert!(cert.is_some());
    let cert = Certificate::new(CertificateType::HASHCASH, I2pInt16::new(4), payload);
    assert!(cert.is_none());
}

#[test]
fn test_certificate_length_always_matches_payload() {
    let payload = vec![0xAA; 17];
    let cert = Certificate::new(CertificateType::SIGNED, I2pInt16::new(17), payload).unwrap();
    assert_eq!(cert.length().to_u64() as usize, cert.payload().len());
}

#[test]
fn test_key_certificate_decodes_its_algorithms() {
    // Type 5 (key), length 4, signature-algorithm code 7, crypto code 0.
    let wire: [u8; 7] = [5, 0, 4, 0, 7, 0, 0];
    let cert = <Certificate as Deserialize>::deserialize(wire.as_ref()).unwrap();
    assert_eq!(cert.certificate_type(), CertificateType::KEY);
    let (sigtype, crypto) = cert.key_algorithms().unwrap();
    assert_eq!(sigtype, SignatureType::EdDSA_SHA512_Ed25519);
    assert_eq!(crypto, CryptoType::ElGamal);
}

#[test]
fn test_key_certificate_rejects_unknown_signature_code() {
    let wire: [u8; 7] = [5, 0, 4, 0, 99, 0, 0];
    let result = <Certificate as Deserialize>::deserialize(wire.as_ref());
    assert_eq!(
        result,
        Err(Error::Decoding(Cause::Certificate(CertificateError::UnsupportedSignatureType(99))))
    );
}

#[test]
fn test_key_certificate_rejects_unknown_crypto_code() {
    let wire: [u8; 7] = [5, 0, 4, 0, 7, 0, 99];
    let result = <Certificate as Deserialize>::deserialize(wire.as_ref());
    assert_eq!(
        result,
        Err(Error::Decoding(Cause::Certificate(CertificateError::UnsupportedCryptoType(99))))
    );
}

#[test]
fn test_key_certificate_rejects_a_short_payload() {
    let wire: [u8; 6] = [5, 0, 3, 0, 7, 0];
    let result = <Certificate as Deserialize>::deserialize(wire.as_ref());
    assert_eq!(
        result,
        Err(Error::Decoding(Cause::Certificate(CertificateError::KeyPayloadTooShort(3))))
    );
}

#[test]
fn test_certificate_rejects_an_unknown_type_code() {
    let wire: [u8; 3] = [9, 0, 0];
    let result = <Certificate as Deserialize>::deserialize(wire.as_ref());
    assert_eq!(
        result,
        Err(Error::Decoding(Cause::Certificate(CertificateError::UnsupportedCertificateType(9))))
    );
}

#[test]
fn test_certificate_deserialize_needs_its_header_and_payload() {
    let wire: [u8; 2] = [0, 0];
    let result = <Certificate as Deserialize>::deserialize(wire.as_ref());
    assert_eq!(result, Err(Error::BufferTooSmall(3, 2)));

    let wire: [u8; 4] = [1, 0, 5, 0xAB];
    let result = <Certificate as Deserialize>::deserialize(wire.as_ref());
    assert_eq!(result, Err(Error::BufferTooSmall(8, 4)));
}

#[test]
fn test_null_certificate_round_trips() {
    let wire: [u8; 3] = [0, 0, 0];
    let cert = <Certificate as Deserialize>::deserialize(wire.as_ref()).unwrap();
    assert_eq!(cert.certificate_type(), CertificateType::NULL);
    assert_eq!(cert.payload().len(), 0);

    let mut buffer = [0xEEu8; 8];
    let written = Serialize::serialize(&cert, buffer.as_mut()).unwrap();
    assert_eq!(written, 3);
    assert_eq!(&buffer[..3], wire.as_ref());
}

#[test]
fn test_opaque_certificate_payload_round_trips_byte_for_byte() {
    // A hashcash certificate's payload is opaque here and must be kept as is.
    let wire: [u8; 8] = [1, 0, 5, b'a', b':', b'b', b':', b'c'];
    let cert = <Certificate as Deserialize>::deserialize(wire.as_ref()).unwrap();
    assert_eq!(cert.certificate_type(), CertificateType::HASHCASH);
    assert_eq!(cert.payload(), &wire[3..]);

    let mut buffer = [0u8; 16];
    let written = Serialize::serialize(&cert, buffer.as_mut()).unwrap();
    assert_eq!(written, 8);
    assert_eq!(&buffer[..8], wire.as_ref());
}

#[test]
fn test_certificate_serialize_fails_without_partial_write() {
    let cert =
        Certificate::new(CertificateType::MULTIPLE, I2pInt16::new(5), vec![0x01; 5]).unwrap();
    let mut buffer = [0x00u8; 7];
    let result = Serialize::serialize(&cert, buffer.as_mut());
    assert_eq!(result, Err(Error::BufferTooSmall(8, 7)));
    assert!(buffer.iter().all(|&b| b == 0x00));
}
