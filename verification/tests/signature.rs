use rusti2p::serialize::{Error, Serialize};
use rusti2p::signature::{Signature, SignatureType, SigningPrivateKey, SigningPublicKey};

const ALL_TAGS: [SignatureType; 9] = [
    SignatureType::DSA_SHA1,
    SignatureType::ECDSA_SHA256_P256,
    SignatureType::ECDSA_SHA384_P384,
    SignatureType::ECDSA_SHA512_P521,
    SignatureType::RSA_SHA256_2048,
    SignatureType::RSA_SHA384_3072,
    SignatureType::RSA_SHA512_4096,
    SignatureType::EdDSA_SHA512_Ed25519,
    SignatureType::EdDSA_SHA512_Ed25519ph,
];

#[test]
fn test_signing_public_key_length_table() {
    let expected: [usize; 9] = [128, 64, 96, 132, 256, 384, 512, 32, 32];
    for (tag, want) in ALL_TAGS.iter().zip(expected.iter()) {
        assert_eq!(tag.signing_public_key_length(), *want);
        assert_eq!(SigningPublicKey::new(*tag).len(), *want);
    }
}

#[test]
fn test_signing_private_key_length_table() {
    let expected: [usize; 9] = [20, 32, 48, 66, 512, 768, 1024, 32, 32];
    for (tag, want) in ALL_TAGS.iter().zip(expected.iter()) {
        assert_eq!(tag.signing_private_key_length(), *want);
        assert_eq!(SigningPrivateKey::new(*tag).len(), *want);
    }
}

#[test]
fn test_signature_length_table() {
    let expected: [usize; 9] = [40, 64, 96, 132, 256, 384, 512, 64, 64];
    for (tag, want) in ALL_TAGS.iter().zip(expected.iter()) {
        assert_eq!(tag.signature_length(), *want);
        assert_eq!(Signature::new(*tag).len(), *want);
    }
}

#[test]
fn test_new_signature_material_is_zero_filled() {
    let key = SigningPublicKey::new(SignatureType::EdDSA_SHA512_Ed25519);
    assert_eq!(key.len(), 32);
    assert!(key.as_slice().iter().all(|&b| b == 0));
}

#[test]
fn test_default_signature_material_uses_the_legacy_tag() {
    let key = <SigningPublicKey as Default>::default();
    assert_eq!(key.len(), 128);
    let key = <SigningPrivateKey as Default>::default();
    assert_eq!(key.len(), 20);
    let sig = <Signature as Default>::default();
    assert_eq!(sig.len(), 40);
}

#[test]
fn test_from_bytes_needs_the_exact_length() {
    let short = [0x01u8; 31];
    let exact = [0x01u8; 32];
    let long = [0x01u8; 33];
    assert!(SigningPublicKey::from_bytes(SignatureType::EdDSA_SHA512_Ed25519, short.as_ref())
        .is_none());
    assert!(SigningPublicKey::from_bytes(SignatureType::EdDSA_SHA512_Ed25519, long.as_ref())
        .is_none());
    let key =
        SigningPublicKey::from_bytes(SignatureType::EdDSA_SHA512_Ed25519, exact.as_ref()).unwrap();
    assert_eq!(key.as_slice(), exact.as_ref());
}

#[test]
fn test_signature_material_equality_needs_tag_and_payload() {
    let bytes = [0x07u8; 32];
    let a = SigningPublicKey::from_bytes(SignatureType::EdDSA_SHA512_Ed25519, bytes.as_ref())
        .unwrap();
    let b = SigningPublicKey::from_bytes(SignatureType::EdDSA_SHA512_Ed25519ph, bytes.as_ref())
        .unwrap();
    let c = SigningPublicKey::from_bytes(SignatureType::EdDSA_SHA512_Ed25519, bytes.as_ref())
        .unwrap();
    assert!(a != b);
    assert!(a == c);
}

#[test]
fn test_signature_serializes_to_its_payload_alone() {
    let mut raw = [0u8; 40];
    for (i, byte) in raw.iter_mut().enumerate() {
        *byte = (i as u8).wrapping_mul(7);
    }
    let sig = Signature::from_bytes(SignatureType::DSA_SHA1, raw.as_ref()).unwrap();
    let mut buffer = [0xEEu8; 48];
    let written = Serialize::serialize(&sig, buffer.as_mut()).unwrap();
    assert_eq!(written, 40);
    assert_eq!(&buffer[..40], raw.as_ref());
    assert!(buffer[40..].iter().all(|&b| b == 0xEE));

    // The tag travels out of band: rebuilding from it and the wire bytes
    // gives the signature back.
    let rebuilt = Signature::from_bytes(SignatureType::DSA_SHA1, &buffer[..40]).unwrap();
    assert!(rebuilt == sig);
}

#[test]
fn test_signature_serialize_fails_without_partial_write() {
    let sig = Signature::new(SignatureType::DSA_SHA1);
    let mut buffer = [0x00u8; 39];
    let result = Serialize::serialize(&sig, buffer.as_mut());
    assert_eq!(result, Err(Error::BufferTooSmall(40, 39)));
    assert!(buffer.iter().all(|&b| b == 0x00));
}

#[test]
fn test_signature_material_base64_text() {
    let key = SigningPublicKey::new(SignatureType::EdDSA_SHA512_Ed25519);
    // 32 zero bytes are 43 base64 digits, all 'A', unpadded.
    let text = key.to_base64();
    assert_eq!(text.len(), 43);
    assert!(text.chars().all(|c| c == 'A'));
}
