use rusti2p::i2p_hash::{Hash256, Hashable256};
use rusti2p::private_key::PrivateKey;
use rusti2p::public_key::PublicKey;
use rusti2p::serialize::{Deserialize, Error, Serialize};
use rusti2p::session_key::SessionKey;
use rusti2p::session_tag::SessionTag;

#[test]
fn test_blob_lengths() {
    assert_eq!(Hash256::default().len(), 32);
    assert_eq!(PublicKey::default().len(), 256);
    assert_eq!(PrivateKey::default().len(), 256);
    assert_eq!(SessionKey::default().len(), 32);
    assert_eq!(SessionTag::default().len(), 32);
}

#[test]
fn test_blob_default_is_all_zero() {
    assert!(Hash256::default().as_slice().iter().all(|&b| b == 0));
    assert!(PublicKey::default().as_slice().iter().all(|&b| b == 0));
}

#[test]
fn test_from_bytes_left_pads_short_input() {
    let bytes: [u8; 3] = [0x01, 0x02, 0x03];
    let hash = Hash256::from_bytes(bytes.as_ref()).unwrap();
    let mut expected = [0x00u8; 32];
    expected[29] = 0x01;
    expected[30] = 0x02;
    expected[31] = 0x03;
    assert_eq!(hash.as_slice(), expected.as_ref());
}

#[test]
fn test_from_bytes_rejects_oversized_input() {
    let bytes = [0xAAu8; 33];
    assert!(Hash256::from_bytes(bytes.as_ref()).is_none());
    let bytes = [0xAAu8; 257];
    assert!(PublicKey::from_slice(bytes.as_ref()).is_none());
}

#[test]
fn test_blob_serialize_writes_the_raw_bytes() {
    let mut raw = [0u8; 32];
    for (i, byte) in raw.iter_mut().enumerate() {
        *byte = i as u8;
    }
    let key = SessionKey::new(raw.to_vec());
    let mut buffer = [0xEEu8; 40];
    let written = Serialize::serialize(&key, buffer.as_mut()).unwrap();
    assert_eq!(written, 32);
    assert_eq!(&buffer[..32], raw.as_ref());
    assert!(buffer[32..].iter().all(|&b| b == 0xEE));
}

#[test]
fn test_blob_serialize_fails_without_partial_write() {
    let tag = SessionTag::new(vec![0x55; 32]);
    let mut buffer = [0x00u8; 31];
    let result = Serialize::serialize(&tag, buffer.as_mut());
    assert_eq!(result, Err(Error::BufferTooSmall(32, 31)));
    assert!(buffer.iter().all(|&b| b == 0x00));
}

#[test]
fn test_blob_round_trips_through_the_wire() {
    let mut raw = [0u8; 256];
    let mut state: u64 = 0x1357_9BDF_2468_ACE0;
    for byte in raw.iter_mut() {
        state ^= state << 13;
        state ^= state >> 7;
        state ^= state << 17;
        *byte = (state % 256) as u8;
    }
    let key = PublicKey::new(raw.to_vec());
    let mut buffer = [0u8; 300];
    let written = Serialize::serialize(&key, buffer.as_mut()).unwrap();
    assert_eq!(written, 256);
    let decoded = <PublicKey as Deserialize>::deserialize(buffer.as_ref()).unwrap();
    assert!(decoded == key);

    let mut reserialized = [0u8; 300];
    Serialize::serialize(&decoded, reserialized.as_mut()).unwrap();
    assert_eq!(buffer.as_ref() as &[u8], reserialized.as_ref() as &[u8]);
}

#[test]
fn test_blob_deserialize_needs_the_full_length() {
    let buffer = [0u8; 31];
    let result = <Hash256 as Deserialize>::deserialize(buffer.as_ref());
    assert_eq!(result, Err(Error::BufferTooSmall(32, 31)));
    let result = <PrivateKey as Deserialize>::deserialize(buffer.as_ref());
    assert_eq!(result, Err(Error::BufferTooSmall(256, 31)));
}

#[test]
fn test_blob_base64_of_zeros() {
    // 32 zero bytes are 43 base64 digits, all 'A', unpadded.
    let hash = Hash256::default();
    let text = hash.to_base64();
    assert_eq!(text.len(), 43);
    assert!(text.chars().all(|c| c == 'A'));
}

#[test]
fn test_blob_base64_of_known_bytes() {
    let mut raw = vec![0u8; 32];
    raw[0] = 0x01;
    raw[1] = 0x02;
    raw[2] = 0x03;
    let hash = Hash256::new(raw);
    let text = hash.to_base64();
    assert!(text.starts_with("AQID"));
    assert_eq!(text.len(), 43);
}

#[test]
fn test_blob_hex_and_binary_text() {
    let mut raw = vec![0u8; 32];
    raw[0] = 0x0F;
    raw[1] = 0xA5;
    let key = SessionKey::new(raw);
    let lower = key.to_lower_hex();
    let upper = key.to_upper_hex();
    assert!(lower.starts_with("0fa5"));
    assert!(upper.starts_with("0FA5"));
    assert_eq!(lower.len(), 64);
    assert_eq!(upper.len(), 64);
    assert_eq!(lower.to_uppercase(), upper);

    let binary = key.to_binary();
    assert!(binary.starts_with("0000111110100101"));
    assert_eq!(binary.len(), 256);
}

#[test]
fn test_hash_is_its_own_sha256_at_this_layer() {
    let hash = Hash256::from_bytes(&[0x10, 0x20]).unwrap();
    assert!(hash.hash_sha256() == hash);
}
