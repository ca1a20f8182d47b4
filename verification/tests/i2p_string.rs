use rusti2p::i2p_string::{I2pString, I2pStringError, I2P_MAX_STRING_LENGTH};
use rusti2p::serialize::{Deserialize, Serialize};

#[test]
fn test_push_str_should_accept_strings_of_max_length() {
    let mut string = String::new();
    // Generate a maximum length I2pString.
    for _ in 0..I2P_MAX_STRING_LENGTH {
        string.push('A');
    }

    let mut i2p_string = I2pString::new();
    assert_eq!(string.len(), i2p_string.capacity());
    let result = i2p_string.push_str(string.as_str());
    assert!(result.is_ok());
    assert_eq!(i2p_string.len(), i2p_string.capacity());
}

#[test]
fn test_push_str_should_fail_when_string_is_longer_than_max_length() {
    let mut string = String::new();
    // Generate a maximum length I2pString.
    for _ in 0..I2P_MAX_STRING_LENGTH + 1 {
        string.push('A');
    }

    let mut i2p_string = I2pString::new();
    let old_length = i2p_string.len();
    let result = i2p_string.push_str(string.as_str());
    assert!(result.is_err());
    assert_eq!(old_length, i2p_string.len());
}

#[test]
fn test_push() {
    let mut string = String::new();
    // Generate a string.
    for _ in 0..I2P_MAX_STRING_LENGTH - 1 {
        string.push('A');
    }

    let mut i2p_string = I2pString::new();
    assert_eq!(i2p_string.len(), 0);
    let result = i2p_string.push_str(string.as_str());
    assert!(result.is_ok());

    let old_length = i2p_string.len();
    let result = i2p_string.push('A');
    assert!(result.is_ok());
    assert_eq!(i2p_string.len(), old_length + 1);
}

#[test]
fn test_push_should_fail_only_when_string_is_at_least_max_length() {
    let mut string = String::new();
    // Generate a string.
    for _ in 0..I2P_MAX_STRING_LENGTH {
        string.push('A');
    }

    let mut i2p_string = I2pString::new();
    assert_eq!(i2p_string.len(), 0);
    let result = i2p_string.push_str(string.as_str());
    assert!(result.is_ok());
    assert_eq!(i2p_string.len(), i2p_string.capacity());
    // Generate a maximum length i2p_string.
    let result = i2p_string.push('A');
    assert!(result.is_err());
}

#[test]
fn test_empty_string_should_contain_no_data() {
    let i2p_string = <I2pString as Default>::default();

    assert!(i2p_string.is_empty());
    assert!(i2p_string.as_str().is_empty());
}

const TEST_BUFFER_LENGTH: usize = 256;

#[test]
fn test_serialize_should_fail_without_writing_to_buffer_when_buffer_too_small() {
    let raw_string_bytes: [u8; TEST_BUFFER_LENGTH - 1] = [b'A'; TEST_BUFFER_LENGTH - 1];
    let string = I2pString::from_utf8(raw_string_bytes.as_ref()).unwrap();
    let mut buffer: [u8; 100] = [0x00; 100];
    assert!(TEST_BUFFER_LENGTH > 100);

    let result = Serialize::serialize(&string, buffer.as_mut());
    assert!(result.is_err());

    for byte in buffer.iter() {
        assert_eq!(*byte, 0x00);
    }
}

/// Deterministic sample strings of many lengths, including multi-byte text.
fn sample_strings() -> Vec<I2pString> {
    let mut out = Vec::new();
    out.push(I2pString::new());
    out.push(I2pString::from_str("a").unwrap());
    out.push(I2pString::from_str("hello world").unwrap());
    out.push(I2pString::from_str("na\u{EF}ve caf\u{E9}").unwrap());
    out.push(I2pString::from_str("\u{3042}\u{3044}\u{3046}").unwrap());

    let mut state: u64 = 0x0123_4567_89AB_CDEF;
    for target in [1usize, 2, 3, 31, 127, 200, 254, 255] {
        let mut s = I2pString::new();
        while s.len() < target {
            state ^= state << 13;
            state ^= state >> 7;
            state ^= state << 17;
            let byte = (state % 256) as u8;
            if s.push_u8(byte).is_err() {
                break;
            }
        }
        out.push(s);
    }
    out
}

const PROP_BUFFER_LENGTH: usize = 256;

#[test]
fn prop_i2p_string_capacity_should_be_255_characters() {
    for string in sample_strings() {
        assert_eq!(string.capacity(), I2P_MAX_STRING_LENGTH);
    }
}

#[test]
fn prop_i2p_string_length_should_be_at_most_255_characters() {
    for string in sample_strings() {
        assert!(string.len() <= I2P_MAX_STRING_LENGTH);
    }
}

#[test]
fn prop_i2p_string_should_be_no_more_than_capacity() {
    for string in sample_strings() {
        assert!(string.len() <= string.capacity());
    }
}

#[test]
fn prop_i2p_string_should_be_valid_utf8_string() {
    for string in sample_strings() {
        let slice = string.as_str();
        let i2p_string = I2pString::from_str(slice);
        assert!(i2p_string.is_ok());
    }
}

#[test]
fn prop_i2p_string_serialize_deserialize_output_should_be_equal_to_input() {
    for string in sample_strings() {
        let mut serialized_string = [0x00; PROP_BUFFER_LENGTH];
        Serialize::serialize(&string, serialized_string.as_mut()).unwrap();
        let deserialized_string =
            <I2pString as Deserialize>::deserialize(serialized_string.as_ref()).unwrap();

        assert!(string == deserialized_string);
    }
}

#[test]
fn prop_i2p_string_serialize_deserialize_output_should_have_equal_length_to_input() {
    for string in sample_strings() {
        let mut serialized_string = [0x00; PROP_BUFFER_LENGTH];
        Serialize::serialize(&string, serialized_string.as_mut()).unwrap();
        let deserialized_string =
            <I2pString as Deserialize>::deserialize(serialized_string.as_ref()).unwrap();

        assert_eq!(string.len(), deserialized_string.len());
    }
}

#[test]
fn prop_i2p_string_deserialize_serialize_output_should_be_equal_to_input() {
    for string in sample_strings() {
        let mut serialized_string = [0x00; PROP_BUFFER_LENGTH];
        Serialize::serialize(&string, serialized_string.as_mut()).unwrap();
        let deserialized_string =
            <I2pString as Deserialize>::deserialize(serialized_string.as_ref()).unwrap();

        let mut reserialized_string = [0x00; PROP_BUFFER_LENGTH];
        Serialize::serialize(&deserialized_string, reserialized_string.as_mut()).unwrap();

        // Check that the serialization and the reserialization match bytewise.
        assert_eq!(serialized_string.as_ref() as &[u8], reserialized_string.as_ref() as &[u8]);
    }
}

#[test]
fn prop_serialize_should_fail_without_writing_to_buffer_when_buffer_too_small() {
    for string in sample_strings() {
        let mut serialized_string: [u8; 1] = [0x00; 1];
        if string.len() < serialized_string.len() {
            continue;
        }

        let result = Serialize::serialize(&string, serialized_string.as_mut());
        assert!(result.is_err());
        assert_eq!(serialized_string, [0x00; 1]);
    }
}

#[test]
fn prop_i2p_string_encoded_length_should_not_exceed_max_string_length() {
    for string in sample_strings() {
        assert!(PROP_BUFFER_LENGTH < 300);
        let mut serialized_string = [0x00; 300];
        let bytes_written = match Serialize::serialize(&string, serialized_string.as_mut()) {
            Ok(bytes) => bytes,
            Err(_) => unreachable!(),
        };

        assert!(bytes_written <= PROP_BUFFER_LENGTH);
        assert_eq!(bytes_written, string.len() + 1);
        for byte in serialized_string.iter().skip(bytes_written) {
            assert_eq!(*byte, 0x00);
        }
    }
}

#[test]
fn test_from_utf8_rejects_invalid_bytes() {
    let bytes: [u8; 2] = [0xFF, 0xFE];
    assert_eq!(I2pString::from_utf8(bytes.as_ref()), Err(I2pStringError::InvalidUtf8));
}

#[test]
fn test_from_utf8_rejects_oversized_input() {
    let bytes: [u8; 256] = [b'B'; 256];
    assert_eq!(
        I2pString::from_utf8(bytes.as_ref()),
        Err(I2pStringError::NotEnoughCapacity(256, 255))
    );
}

#[test]
fn test_from_utf8_accepts_multibyte_text() {
    let text = "gr\u{FC}ne \u{42E}nicode \u{1F30D}";
    let string = I2pString::from_utf8(text.as_bytes()).unwrap();
    assert_eq!(string.as_str(), text);
    assert_eq!(string.len(), text.len());
}

#[test]
fn test_push_counts_bytes_not_characters() {
    let mut string = I2pString::new();
    // A two-byte character costs two bytes of the capacity.
    string.push('\u{E9}').unwrap();
    assert_eq!(string.len(), 2);
    string.push('A').unwrap();
    assert_eq!(string.len(), 3);
}

#[test]
fn test_a_255_byte_string_serializes_to_256_bytes() {
    let bytes: [u8; 255] = [b'C'; 255];
    let string = I2pString::from_utf8(bytes.as_ref()).unwrap();
    let mut buffer = [0x00u8; 300];
    let written = Serialize::serialize(&string, buffer.as_mut()).unwrap();
    assert_eq!(written, 256);
    assert_eq!(buffer[0], 255);
    assert_eq!(&buffer[1..256], bytes.as_ref());
}

#[test]
fn test_string_deserialize_rejects_invalid_payload() {
    // Length byte of 2, followed by bytes that are not UTF-8.
    let buffer: [u8; 3] = [2, 0xFF, 0xFE];
    let result = <I2pString as Deserialize>::deserialize(buffer.as_ref());
    assert_eq!(
        result,
        Err(rusti2p::serialize::Error::Decoding(rusti2p::serialize::Cause::Text(
            I2pStringError::InvalidUtf8,
        )))
    );
}

#[test]
fn test_string_deserialize_needs_the_declared_bytes() {
    let buffer: [u8; 3] = [5, b'a', b'b'];
    let result = <I2pString as Deserialize>::deserialize(buffer.as_ref());
    assert_eq!(result, Err(rusti2p::serialize::Error::BufferTooSmall(6, 3)));

    let empty: [u8; 0] = [];
    let result = <I2pString as Deserialize>::deserialize(empty.as_ref());
    assert_eq!(result, Err(rusti2p::serialize::Error::BufferTooSmall(1, 0)));
}

#[test]
fn test_clear_empties_the_string() {
    let mut string = I2pString::from_str("abc").unwrap();
    string.clear();
    assert!(string.is_empty());
    assert_eq!(string.len(), 0);
}
