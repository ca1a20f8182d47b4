use rusti2p::i2p_integer::{I2pInt16, I2pInt24, I2pInt32, I2pInt64};
use rusti2p::serialize::{Deserialize, Serialize};

struct TestCase {
    arg1: I2pInt64,
    arg2: I2pInt64,
    result: I2pInt64,
}

struct Test {
    data: Vec<TestCase>,
}

fn i2p_integer_addition_test_cases() -> Test {
    Test {
        data: vec![
            TestCase {
                arg1: I2pInt64::new(7476217),
                arg2: I2pInt64::new(225026),
                result: I2pInt64::new(7701243),
            },
            TestCase {
                arg1: I2pInt64::new(8959170),
                arg2: I2pInt64::new(3654202),
                result: I2pInt64::new(12613372),
            },
            TestCase {
                arg1: I2pInt64::new(4615797),
                arg2: I2pInt64::new(5679303),
                result: I2pInt64::new(10295100),
            },
            TestCase {
                arg1: I2pInt64::new(7303216),
                arg2: I2pInt64::new(9510201),
                result: I2pInt64::new(16813417),
            },
        ],
    }
}

fn i2p_integer_multiplication_test_cases() -> Test {
    Test {
        data: vec![
            TestCase {
                arg1: I2pInt64::new(7476217),
                arg2: I2pInt64::new(225026),
                result: I2pInt64::new(1682343206642),
            },
            TestCase {
                arg1: I2pInt64::new(8959170),
                arg2: I2pInt64::new(3654202),
                result: I2pInt64::new(32738616932340),
            },
            TestCase {
                arg1: I2pInt64::new(4615797),
                arg2: I2pInt64::new(5679303),
                result: I2pInt64::new(26214509749491),
            },
            TestCase {
                arg1: I2pInt64::new(7303216),
                arg2: I2pInt64::new(9510201),
                result: I2pInt64::new(69455052106416),
            },
        ],
    }
}

fn i2p_integer_subtraction_test_cases() -> Test {
    Test {
        data: vec![
            TestCase {
                arg1: I2pInt64::new(7476217),
                arg2: I2pInt64::new(225026),
                result: I2pInt64::new(7251191),
            },
            TestCase {
                arg1: I2pInt64::new(8959170),
                arg2: I2pInt64::new(3654202),
                result: I2pInt64::new(5304968),
            },
            TestCase {
                arg1: I2pInt64::new(5679303),
                arg2: I2pInt64::new(4615797),
                result: I2pInt64::new(1063506),
            },
            TestCase {
                arg1: I2pInt64::new(9510201),
                arg2: I2pInt64::new(7303216),
                result: I2pInt64::new(2206985),
            },
        ],
    }
}

fn i2p_integer_division_test_cases() -> Test {
    Test {
        data: vec![
            TestCase {
                arg1: I2pInt64::new(7476217),
                arg2: I2pInt64::new(225026),
                result: I2pInt64::new(33),
            },
            TestCase {
                arg1: I2pInt64::new(8959170),
                arg2: I2pInt64::new(36542),
                result: I2pInt64::new(245),
            },
            TestCase {
                arg1: I2pInt64::new(5679303),
                arg2: I2pInt64::new(4615),
                result: I2pInt64::new(1230),
            },
            TestCase {
                arg1: I2pInt64::new(9510201),
                arg2: I2pInt64::new(73032),
                result: I2pInt64::new(130),
            },
        ],
    }
}

fn i2p_integer_remainder_test_cases() -> Test {
    Test {
        data: vec![
            TestCase {
                arg1: I2pInt64::new(7476217),
                arg2: I2pInt64::new(225026),
                result: I2pInt64::new(50359),
            },
            TestCase {
                arg1: I2pInt64::new(8959170),
                arg2: I2pInt64::new(36542),
                result: I2pInt64::new(6380),
            },
            TestCase {
                arg1: I2pInt64::new(5679303),
                arg2: I2pInt64::new(4615),
                result: I2pInt64::new(2853),
            },
            TestCase {
                arg1: I2pInt64::new(9510201),
                arg2: I2pInt64::new(73032),
                result: I2pInt64::new(16041),
            },
        ],
    }
}

#[test]
fn test_i2p_integer_addition() {
    let tests = i2p_integer_addition_test_cases();
    for test_case in tests.data {
        let result = test_case.arg1 + test_case.arg2;
        assert_eq!(result, test_case.result);
    }
}

#[test]
fn test_i2p_integer_multiplication() {
    let tests = i2p_integer_multiplication_test_cases();
    for test_case in tests.data {
        let result = test_case.arg1 * test_case.arg2;
        assert_eq!(result, test_case.result);
    }
}

#[test]
fn test_i2p_integer_subtraction() {
    let tests = i2p_integer_subtraction_test_cases();
    for test_case in tests.data {
        let result = test_case.arg1 - test_case.arg2;
        assert_eq!(result, test_case.result);
    }
}

#[test]
fn test_i2p_integer_division() {
    let tests = i2p_integer_division_test_cases();
    for test_case in tests.data {
        let result = test_case.arg1 / test_case.arg2;
        assert_eq!(result, test_case.result);
    }
}

#[test]
fn test_i2p_integer_remainder() {
    let tests = i2p_integer_remainder_test_cases();
    for test_case in tests.data {
        let result = test_case.arg1 % test_case.arg2;
        assert_eq!(result, test_case.result);
    }
}

#[test]
fn test_from_bytes_be_should_return_zero_on_empty_slice() {
    let vec: Vec<u8> = vec![];

    let result: I2pInt64 = I2pInt64::from_bytes_be(vec.as_ref()).unwrap();

    assert_eq!(result, I2pInt64::from(0));
}

#[test]
fn test_conversion_should_truncate_higher_order_bits() {
    let val: u64 = 0x1_FFFF_FFFF;
    let result: I2pInt16 = I2pInt16::from(val);
    let mask: u64 = 0xFFFF_FFFF;
    // The higher-order bits should be getting truncated to fit.
    let expected = I2pInt16::from(val & mask);

    assert_eq!(result, expected);
}

#[test]
fn test_arithmetic_overflow() {
    let val: u64 = 0xFFFF_FFFF_FFFF + 1;
    let result: I2pInt24 = I2pInt24::from(val);
    let expected: I2pInt24 = I2pInt24::from(0);

    assert_eq!(result, expected);
}

#[test]
fn test_bytes_should_be_reversible() {
    let value = I2pInt64::new(0x0102030405060708);
    let value_be: [u8; 8] = [0x01, 0x02, 0x03, 0x04, 0x05, 0x06, 0x07, 0x08];
    let bytes = value.to_bytes_be();
    assert_eq!(value_be.as_ref(), bytes.as_slice());
    // Convert a value to raw bytes and back and check is we get out old result back.
    let result = I2pInt64::from_bytes_be(bytes.as_slice()).unwrap();
    assert_eq!(value, result);
}

/// A small deterministic pseudo-random stream for property-style tests.
fn sample_values(count: usize) -> Vec<u64> {
    let mut state: u64 = 0x9E37_79B9_7F4A_7C15;
    let mut out = vec![
        0,
        1,
        0xFF,
        0x100,
        0xFFFF,
        0x1_0000,
        0xFFFF_FFFF,
        0x1_0000_0000,
        u64::MAX,
        u64::MAX - 1,
    ];
    while out.len() < count {
        state ^= state << 13;
        state ^= state >> 7;
        state ^= state << 17;
        out.push(state);
    }
    out
}

#[test]
fn prop_i2p_integer_addition_is_commutative() {
    let values = sample_values(64);
    for &a in &values {
        for &b in &values {
            let val1 = I2pInt32::new(a);
            let val2 = I2pInt32::new(b);
            assert!(val1 + val2 == val2 + val1);
        }
    }
}

#[test]
fn prop_i2p_integer_multiplication_is_commutative() {
    let values = sample_values(64);
    for &a in &values {
        for &b in &values {
            let val1 = I2pInt32::new(a);
            let val2 = I2pInt32::new(b);
            assert!(val1 * val2 == val2 * val1);
        }
    }
}

#[test]
fn prop_i2p_integer_addition_is_preserved_under_constructor() {
    let values = sample_values(64);
    for &a in &values {
        for &b in &values {
            let val1 = I2pInt32::new(a);
            let val2 = I2pInt32::new(b);
            let sum = val1.to_u64() + val2.to_u64();
            let total = I2pInt32::new(sum);

            assert!(val1 + val2 == total);
        }
    }
}

#[test]
fn prop_i2p_integer_multiplication_is_preserved_under_constructor() {
    let values = sample_values(64);
    for &a in &values {
        for &b in &values {
            let val1 = I2pInt32::new(a);
            let val2 = I2pInt32::new(b);
            let product = val1.to_u64() * val2.to_u64();
            let total = I2pInt32::new(product);

            assert!(val1 * val2 == total);
        }
    }
}

#[test]
fn prop_i2p_integer_addition_is_associative() {
    let values = sample_values(16);
    for &a in &values {
        for &b in &values {
            for &c in &values {
                let val1 = I2pInt32::new(a);
                let val2 = I2pInt32::new(b);
                let val3 = I2pInt32::new(c);
                assert!(val1 + (val2 + val3) == (val1 + val2) + val3);
            }
        }
    }
}

#[test]
fn prop_i2p_integer_multiplication_is_associative() {
    let values = sample_values(16);
    for &a in &values {
        for &b in &values {
            for &c in &values {
                let val1 = I2pInt32::new(a);
                let val2 = I2pInt32::new(b);
                let val3 = I2pInt32::new(c);
                assert!(val1 * (val2 * val3) == (val1 * val2) * val3);
            }
        }
    }
}

#[test]
fn prop_i2p_integer_serialize_deserialize_output_should_be_equal_to_input() {
    let values = sample_values(64);
    for &a in &values {
        let i2p_integer = I2pInt32::new(a);
        let mut serialized_int: [u8; 4] = [0x00; 4];
        Serialize::serialize(&i2p_integer, serialized_int.as_mut()).unwrap();
        let deserialized_int = <I2pInt32 as Deserialize>::deserialize(serialized_int.as_ref()).unwrap();
        assert_eq!(deserialized_int, i2p_integer);
    }
}

#[test]
fn prop_i2p_integer_deserialize_serialize_output_should_be_equal_to_input() {
    let values = sample_values(64);
    for &a in &values {
        let i2p_integer = I2pInt32::new(a);
        let mut serialized_int: [u8; 8] = [0x00; 8];
        Serialize::serialize(&i2p_integer, serialized_int.as_mut()).unwrap();
        let deserialized_int = <I2pInt32 as Deserialize>::deserialize(serialized_int.as_ref()).unwrap();

        let mut reserialized_int: [u8; 8] = [0x00; 8];
        Serialize::serialize(&deserialized_int, reserialized_int.as_mut()).unwrap();

        assert_eq!(serialized_int, reserialized_int);
    }
}

#[test]
fn prop_i2p_integer_serialization_should_be_correct_number_of_bytes_long() {
    let values = sample_values(64);
    for &a in &values {
        let i2p_integer = I2pInt32::new(a);
        let mut serialized_int: [u8; 8] = [0x00; 8];

        let bytes_written = match Serialize::serialize(&i2p_integer, serialized_int.as_mut()) {
            Ok(nbytes) => nbytes,
            Err(e) => panic!("Error: {:?}", e),
        };

        assert_eq!(bytes_written, i2p_integer.len());
    }
}

#[test]
fn test_to_bytes_be_keeps_the_low_four_bytes() {
    // The high bit above the width is dropped and the width is kept in full.
    let value = I2pInt32::new(0x1_FFFF_FFFF);
    assert_eq!(value.to_bytes_be(), vec![0xFF, 0xFF, 0xFF, 0xFF]);

    let value = I2pInt32::new(0x0000_00FF);
    assert_eq!(value.to_bytes_be(), vec![0x00, 0x00, 0x00, 0xFF]);
}

#[test]
fn test_masking_matches_low_bytes_of_big_endian_form() {
    let values = sample_values(64);
    for &a in &values {
        let full = I2pInt64::new(a).to_bytes_be();
        let masked = I2pInt24::new(a).to_bytes_be();
        assert_eq!(&full[5..], masked.as_slice());
    }
}

#[test]
fn test_from_bytes_be_rejects_oversized_input() {
    let bytes: [u8; 3] = [0x01, 0x02, 0x03];
    assert!(I2pInt16::from_bytes_be(bytes.as_ref()).is_none());
    assert!(I2pInt24::from_bytes_be(bytes.as_ref()).is_some());
}

#[test]
fn test_integer_deserialize_fails_on_short_buffer() {
    let bytes: [u8; 3] = [0x01, 0x02, 0x03];
    let result = <I2pInt32 as Deserialize>::deserialize(bytes.as_ref());
    assert_eq!(
        result,
        Err(rusti2p::serialize::Error::BufferTooSmall(4, 3))
    );
}

#[test]
fn test_integer_serialize_fails_without_partial_write() {
    let value = I2pInt32::new(0xAABBCCDD);
    let mut buffer: [u8; 3] = [0x11; 3];
    let result = Serialize::serialize(&value, buffer.as_mut());
    assert_eq!(
        result,
        Err(rusti2p::serialize::Error::BufferTooSmall(4, 3))
    );
    assert_eq!(buffer, [0x11; 3]);
}

#[test]
fn test_bitwise_operators_mask_to_width() {
    let a = I2pInt16::new(0xF0F0);
    let b = I2pInt16::new(0x0FF0);
    assert_eq!((a & b).to_u64(), 0x00F0);
    assert_eq!((a | b).to_u64(), 0xFFF0);
    assert_eq!((a ^ b).to_u64(), 0xFF00);
    assert_eq!((!a).to_u64(), 0x0F0F);
    assert_eq!((a << 4u32).to_u64(), 0x0F00);
    assert_eq!((a >> 4u32).to_u64(), 0x0F0F);
}
