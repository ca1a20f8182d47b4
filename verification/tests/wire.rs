use rusti2p::date::Date;
use rusti2p::i2p_integer::I2pInt64;
use rusti2p::serialize::Error;

#[test]
fn test_buffer_too_small_carries_need_and_have() {
    let err = Error::buffer_too_small(8, 3);
    assert_eq!(err, Error::BufferTooSmall(8, 3));
}

#[test]
fn test_plain_date_accepts_zero_milliseconds() {
    // Unlike the wire timestamp, the plain date keeps zero as the undefined
    // marker.
    let date = Date::new(I2pInt64::new(0));
    assert_eq!(date.milliseconds, I2pInt64::new(0));
}
