use eco_release::codec::{bytes_to_u128, i64_to_dec, u128_to_be_bytes, u128_to_dec};
use eco_release::errors::Error;

#[test]
fn be_bytes_of_small_value() {
    let b = u128_to_be_bytes(258);
    let mut expected = vec![0u8; 14];
    expected.push(1);
    expected.push(2);
    assert_eq!(b, expected);
}

#[test]
fn be_bytes_of_zero_and_max() {
    assert_eq!(u128_to_be_bytes(0), vec![0u8; 16]);
    assert_eq!(u128_to_be_bytes(u128::MAX), vec![0xffu8; 16]);
}

#[test]
fn be_round_trip() {
    let v: u128 = 0x0123_4567_89ab_cdef_0011_2233_4455_6677;
    let b = u128_to_be_bytes(v);
    assert_eq!(bytes_to_u128(&b), Ok(v));
}

#[test]
fn decode_rejects_wrong_length() {
    assert_eq!(bytes_to_u128(&[1, 2, 3]), Err(Error::CorruptedData));
    assert_eq!(bytes_to_u128(&[0u8; 15]), Err(Error::CorruptedData));
    assert_eq!(bytes_to_u128(&[0u8; 17]), Err(Error::CorruptedData));
    assert_eq!(bytes_to_u128(&[]), Err(Error::CorruptedData));
}

#[test]
fn decode_known_value() {
    let mut data = vec![0u8; 16];
    data[14] = 1;
    data[15] = 44;
    assert_eq!(bytes_to_u128(&data), Ok(300));
}

#[test]
fn decimal_rendering_unsigned() {
    assert_eq!(u128_to_dec(0), "0");
    assert_eq!(u128_to_dec(7), "7");
    assert_eq!(u128_to_dec(10), "10");
    assert_eq!(u128_to_dec(12345), "12345");
    assert_eq!(
        u128_to_dec(u128::MAX),
        "340282366920938463463374607431768211455"
    );
}

#[test]
fn decimal_rendering_signed() {
    assert_eq!(i64_to_dec(0), "0");
    assert_eq!(i64_to_dec(5000), "5000");
    assert_eq!(i64_to_dec(-42), "-42");
    assert_eq!(i64_to_dec(i64::MAX), "9223372036854775807");
    assert_eq!(i64_to_dec(i64::MIN), "-9223372036854775808");
}
