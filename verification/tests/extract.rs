use forza_telemetry::utils::{
    field_bytes, get16, get32, get8, i32_from_le, i8_from_le, read_binary32, read_i32, read_i8,
    read_u16, read_u32, read_u8, u16_from_le, u32_from_le, u8_from_le, Binary32, LengthMismatch,
};

#[test]
fn get8_takes_exactly_one_byte() {
    assert_eq!(get8(&[0xab]), Ok([0xab]));
    assert_eq!(get8(&[]), Err(LengthMismatch { expected: 1, actual: 0 }));
    assert_eq!(get8(&[1, 2]), Err(LengthMismatch { expected: 1, actual: 2 }));
}

#[test]
fn get16_takes_exactly_two_bytes() {
    assert_eq!(get16(&[0x34, 0x12]), Ok([0x34, 0x12]));
    assert_eq!(get16(&[]), Err(LengthMismatch { expected: 2, actual: 0 }));
    assert_eq!(get16(&[1]), Err(LengthMismatch { expected: 2, actual: 1 }));
    assert_eq!(get16(&[1, 2, 3]), Err(LengthMismatch { expected: 2, actual: 3 }));
}

#[test]
fn get32_takes_exactly_four_bytes() {
    assert_eq!(get32(&[1, 2, 3, 4]), Ok([1, 2, 3, 4]));
    assert_eq!(get32(&[]), Err(LengthMismatch { expected: 4, actual: 0 }));
    assert_eq!(get32(&[1, 2, 3]), Err(LengthMismatch { expected: 4, actual: 3 }));
    assert_eq!(get32(&[1, 2, 3, 4, 5]), Err(LengthMismatch { expected: 4, actual: 5 }));
    assert_eq!(get32(&[0u8; 323]), Err(LengthMismatch { expected: 4, actual: 323 }));
}

#[test]
fn extractor_keeps_the_byte_order() {
    let bytes = [0x10u8, 0x20, 0x30, 0x40, 0x50];
    assert_eq!(get32(&bytes[1..5]), Ok([0x20, 0x30, 0x40, 0x50]));
    assert_eq!(get16(&bytes[3..5]), Ok([0x40, 0x50]));
    assert_eq!(get8(&bytes[4..5]), Ok([0x50]));
}

#[test]
fn unsigned_numbers_are_little_endian() {
    assert_eq!(u8_from_le([0xfe]), 0xfe);
    assert_eq!(u16_from_le([0x34, 0x12]), 0x1234);
    assert_eq!(u16_from_le([0xff, 0xff]), u16::MAX);
    assert_eq!(u32_from_le([0x78, 0x56, 0x34, 0x12]), 0x1234_5678);
    assert_eq!(u32_from_le([0xff, 0xff, 0xff, 0xff]), u32::MAX);
    assert_eq!(u32_from_le([0, 0, 0, 0]), 0);
    assert_eq!(u32_from_le([1, 0, 0, 0]), 1);
    assert_eq!(u32_from_le([0, 0, 0, 1]), 0x0100_0000);
}

#[test]
fn signed_numbers_are_twos_complement() {
    assert_eq!(i8_from_le([0x00]), 0);
    assert_eq!(i8_from_le([0x7f]), 127);
    assert_eq!(i8_from_le([0x80]), -128);
    assert_eq!(i8_from_le([0xff]), -1);
    assert_eq!(i32_from_le([0xff, 0xff, 0xff, 0xff]), -1);
    assert_eq!(i32_from_le([0x00, 0x00, 0x00, 0x80]), i32::MIN);
    assert_eq!(i32_from_le([0xff, 0xff, 0xff, 0x7f]), i32::MAX);
    assert_eq!(i32_from_le([0x2e, 0xfb, 0xff, 0xff]), -1234);
}

#[test]
fn readings_agree_with_the_standard_library() {
    let mut x: u32 = 0x9e37_79b9;
    for _ in 0..2000 {
        x ^= x << 13;
        x ^= x >> 17;
        x ^= x << 5;
        let b = x.to_le_bytes();
        assert_eq!(u32_from_le(b), u32::from_le_bytes(b));
        assert_eq!(i32_from_le(b), i32::from_le_bytes(b));
        assert_eq!(u16_from_le([b[0], b[1]]), u16::from_le_bytes([b[0], b[1]]));
        assert_eq!(i8_from_le([b[2]]), i8::from_le_bytes([b[2]]));
        assert_eq!(u8_from_le([b[3]]), u8::from_le_bytes([b[3]]));
    }
}

#[test]
fn field_bytes_stops_at_the_end_of_the_buffer() {
    let bytes = [1u8, 2, 3, 4, 5, 6];
    assert_eq!(field_bytes(&bytes, 0, 4), &[1u8, 2, 3, 4][..]);
    assert_eq!(field_bytes(&bytes, 2, 4), &[3u8, 4, 5, 6][..]);
    assert_eq!(field_bytes(&bytes, 4, 4), &[5u8, 6][..]);
    assert_eq!(field_bytes(&bytes, 6, 4), &[0u8; 0][..]);
    assert_eq!(field_bytes(&bytes, 9, 4), &[0u8; 0][..]);
    assert_eq!(field_bytes(&bytes, 5, 1), &[6u8][..]);
    assert_eq!(field_bytes(&bytes, usize::MAX, 4), &[0u8; 0][..]);
    assert_eq!(field_bytes(&bytes, 3, usize::MAX), &[4u8, 5, 6][..]);
}

#[test]
fn fields_are_read_at_their_offset() {
    let bytes = [0x01u8, 0x02, 0x03, 0x04, 0x05, 0x06, 0xf7, 0x88];
    assert_eq!(read_u8(&bytes, 7), Ok(0x88));
    assert_eq!(read_i8(&bytes, 7), Ok(-120));
    assert_eq!(read_u16(&bytes, 1), Ok(0x0302));
    assert_eq!(read_u32(&bytes, 2), Ok(0x0605_0403));
    assert_eq!(read_i32(&bytes, 4), Ok(i32::from_le_bytes([0x05, 0x06, 0xf7, 0x88])));
    assert_eq!(read_binary32(&bytes, 0), Ok(Binary32 { bits: 0x0403_0201 }));
}

#[test]
fn a_field_beyond_the_end_is_a_length_error() {
    let bytes = [0u8; 6];
    assert_eq!(read_u32(&bytes, 2), Ok(0));
    assert_eq!(read_u32(&bytes, 3), Err(LengthMismatch { expected: 4, actual: 3 }));
    assert_eq!(read_i32(&bytes, 5), Err(LengthMismatch { expected: 4, actual: 1 }));
    assert_eq!(read_binary32(&bytes, 6), Err(LengthMismatch { expected: 4, actual: 0 }));
    assert_eq!(read_binary32(&bytes, 60), Err(LengthMismatch { expected: 4, actual: 0 }));
    assert_eq!(read_u16(&bytes, 5), Err(LengthMismatch { expected: 2, actual: 1 }));
    assert_eq!(read_u16(&bytes, 4), Ok(0));
    assert_eq!(read_u8(&bytes, 5), Ok(0));
    assert_eq!(read_u8(&bytes, 6), Err(LengthMismatch { expected: 1, actual: 0 }));
    assert_eq!(read_i8(&bytes, usize::MAX), Err(LengthMismatch { expected: 1, actual: 0 }));
    assert_eq!(read_u32(&[], 0), Err(LengthMismatch { expected: 4, actual: 0 }));
}
