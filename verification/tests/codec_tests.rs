use b24_tool::codec::{
    compute_xor_seed, decode_advertising, decode_string, decode_u16_be, decode_u32_be, decode_u8,
    encode_string, encode_u16_be, encode_u32_be, encode_u8, xor_advertising, CodecError,
    DecodedAdvert, XOR_SEED,
};

#[test]
fn u32_decodes_big_endian() {
    assert_eq!(decode_u32_be(&[0x12, 0x34, 0x56, 0x78]), Ok(0x1234_5678));
    assert_eq!(decode_u32_be(&[0xFF, 0xFF, 0xFF, 0xFF, 0x00]), Ok(u32::MAX));
}

#[test]
fn u32_short_input_is_an_error() {
    assert_eq!(
        decode_u32_be(&[1, 2, 3]),
        Err(CodecError::InvalidLength { expected: 4, got: 3 })
    );
}

#[test]
fn u32_encode_roundtrip() {
    assert_eq!(encode_u32_be(0x0102_0304), vec![1, 2, 3, 4]);
    let bytes = encode_u32_be(3_000_000_001);
    assert_eq!(decode_u32_be(&bytes), Ok(3_000_000_001));
}

#[test]
fn u16_codec() {
    assert_eq!(decode_u16_be(&[0xBE, 0xEF]), Ok(0xBEEF));
    assert_eq!(
        decode_u16_be(&[0xBE]),
        Err(CodecError::InvalidLength { expected: 2, got: 1 })
    );
    assert_eq!(encode_u16_be(0x1A2B), vec![0x1A, 0x2B]);
    assert_eq!(decode_u16_be(&encode_u16_be(65535)), Ok(65535));
}

#[test]
fn u8_codec() {
    assert_eq!(decode_u8(&[7, 9]), Ok(7));
    assert_eq!(decode_u8(&[]), Err(CodecError::InvalidLength { expected: 1, got: 0 }));
    assert_eq!(encode_u8(200), vec![200]);
}

#[test]
fn string_stops_at_first_nul() {
    assert_eq!(decode_string(b"B24\0junk"), "B24");
    assert_eq!(decode_string(b"1234"), "1234");
    assert_eq!(decode_string(&[0, 65]), "");
}

#[test]
fn string_invalid_utf8_is_replaced() {
    assert_eq!(decode_string(&[0x41, 0xFF, 0x42]), "A\u{FFFD}B");
}

#[test]
fn string_encode_pads_and_truncates() {
    assert_eq!(encode_string("12", 5), vec![b'1', b'2', 0, 0, 0]);
    assert_eq!(encode_string("123456", 4), vec![b'1', b'2', b'3', 0]);
    assert_eq!(encode_string("12345", 5), vec![b'1', b'2', b'3', b'4', 0]);
    assert_eq!(decode_string(&encode_string("12345", 5)), "1234");
    assert_eq!(encode_string("12", 0), Vec::<u8>::new());
    assert_eq!(decode_string(&encode_string("\u{C4}1", 5)), "\u{C4}1");
    assert_eq!(decode_string(&encode_string("0000", 5)), "0000");
}

#[test]
fn xor_seed_without_pin_is_default() {
    assert_eq!(compute_xor_seed(""), XOR_SEED);
}

#[test]
fn xor_seed_with_pin_repeats_pin() {
    let seed = compute_xor_seed("12");
    let pin = [b'1', b'2'];
    for i in 0..10 {
        assert_eq!(seed[i], XOR_SEED[i] ^ pin[i % 2]);
    }
    assert_eq!(seed[0], 0x5C ^ 0x31);
}

#[test]
fn xor_twice_restores_data() {
    let seed = compute_xor_seed("4321");
    let plain: Vec<u8> = (0u8..23).collect();
    let mut data = plain.clone();
    xor_advertising(&mut data, &seed);
    assert_ne!(data, plain);
    xor_advertising(&mut data, &seed);
    assert_eq!(data, plain);
}

fn encode_packet(pin: &str, tag: u16, status: u8, units: u8, value: f32) -> Vec<u8> {
    let mut plain = vec![0x01];
    plain.extend_from_slice(&tag.to_be_bytes());
    plain.push(status);
    plain.push(units);
    plain.extend_from_slice(&value.to_bits().to_be_bytes());
    let seed = compute_xor_seed(pin);
    xor_advertising(&mut plain, &seed);
    plain
}

#[test]
fn advert_decodes_with_right_pin() {
    let raw = encode_packet("1234", 0xABCD, 0x05, 15, 12.5);
    let decoded = decode_advertising(&raw, "1234").unwrap();
    assert_eq!(
        decoded,
        DecodedAdvert { data_tag: 0xABCD, status: 0x05, units: 15, value_bits: 12.5f32.to_bits() }
    );
}

#[test]
fn advert_wrong_format_or_short_is_none() {
    let raw = encode_packet("", 1, 0, 0, 1.0);
    assert!(decode_advertising(&raw[..8], "").is_none());
    let mut bad = raw.clone();
    bad[0] ^= 0x02;
    assert!(decode_advertising(&bad, "").is_none());
}

#[test]
fn advert_nan_or_infinite_is_rejected() {
    assert!(decode_advertising(&encode_packet("", 1, 0, 0, f32::NAN), "").is_none());
    assert!(decode_advertising(&encode_packet("", 1, 0, 0, f32::INFINITY), "").is_none());
    assert!(decode_advertising(&encode_packet("", 1, 0, 0, f32::MAX), "").is_some());
}
