use rustyboy::utils::{to_hex_string, to_u32, to_u8_array};

#[test]
fn test_to_u32() {
    assert_eq!(to_u32(&[0xff, 0xff, 0xff, 0xff]), 0xffffffff);
    assert_eq!(to_u32(&[0xff, 0x00, 0xff, 0x00]), 0xff00ff00);
}

#[test]
fn test_to_u8_array() {
    assert_eq!(to_u8_array(0xffffffff), [0xff, 0xff, 0xff, 0xff]);
    assert_eq!(to_u8_array(0xff00ff00), [0xff, 0x00, 0xff, 0x00]);
}

#[test]
fn u32_round_trip() {
    assert_eq!(to_u32(&to_u8_array(0x1234abcd)), 0x1234abcd);
    assert_eq!(to_u8_array(0x0a0b0c0d), [0x0a, 0x0b, 0x0c, 0x0d]);
}

#[test]
fn hex_string_of_bytes() {
    assert_eq!(to_hex_string(&[]), "");
    assert_eq!(to_hex_string(&[0x0f]), "0F");
    assert_eq!(to_hex_string(&[0x00, 0xab, 0x7e, 0xff]), "00 AB 7E FF");
}
