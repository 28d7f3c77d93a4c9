use hidpp::bcd::convert_packed_u16;
use hidpp::bcd::convert_packed_u8;

#[test]
fn packed_byte_decodes_to_tens_and_ones() {
    assert_eq!(convert_packed_u8(0x24), Ok(24));
    assert_eq!(convert_packed_u8(0x07), Ok(7));
    assert_eq!(convert_packed_u8(0x00), Ok(0));
    assert_eq!(convert_packed_u8(0x99), Ok(99));
}

#[test]
fn packed_byte_with_a_half_above_nine_fails() {
    assert_eq!(convert_packed_u8(0x0a), Err(()));
    assert_eq!(convert_packed_u8(0xa0), Err(()));
    assert_eq!(convert_packed_u8(0xff), Err(()));
    assert_eq!(convert_packed_u8(0x9f), Err(()));
}

#[test]
fn packed_byte_decodes_exactly_when_both_halves_are_digits() {
    for hi in 0u8..16 {
        for lo in 0u8..16 {
            let got = convert_packed_u8((hi << 4) | lo);
            if hi < 10 && lo < 10 {
                assert_eq!(got, Ok(hi * 10 + lo));
            } else {
                assert_eq!(got, Err(()));
            }
        }
    }
}

#[test]
fn packed_short_decodes_to_hundreds_and_ones() {
    assert_eq!(convert_packed_u16(0x1234), Ok(1234));
    assert_eq!(convert_packed_u16(0x0000), Ok(0));
    assert_eq!(convert_packed_u16(0x9999), Ok(9999));
    assert_eq!(convert_packed_u16(0x0100), Ok(100));
}

#[test]
fn packed_short_with_a_half_above_nine_fails() {
    assert_eq!(convert_packed_u16(0x12a4), Err(()));
    assert_eq!(convert_packed_u16(0xa234), Err(()));
    assert_eq!(convert_packed_u16(0x123f), Err(()));
    assert_eq!(convert_packed_u16(0x1b34), Err(()));
}
