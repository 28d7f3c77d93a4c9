use hidpp::nibble::combine;
use hidpp::nibble::U4;

#[test]
fn from_lo_keeps_the_low_half() {
    assert_eq!(U4::from_lo(0xab).to_lo(), 0x0b);
    assert_eq!(U4::from_lo(0x0f).to_lo(), 0x0f);
    assert_eq!(U4::from_lo(0xf0).to_lo(), 0x00);
}

#[test]
fn from_hi_keeps_the_high_half() {
    assert_eq!(U4::from_hi(0xab).to_lo(), 0x0a);
    assert_eq!(U4::from_hi(0x0f).to_lo(), 0x00);
    assert_eq!(U4::from_hi(0xf0).to_lo(), 0x0f);
}

#[test]
fn to_hi_moves_the_nibble_up() {
    assert_eq!(U4::from_lo(0x0b).to_hi(), 0xb0);
    assert_eq!(U4::from_lo(0x01).to_hi(), 0x10);
}

#[test]
fn combine_puts_first_nibble_high() {
    assert_eq!(combine(U4::from_lo(0x2), U4::from_lo(0x1)), 0x21);
    assert_eq!(combine(U4::from_lo(0x0), U4::from_lo(0xf)), 0x0f);
}

#[test]
fn combine_is_high_or_low_for_all_nibbles() {
    for a in 0u8..16 {
        for b in 0u8..16 {
            let x = U4::from_lo(a);
            let y = U4::from_lo(b);
            assert_eq!(combine(x, y), x.to_hi() | y.to_lo());
            assert_eq!(U4::from_lo(combine(x, y)), y);
            assert_eq!(U4::from_hi(combine(x, y)), x);
        }
    }
}

#[test]
fn low_half_survives_whatever_the_high_byte() {
    for raw in 0u8..=255 {
        for n in 0u8..16 {
            let n = U4::from_lo(n);
            assert_eq!(U4::from_lo(combine(U4::from_hi(raw), n)).to_lo(), n.to_lo());
        }
    }
}

#[test]
fn halves_of_a_byte_combine_to_the_byte() {
    for raw in 0u8..=255 {
        assert_eq!(combine(U4::from_hi(raw), U4::from_lo(raw)), raw);
    }
}
