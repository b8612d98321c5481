use axo::color::{parse_hex_color, Rgba};

#[test]
fn six_digit_codes_are_opaque() {
    assert_eq!(parse_hex_color("#ff8000"), Some(Rgba { r: 255, g: 128, b: 0, a: 255 }));
    assert_eq!(parse_hex_color("  #1A1a2E\n"), Some(Rgba { r: 0x1a, g: 0x1a, b: 0x2e, a: 255 }));
}

#[test]
fn eight_digit_codes_carry_alpha() {
    assert_eq!(parse_hex_color("#00ff0080"), Some(Rgba { r: 0, g: 255, b: 0, a: 128 }));
}

#[test]
fn malformed_codes_are_rejected() {
    assert_eq!(parse_hex_color("ff0000"), None);
    assert_eq!(parse_hex_color("#fff"), None);
    assert_eq!(parse_hex_color("#ff00000"), None);
    assert_eq!(parse_hex_color("#gg0000"), None);
    assert_eq!(parse_hex_color("#-f0000"), None);
    assert_eq!(parse_hex_color(""), None);
    assert_eq!(parse_hex_color("#é0000"), None);
}

#[test]
fn fields_are_two_hex_digits_only() {
    assert_eq!(parse_hex_color("#+f0000"), None);
    assert_eq!(parse_hex_color("#+f+f+f"), None);
    assert_eq!(parse_hex_color("#a€b"), None);
    assert_eq!(parse_hex_color("#ffé"), None);
    assert_eq!(parse_hex_color("#ff 000"), None);
}

#[test]
fn well_formed_codes_spell_their_bytes() {
    assert_eq!(parse_hex_color("#0aF19C"), Some(Rgba { r: 0x0a, g: 0xf1, b: 0x9c, a: 255 }));
    assert_eq!(parse_hex_color("#DEADBEEF"), Some(Rgba { r: 0xde, g: 0xad, b: 0xbe, a: 0xef }));
}
