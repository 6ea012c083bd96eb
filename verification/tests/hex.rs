use epick::hex::{hex_chars_to_u8, hex_code, hex_val, parse_hex};

fn case(hex: &str, r: u8, g: u8, b: u8) {
    let parsed = parse_hex(hex).unwrap();
    assert_eq!(r, parsed.0);
    assert_eq!(g, parsed.1);
    assert_eq!(b, parsed.2);
}

#[test]
fn parses_hex() {
    case("000000", 0, 0, 0);
    case("ffffff", 255, 255, 255);
    case("FFFFFF", 255, 255, 255);
    case("abbaaf", 171, 186, 175);
    case("12abff", 18, 171, 255);

    assert!(parse_hex("").is_none());
    assert!(parse_hex("12abf").is_none());
    assert!(parse_hex("12abfff").is_none());
}

#[test]
fn non_hex_digits_count_as_zero() {
    assert_eq!(parse_hex("zz10gg"), Some((0, 16, 0)));
    assert_eq!(hex_val(b'g'), 0);
    assert_eq!(hex_val(b'F'), 15);
    assert_eq!(hex_chars_to_u8((b'a', b'b')), 171);
}

#[test]
fn length_counts_bytes() {
    // Six bytes, of which "é" takes two.
    assert_eq!(parse_hex("é1234"), Some((0, 18, 52)));
    assert!(parse_hex("é12345").is_none());
}

#[test]
fn hex_code_reads_back() {
    for (r, g, b) in [(0u8, 0u8, 0u8), (255, 255, 255), (18, 171, 255), (1, 2, 254)] {
        let s = hex_code(r, g, b);
        assert_eq!(s.len(), 7);
        assert!(s.starts_with('#'));
        assert_eq!(parse_hex(&s[1..]), Some((r, g, b)));
    }
    assert_eq!(hex_code(255, 0, 16), "#ff0010");
}
