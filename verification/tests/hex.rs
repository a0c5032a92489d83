use froggi::hex::{hex_char_to_u8, hex_to_rgb, rgb_to_hex, u8_to_hex_char};

#[test]
fn hex_to_rgb_reads_upper_and_lower_case() {
    assert_eq!(hex_to_rgb(&String::from("#FF8000")), (255, 128, 0));
    assert_eq!(hex_to_rgb(&String::from("#1a2b3c")), (0x1a, 0x2b, 0x3c));
}

#[test]
fn hex_to_rgb_skips_every_leading_hash() {
    assert_eq!(hex_to_rgb(&String::from("##00ff10")), (0, 255, 16));
    assert_eq!(hex_to_rgb(&String::from("0000ff")), (0, 0, 255));
}

#[test]
fn hex_to_rgb_reads_only_six_digits() {
    assert_eq!(hex_to_rgb(&String::from("#123456789")), (0x12, 0x34, 0x56));
}

#[test]
fn non_hex_characters_count_as_fifteen() {
    assert_eq!(hex_char_to_u8('z'), 15);
    assert_eq!(hex_char_to_u8('G'), 15);
    assert_eq!(hex_to_rgb(&String::from("#zz0000")), (255, 0, 0));
}

#[test]
fn hex_digits_have_their_values() {
    assert_eq!(hex_char_to_u8('0'), 0);
    assert_eq!(hex_char_to_u8('9'), 9);
    assert_eq!(hex_char_to_u8('A'), 10);
    assert_eq!(hex_char_to_u8('f'), 15);
}

#[test]
fn u8_to_hex_char_writes_upper_case() {
    assert_eq!(u8_to_hex_char(0), '0');
    assert_eq!(u8_to_hex_char(9), '9');
    assert_eq!(u8_to_hex_char(10), 'A');
    assert_eq!(u8_to_hex_char(15), 'F');
    assert_eq!(u8_to_hex_char(16), 'F');
    assert_eq!(u8_to_hex_char(200), 'F');
}

#[test]
fn rgb_to_hex_writes_six_upper_case_digits() {
    assert_eq!(rgb_to_hex(&(255, 128, 0)), "#FF8000");
    assert_eq!(rgb_to_hex(&(0, 0, 0)), "#000000");
    assert_eq!(rgb_to_hex(&(0x1a, 0x2b, 0x3c)), "#1A2B3C");
}

#[test]
fn rgb_hex_round_trip() {
    for c in [(0u8, 0u8, 0u8), (255, 255, 255), (17, 200, 3), (128, 64, 32)] {
        assert_eq!(hex_to_rgb(&rgb_to_hex(&c)), c);
    }
}
