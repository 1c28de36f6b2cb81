use cosmic_hex::pattern::{get_pattern_needle, hex_digit_of};

#[test]
fn pairs_of_digits_become_bytes() {
    assert_eq!(get_pattern_needle("ABCD"), vec![0xAB, 0xCD]);
    assert_eq!(get_pattern_needle("00ff"), vec![0x00, 0xFF]);
}

#[test]
fn lower_and_upper_case_mix() {
    assert_eq!(get_pattern_needle("aB"), vec![0xAB]);
    assert_eq!(get_pattern_needle("DeAd"), vec![0xDE, 0xAD]);
}

#[test]
fn non_hex_characters_are_skipped() {
    assert_eq!(get_pattern_needle("A-B"), vec![0xAB]);
    assert_eq!(get_pattern_needle("AB CD"), vec![0xAB, 0xCD]);
    assert_eq!(get_pattern_needle("-AB"), vec![0xAB]);
    assert_eq!(get_pattern_needle("0x41"), vec![0x04, 0x10]);
}

#[test]
fn trailing_lone_digit_is_a_high_nibble() {
    assert_eq!(get_pattern_needle("ABC"), vec![0xAB, 0xC0]);
    assert_eq!(get_pattern_needle("5"), vec![0x50]);
}

#[test]
fn empty_and_all_skipped_patterns() {
    assert_eq!(get_pattern_needle(""), Vec::<u8>::new());
    assert_eq!(get_pattern_needle("ghij klm!"), Vec::<u8>::new());
}

#[test]
fn digit_classification() {
    assert_eq!(hex_digit_of('0'), Some(0));
    assert_eq!(hex_digit_of('9'), Some(9));
    assert_eq!(hex_digit_of('a'), Some(10));
    assert_eq!(hex_digit_of('f'), Some(15));
    assert_eq!(hex_digit_of('A'), Some(10));
    assert_eq!(hex_digit_of('F'), Some(15));
    assert_eq!(hex_digit_of('g'), None);
    assert_eq!(hex_digit_of(' '), None);
    assert_eq!(hex_digit_of('ß'), None);
}
