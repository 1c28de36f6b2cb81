use cosmic_hex::buffer::DataBuffer;
use cosmic_hex::search::{find_next, find_previous};

fn sample() -> DataBuffer {
    DataBuffer { data: vec![0x00, 0xAB, 0xCD, 0xAB, 0xCD] }
}

#[test]
fn find_next_returns_first_match_at_or_after_start() {
    let buf = sample();
    let needle = vec![0xAB, 0xCD];
    assert_eq!(find_next(&buf, 0, &needle), Some(1));
    assert_eq!(find_next(&buf, 2, &needle), Some(3));
}

#[test]
fn find_next_includes_start_offset() {
    let buf = sample();
    let needle = vec![0xAB, 0xCD];
    assert_eq!(find_next(&buf, 1, &needle), Some(1));
}

#[test]
fn find_next_does_not_wrap() {
    let buf = sample();
    let needle = vec![0xAB, 0xCD];
    assert_eq!(find_next(&buf, 4, &needle), None);
}

#[test]
fn find_next_empty_needle_is_no_match() {
    let buf = sample();
    assert_eq!(find_next(&buf, 0, &vec![]), None);
    assert_eq!(find_previous(&buf, 5, &vec![]), None);
}

#[test]
fn find_next_needle_longer_than_buffer() {
    let buf = DataBuffer { data: vec![1u8, 2] };
    assert_eq!(find_next(&buf, 0, &vec![1, 2, 3]), None);
}

#[test]
fn find_previous_returns_last_match_before_start() {
    let buf = sample();
    let needle = vec![0xAB, 0xCD];
    assert_eq!(find_previous(&buf, 5, &needle), Some(3));
    assert_eq!(find_previous(&buf, 3, &needle), Some(1));
}

#[test]
fn find_previous_excludes_start_offset() {
    let buf = sample();
    let needle = vec![0xAB, 0xCD];
    assert_eq!(find_previous(&buf, 1, &needle), None);
}

#[test]
fn find_previous_does_not_wrap() {
    let buf = sample();
    let needle = vec![0xAB, 0xCD];
    assert_eq!(find_previous(&buf, 0, &needle), None);
}

#[test]
fn single_byte_needle() {
    let buf = DataBuffer { data: vec![5u8, 9, 5, 9] };
    assert_eq!(find_next(&buf, 0, &vec![9]), Some(1));
    assert_eq!(find_next(&buf, 2, &vec![9]), Some(3));
    assert_eq!(find_previous(&buf, 3, &vec![5]), Some(2));
}

#[test]
fn match_must_be_byte_exact() {
    let buf = DataBuffer { data: vec![0xAB, 0xCC] };
    assert_eq!(find_next(&buf, 0, &vec![0xAB, 0xCD]), None);
}
