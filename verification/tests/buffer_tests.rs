use cosmic_hex::buffer::{DataBuffer, HexError};

#[test]
fn set_then_get_returns_value() {
    let mut buf = DataBuffer { data: vec![0u8, 0, 0, 0] };
    assert_eq!(buf.set_byte(2, 0xAB), Ok(()));
    assert_eq!(buf.get_byte(2), Ok(0xAB));
}

#[test]
fn set_then_get_every_offset() {
    let mut buf = DataBuffer { data: vec![1u8, 2, 3, 4, 5] };
    for offset in 0..5 {
        let value = (0x10 + offset) as u8;
        assert_eq!(buf.set_byte(offset, value), Ok(()));
        assert_eq!(buf.get_byte(offset), Ok(value));
    }
}

#[test]
fn get_byte_out_of_range() {
    let buf = DataBuffer { data: vec![1u8, 2, 3] };
    assert_eq!(buf.get_byte(3), Err(HexError::OutOfRange));
    assert_eq!(buf.get_byte(usize::MAX), Err(HexError::OutOfRange));
}

#[test]
fn set_byte_out_of_range_changes_nothing() {
    let mut buf = DataBuffer { data: vec![1u8, 2, 3] };
    assert_eq!(buf.set_byte(3, 9), Err(HexError::OutOfRange));
    assert_eq!(buf.data, vec![1u8, 2, 3]);
}

#[test]
fn empty_buffer_rejects_all_access() {
    let buf = DataBuffer { data: vec![] };
    assert_eq!(buf.get_byte(0), Err(HexError::OutOfRange));
    assert_eq!(buf.get_u32(0), Err(HexError::OutOfRange));
    assert_eq!(buf.get_i32(0), Err(HexError::OutOfRange));
}

#[test]
fn len_reports_byte_count() {
    assert_eq!(DataBuffer { data: vec![] }.len(), 0);
    assert_eq!(DataBuffer { data: vec![7u8; 11] }.len(), 11);
}

#[test]
fn get_u32_reads_little_endian() {
    let buf = DataBuffer { data: vec![0x78, 0x56, 0x34, 0x12] };
    assert_eq!(buf.get_u32(0), Ok(0x1234_5678));
}

#[test]
fn get_u32_at_offset() {
    let buf = DataBuffer { data: vec![0xFF, 0x01, 0x02, 0x03, 0x04, 0xFF] };
    assert_eq!(buf.get_u32(1), Ok(0x0403_0201));
    assert_eq!(buf.get_u32(2), Ok(0xFF04_0302));
}

#[test]
fn get_u32_needs_four_bytes() {
    let buf = DataBuffer { data: vec![1u8, 2, 3, 4, 5] };
    assert_eq!(buf.get_u32(1), Ok(0x0504_0302));
    assert_eq!(buf.get_u32(2), Err(HexError::OutOfRange));
    assert_eq!(buf.get_u32(5), Err(HexError::OutOfRange));
}

#[test]
fn get_i32_positive() {
    let buf = DataBuffer { data: vec![0x2A, 0x00, 0x00, 0x00] };
    assert_eq!(buf.get_i32(0), Ok(42));
}

#[test]
fn get_i32_negative_one() {
    let buf = DataBuffer { data: vec![0xFF, 0xFF, 0xFF, 0xFF] };
    assert_eq!(buf.get_i32(0), Ok(-1));
}

#[test]
fn get_i32_most_negative() {
    let buf = DataBuffer { data: vec![0x00, 0x00, 0x00, 0x80] };
    assert_eq!(buf.get_i32(0), Ok(i32::MIN));
}

#[test]
fn get_i32_out_of_range() {
    let buf = DataBuffer { data: vec![1u8, 2, 3] };
    assert_eq!(buf.get_i32(0), Err(HexError::OutOfRange));
}
