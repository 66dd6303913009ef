use inkview::bitmap::{convert, ConvertError, PortableBitmap, NATIVE_HEADER_LEN};

fn payload_12() -> Vec<u8> {
    vec![0x11, 0x22, 0x33, 0x44, 0x55, 0x66, 0x77, 0x88, 0x99, 0xAA, 0xBB, 0xCC]
}

#[test]
fn convert_two_by_two_24bit() {
    let src = PortableBitmap { width: 2, height: 2, depth: 24, payload: payload_12() };
    let n = convert(src).unwrap();
    assert_eq!(n.width, 2);
    assert_eq!(n.height, 2);
    assert_eq!(n.depth, 24);
    assert_eq!(n.scanline, 6);
    assert_eq!(n.data, payload_12());
}

#[test]
fn block_is_header_then_payload_unchanged() {
    let src = PortableBitmap { width: 2, height: 2, depth: 24, payload: payload_12() };
    let n = convert(src).unwrap();
    let block = n.to_block();
    assert_eq!(block.len(), NATIVE_HEADER_LEN + 12);
    assert_eq!(&block[..NATIVE_HEADER_LEN], &[2, 0, 2, 0, 24, 6, 0]);
    assert_eq!(&block[NATIVE_HEADER_LEN..], &payload_12()[..]);
}

#[test]
fn convert_rejects_zero_width() {
    let src = PortableBitmap { width: 0, height: 2, depth: 24, payload: payload_12() };
    assert!(matches!(convert(src), Err(ConvertError::ZeroWidth)));
}

#[test]
fn convert_rejects_width_over_field_range() {
    let src = PortableBitmap { width: 0x10000, height: 2, depth: 24, payload: payload_12() };
    assert!(matches!(convert(src), Err(ConvertError::WidthTooLarge)));
}

#[test]
fn convert_rejects_height_over_field_range() {
    let src = PortableBitmap { width: 2, height: 0x10000, depth: 24, payload: payload_12() };
    assert!(matches!(convert(src), Err(ConvertError::HeightTooLarge)));
}

#[test]
fn convert_rejects_depth_over_field_range() {
    let src = PortableBitmap { width: 2, height: 2, depth: 0x100, payload: payload_12() };
    assert!(matches!(convert(src), Err(ConvertError::DepthTooLarge)));
}

#[test]
fn convert_rejects_uneven_payload() {
    let src = PortableBitmap { width: 2, height: 2, depth: 24, payload: vec![1, 2, 3, 4, 5] };
    assert!(matches!(convert(src), Err(ConvertError::UnevenPayload)));
}

#[test]
fn convert_rejects_scanline_over_field_range() {
    let src = PortableBitmap { width: 1, height: 1, depth: 8, payload: vec![0u8; 0x10000] };
    assert!(matches!(convert(src), Err(ConvertError::ScanlineTooLarge)));
}

#[test]
fn convert_accepts_scanline_at_field_limit() {
    let src = PortableBitmap { width: 1, height: 1, depth: 8, payload: vec![7u8; 0xffff] };
    let n = convert(src).unwrap();
    assert_eq!(n.scanline, 0xffff);
    assert_eq!(n.data.len(), 0xffff);
}

/// A minimal portable container: the 38-byte header, then the pixel bytes.
fn container(width: u32, height: u32, bpp: u16, payload: &[u8]) -> Vec<u8> {
    let mut d = Vec::new();
    d.extend_from_slice(b"BM");
    d.extend_from_slice(&(38u32 + payload.len() as u32).to_le_bytes()); // file size
    d.extend_from_slice(&0u16.to_le_bytes()); // reserved 1
    d.extend_from_slice(&0u16.to_le_bytes()); // reserved 2
    d.extend_from_slice(&38u32.to_le_bytes()); // pixel data offset
    d.extend_from_slice(&40u32.to_le_bytes()); // header size
    d.extend_from_slice(&width.to_le_bytes());
    d.extend_from_slice(&height.to_le_bytes());
    d.extend_from_slice(&1u16.to_le_bytes()); // color planes
    d.extend_from_slice(&bpp.to_le_bytes());
    d.extend_from_slice(&0u32.to_le_bytes()); // compression
    d.extend_from_slice(&(payload.len() as u32).to_le_bytes());
    d.extend_from_slice(payload);
    d
}

#[test]
fn parse_reads_header_fields_and_payload() {
    let data = container(2, 2, 24, &payload_12());
    let b = PortableBitmap::parse(&data).unwrap();
    assert_eq!(b.width, 2);
    assert_eq!(b.height, 2);
    assert_eq!(b.depth, 24);
    assert_eq!(b.payload, payload_12());
}

#[test]
fn parse_then_convert_round() {
    let data = container(2, 2, 24, &payload_12());
    let b = PortableBitmap::parse(&data).unwrap();
    let n = convert(b).unwrap();
    let block = n.to_block();
    assert_eq!(&block[NATIVE_HEADER_LEN..], &payload_12()[..]);
    assert_eq!(&block[..NATIVE_HEADER_LEN], &[2, 0, 2, 0, 24, 6, 0]);
}

#[test]
fn parse_rejects_short_input() {
    let data = vec![0x42, 0x4d, 0, 0];
    assert!(PortableBitmap::parse(&data).is_none());
}

#[test]
fn parse_rejects_bad_magic() {
    let mut data = container(2, 2, 24, &payload_12());
    data[0] = b'X';
    assert!(PortableBitmap::parse(&data).is_none());
}

#[test]
fn parse_rejects_data_offset_beyond_end() {
    let mut data = container(2, 2, 24, &payload_12());
    // overwrite the pixel-data offset (bytes 10..14) with one past the end
    let bad = (data.len() as u32 + 1).to_le_bytes();
    data[10..14].copy_from_slice(&bad);
    assert!(PortableBitmap::parse(&data).is_none());
}

#[test]
fn parse_empty_payload_when_offset_at_end() {
    let data = container(1, 1, 8, &[]);
    let b = PortableBitmap::parse(&data).unwrap();
    assert!(b.payload.is_empty());
}
