use clipboard_png::dib::{
    build_file_header, push_le_u32, read_header, read_le_i32, read_le_u16, read_le_u32,
    reconstruct, DibHeader, MAX_BLOCK_LEN,
};

fn header_bytes(size: u32, width: i32, height: i32, bits: u16, colors_used: u32) -> Vec<u8> {
    let mut bytes = Vec::new();
    bytes.extend_from_slice(&size.to_le_bytes());
    bytes.extend_from_slice(&width.to_le_bytes());
    bytes.extend_from_slice(&height.to_le_bytes());
    bytes.extend_from_slice(&1u16.to_le_bytes());
    bytes.extend_from_slice(&bits.to_le_bytes());
    bytes.extend_from_slice(&0u32.to_le_bytes());
    bytes.extend_from_slice(&0u32.to_le_bytes());
    bytes.extend_from_slice(&2835i32.to_le_bytes());
    bytes.extend_from_slice(&(-2835i32).to_le_bytes());
    bytes.extend_from_slice(&colors_used.to_le_bytes());
    bytes.extend_from_slice(&0u32.to_le_bytes());
    bytes
}

fn header(bits: u16, colors_used: u32) -> DibHeader {
    read_header(&header_bytes(40, 2, 2, bits, colors_used)).unwrap()
}

#[test]
fn header_fields_are_read_in_wire_order() {
    let parsed = read_header(&header_bytes(40, 2, -3, 24, 7)).unwrap();
    let expected = DibHeader {
        header_size: 40,
        width: 2,
        height: -3,
        planes: 1,
        bit_count: 24,
        compression: 0,
        image_size: 0,
        x_pels_per_meter: 2835,
        y_pels_per_meter: -2835,
        colors_used: 7,
        colors_important: 0,
    };
    assert_eq!(parsed, expected);
}

#[test]
fn header_needs_forty_bytes() {
    let bytes = header_bytes(40, 1, 1, 24, 0);
    assert!(read_header(&bytes[..39]).is_none());
    assert!(read_header(&bytes).is_some());
    assert!(read_header(&[]).is_none());
}

#[test]
fn little_endian_readers() {
    assert_eq!(read_le_u16(&[0x34, 0x12], 0), 0x1234);
    assert_eq!(read_le_u32(&[0, 0x78, 0x56, 0x34, 0x12], 1), 0x1234_5678);
    assert_eq!(read_le_i32(&[0xFF, 0xFF, 0xFF, 0xFF], 0), -1);
    assert_eq!(read_le_i32(&[0, 0, 0, 0x80], 0), i32::MIN);
    assert_eq!(read_le_i32(&[0xFF, 0xFF, 0xFF, 0x7F], 0), i32::MAX);
    assert_eq!(read_le_i32(&[0xFE, 0xFF, 0xFF, 0xFF], 0), -2);
}

#[test]
fn little_endian_writer() {
    let mut out = vec![1u8];
    push_le_u32(&mut out, 0x1234_5678);
    assert_eq!(out, vec![1, 0x78, 0x56, 0x34, 0x12]);
    push_le_u32(&mut out, 70);
    assert_eq!(out, vec![1, 0x78, 0x56, 0x34, 0x12, 70, 0, 0, 0]);
}

#[test]
fn eight_bit_depth_implies_a_full_palette() {
    let h = header(8, 0);
    assert_eq!(h.palette_entries(), 256);
    assert_eq!(h.color_table_size(), 1024);
    assert_eq!(h.pixel_data_offset(), 40 + 1024);
}

#[test]
fn true_color_has_no_palette() {
    let h = header(24, 0);
    assert_eq!(h.palette_entries(), 0);
    assert_eq!(h.color_table_size(), 0);
    assert_eq!(h.pixel_data_offset(), u64::from(h.header_size));
    assert_eq!(header(32, 0).color_table_size(), 0);
    assert_eq!(header(16, 0).color_table_size(), 0);
}

#[test]
fn small_depths_imply_two_to_the_depth_entries() {
    assert_eq!(header(1, 0).palette_entries(), 2);
    assert_eq!(header(4, 0).palette_entries(), 16);
    assert_eq!(header(4, 0).color_table_size(), 64);
    assert_eq!(header(0, 0).palette_entries(), 1);
}

#[test]
fn stated_palette_count_wins() {
    assert_eq!(header(8, 16).palette_entries(), 16);
    assert_eq!(header(8, 16).color_table_size(), 64);
    assert_eq!(header(24, 3).color_table_size(), 12);
    assert_eq!(header(24, u32::MAX).color_table_size(), 4 * u64::from(u32::MAX));
    assert_eq!(header(24, u32::MAX).pixel_data_offset(), 40 + 4 * u64::from(u32::MAX));
}

#[test]
fn container_is_file_header_then_block() {
    let mut dib = header_bytes(40, 2, 2, 24, 0);
    dib.extend_from_slice(&[0u8; 16]);
    let file = reconstruct(&dib).unwrap();
    assert_eq!(file.len(), 14 + dib.len());
    assert_eq!(&file[0..2], b"BM");
    assert_eq!(&file[2..6], &70u32.to_le_bytes());
    assert_eq!(&file[6..10], &[0, 0, 0, 0]);
    assert_eq!(&file[10..14], &54u32.to_le_bytes());
    assert_eq!(&file[14..], &dib[..]);
}

#[test]
fn container_offset_counts_the_palette() {
    let mut dib = header_bytes(40, 1, 1, 8, 0);
    dib.extend_from_slice(&[0u8; 1024]);
    dib.extend_from_slice(&[0, 0, 0, 0]);
    let file = reconstruct(&dib).unwrap();
    assert_eq!(&file[2..6], &(14u32 + 40 + 1024 + 4).to_le_bytes());
    assert_eq!(&file[10..14], &(14u32 + 40 + 1024).to_le_bytes());
}

#[test]
fn reconstructing_twice_gives_the_same_bytes() {
    let mut dib = header_bytes(40, 2, 2, 24, 0);
    dib.extend_from_slice(&[1, 2, 3, 4, 5, 6, 0, 0, 7, 8, 9, 10, 11, 12, 0, 0]);
    let first = reconstruct(&dib);
    let second = reconstruct(&dib.clone());
    assert!(first.is_some());
    assert_eq!(first, second);
}

#[test]
fn short_block_is_rejected() {
    assert_eq!(reconstruct(&[]), None);
    assert_eq!(reconstruct(&[40, 0, 0, 0]), None);
    let bytes = header_bytes(40, 2, 2, 24, 0);
    assert_eq!(reconstruct(&bytes[..39]), None);
}

#[test]
fn block_without_pixels_is_rejected() {
    let bare = header_bytes(40, 2, 2, 24, 0);
    assert_eq!(reconstruct(&bare), None);
    let mut one_more = bare.clone();
    one_more.push(0);
    assert!(reconstruct(&one_more).is_some());

    let mut indexed = header_bytes(40, 1, 1, 8, 0);
    indexed.extend_from_slice(&[0u8; 1024]);
    assert_eq!(reconstruct(&indexed), None);

    let mut huge_palette = header_bytes(40, 1, 1, 24, u32::MAX);
    huge_palette.extend_from_slice(&[0u8; 64]);
    assert_eq!(reconstruct(&huge_palette), None);

    let mut long_header = header_bytes(u32::MAX, 1, 1, 24, 1);
    long_header.extend_from_slice(&[0u8; 64]);
    assert_eq!(reconstruct(&long_header), None);
}

#[test]
fn file_header_is_fourteen_bytes() {
    assert_eq!(
        build_file_header(70, 54),
        vec![0x42, 0x4D, 70, 0, 0, 0, 0, 0, 0, 0, 54, 0, 0, 0]
    );
    assert_eq!(
        build_file_header(0x0102_0304, u32::MAX),
        vec![0x42, 0x4D, 4, 3, 2, 1, 0, 0, 0, 0, 0xFF, 0xFF, 0xFF, 0xFF]
    );
}

#[test]
fn longest_block_leaves_room_for_the_file_header() {
    assert_eq!(MAX_BLOCK_LEN + 14, u64::from(u32::MAX));
}

#[test]
fn block_too_long_for_the_size_field_is_rejected() {
    let longest = usize::try_from(MAX_BLOCK_LEN).unwrap();
    let h = header(24, 0);
    assert_eq!(h.file_fields(longest), Some((u32::MAX, 54)));
    assert_eq!(h.file_fields(longest + 1), None);
    assert_eq!(h.file_fields(usize::MAX), None);
}

#[test]
fn file_fields_are_fourteen_more_than_in_the_block() {
    let h = header(24, 0);
    assert_eq!(h.file_fields(40), None);
    assert_eq!(h.file_fields(41), Some((55, 54)));
    assert_eq!(h.file_fields(56), Some((70, 54)));
    let indexed = header(8, 0);
    assert_eq!(indexed.file_fields(1064), None);
    assert_eq!(indexed.file_fields(1065), Some((1079, 1078)));
    assert_eq!(header(24, u32::MAX).file_fields(1 << 20), None);
}
