//! Rebuilding a standalone bitmap file from a bare device-independent bitmap.
//!
//! A bitmap block as the clipboard hands it out starts with a 40-byte header,
//! goes on with an optional colour table and ends with the pixel rows. It lacks
//! the 14-byte file header that says how long the file is and where the pixels
//! start; this module computes both numbers and puts that header in front.

use vstd::prelude::*;
use vstd::arithmetic::power2::{lemma2_to64, lemma_pow2_strictly_increases, pow2};
use vstd::bits::lemma_u32_shl_is_mul;

verus! {

/// Length of the fixed part of a bitmap block's header.
pub const DIB_HEADER_LEN: usize = 40;

/// Length of the file header that precedes the block in a bitmap file.
pub const FILE_HEADER_LEN: usize = 14;

/// Length of the longest block that a bitmap file can wrap: the file's own
/// length, 14 bytes more, has to fit in 32 bits.
pub const MAX_BLOCK_LEN: u64 = 0xFFFF_FFF1;

/// Length of one colour table entry.
pub const PALETTE_ENTRY_LEN: u64 = 4;

/// The fixed header of a bitmap block, field by field in wire order.
#[derive(Clone, Copy, Debug, PartialEq, Eq, Structural)]
pub struct DibHeader {
    pub header_size: u32,
    pub width: i32,
    pub height: i32,
    pub planes: u16,
    pub bit_count: u16,
    pub compression: u32,
    pub image_size: u32,
    pub x_pels_per_meter: i32,
    pub y_pels_per_meter: i32,
    pub colors_used: u32,
    pub colors_important: u32,
}

/// The number held by the two bytes of `data` that start at `at`, least
/// significant byte first.
pub open spec fn le_u16(data: Seq<u8>, at: int) -> int {
    data[at] as int + data[at + 1] as int * 0x100
}

/// The number held by the four bytes of `data` that start at `at`, least
/// significant byte first.
pub open spec fn le_u32(data: Seq<u8>, at: int) -> int {
    data[at] as int + data[at + 1] as int * 0x100 + data[at + 2] as int * 0x1_0000 + data[at
        + 3] as int * 0x100_0000
}

/// The four little-endian bytes at `at` read as a two's complement number.
pub open spec fn le_i32(data: Seq<u8>, at: int) -> int {
    let raw = le_u32(data, at);
    if raw >= 0x8000_0000 {
        raw - 0x1_0000_0000
    } else {
        raw
    }
}

/// The four bytes that hold `value`, least significant byte first.
#[verifier::opaque]
pub open spec fn le_bytes_u32(value: int) -> Seq<u8> {
    seq![
        (value % 0x100) as u8,
        (value / 0x100 % 0x100) as u8,
        (value / 0x1_0000 % 0x100) as u8,
        (value / 0x100_0000 % 0x100) as u8,
    ]
}

/// The header that the first 40 bytes of `dib` spell out; none for a shorter
/// buffer.
pub open spec fn parse_header(dib: Seq<u8>) -> Option<DibHeader> {
    if dib.len() < 40 {
        None
    } else {
        Some(
            DibHeader {
                header_size: le_u32(dib, 0) as u32,
                width: le_i32(dib, 4) as i32,
                height: le_i32(dib, 8) as i32,
                planes: le_u16(dib, 12) as u16,
                bit_count: le_u16(dib, 14) as u16,
                compression: le_u32(dib, 16) as u32,
                image_size: le_u32(dib, 20) as u32,
                x_pels_per_meter: le_i32(dib, 24) as i32,
                y_pels_per_meter: le_i32(dib, 28) as i32,
                colors_used: le_u32(dib, 32) as u32,
                colors_important: le_u32(dib, 36) as u32,
            },
        )
    }
}

/// Whether a file that wraps a block of `len` bytes can state its own length
/// in the four bytes that the file header has for it.
pub open spec fn fits_file_size(len: nat) -> bool {
    14 + len <= u32::MAX
}

impl DibHeader {
    /// Number of colour table entries that follow the header: the stated
    /// count where the header states one, a full table of `2^bit_count`
    /// entries for depths up to 8 bits, and none for deeper pixels.
    pub open spec fn spec_palette_entries(self) -> int {
        if self.colors_used != 0 {
            self.colors_used as int
        } else if self.bit_count <= 8 {
            pow2(self.bit_count as nat) as int
        } else {
            0
        }
    }

    /// Length in bytes of the colour table.
    pub open spec fn spec_color_table_size(self) -> int {
        4 * self.spec_palette_entries()
    }

    /// Offset of the first pixel byte from the start of the block.
    pub open spec fn spec_pixel_data_offset(self) -> int {
        self.header_size as int + self.spec_color_table_size()
    }

    /// Computes the number of colour table entries.
    pub fn palette_entries(&self) -> (entries: u32)
        ensures
            entries == self.spec_palette_entries(),
    {
        if self.colors_used != 0 {
            self.colors_used
        } else if self.bit_count <= 8 {
            let shift: u32 = self.bit_count as u32;
            proof {
                lemma2_to64();
                if shift < 8 {
                    lemma_pow2_strictly_increases(shift as nat, 8);
                }
                lemma_u32_shl_is_mul(1u32, shift);
            }
            1u32 << shift
        } else {
            0
        }
    }

    /// Computes the colour table's length in bytes.
    pub fn color_table_size(&self) -> (size: u64)
        ensures
            size == self.spec_color_table_size(),
            size <= 4 * u32::MAX,
    {
        let entries: u64 = self.palette_entries() as u64;
        entries * PALETTE_ENTRY_LEN
    }

    /// Computes where the pixel data starts within the block.
    pub fn pixel_data_offset(&self) -> (offset: u64)
        ensures
            offset == self.spec_pixel_data_offset(),
    {
        self.header_size as u64 + self.color_table_size()
    }

    /// The two numbers that the file header states for a block of `len`
    /// bytes that opens with this header: the file's length and the offset of
    /// the pixel data within the file, each 14 more than within the block.
    /// There are none where the block ends at or before its pixel offset, and
    /// none where the file's length would not fit in 32 bits.
    pub open spec fn spec_file_fields(self, len: nat) -> Option<(u32, u32)> {
        if len <= self.spec_pixel_data_offset() || !fits_file_size(len) {
            None
        } else {
            Some(((14 + len) as u32, (14 + self.spec_pixel_data_offset()) as u32))
        }
    }

    /// Computes the file's length and the pixel offset within the file for
    /// a block of `len` bytes, or tells that the block is rejected.
    pub fn file_fields(&self, len: usize) -> (fields: Option<(u32, u32)>)
        ensures
            fields == self.spec_file_fields(len as nat),
            fields matches Some((file_size, pixel_offset)) ==> file_size == 14 + len
                && pixel_offset == 14 + self.spec_pixel_data_offset() && pixel_offset < file_size,
    {
        let offset: u64 = self.pixel_data_offset();
        if len as u64 <= offset {
            return None;
        }
        if len as u64 > MAX_BLOCK_LEN {
            return None;
        }
        Some((FILE_HEADER_LEN as u32 + len as u32, FILE_HEADER_LEN as u32 + offset as u32))
    }
}

/// Reads two bytes at `at` as one little-endian number.
pub fn read_le_u16(data: &[u8], at: usize) -> (value: u16)
    requires
        at + 2 <= data@.len(),
    ensures
        value == le_u16(data@, at as int),
{
    let b0: u16 = data[at] as u16;
    let b1: u16 = data[at + 1] as u16;
    b0 + b1 * 0x100
}

/// Reads four bytes at `at` as one little-endian number.
pub fn read_le_u32(data: &[u8], at: usize) -> (value: u32)
    requires
        at + 4 <= data@.len(),
    ensures
        value == le_u32(data@, at as int),
{
    let b0: u32 = data[at] as u32;
    let b1: u32 = data[at + 1] as u32;
    let b2: u32 = data[at + 2] as u32;
    let b3: u32 = data[at + 3] as u32;
    b0 + b1 * 0x100 + b2 * 0x1_0000 + b3 * 0x100_0000
}

/// Reads four bytes at `at` as one little-endian two's complement number.
pub fn read_le_i32(data: &[u8], at: usize) -> (value: i32)
    requires
        at + 4 <= data@.len(),
    ensures
        value == le_i32(data@, at as int),
{
    let raw: u32 = read_le_u32(data, at);
    if raw >= 0x8000_0000 {
        let low: i32 = (raw - 0x8000_0000) as i32;
        low + i32::MIN
    } else {
        raw as i32
    }
}

/// Decodes the fixed header at the start of a bitmap block, each field from
/// its own offset and in little-endian order.
pub fn read_header(dib: &[u8]) -> (header: Option<DibHeader>)
    ensures
        header == parse_header(dib@),
        header.is_some() <==> dib@.len() >= 40,
{
    if dib.len() < DIB_HEADER_LEN {
        return None;
    }
    Some(
        DibHeader {
            header_size: read_le_u32(dib, 0),
            width: read_le_i32(dib, 4),
            height: read_le_i32(dib, 8),
            planes: read_le_u16(dib, 12),
            bit_count: read_le_u16(dib, 14),
            compression: read_le_u32(dib, 16),
            image_size: read_le_u32(dib, 20),
            x_pels_per_meter: read_le_i32(dib, 24),
            y_pels_per_meter: read_le_i32(dib, 28),
            colors_used: read_le_u32(dib, 32),
            colors_important: read_le_u32(dib, 36),
        },
    )
}

/// The 14 bytes of a bitmap file header: the magic `BM`, the file's length,
/// four reserved zero bytes and the offset of the pixel data within the file.
pub open spec fn file_header(file_size: int, pixel_offset: int) -> Seq<u8> {
    seq![0x42u8, 0x4Du8] + le_bytes_u32(file_size) + seq![0u8, 0u8, 0u8, 0u8] + le_bytes_u32(
        pixel_offset,
    )
}

/// The bitmap file that wraps `dib`: nothing where the block is shorter than
/// its fixed header, holds no byte behind the colour table, or is too long
/// for the file header's size field; else the file header followed by the
/// block as it is.
pub open spec fn container_of(dib: Seq<u8>) -> Option<Seq<u8>> {
    match parse_header(dib) {
        None => None,
        Some(header) => match header.spec_file_fields(dib.len()) {
            None => None,
            Some((file_size, pixel_offset)) => Some(
                file_header(file_size as int, pixel_offset as int) + dib,
            ),
        },
    }
}

/// Appends `value` as four little-endian bytes.
pub fn push_le_u32(out: &mut Vec<u8>, value: u32)
    ensures
        final(out)@ == old(out)@ + le_bytes_u32(value as int),
{
    proof {
        reveal(le_bytes_u32);
    }
    out.push((value % 0x100) as u8);
    out.push((value / 0x100 % 0x100) as u8);
    out.push((value / 0x1_0000 % 0x100) as u8);
    out.push((value / 0x100_0000 % 0x100) as u8);
}

/// Builds the 14 bytes of a bitmap file header.
pub fn build_file_header(file_size: u32, pixel_offset: u32) -> (bytes: Vec<u8>)
    ensures
        bytes@ == file_header(file_size as int, pixel_offset as int),
{
    let mut bytes: Vec<u8> = Vec::with_capacity(FILE_HEADER_LEN);
    bytes.push(0x42);
    bytes.push(0x4D);
    push_le_u32(&mut bytes, file_size);
    bytes.push(0);
    bytes.push(0);
    bytes.push(0);
    bytes.push(0);
    push_le_u32(&mut bytes, pixel_offset);
    assert(bytes@ =~= file_header(file_size as int, pixel_offset as int));
    bytes
}

/// Puts a file header with the given numbers in front of a block.
pub fn prepend_file_header(file_size: u32, pixel_offset: u32, dib: &[u8]) -> (bytes: Vec<u8>)
    ensures
        bytes@ == file_header(file_size as int, pixel_offset as int) + dib@,
{
    let mut bytes: Vec<u8> = build_file_header(file_size, pixel_offset);
    let ghost head = bytes@;
    bytes.reserve(dib.len());
    bytes.extend_from_slice(dib);
    assert(bytes@ =~= head + dib@);
    bytes
}

/// Wraps a bare bitmap block into a complete bitmap file.
///
/// The block is rejected where it is shorter than the fixed header, where no
/// pixel byte lies behind the header and the colour table, and where it is so
/// long that the file's length would not fit the header's 32-bit size field.
/// Otherwise the result is the file header followed by the block, unchanged.
pub fn reconstruct(dib: &[u8]) -> (container: Option<Vec<u8>>)
    ensures
        container.is_some() == container_of(dib@).is_some(),
        container matches Some(bytes) ==> bytes@ == container_of(dib@).unwrap(),
{
    let header = match read_header(dib) {
        None => {
            return None;
        },
        Some(header) => header,
    };
    let (file_size, pixel_offset) = match header.file_fields(dib.len()) {
        None => {
            return None;
        },
        Some(fields) => fields,
    };
    Some(prepend_file_header(file_size, pixel_offset, dib))
}

/// The four bytes that hold a number, one by one: each is the remainder of
/// the number shifted down by a whole number of bytes.
pub proof fn lemma_le_bytes_u32_bytes(value: int)
    requires
        0 <= value <= u32::MAX,
    ensures
        le_bytes_u32(value).len() == 4,
        le_bytes_u32(value)[0] == value % 0x100,
        le_bytes_u32(value)[1] == value / 0x100 % 0x100,
        le_bytes_u32(value)[2] == value / 0x1_0000 % 0x100,
        le_bytes_u32(value)[3] == value / 0x100_0000,
{
    reveal(le_bytes_u32);
}

/// Four little-endian bytes read back give the number they were written from.
pub proof fn lemma_le_u32_round_trip(value: int)
    requires
        0 <= value <= u32::MAX,
    ensures
        le_bytes_u32(value).len() == 4,
        le_u32(le_bytes_u32(value), 0) == value,
{
    reveal(le_bytes_u32);
}

/// A block of 8-bit pixels whose header states no palette count carries a
/// full table: 256 entries, 1024 bytes.
pub proof fn lemma_eight_bit_palette(header: DibHeader)
    requires
        header.bit_count == 8,
        header.colors_used == 0,
    ensures
        header.spec_palette_entries() == 256,
        header.spec_color_table_size() == 1024,
        header.spec_pixel_data_offset() == header.header_size + 1024,
{
    lemma2_to64();
}

/// A block of pixels deeper than 8 bits whose header states no palette count
/// carries no colour table: its pixels start right behind the header. This
/// holds of 24-bit pixels in particular.
pub proof fn lemma_true_color_has_no_palette(header: DibHeader)
    requires
        header.bit_count > 8,
        header.colors_used == 0,
    ensures
        header.spec_palette_entries() == 0,
        header.spec_color_table_size() == 0,
        header.spec_pixel_data_offset() == header.header_size,
{
}

/// The pixel depths that the bitmap format defines.
pub open spec fn is_standard_depth(bit_count: u16) -> bool {
    bit_count == 1 || bit_count == 4 || bit_count == 8 || bit_count == 16 || bit_count == 24
        || bit_count == 32
}

/// At the depths that the format defines, a header that states no palette
/// count implies 2, 16 or 256 entries for indexed pixels and none for the
/// rest.
pub proof fn lemma_palette_at_standard_depths(header: DibHeader)
    requires
        is_standard_depth(header.bit_count),
        header.colors_used == 0,
    ensures
        header.spec_palette_entries() == if header.bit_count == 1 {
            2int
        } else if header.bit_count == 4 {
            16int
        } else if header.bit_count == 8 {
            256int
        } else {
            0int
        },
{
    lemma2_to64();
}

/// A palette count that the header states is taken as it is, whatever the
/// depth of the pixels.
pub proof fn lemma_stated_palette_wins(header: DibHeader)
    requires
        header.colors_used != 0,
    ensures
        header.spec_palette_entries() == header.colors_used,
        header.spec_color_table_size() == 4 * header.colors_used,
{
}

/// Rebuilding is a function of the bytes alone: two blocks of equal length
/// that agree byte for byte give the same file, or are both rejected.
pub proof fn lemma_reconstruct_deterministic(first: Seq<u8>, second: Seq<u8>)
    requires
        first.len() == second.len(),
        forall|i: int| 0 <= i < first.len() ==> first[i] == second[i],
    ensures
        container_of(first) == container_of(second),
{
    assert(first =~= second);
}

/// A block is rejected exactly where it is shorter than its fixed header,
/// ends at or before the offset at which its pixels would start, or is longer
/// than a bitmap file can wrap.
pub proof fn lemma_rejected_blocks(dib: Seq<u8>)
    ensures
        container_of(dib).is_none() <==> dib.len() < 40 || dib.len() <= parse_header(
            dib,
        ).unwrap().spec_pixel_data_offset() || dib.len() > MAX_BLOCK_LEN,
{
}

/// A block that is accepted holds its whole header and colour table and at
/// least one byte of pixel data behind them.
pub proof fn lemma_accepted_block_has_pixels(dib: Seq<u8>)
    requires
        container_of(dib).is_some(),
    ensures
        dib.len() >= 40,
        parse_header(dib).unwrap().header_size + parse_header(dib).unwrap().spec_color_table_size()
            < dib.len(),
        parse_header(dib).unwrap().header_size < dib.len(),
{
    let header = parse_header(dib).unwrap();
    if header.colors_used == 0 && header.bit_count <= 8 {
        assert(header.spec_palette_entries() >= 0);
    }
}

/// Layout of a rebuilt file: 14 bytes longer than the block, opening with
/// `BM`, its size field equal to its own length, its reserved field zero, its
/// offset field pointing 14 bytes behind the block's own pixel offset, and the
/// block following the file header byte for byte.
pub proof fn lemma_container_layout(dib: Seq<u8>)
    requires
        container_of(dib).is_some(),
    ensures
        ({
            let file = container_of(dib).unwrap();
            let header = parse_header(dib).unwrap();
            &&& file.len() == 14 + dib.len()
            &&& file[0] == 0x42
            &&& file[1] == 0x4D
            &&& le_u32(file, 2) == file.len()
            &&& le_u32(file, 6) == 0
            &&& le_u32(file, 10) == 14 + header.spec_pixel_data_offset()
            &&& file.subrange(14, file.len() as int) == dib
        }),
{
    let file = container_of(dib).unwrap();
    let header = parse_header(dib).unwrap();
    let size = 14 + dib.len() as int;
    let offset = 14 + header.spec_pixel_data_offset();
    lemma_le_u32_round_trip(size);
    lemma_le_u32_round_trip(offset);
    let head = file_header(size, offset);
    assert(head.len() == 14);
    assert(file =~= head + dib);
    assert(forall|i: int| 0 <= i < 14 ==> file[i] == head[i]);
    assert(le_u32(file, 2) == le_u32(le_bytes_u32(size), 0));
    assert(le_u32(file, 10) == le_u32(le_bytes_u32(offset), 0));
    assert(file.subrange(14, file.len() as int) =~= dib);
}

} // verus!
