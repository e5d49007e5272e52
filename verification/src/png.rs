//! Reading an image's size from the first bytes of a PNG stream.

use vstd::prelude::*;

verus! {

/// Length of the signature that opens every PNG stream.
pub const PNG_SIGNATURE_LEN: usize = 8;

/// Length of the prefix that holds the signature and the size fields of the
/// image header.
pub const PNG_PREFIX_LEN: usize = 24;

/// The eight bytes that open every PNG stream.
pub open spec fn png_signature() -> Seq<u8> {
    seq![137u8, 80u8, 78u8, 71u8, 13u8, 10u8, 26u8, 10u8]
}

/// Whether `data` starts with the PNG signature.
pub open spec fn has_png_signature(data: Seq<u8>) -> bool {
    data.len() >= 8 && data.subrange(0, 8) == png_signature()
}

/// The number held by the four bytes of `data` that start at `at`, most
/// significant byte first.
pub open spec fn be_u32(data: Seq<u8>, at: int) -> int {
    data[at] as int * 0x100_0000 + data[at + 1] as int * 0x1_0000 + data[at + 2] as int * 0x100
        + data[at + 3] as int
}

/// Width and height that a PNG prefix declares: the two big-endian fields at
/// offsets 16 and 20, present only behind a correct signature.
pub open spec fn png_dimensions(data: Seq<u8>) -> Option<(u32, u32)> {
    if data.len() >= 24 && has_png_signature(data) {
        Some((be_u32(data, 16) as u32, be_u32(data, 20) as u32))
    } else {
        None
    }
}

/// Behind a correct signature, a prefix of at least 24 bytes declares
/// exactly the numbers that its bytes 16 to 23 hold: nothing is lost in
/// reading them, since four bytes always fit in 32 bits.
pub proof fn lemma_declared_size_is_read_exactly(data: Seq<u8>)
    requires
        data.len() >= 24,
        has_png_signature(data),
    ensures
        png_dimensions(data).is_some(),
        png_dimensions(data).unwrap().0 as int == be_u32(data, 16),
        png_dimensions(data).unwrap().1 as int == be_u32(data, 20),
        0 <= be_u32(data, 16) <= u32::MAX,
        0 <= be_u32(data, 20) <= u32::MAX,
{
}

/// Bytes that differ from the signature in any of its eight places declare
/// no size, however many bytes there are.
pub proof fn lemma_wrong_signature_declares_nothing(data: Seq<u8>, place: int)
    requires
        0 <= place < 8,
        place < data.len() ==> data[place] != png_signature()[place],
    ensures
        !has_png_signature(data),
        png_dimensions(data).is_none(),
{
    if data.len() >= 8 {
        assert(data.subrange(0, 8)[place] == data[place]);
    }
}

/// Tells whether the first eight bytes of `data` are the PNG signature.
pub fn starts_with_png_signature(data: &[u8]) -> (found: bool)
    ensures
        found == has_png_signature(data@),
{
    if data.len() < PNG_SIGNATURE_LEN {
        return false;
    }
    let found = data[0] == 137 && data[1] == 80 && data[2] == 78 && data[3] == 71 && data[4] == 13
        && data[5] == 10 && data[6] == 26 && data[7] == 10;
    proof {
        let head = data@.subrange(0, 8);
        let sig = png_signature();
        if found {
            assert(head =~= sig);
        } else {
            assert(head[0] == data@[0] && head[1] == data@[1] && head[2] == data@[2] && head[3]
                == data@[3] && head[4] == data@[4] && head[5] == data@[5] && head[6] == data@[6]
                && head[7] == data@[7]);
            assert(sig[0] == 137 && sig[1] == 80 && sig[2] == 78 && sig[3] == 71 && sig[4] == 13
                && sig[5] == 10 && sig[6] == 26 && sig[7] == 10);
        }
    }
    found
}

/// Reads four bytes at `at` as one big-endian number.
pub fn read_be_u32(data: &[u8], at: usize) -> (value: u32)
    requires
        at + 4 <= data@.len(),
    ensures
        value == be_u32(data@, at as int),
{
    let b0: u32 = data[at] as u32;
    let b1: u32 = data[at + 1] as u32;
    let b2: u32 = data[at + 2] as u32;
    let b3: u32 = data[at + 3] as u32;
    b0 * 0x100_0000 + b1 * 0x1_0000 + b2 * 0x100 + b3
}

/// Reads width and height from a PNG prefix without decoding any pixel.
///
/// Nothing is returned for fewer than 24 bytes or for bytes that do not open
/// with the PNG signature; otherwise the two numbers are exactly the
/// big-endian fields at offsets 16 and 20.
pub fn get_png_dimensions(data: &[u8]) -> (dims: Option<(u32, u32)>)
    ensures
        dims == png_dimensions(data@),
        !has_png_signature(data@) ==> dims.is_none(),
        data@.len() >= 24 && has_png_signature(data@) ==> dims == Some(
            (be_u32(data@, 16) as u32, be_u32(data@, 20) as u32),
        ),
{
    if data.len() < PNG_PREFIX_LEN {
        return None;
    }
    if !starts_with_png_signature(data) {
        return None;
    }
    let width = read_be_u32(data, 16);
    let height = read_be_u32(data, 20);
    Some((width, height))
}

} // verus!
