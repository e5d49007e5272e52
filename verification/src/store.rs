//! Planning an entry of the content-addressed image store.
//!
//! The store is a flat directory of files named by the hash of their bytes.
//! This module decides whether a PNG stream is worth storing, under which
//! name, and whether a write is owed; touching the directory is left to the
//! caller.

use vstd::prelude::*;
use vstd::string::StringExecFns;
use vstd::std_specs::hash::DefaultHasherAdditionalSpecFns;
use std::collections::hash_map::DefaultHasher;
use std::hash::{Hash, Hasher};
use crate::png::{get_png_dimensions, png_dimensions};
use crate::transcode::{has_pixels, spec_has_pixels};

verus! {

/// The two directories, one inside the other, that lead from the
/// application's data directory to the store.
pub const STORE_PARENT_DIR: &'static str = "tauri-plugin-clipboard-x";

pub const STORE_DIR: &'static str = "images";

/// The writes by which `<[u8] as Hash>::hash` feeds `data` to a hasher, on
/// the target that the library is built for.
pub uninterp spec fn slice_hash_writes(data: Seq<u8>) -> Seq<Seq<u8>>;

/// Calls `<[u8] as Hash>::hash`, which feeds the slice to the hasher through
/// writes that depend on the slice alone; the hasher's record of writes grows
/// by exactly those.
#[verifier::external_body]
fn feed_slice(data: &[u8], state: &mut DefaultHasher)
    ensures
        final(state)@ == old(state)@ + slice_hash_writes(data@),
{
    data.hash(state);
}

/// The content hash of a byte sequence: what a fresh default hasher returns
/// once the sequence was fed to it as a slice.
pub open spec fn content_hash(data: Seq<u8>) -> u64 {
    DefaultHasher::spec_finish(Seq::<Seq<u8>>::empty() + slice_hash_writes(data))
}

/// Hashes the whole of `data` with a fresh default hasher.
pub fn hash_bytes(data: &[u8]) -> (hash: u64)
    ensures
        hash == content_hash(data@),
{
    let mut hasher = DefaultHasher::new();
    feed_slice(data, &mut hasher);
    hasher.finish()
}

/// The character that writes the digit `d`.
pub open spec fn digit_char(d: int) -> char {
    if d == 0 {
        '0'
    } else if d == 1 {
        '1'
    } else if d == 2 {
        '2'
    } else if d == 3 {
        '3'
    } else if d == 4 {
        '4'
    } else if d == 5 {
        '5'
    } else if d == 6 {
        '6'
    } else if d == 7 {
        '7'
    } else if d == 8 {
        '8'
    } else {
        '9'
    }
}

/// The digit that `c` writes, or 10 where it writes none.
pub open spec fn digit_value(c: char) -> int {
    if c == '0' {
        0
    } else if c == '1' {
        1
    } else if c == '2' {
        2
    } else if c == '3' {
        3
    } else if c == '4' {
        4
    } else if c == '5' {
        5
    } else if c == '6' {
        6
    } else if c == '7' {
        7
    } else if c == '8' {
        8
    } else if c == '9' {
        9
    } else {
        10
    }
}

/// `n` written in decimal, without leading zeros.
pub open spec fn decimal(n: nat) -> Seq<char>
    decreases n,
{
    if n < 10 {
        seq![digit_char(n as int)]
    } else {
        decimal(n / 10).push(digit_char((n % 10) as int))
    }
}

/// The number that a sequence of digits writes, read from the left.
pub open spec fn decimal_value(text: Seq<char>) -> nat
    decreases text.len(),
{
    if text.len() == 0 {
        0
    } else {
        (decimal_value(text.drop_last()) * 10 + digit_value(text.last())) as nat
    }
}

/// The extension of every stored file.
pub open spec fn png_extension() -> Seq<char> {
    ".png"@
}

/// Name of the file that holds content with the given hash.
pub open spec fn file_name_of(hash: u64) -> Seq<char> {
    decimal(hash as nat) + png_extension()
}

/// The one-character text for a digit.
fn digit_text(d: u8) -> (text: &'static str)
    requires
        d < 10,
    ensures
        text@ == seq![digit_char(d as int)],
{
    proof {
        reveal_strlit("0");
        reveal_strlit("1");
        reveal_strlit("2");
        reveal_strlit("3");
        reveal_strlit("4");
        reveal_strlit("5");
        reveal_strlit("6");
        reveal_strlit("7");
        reveal_strlit("8");
        reveal_strlit("9");
    }
    let text = if d == 0 {
        "0"
    } else if d == 1 {
        "1"
    } else if d == 2 {
        "2"
    } else if d == 3 {
        "3"
    } else if d == 4 {
        "4"
    } else if d == 5 {
        "5"
    } else if d == 6 {
        "6"
    } else if d == 7 {
        "7"
    } else if d == 8 {
        "8"
    } else {
        "9"
    };
    assert(text@ =~= seq![digit_char(d as int)]);
    text
}

/// Appends `value` in decimal to `text`.
pub fn push_decimal(text: &mut String, value: u64)
    ensures
        final(text)@ == old(text)@ + decimal(value as nat),
    decreases value,
{
    if value >= 10 {
        push_decimal(text, value / 10);
    }
    text.append(digit_text((value % 10) as u8));
    proof {
        if value >= 10 {
            assert(text@ =~= old(text)@ + decimal((value / 10) as nat).push(
                digit_char((value % 10) as int),
            ));
        } else {
            assert(text@ =~= old(text)@ + seq![digit_char(value as int)]);
        }
    }
}

/// Builds the name of the file for content with the given hash: the hash in
/// decimal, then `.png`.
pub fn file_name(hash: u64) -> (name: String)
    ensures
        name@ == file_name_of(hash),
{
    let mut name = String::new();
    push_decimal(&mut name, hash);
    name.append(".png");
    assert(name@ =~= file_name_of(hash));
    name
}

/// Size of the image that a PNG stream is stored with: the size its prefix
/// declares, provided the stream is not empty and neither number is zero.
pub open spec fn storable(png: Seq<u8>) -> Option<(u32, u32)> {
    match png_dimensions(png) {
        Some((width, height)) => if png.len() != 0 && spec_has_pixels(width, height) {
            Some((width, height))
        } else {
            None
        },
        None => None,
    }
}

/// Where and as what a PNG stream is to be stored.
#[derive(Clone, Debug)]
pub struct StorePlan {
    /// Name of the file within the store's directory.
    pub file_name: String,
    pub width: u32,
    pub height: u32,
}

/// The record of a stored image.
#[derive(Clone, Debug)]
pub struct ReadImageResult {
    /// Path of the file that holds the image.
    pub path: String,
    /// Length of that file on disk.
    pub size: u64,
    pub width: u32,
    pub height: u32,
}

/// Decides whether and under which name a PNG stream is stored.
///
/// Nothing is planned for an empty stream, for one that does not open with a
/// PNG prefix, and for one that declares a width or height of zero. Otherwise
/// the plan carries the declared size and the name made from the hash of all
/// the bytes.
pub fn plan_store(png: &[u8]) -> (plan: Option<StorePlan>)
    ensures
        plan.is_some() == storable(png@).is_some(),
        plan matches Some(p) ==> storable(png@) == Some((p.width, p.height)) && p.file_name@
            == file_name_of(content_hash(png@)),
{
    if png.len() == 0 {
        return None;
    }
    let (width, height) = match get_png_dimensions(png) {
        Some(size) => size,
        None => (0, 0),
    };
    if !has_pixels(width, height) {
        return None;
    }
    Some(StorePlan { file_name: file_name(hash_bytes(png)), width, height })
}

/// Tells whether the file has to be written: only where the store does not
/// hold a file of that name yet. A file that is there is taken to hold the
/// same content and is left alone.
pub fn write_needed(already_present: bool) -> (needed: bool)
    ensures
        needed == !already_present,
{
    !already_present
}

impl StorePlan {
    /// Completes the plan into the record of the stored image, with the path
    /// the file was stored at and the length the file system reports for it.
    pub fn into_record(self, path: String, size: u64) -> (record: ReadImageResult)
        ensures
            record.path@ == path@,
            record.size == size,
            record.width == self.width,
            record.height == self.height,
    {
        ReadImageResult { path, size, width: self.width, height: self.height }
    }
}

/// Reading the decimal writing of a number back gives the number.
pub proof fn lemma_decimal_value(n: nat)
    ensures
        decimal_value(decimal(n)) == n,
    decreases n,
{
    let text = decimal(n);
    let last = (n % 10) as int;
    assert(digit_value(digit_char(last)) == last);
    assert(text.len() > 0);
    assert(decimal_value(text) == decimal_value(text.drop_last()) * 10 + digit_value(text.last()));
    if n < 10 {
        assert(text.drop_last() =~= Seq::<char>::empty());
        assert(decimal_value(Seq::<char>::empty()) == 0);
        assert(text.last() == digit_char(last));
    } else {
        lemma_decimal_value(n / 10);
        assert(text.drop_last() =~= decimal(n / 10));
        assert(text.last() == digit_char(last));
    }
}

/// Different hashes never share a file name.
pub proof fn lemma_file_names_distinct(first: u64, second: u64)
    requires
        first != second,
    ensures
        file_name_of(first) != file_name_of(second),
{
    let a = decimal(first as nat);
    let b = decimal(second as nat);
    let ext = png_extension();
    if a + ext == b + ext {
        assert((a + ext).len() == a.len() + ext.len());
        assert((b + ext).len() == b.len() + ext.len());
        assert((a + ext).subrange(0, a.len() as int) =~= a);
        assert((b + ext).subrange(0, b.len() as int) =~= b);
        lemma_decimal_value(first as nat);
        lemma_decimal_value(second as nat);
    }
}

/// The names in the store's directory once `png` was stored into a directory
/// that held the names in `catalog`: one more name where the stream is worth
/// storing, the same names where it is not.
pub open spec fn catalog_after(catalog: Set<Seq<char>>, png: Seq<u8>) -> Set<Seq<char>> {
    if storable(png).is_some() {
        catalog.insert(file_name_of(content_hash(png)))
    } else {
        catalog
    }
}

/// Whether storing `png` into a directory that holds the names in `catalog`
/// writes a file.
pub open spec fn store_writes(catalog: Set<Seq<char>>, png: Seq<u8>) -> bool {
    storable(png).is_some() && !catalog.contains(file_name_of(content_hash(png)))
}

/// The names in the directory once `png` was stored `times` times in a row.
pub open spec fn catalog_after_repeated(
    catalog: Set<Seq<char>>,
    png: Seq<u8>,
    times: nat,
) -> Set<Seq<char>>
    decreases times,
{
    if times == 0 {
        catalog
    } else {
        catalog_after(catalog_after_repeated(catalog, png, (times - 1) as nat), png)
    }
}

/// Storing the same bytes a second time writes nothing and leaves the
/// directory as the first time left it.
pub proof fn lemma_store_idempotent(catalog: Set<Seq<char>>, png: Seq<u8>)
    ensures
        !store_writes(catalog_after(catalog, png), png),
        catalog_after(catalog_after(catalog, png), png) == catalog_after(catalog, png),
{
    assert(catalog_after(catalog_after(catalog, png), png) =~= catalog_after(catalog, png));
}

/// However often the same bytes are stored, the directory holds what one
/// store left in it.
pub proof fn lemma_store_once_is_enough(catalog: Set<Seq<char>>, png: Seq<u8>, times: nat)
    requires
        times >= 1,
    ensures
        catalog_after_repeated(catalog, png, times) == catalog_after(catalog, png),
    decreases times,
{
    if times > 1 {
        lemma_store_once_is_enough(catalog, png, (times - 1) as nat);
        lemma_store_idempotent(catalog, png);
    } else {
        assert(catalog_after_repeated(catalog, png, 0) == catalog);
    }
}

/// Two streams worth storing whose hashes differ end up in two files of
/// different names, in whichever order they are stored; into a directory that
/// held neither, each of the two stores writes.
pub proof fn lemma_store_keeps_contents_apart(
    catalog: Set<Seq<char>>,
    first: Seq<u8>,
    second: Seq<u8>,
)
    requires
        storable(first).is_some(),
        storable(second).is_some(),
        content_hash(first) != content_hash(second),
    ensures
        file_name_of(content_hash(first)) != file_name_of(content_hash(second)),
        catalog_after(catalog_after(catalog, first), second).contains(
            file_name_of(content_hash(first)),
        ),
        catalog_after(catalog_after(catalog, first), second).contains(
            file_name_of(content_hash(second)),
        ),
        catalog_after(catalog_after(catalog, first), second) == catalog_after(
            catalog_after(catalog, second),
            first,
        ),
        store_writes(catalog, first) && !catalog.contains(file_name_of(content_hash(second)))
            ==> store_writes(catalog_after(catalog, first), second),
{
    lemma_file_names_distinct(content_hash(first), content_hash(second));
    assert(catalog_after(catalog_after(catalog, first), second) =~= catalog_after(
        catalog_after(catalog, second),
        first,
    ));
}

} // verus!
