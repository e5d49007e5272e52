//! Turning a bitmap file into a PNG stream with the `image` crate.
//!
//! Decoding and encoding are the crate's work and are taken on trust; what
//! is decided around them is verified: which failure is reported, and that an
//! image without pixels yields nothing. Only surfaces that the decoder made
//! reach the encoder, and only failures that the two codecs gave are put into
//! words: a [`Decoded`] value cannot be made in any other way.

use vstd::prelude::*;
use image::{DynamicImage, ImageError};
use crate::error::{ErrorKind, ReadError};

verus! {

/// `image::DynamicImage`, a pixel surface. Its content is not modelled:
/// values are only handed from the decoder to the encoder.
#[verifier::external_type_specification]
#[verifier::external_body]
pub struct ExDynamicImage(image::DynamicImage);

/// `image::ImageError`, the failure of a decoder or an encoder.
#[verifier::external_type_specification]
#[verifier::external_body]
pub struct ExImageError(image::ImageError);

/// What `image::load_from_memory_with_format` returns for `data` read as a
/// bitmap file: the decoded surface, or the decoder's failure.
pub uninterp spec fn bmp_decoding(data: Seq<u8>) -> Result<DynamicImage, ImageError>;

/// What `DynamicImage::width` returns for `image`.
pub uninterp spec fn image_width(image: DynamicImage) -> u32;

/// What `DynamicImage::height` returns for `image`.
pub uninterp spec fn image_height(image: DynamicImage) -> u32;

/// What `DynamicImage::write_to` writes for `image` in the PNG format: the
/// whole stream, or the encoder's failure.
pub uninterp spec fn png_encoding(image: DynamicImage) -> Result<Seq<u8>, ImageError>;

/// The text that `ImageError`'s `Display` impl gives for `error`. It is
/// spoken of only for failures of the two codecs, see [`codec_failure`].
pub uninterp spec fn error_text(error: ImageError) -> Seq<char>;

/// Whether `image` is a surface that the bitmap decoder gives for some bytes.
/// Such a surface holds exactly as many samples as its size asks for.
pub open spec fn decoded_from_bmp(image: DynamicImage) -> bool {
    exists|data: Seq<u8>| bmp_decoding(data) == Ok::<DynamicImage, ImageError>(image)
}

/// Whether `error` is a failure that the bitmap decoder gives for some bytes.
pub open spec fn decoder_failure(error: ImageError) -> bool {
    exists|data: Seq<u8>| bmp_decoding(data) == Err::<DynamicImage, ImageError>(error)
}

/// Whether `error` is a failure that the PNG encoder gives for some surface
/// that the bitmap decoder made.
pub open spec fn encoder_failure(error: ImageError) -> bool {
    exists|image: DynamicImage|
        decoded_from_bmp(image) && #[trigger] png_encoding(image) == Err::<Seq<u8>, ImageError>(
            error,
        )
}

/// Whether `error` is a failure of one of the two codecs at work here. Such
/// a failure is built by the codec from what it read, without a call into
/// the operating system.
pub open spec fn codec_failure(error: ImageError) -> bool {
    decoder_failure(error) || encoder_failure(error)
}

/// Calls `image::load_from_memory_with_format` with the bitmap format. The
/// decoder reads nothing but `data` and its built-in limits, so its result is
/// the named function of the bytes; nothing is claimed about which bytes it
/// accepts.
#[verifier::external_body]
fn decode_bmp(data: &[u8]) -> (decoded: Result<DynamicImage, ImageError>)
    ensures
        decoded == bmp_decoding(data@),
{
    image::load_from_memory_with_format(data, image::ImageFormat::Bmp)
}

/// Calls `DynamicImage::width`, which reads the width of the surface.
#[verifier::external_body]
fn width_of(image: &DynamicImage) -> (width: u32)
    ensures
        width == image_width(*image),
{
    image.width()
}

/// Calls `DynamicImage::height`, which reads the height of the surface.
#[verifier::external_body]
fn height_of(image: &DynamicImage) -> (height: u32)
    ensures
        height == image_height(*image),
{
    image.height()
}

/// An encoder's result with the bytes it wrote taken as a sequence.
pub open spec fn stream_of(encoded: Result<Vec<u8>, ImageError>) -> Result<Seq<u8>, ImageError> {
    match encoded {
        Ok(bytes) => Ok(bytes@),
        Err(error) => Err(error),
    }
}

/// Calls `DynamicImage::write_to` with the PNG format on a cursor over a
/// fresh vector. The encoder stops the program on a surface whose sample
/// buffer is not exactly as long as its size asks for, so only surfaces that
/// the bitmap decoder made are admitted: those are exact. The encoder reads
/// nothing but the surface, so the bytes written, or the failure, are the
/// named function of it.
#[verifier::external_body]
fn encode_png(image: &DynamicImage) -> (encoded: Result<Vec<u8>, ImageError>)
    requires
        decoded_from_bmp(*image),
    ensures
        stream_of(encoded) == png_encoding(*image),
{
    let mut bytes: Vec<u8> = Vec::new();
    match image.write_to(&mut std::io::Cursor::new(&mut bytes), image::ImageFormat::Png) {
        Ok(()) => Ok(bytes),
        Err(error) => Err(error),
    }
}

/// Calls `to_string` on an `ImageError`, which renders it through the
/// crate's `Display` impl. Only failures of the two codecs are admitted: their
/// text is made from the failure's own content, where that of a failure of
/// the operating system would come from the system's messages.
#[verifier::external_body]
fn describe(error: &ImageError) -> (text: String)
    requires
        codec_failure(*error),
    ensures
        text@ == error_text(*error),
{
    error.to_string()
}

/// Whether a surface of the given size holds at least one pixel.
pub open spec fn spec_has_pixels(width: u32, height: u32) -> bool {
    width != 0 && height != 0
}

/// Tells whether a surface of the given size holds at least one pixel.
pub fn has_pixels(width: u32, height: u32) -> (yes: bool)
    ensures
        yes == spec_has_pixels(width, height),
{
    width != 0 && height != 0
}

/// A surface that the bitmap decoder made. The surface is kept out of reach,
/// so that every value of this type has come out of [`decode_bitmap`].
#[derive(Debug)]
pub struct Decoded {
    image: DynamicImage,
}

impl Decoded {
    #[verifier::type_invariant]
    spec fn made_by_decoder(self) -> bool {
        decoded_from_bmp(self.image)
    }

    /// The surface that the decoder made.
    pub closed spec fn surface(self) -> DynamicImage {
        self.image
    }

    /// Width of the surface in pixels.
    pub fn width(&self) -> (width: u32)
        ensures
            width == image_width(self.surface()),
    {
        width_of(&self.image)
    }

    /// Height of the surface in pixels.
    pub fn height(&self) -> (height: u32)
        ensures
            height == image_height(self.surface()),
    {
        height_of(&self.image)
    }
}

/// Outcome of a transcoding step in terms of plain values: the PNG stream,
/// nothing, or the kind of failure with the codec's text.
pub enum Transcoded {
    Png(Seq<u8>),
    Nothing,
    Failed(ErrorKind, Seq<char>),
}

/// The plain outcome that an executable result stands for.
pub open spec fn outcome_of(result: Result<Option<Vec<u8>>, ReadError>) -> Transcoded {
    match result {
        Ok(Some(bytes)) => Transcoded::Png(bytes@),
        Ok(None) => Transcoded::Nothing,
        Err(error) => Transcoded::Failed(error.kind, error.detail@),
    }
}

/// What becomes of an encoder's result: its stream, or an encoding failure
/// with the encoder's text.
pub open spec fn after_encoding(encoded: Result<Seq<u8>, ImageError>) -> Transcoded {
    match encoded {
        Ok(bytes) => Transcoded::Png(bytes),
        Err(error) => Transcoded::Failed(ErrorKind::Encode, error_text(error)),
    }
}

/// What becomes of a decoded surface: nothing where it has no pixels, else
/// what encoding it gives.
pub open spec fn after_surface(image: DynamicImage) -> Transcoded {
    if spec_has_pixels(image_width(image), image_height(image)) {
        after_encoding(png_encoding(image))
    } else {
        Transcoded::Nothing
    }
}

/// What becomes of a decoder's result: a decoding failure with the decoder's
/// text, else what becomes of the surface.
pub open spec fn after_decoding(decoded: Result<DynamicImage, ImageError>) -> Transcoded {
    match decoded {
        Err(error) => Transcoded::Failed(ErrorKind::Decode, error_text(error)),
        Ok(image) => after_surface(image),
    }
}

/// What transcoding makes of a bitmap file.
pub open spec fn transcoding(container: Seq<u8>) -> Transcoded {
    after_decoding(bmp_decoding(container))
}

/// Decodes a bitmap file.
///
/// The result is the decoder's: its surface, or a decoding failure that
/// carries the decoder's own text.
pub fn decode_bitmap(container: &[u8]) -> (result: Result<Decoded, ReadError>)
    ensures
        match result {
            Ok(decoded) => bmp_decoding(container@) == Ok::<DynamicImage, ImageError>(
                decoded.surface(),
            ),
            Err(error) => bmp_decoding(container@).is_err() && error.kind == ErrorKind::Decode
                && error.detail@ == error_text(bmp_decoding(container@).unwrap_err()),
        },
{
    match decode_bmp(container) {
        Ok(image) => Ok(Decoded { image }),
        Err(error) => {
            assert(decoder_failure(error));
            Err(ReadError { kind: ErrorKind::Decode, detail: describe(&error) })
        },
    }
}

/// Encodes a decoded surface as PNG.
///
/// A surface whose width or height is zero yields nothing and is not handed
/// to the encoder. An encoder's failure is reported as an encoding failure
/// with the encoder's own text.
pub fn transcode_decoded(decoded: &Decoded) -> (result: Result<Option<Vec<u8>>, ReadError>)
    ensures
        outcome_of(result) == after_surface(decoded.surface()),
{
    proof {
        use_type_invariant(decoded);
    }
    if !has_pixels(decoded.width(), decoded.height()) {
        return Ok(None);
    }
    match encode_png(&decoded.image) {
        Ok(bytes) => Ok(Some(bytes)),
        Err(error) => {
            assert(encoder_failure(error));
            Err(ReadError { kind: ErrorKind::Encode, detail: describe(&error) })
        },
    }
}

/// Decodes a bitmap file and encodes its pixels again as PNG.
///
/// A file that the decoder refuses gives a decoding failure, a surface
/// without pixels gives nothing, a failure of the encoder gives an encoding
/// failure, and in every other case the result is the encoder's stream.
pub fn convert_bmp_to_png(container: &[u8]) -> (result: Result<Option<Vec<u8>>, ReadError>)
    ensures
        outcome_of(result) == transcoding(container@),
{
    match decode_bitmap(container) {
        Ok(decoded) => transcode_decoded(&decoded),
        Err(error) => Err(error),
    }
}

} // verus!
