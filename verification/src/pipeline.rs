//! The order in which the clipboard's image formats are tried, and what is
//! made of the bytes that each one offers.
//!
//! The caller owns the clipboard: it opens it, asks for one format at a time,
//! hands what it got to [`on_offer`], does what the returned step says, and
//! closes the clipboard when the step is final. Files are written afterwards.

use vstd::prelude::*;
use vstd::slice::slice_to_vec;
use crate::dib::{container_of, reconstruct};
use crate::error::{ErrorKind, ReadError};
use crate::store::{content_hash, file_name_of, plan_store, storable, StorePlan};
use crate::transcode::{convert_bmp_to_png, outcome_of, transcoding, Transcoded};

verus! {

/// Clipboard format number of a device-independent bitmap.
pub const CF_DIB: u32 = 8;

/// Clipboard format number of a bitmap with the extended, version 5 header.
pub const CF_DIBV5: u32 = 17;

/// An image representation that the clipboard may offer.
#[derive(Clone, Copy, Debug, PartialEq, Eq, Structural)]
pub enum SupportedFormat {
    /// A PNG stream, offered under a format registered by name.
    DirectImage,
    /// A bitmap block with the extended header.
    ExtendedDib,
    /// A bitmap block with the plain header.
    LegacyDib,
}

impl SupportedFormat {
    /// Place in the order of preference; the format of rank 0 is tried
    /// first.
    pub open spec fn rank(self) -> nat {
        match self {
            SupportedFormat::DirectImage => 0,
            SupportedFormat::ExtendedDib => 1,
            SupportedFormat::LegacyDib => 2,
        }
    }

    /// The format that is tried when this one gave nothing.
    pub open spec fn spec_next(self) -> Option<SupportedFormat> {
        match self {
            SupportedFormat::DirectImage => Some(SupportedFormat::ExtendedDib),
            SupportedFormat::ExtendedDib => Some(SupportedFormat::LegacyDib),
            SupportedFormat::LegacyDib => None,
        }
    }

    /// The format that is tried first.
    pub fn first() -> (format: SupportedFormat)
        ensures
            format.rank() == 0,
    {
        SupportedFormat::DirectImage
    }

    /// Gives the format that is tried when this one gave nothing.
    pub fn next(self) -> (following: Option<SupportedFormat>)
        ensures
            following == self.spec_next(),
            following matches Some(format) ==> format.rank() == self.rank() + 1,
            following.is_none() <==> self.rank() == 2,
    {
        match self {
            SupportedFormat::DirectImage => Some(SupportedFormat::ExtendedDib),
            SupportedFormat::ExtendedDib => Some(SupportedFormat::LegacyDib),
            SupportedFormat::LegacyDib => None,
        }
    }

    /// The fixed clipboard format number, for the formats that have one. The
    /// direct image format is registered by name and gets its number from the
    /// system.
    pub fn standard_id(self) -> (id: Option<u32>)
        ensures
            id == match self {
                SupportedFormat::DirectImage => None::<u32>,
                SupportedFormat::ExtendedDib => Some(CF_DIBV5),
                SupportedFormat::LegacyDib => Some(CF_DIB),
            },
    {
        match self {
            SupportedFormat::DirectImage => None,
            SupportedFormat::ExtendedDib => Some(CF_DIBV5),
            SupportedFormat::LegacyDib => Some(CF_DIB),
        }
    }
}

/// Which of the three formats the clipboard reports as present.
#[derive(Clone, Copy, Debug, PartialEq, Eq, Structural)]
pub struct Availability {
    pub direct_image: bool,
    pub extended_dib: bool,
    pub legacy_dib: bool,
}

impl Availability {
    /// Whether `format` is reported as present.
    pub open spec fn offers(self, format: SupportedFormat) -> bool {
        match format {
            SupportedFormat::DirectImage => self.direct_image,
            SupportedFormat::ExtendedDib => self.extended_dib,
            SupportedFormat::LegacyDib => self.legacy_dib,
        }
    }
}

/// Tells whether the clipboard holds an image in any supported format.
pub fn has_image(available: Availability) -> (any: bool)
    ensures
        any == exists|format: SupportedFormat| available.offers(format),
{
    let any = available.direct_image || available.extended_dib || available.legacy_dib;
    proof {
        if available.direct_image {
            assert(available.offers(SupportedFormat::DirectImage));
        } else if available.extended_dib {
            assert(available.offers(SupportedFormat::ExtendedDib));
        } else if available.legacy_dib {
            assert(available.offers(SupportedFormat::LegacyDib));
        }
    }
    any
}

/// Picks the preferred format among those present: the one of lowest rank.
pub fn first_available(available: Availability) -> (choice: Option<SupportedFormat>)
    ensures
        choice.is_none() <==> forall|format: SupportedFormat| !available.offers(format),
        choice matches Some(chosen) ==> available.offers(chosen) && forall|
            format: SupportedFormat,
        |
            available.offers(format) ==> chosen.rank() <= format.rank(),
{
    if available.direct_image {
        assert(available.offers(SupportedFormat::DirectImage));
        Some(SupportedFormat::DirectImage)
    } else if available.extended_dib {
        assert(available.offers(SupportedFormat::ExtendedDib));
        Some(SupportedFormat::ExtendedDib)
    } else if available.legacy_dib {
        assert(available.offers(SupportedFormat::LegacyDib));
        Some(SupportedFormat::LegacyDib)
    } else {
        None
    }
}

/// What the clipboard gave when it was asked for one format.
#[derive(Clone, Debug)]
pub enum Offer {
    /// The format is not on the clipboard.
    Absent,
    /// The format is announced, but no data handle or no view of its memory
    /// could be had.
    Unusable,
    /// The bytes of the format's buffer.
    Data(Vec<u8>),
}

/// An image ready to be stored.
#[derive(Clone, Debug)]
pub struct Found {
    /// The PNG stream to write.
    pub png: Vec<u8>,
    /// Name and size to store it with.
    pub plan: StorePlan,
}

/// What to do next.
#[derive(Debug)]
pub enum Step {
    /// Ask the clipboard for this format and report what it gave.
    Ask(SupportedFormat),
    /// The read is over, with an image, with none, or with a failure.
    Done(Result<Option<Found>, ReadError>),
}

/// Outcome of trying one format, in plain values.
pub enum Attempt {
    Found { png: Seq<u8>, file_name: Seq<char>, width: u32, height: u32 },
    Nothing,
    Failed(ErrorKind, Seq<char>),
}

/// A step in plain values.
pub enum StepView {
    Ask(SupportedFormat),
    Done(Attempt),
}

/// The bytes of an offer, where it carries any.
pub open spec fn offered_bytes(offer: Offer) -> Option<Seq<u8>> {
    match offer {
        Offer::Data(bytes) => Some(bytes@),
        _ => None,
    }
}

/// The plain outcome that an executable result stands for.
pub open spec fn attempt_of(result: Result<Option<Found>, ReadError>) -> Attempt {
    match result {
        Ok(Some(found)) => Attempt::Found {
            png: found.png@,
            file_name: found.plan.file_name@,
            width: found.plan.width,
            height: found.plan.height,
        },
        Ok(None) => Attempt::Nothing,
        Err(error) => Attempt::Failed(error.kind, error.detail@),
    }
}

/// The plain step that an executable step stands for.
pub open spec fn step_of(step: Step) -> StepView {
    match step {
        Step::Ask(format) => StepView::Ask(format),
        Step::Done(result) => StepView::Done(attempt_of(result)),
    }
}

/// The PNG stream that a format's bytes lead to: the bytes themselves for a
/// direct image; for a bitmap block, what transcoding makes of the bitmap
/// file rebuilt from it, and nothing where no file can be rebuilt.
pub open spec fn png_from(format: SupportedFormat, data: Seq<u8>) -> Transcoded {
    match format {
        SupportedFormat::DirectImage => Transcoded::Png(data),
        _ => match container_of(data) {
            Some(file) => transcoding(file),
            None => Transcoded::Nothing,
        },
    }
}

/// What a PNG stream is stored as, or nothing where it is not worth storing.
pub open spec fn stored_as(png: Seq<u8>) -> Attempt {
    match storable(png) {
        Some((width, height)) => Attempt::Found {
            png,
            file_name: file_name_of(content_hash(png)),
            width,
            height,
        },
        None => Attempt::Nothing,
    }
}

/// Outcome of trying `format` on the bytes the clipboard gave for it.
pub open spec fn attempt_on(format: SupportedFormat, data: Seq<u8>) -> Attempt {
    match png_from(format, data) {
        Transcoded::Png(png) => stored_as(png),
        Transcoded::Nothing => Attempt::Nothing,
        Transcoded::Failed(kind, text) => Attempt::Failed(kind, text),
    }
}

/// Outcome of trying `format` given what the clipboard offered for it: an
/// offer without bytes gives nothing.
pub open spec fn attempt_with(format: SupportedFormat, offered: Option<Seq<u8>>) -> Attempt {
    match offered {
        Some(data) => attempt_on(format, data),
        None => Attempt::Nothing,
    }
}

/// The step that follows an attempt on `format`: an image or a failure ends
/// the read; after nothing, the next format is asked for, and the read ends
/// with nothing when none is left.
pub open spec fn step_after(format: SupportedFormat, attempt: Attempt) -> StepView {
    match attempt {
        Attempt::Nothing => match format.spec_next() {
            Some(following) => StepView::Ask(following),
            None => StepView::Done(Attempt::Nothing),
        },
        decided => StepView::Done(decided),
    }
}

/// The step that opens a read: with the clipboard open, the preferred format
/// is asked for; a clipboard that could not be opened ends the read at once.
pub open spec fn first_step(opened: bool) -> StepView {
    if opened {
        StepView::Ask(SupportedFormat::DirectImage)
    } else {
        StepView::Done(Attempt::Failed(ErrorKind::ClipboardOpen, Seq::<char>::empty()))
    }
}

/// Decides how a read starts, given whether the clipboard could be opened
/// for exclusive use.
pub fn begin(opened: bool) -> (step: Step)
    ensures
        step_of(step) == first_step(opened),
{
    if opened {
        Step::Ask(SupportedFormat::first())
    } else {
        Step::Done(Err(ReadError::clipboard_open()))
    }
}

/// Takes a stream that is worth storing together with its plan.
pub fn plan_found(png: Vec<u8>) -> (result: Result<Option<Found>, ReadError>)
    ensures
        attempt_of(result) == stored_as(png@),
{
    match plan_store(png.as_slice()) {
        Some(plan) => Ok(Some(Found { png, plan })),
        None => Ok(None),
    }
}

/// Tries one format on the bytes the clipboard gave for it.
///
/// A direct image is taken as it is. A bitmap block is rebuilt into a bitmap
/// file and transcoded; a block that cannot be rebuilt gives nothing, a codec
/// failure is passed on. The resulting stream is then planned for the store,
/// which gives nothing where the stream is empty or declares no pixels.
pub fn attempt(format: SupportedFormat, data: &[u8]) -> (result: Result<Option<Found>, ReadError>)
    ensures
        attempt_of(result) == attempt_on(format, data@),
{
    match format {
        SupportedFormat::DirectImage => plan_found(slice_to_vec(data)),
        _ => {
            let file = match reconstruct(data) {
                Some(file) => file,
                None => {
                    return Ok(None);
                },
            };
            match convert_bmp_to_png(file.as_slice()) {
                Ok(Some(png)) => plan_found(png),
                Ok(None) => Ok(None),
                Err(error) => Err(error),
            }
        },
    }
}

/// Decides what follows once the clipboard answered the request for `format`.
pub fn on_offer(format: SupportedFormat, offer: Offer) -> (step: Step)
    ensures
        step_of(step) == step_after(format, attempt_with(format, offered_bytes(offer))),
{
    let result = match offer {
        Offer::Data(bytes) => attempt(format, bytes.as_slice()),
        _ => Ok(None),
    };
    match result {
        Ok(None) => match format.next() {
            Some(following) => Step::Ask(following),
            None => Step::Done(Ok(None)),
        },
        decided => Step::Done(decided),
    }
}

/// Outcome of the read that starts at `format`, given the bytes that the
/// clipboard offers for each format: the formats are tried in their order of
/// preference until one gives an image or a failure.
pub open spec fn read_from(
    format: SupportedFormat,
    offers: spec_fn(SupportedFormat) -> Option<Seq<u8>>,
) -> Attempt
    decreases 3 - format.rank(),
{
    let attempt = attempt_with(format, offers(format));
    if attempt is Nothing {
        match format.spec_next() {
            Some(following) => read_from(following, offers),
            None => Attempt::Nothing,
        }
    } else {
        attempt
    }
}

/// Following the steps one by one gives the outcome of the read: a final
/// step carries it, and a request for another format leads to the read that
/// starts at that format, which ranks right behind the one just tried.
pub proof fn lemma_steps_follow_read(
    format: SupportedFormat,
    offers: spec_fn(SupportedFormat) -> Option<Seq<u8>>,
)
    ensures
        match step_after(format, attempt_with(format, offers(format))) {
            StepView::Ask(following) => following.rank() == format.rank() + 1 && read_from(
                format,
                offers,
            ) == read_from(following, offers),
            StepView::Done(attempt) => read_from(format, offers) == attempt,
        },
{
}

/// A whole read returns the outcome of the first format, in the order of
/// preference, that gives an image or a failure, and nothing where all three
/// give nothing.
pub proof fn lemma_first_decisive_format_wins(
    offers: spec_fn(SupportedFormat) -> Option<Seq<u8>>,
)
    ensures
        ({
            let direct = attempt_with(
                SupportedFormat::DirectImage,
                offers(SupportedFormat::DirectImage),
            );
            let extended = attempt_with(
                SupportedFormat::ExtendedDib,
                offers(SupportedFormat::ExtendedDib),
            );
            let legacy = attempt_with(
                SupportedFormat::LegacyDib,
                offers(SupportedFormat::LegacyDib),
            );
            read_from(SupportedFormat::DirectImage, offers) == if !(direct is Nothing) {
                direct
            } else if !(extended is Nothing) {
                extended
            } else {
                legacy
            }
        }),
{
    reveal_with_fuel(read_from, 4);
}

/// A direct image never fails and is never altered: it is found exactly
/// where its own bytes are worth storing, and then it is those bytes that are
/// stored, under the size that their prefix declares.
pub proof fn lemma_direct_image_is_kept(data: Seq<u8>)
    ensures
        match attempt_on(SupportedFormat::DirectImage, data) {
            Attempt::Found { png, file_name, width, height } => {
                &&& png == data
                &&& storable(data) == Some((width, height))
                &&& file_name == file_name_of(content_hash(data))
            },
            Attempt::Nothing => storable(data).is_none(),
            Attempt::Failed(_, _) => false,
        },
{
}

/// A bitmap block leads to an image only through the bitmap file rebuilt
/// from it: what is found is what transcoding that file gives, and a failure
/// is the codec's.
pub proof fn lemma_bitmap_goes_through_its_file(format: SupportedFormat, data: Seq<u8>)
    requires
        format != SupportedFormat::DirectImage,
    ensures
        container_of(data).is_none() ==> attempt_on(format, data) is Nothing,
        container_of(data) matches Some(file) ==> attempt_on(format, data) == match transcoding(
            file,
        ) {
            Transcoded::Png(png) => stored_as(png),
            Transcoded::Nothing => Attempt::Nothing,
            Transcoded::Failed(kind, text) => Attempt::Failed(kind, text),
        },
        attempt_on(SupportedFormat::ExtendedDib, data) == attempt_on(
            SupportedFormat::LegacyDib,
            data,
        ),
{
}

/// A format that is absent, unusable or empty, and a bitmap block shorter
/// than its fixed header, give nothing, so that the read goes on to the next
/// format.
pub proof fn lemma_unusable_offers_fall_through(format: SupportedFormat, data: Seq<u8>)
    ensures
        attempt_with(format, None) is Nothing,
        data.len() == 0 ==> attempt_on(format, data) is Nothing,
        format != SupportedFormat::DirectImage && data.len() < 40 ==> attempt_on(
            format,
            data,
        ) is Nothing,
{
}

} // verus!
