//! Whether a subtitle track is image-based and so needs an OCR stage,
//! derived from both its codec and its container format, and the
//! completion checks that follow from it.
use vstd::prelude::*;

use crate::enums::SubtitleIndexStage;
use crate::errors::ErrorInfo;
use crate::flags::SubtitleIndexStatus;
use crate::stages::{subtitle_expected_mask, subtitle_stage};

verus! {

#[verifier::external_type_specification]
#[verifier::external_body]
pub struct ExSubtitleCodec(mediaframe::codec::SubtitleCodec);

#[verifier::external_type_specification]
#[verifier::external_body]
pub struct ExSubtitleFormat(mediaframe::subtitle::Format);

/// What `SubtitleCodec::is_image_based` answers for a codec: `Some(true)` for
/// a bitmap codec, `Some(false)` for a known text codec, `None` for an
/// unlisted one.
pub uninterp spec fn codec_image_class(c: mediaframe::codec::SubtitleCodec) -> Option<bool>;

/// What `Format::is_image_based` answers for a subtitle format:
/// `Some(true)` for a bitmap format, `Some(false)` for a known text format,
/// `None` for an unlisted one.
pub uninterp spec fn format_image_class(f: mediaframe::subtitle::Format) -> Option<bool>;

/// `SubtitleCodec::is_image_based`.
#[verifier::external_body]
fn codec_is_image_based(c: &mediaframe::codec::SubtitleCodec) -> (r: Option<bool>)
    ensures
        r == codec_image_class(*c),
{
    c.is_image_based()
}

/// `Format::is_image_based`.
#[verifier::external_body]
fn format_is_image_based(f: &mediaframe::subtitle::Format) -> (r: Option<bool>)
    ensures
        r == format_image_class(*f),
{
    f.is_image_based()
}

/// The track's image-based class from the two axes: a bitmap on either axis
/// is decisive, otherwise a text verdict on either axis is trusted, and with
/// neither axis classified the track is unclassified (`None`).
pub open spec fn combined_image_class(codec: Option<bool>, format: Option<bool>) -> Option<bool> {
    if codec == Some(true) || format == Some(true) {
        Some(true)
    } else if codec == Some(false) || format == Some(false) {
        Some(false)
    } else {
        None
    }
}

/// Whether OCR is required: everything but a known text track needs it (an
/// unclassified track conservatively does).
pub open spec fn ocr_required(image_based: Option<bool>) -> bool {
    image_based != Some(false)
}

/// Combine the codec's and the format's image-based answers.
pub fn image_based_of(codec: Option<bool>, format: Option<bool>) -> (r: Option<bool>)
    ensures
        r == combined_image_class(codec, format),
{
    match (codec, format) {
        (Some(true), _) | (_, Some(true)) => Some(true),
        (Some(false), _) | (_, Some(false)) => Some(false),
        (None, None) => None,
    }
}

/// Whether a track of this image-based class needs an OCR stage.
pub fn requires_ocr_of(image_based: Option<bool>) -> (r: bool)
    ensures
        r == ocr_required(image_based),
{
    match image_based {
        Some(b) => b,
        None => true,
    }
}

/// The image-based class of a track with this codec and format.
pub fn track_image_based(codec: &mediaframe::codec::SubtitleCodec, format: &mediaframe::subtitle::Format) -> (r:
    Option<bool>)
    ensures
        r == combined_image_class(codec_image_class(*codec), format_image_class(*format)),
{
    image_based_of(codec_is_image_based(codec), format_is_image_based(format))
}

/// Whether a track with this codec and format needs an OCR stage.
pub fn track_requires_ocr(codec: &mediaframe::codec::SubtitleCodec, format: &mediaframe::subtitle::Format) -> (r:
    bool)
    ensures
        r == ocr_required(combined_image_class(codec_image_class(*codec), format_image_class(*format))),
{
    requires_ocr_of(track_image_based(codec, format))
}

/// Whether a track's indexing is complete: every bit it needs is set, with
/// `OCR_DONE` needed whenever the track requires OCR.
pub fn track_is_fully_indexed(
    status: SubtitleIndexStatus,
    codec: &mediaframe::codec::SubtitleCodec,
    format: &mediaframe::subtitle::Format,
) -> (r: bool)
    ensures
        r == (status@ & subtitle_expected_mask(
            ocr_required(combined_image_class(codec_image_class(*codec), format_image_class(*format))),
        ) == subtitle_expected_mask(
            ocr_required(combined_image_class(codec_image_class(*codec), format_image_class(*format))),
        )),
{
    status.contains(SubtitleIndexStatus::expected_mask(track_requires_ocr(codec, format)))
}

/// The coarse indexing stage of a track, with OCR gating derived from its
/// codec and format.
pub fn track_index_stage(
    status: SubtitleIndexStatus,
    codec: &mediaframe::codec::SubtitleCodec,
    format: &mediaframe::subtitle::Format,
    errors: &[ErrorInfo],
) -> (r: SubtitleIndexStage)
    ensures
        r == subtitle_stage(
            status@,
            ocr_required(combined_image_class(codec_image_class(*codec), format_image_class(*format))),
            errors@,
        ),
{
    SubtitleIndexStage::from_status(status, track_requires_ocr(codec, format), errors)
}

/// A bitmap verdict on either axis makes the track image-based, whatever the
/// other axis says, and so requires OCR.
pub proof fn lemma_bitmap_axis_decisive(codec: Option<bool>, format: Option<bool>)
    requires
        codec == Some(true) || format == Some(true),
    ensures
        combined_image_class(codec, format) == Some(true),
        ocr_required(combined_image_class(codec, format)),
{
}

/// A track classified on neither axis is unclassified and still requires
/// OCR: an unknown track never under-requires it.
pub proof fn lemma_unclassified_requires_ocr(codec: Option<bool>, format: Option<bool>)
    requires
        codec is None,
        format is None,
    ensures
        combined_image_class(codec, format) is None,
        ocr_required(combined_image_class(codec, format)),
{
}

/// A track that requires OCR is not fully indexed until `OCR_DONE` is set.
pub proof fn lemma_ocr_gates_completion(s: u32, image_based: Option<bool>)
    requires
        ocr_required(image_based),
        s & 0x4 == 0,
    ensures
        s & subtitle_expected_mask(ocr_required(image_based)) != subtitle_expected_mask(ocr_required(image_based)),
{
    assert(s & 0x4 == 0 ==> s & 0xf != 0xf) by (bit_vector);
}

} // verus!
