//! Stream descriptors from `mediaframe` (codec, colour, frame-rate, pixel
//! format, rotation …) that a video track records verbatim from the probe.
//! The track rules never read inside them.
use vstd::prelude::*;

verus! {

#[verifier::external_type_specification]
#[verifier::external_body]
pub struct ExVideoCodec(mediaframe::codec::VideoCodec);

/// `VideoCodec`'s derived `Clone`: a field-by-field copy, the same value.
pub assume_specification[ <mediaframe::codec::VideoCodec as Clone>::clone ](v: &mediaframe::codec::VideoCodec) -> (r: mediaframe::codec::VideoCodec)
    ensures
        r == *v,
;

#[verifier::external_type_specification]
#[verifier::external_body]
pub struct ExColorInfo(mediaframe::color::Info);

/// `ColorInfo`'s derived `Clone`: a field-by-field copy, the same value.
pub assume_specification[ <mediaframe::color::Info as Clone>::clone ](v: &mediaframe::color::Info) -> (r: mediaframe::color::Info)
    ensures
        r == *v,
;

#[verifier::external_type_specification]
#[verifier::external_body]
pub struct ExHdrStaticMetadata(mediaframe::color::HdrStaticMetadata);

/// `HdrStaticMetadata`'s derived `Clone` (beside `Copy`): a field-by-field copy, the same value.
pub assume_specification[ <mediaframe::color::HdrStaticMetadata as Clone>::clone ](v: &mediaframe::color::HdrStaticMetadata) -> (r: mediaframe::color::HdrStaticMetadata)
    ensures
        r == *v,
;

#[verifier::external_type_specification]
#[verifier::external_body]
pub struct ExDolbyVisionConfig(mediaframe::color::DolbyVisionConfig);

/// `DolbyVisionConfig`'s derived `Clone` (beside `Copy`): a field-by-field copy, the same value.
pub assume_specification[ <mediaframe::color::DolbyVisionConfig as Clone>::clone ](v: &mediaframe::color::DolbyVisionConfig) -> (r: mediaframe::color::DolbyVisionConfig)
    ensures
        r == *v,
;

#[verifier::external_type_specification]
#[verifier::external_body]
pub struct ExFieldOrder(mediaframe::frame::FieldOrder);

/// `FieldOrder`'s derived `Clone`: a field-by-field copy, the same value.
pub assume_specification[ <mediaframe::frame::FieldOrder as Clone>::clone ](v: &mediaframe::frame::FieldOrder) -> (r: mediaframe::frame::FieldOrder)
    ensures
        r == *v,
;

#[verifier::external_type_specification]
#[verifier::external_body]
pub struct ExFrameRate(mediaframe::frame::FrameRate);

/// `FrameRate`'s derived `Clone` (beside `Copy`): a field-by-field copy, the same value.
pub assume_specification[ <mediaframe::frame::FrameRate as Clone>::clone ](v: &mediaframe::frame::FrameRate) -> (r: mediaframe::frame::FrameRate)
    ensures
        r == *v,
;

#[verifier::external_type_specification]
#[verifier::external_body]
pub struct ExRotation(mediaframe::frame::Rotation);

/// `Rotation`'s derived `Clone`: a field-by-field copy, the same value.
pub assume_specification[ <mediaframe::frame::Rotation as Clone>::clone ](v: &mediaframe::frame::Rotation) -> (r: mediaframe::frame::Rotation)
    ensures
        r == *v,
;

#[verifier::external_type_specification]
#[verifier::external_body]
pub struct ExSampleAspectRatio(mediaframe::frame::SampleAspectRatio);

/// `SampleAspectRatio`'s derived `Clone` (beside `Copy`): a field-by-field copy, the same value.
pub assume_specification[ <mediaframe::frame::SampleAspectRatio as Clone>::clone ](v: &mediaframe::frame::SampleAspectRatio) -> (r: mediaframe::frame::SampleAspectRatio)
    ensures
        r == *v,
;

#[verifier::external_type_specification]
#[verifier::external_body]
pub struct ExStereoMode(mediaframe::frame::StereoMode);

/// `StereoMode`'s derived `Clone`: a field-by-field copy, the same value.
pub assume_specification[ <mediaframe::frame::StereoMode as Clone>::clone ](v: &mediaframe::frame::StereoMode) -> (r: mediaframe::frame::StereoMode)
    ensures
        r == *v,
;

#[verifier::external_type_specification]
#[verifier::external_body]
pub struct ExPixelFormat(mediaframe::pixel_format::PixelFormat);

/// `PixelFormat`'s derived `Clone`: a field-by-field copy, the same value.
pub assume_specification[ <mediaframe::pixel_format::PixelFormat as Clone>::clone ](v: &mediaframe::pixel_format::PixelFormat) -> (r: mediaframe::pixel_format::PixelFormat)
    ensures
        r == *v,
;

/// `SampleAspectRatio::default()` (`1:1`, square pixels); nothing is stated of the value.
pub assume_specification[ <mediaframe::frame::SampleAspectRatio as Default>::default ]() -> mediaframe::frame::SampleAspectRatio;

/// `PixelFormat::default()` (`PixelFormat::None`, no format yet); nothing is stated of the value.
pub assume_specification[ <mediaframe::pixel_format::PixelFormat as Default>::default ]() -> mediaframe::pixel_format::PixelFormat;

/// `ColorInfo::default()` (`Info::UNSPECIFIED`); nothing is stated of the value.
pub assume_specification[ <mediaframe::color::Info as Default>::default ]() -> mediaframe::color::Info;

/// `Rotation::default()` (no rotation); nothing is stated of the value.
pub assume_specification[ <mediaframe::frame::Rotation as Default>::default ]() -> mediaframe::frame::Rotation;

/// `FrameRate::default()` (`0/1`, absent); nothing is stated of the value.
pub assume_specification[ <mediaframe::frame::FrameRate as Default>::default ]() -> mediaframe::frame::FrameRate;

/// `FieldOrder::default()` (`FieldOrder::Unknown`); nothing is stated of the value.
pub assume_specification[ <mediaframe::frame::FieldOrder as Default>::default ]() -> mediaframe::frame::FieldOrder;

/// The codec an FFmpeg short name denotes (`VideoCodec::other`): the named
/// variant for a known name, otherwise `Other` carrying the name verbatim.
pub uninterp spec fn video_codec_of_name(name: Seq<char>) -> mediaframe::codec::VideoCodec;

/// `VideoCodec::other`: parse a codec short name, case-insensitively; it
/// never fails.
#[verifier::external_body]
pub(crate) fn video_codec_named(name: &str) -> (c: mediaframe::codec::VideoCodec)
    ensures
        c == video_codec_of_name(name@),
{
    mediaframe::codec::VideoCodec::other(name)
}

} // verus!
