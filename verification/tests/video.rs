use bytes::Bytes;
use mediaframe::codec::VideoCodec;
use mediaframe::color::{DolbyVisionConfig, HdrStaticMetadata, Info as ColorInfo};
use mediaframe::disposition::TrackDisposition;
use mediaframe::frame::{FieldOrder, FrameRate, Rational, Rotation, SampleAspectRatio, StereoMode};
use mediaframe::pixel_format::PixelFormat;
use mediaschema::enums::{SceneDetector, ThumbnailKind};
use mediaschema::errors::{ErrorCode, ErrorInfo};
use mediaschema::flags::VideoIndexStatus;
use mediaschema::geometry::{Dimensions, Rect};
use mediaschema::primitives::Uuid7;
use mediaschema::provenance::Provenance;
use mediaschema::scene::{Scene, SceneError, SceneParts};
use mediaschema::thumbnail::{Thumbnail, ThumbnailError};
use mediaschema::time::{MediaTimestamp, TimeRange, Timebase};
use mediaschema::video_track::{VideoTrack, VideoTrackError};
use std::num::NonZeroI64;

fn tb() -> Timebase {
    Timebase::new(1, 1000)
}

// ---- Scene ---------------------------------------------------------------

#[test]
fn scene_try_new_happy_path() {
    let video_track_id = Uuid7::new();
    let span = TimeRange::new(5_000, 10_000, tb());
    let s = Scene::try_new(Uuid7::new(), video_track_id, 0, span, SceneDetector::Adaptive).unwrap();
    assert_eq!(s.video_track_id_ref(), &video_track_id);
    assert_eq!(s.index(), 0);
    assert_eq!(s.span_ref(), &span);
    assert!(s.detector().is_adaptive());
    assert!(s.keyframes_slice().is_empty());
    assert!(s.description().is_empty());
}

#[test]
fn try_new_rejects_nil_id_or_parent() {
    let span = TimeRange::new(0, 100, tb());
    assert_eq!(
        Scene::try_new(Uuid7::nil(), Uuid7::new(), 0, span, SceneDetector::Manual).err(),
        Some(SceneError::NilId)
    );
    assert_eq!(
        Scene::try_new(Uuid7::new(), Uuid7::nil(), 0, span, SceneDetector::Manual).err(),
        Some(SceneError::NilVideoTrackId)
    );
    assert!(SceneError::NilId.is_nil_id());
    assert!(SceneError::NilVideoTrackId.is_nil_video_track_id());
}

#[test]
fn scene_try_new_rejects_inverted_span() {
    // An inverted range cannot be built at all: construction refuses it.
    assert!(TimeRange::try_new(2000, 1000, tb()).is_none());
    assert!(SceneError::InvertedSpan.is_inverted_span());
    assert_eq!(
        SceneError::InvertedSpan.message(),
        "Scene span must not be inverted (start_pts <= end_pts)"
    );
}

// A range can no longer be inverted after construction (`TimeRange` has no
// field mutators), so the inverted replacement of this scenario cannot be
// built; what remains is that construction refuses it and that valid
// replacement spans are accepted.
#[test]
fn scene_span_replacement_accepts_valid_ranges() {
    let span = TimeRange::new(0, 5_000, tb());
    let mut s = Scene::try_new(Uuid7::new(), Uuid7::new(), 0, span, SceneDetector::Manual).unwrap();
    assert!(TimeRange::try_new(9_000, 8_000, tb()).is_none());
    assert_eq!(s.span_ref(), &span);
    let next = TimeRange::new(100, 200, tb());
    s.try_set_span(next).unwrap();
    assert_eq!(s.span_ref(), &next);
    let s2 = s.clone().try_with_span(TimeRange::new(3_000, 9_000, tb())).unwrap();
    assert_eq!(s2.span_ref().start_pts(), 3_000);
}

#[test]
fn instantaneous_span_is_allowed() {
    let span = TimeRange::new(7_000, 7_000, tb());
    let s = Scene::try_new(Uuid7::new(), Uuid7::new(), 0, span, SceneDetector::Manual)
        .expect("instantaneous span allowed");
    assert_eq!(s.span_ref().start_pts(), s.span_ref().end_pts());
}

#[test]
fn scene_builders_and_setters_chain() {
    let span = TimeRange::new(0, 5_000, tb());
    let kf = Uuid7::new();
    let s = Scene::try_new(Uuid7::new(), Uuid7::new(), 0, span, SceneDetector::Histogram)
        .unwrap()
        .with_index(3)
        .with_detector(SceneDetector::Content)
        .with_keyframes(vec![kf])
        .with_description("Jane is eating");
    assert_eq!(s.index(), 3);
    assert!(s.detector().is_content());
    assert_eq!(s.keyframes_slice(), &[kf]);
    assert_eq!(s.description(), "Jane is eating");
    let mut s = s;
    s.set_index(0);
    s.set_description("");
    s.set_keyframes(Vec::<Uuid7>::new());
    s.set_detector(SceneDetector::Manual);
    assert_eq!(s.index(), 0);
    assert!(s.description().is_empty());
    assert!(s.keyframes_slice().is_empty());
    assert!(s.detector().is_manual());
}

// ---- Thumbnail -----------------------------------------------------------

#[test]
fn try_new_database_happy_path() {
    let id = Uuid7::new();
    let t = Thumbnail::try_new(id, ThumbnailKind::Database, Bytes::from(vec![0xff_u8, 0xd8, 0xff]), "", "image/jpeg", 320, 180)
        .unwrap();
    assert_eq!(t.id_ref(), &id);
    assert!(t.kind().is_database());
    assert_eq!(t.data(), &[0xff, 0xd8, 0xff]);
    assert!(t.location().is_empty());
    assert_eq!(t.mime(), "image/jpeg");
    assert_eq!(t.width(), 320);
    assert_eq!(t.height(), 180);
    assert_eq!(t.data_bytes(), Bytes::from(vec![0xff_u8, 0xd8, 0xff]));
}

#[test]
fn try_new_filesystem_and_remote_happy_path() {
    let fs = Thumbnail::try_new(Uuid7::new(), ThumbnailKind::FileSystem, Bytes::new(), "/var/thumbs/a.jpg", "image/jpeg", 64, 64)
        .unwrap();
    assert!(fs.kind().is_file_system());
    assert!(fs.data().is_empty());
    assert_eq!(fs.location(), "/var/thumbs/a.jpg");
    let remote = Thumbnail::try_new(
        Uuid7::new(),
        ThumbnailKind::Remote,
        Bytes::new(),
        "https://cdn.example/a.webp",
        "image/webp",
        128,
        72,
    )
    .unwrap();
    assert!(remote.kind().is_remote());
    assert_eq!(remote.location(), "https://cdn.example/a.webp");
}

#[test]
fn thumbnail_try_new_rejects_nil_id() {
    assert_eq!(
        Thumbnail::try_new(Uuid7::nil(), ThumbnailKind::Database, Bytes::from(vec![1u8]), "", "image/png", 1, 1).err(),
        Some(ThumbnailError::NilId)
    );
    assert!(ThumbnailError::NilId.is_nil_id());
}

#[test]
fn try_new_enforces_per_kind_payload_invariants() {
    assert_eq!(
        Thumbnail::try_new(Uuid7::new(), ThumbnailKind::Database, Bytes::new(), "", "image/png", 1, 1).err(),
        Some(ThumbnailError::EmptyData)
    );
    for kind in [ThumbnailKind::FileSystem, ThumbnailKind::Remote] {
        assert_eq!(
            Thumbnail::try_new(Uuid7::new(), kind, Bytes::new(), "", "image/png", 1, 1).err(),
            Some(ThumbnailError::EmptyLocation),
            "{kind:?} with empty location should be rejected"
        );
    }
    assert!(ThumbnailError::EmptyData.is_empty_data());
    assert!(ThumbnailError::EmptyLocation.is_empty_location());
}

#[test]
fn try_with_storage_revalidates_and_switches_backend() {
    let t = Thumbnail::try_new(Uuid7::new(), ThumbnailKind::Database, Bytes::from(vec![1u8, 2, 3]), "", "image/png", 8, 8)
        .unwrap();
    let t = t.try_with_storage(ThumbnailKind::FileSystem, Bytes::new(), "/x.png").unwrap();
    assert!(t.kind().is_file_system());
    assert!(t.data().is_empty());
    assert_eq!(t.location(), "/x.png");
    let mut t = t;
    assert_eq!(
        t.try_set_storage(ThumbnailKind::Database, Bytes::new(), "").err(),
        Some(ThumbnailError::EmptyData)
    );
    assert!(t.kind().is_file_system());
    assert_eq!(t.location(), "/x.png");
    t.try_set_storage(ThumbnailKind::Database, Bytes::from(vec![9u8]), "").unwrap();
    assert!(t.kind().is_database());
    assert_eq!(t.data(), &[9]);
    assert!(t.location().is_empty());
}

#[test]
fn scalar_builders_and_setters_chain() {
    let mut t = Thumbnail::try_new(Uuid7::new(), ThumbnailKind::Database, Bytes::from(vec![1u8]), "", "image/png", 1, 1)
        .unwrap()
        .with_mime("image/webp")
        .with_width(640)
        .with_height(360);
    assert_eq!(t.mime(), "image/webp");
    assert_eq!(t.width(), 640);
    assert_eq!(t.height(), 360);
    t.set_mime("").set_width(0).set_height(0);
    assert!(t.mime().is_empty());
    assert_eq!(t.width(), 0);
    assert_eq!(t.height(), 0);
}

// ---- VideoTrack ----------------------------------------------------------

#[test]
fn track_try_new_happy_path_video() {
    let id = Uuid7::new();
    let video_id = Uuid7::new();
    let t = VideoTrack::try_new(id, video_id).unwrap();
    assert_eq!(t.id_ref(), &id);
    assert_eq!(t.video_id_ref(), &video_id);
    assert_eq!(t.bit_rate(), 0);
    assert!(t.codec_ref().is_other());
    assert_eq!(t.dimensions(), Dimensions::new(0, 0));
    assert!(t.scenes_slice().is_empty());
    assert!(t.index_status().is_empty());
    assert!(t.index_errors_slice().is_empty());
    assert!(t.provenance_ref().is_empty());
}

#[test]
fn track_try_new_rejects_nil_id_and_parent() {
    assert_eq!(VideoTrack::try_new(Uuid7::nil(), Uuid7::new()).err(), Some(VideoTrackError::NilId));
    assert_eq!(VideoTrack::try_new(Uuid7::new(), Uuid7::nil()).err(), Some(VideoTrackError::NilVideoId));
    assert!(VideoTrackError::NilId.is_nil_id());
    assert!(VideoTrackError::NilVideoId.is_nil_video_id());
}

#[test]
fn track_builders_and_setters_chain() {
    let s1 = Uuid7::new();
    let s2 = Uuid7::new();
    let fr = FrameRate::new(Rational::new(24000, NonZeroI64::new(1001).unwrap()), false);
    let t = VideoTrack::try_new(Uuid7::new(), Uuid7::new())
        .unwrap()
        .with_stream_index(Some(0))
        .with_codec(VideoCodec::Hevc)
        .with_profile(Some(String::from("Main10")))
        .with_level(Some(150))
        .with_bit_rate(8_000_000)
        .try_with_dimensions(Dimensions::new(3840, 2160))
        .unwrap()
        .with_frame_rate(fr)
        .with_pixel_format(PixelFormat::default())
        .with_has_b_frames(true)
        .with_is_primary(true)
        .with_scenes(vec![s1, s2])
        .with_index_status(VideoIndexStatus::PROBED())
        .with_index_errors(vec![ErrorInfo::code_only(ErrorCode::SceneDetectionFailed)])
        .with_provenance(Provenance::from_parts("qwen2-vl-7b", "v0.3.0", "p@1", "idx-0.1.0"));
    assert_eq!(t.stream_index(), Some(0));
    assert!(matches!(t.codec_ref(), VideoCodec::Hevc));
    assert_eq!(t.profile(), Some("Main10"));
    assert_eq!(t.level(), Some(150));
    assert_eq!(t.bit_rate(), 8_000_000);
    assert_eq!(t.dimensions(), Dimensions::new(3840, 2160));
    assert_eq!(t.frame_rate(), fr);
    assert!(t.has_b_frames());
    assert!(t.is_primary());
    assert_eq!(t.scenes_slice().len(), 2);
    assert!(t.scenes_slice().contains(&s1));
    assert_eq!(t.index_status(), VideoIndexStatus::PROBED());
    assert_eq!(t.index_errors_slice().len(), 1);
    assert_eq!(t.provenance_ref().model_name(), "qwen2-vl-7b");

    let mut t = t;
    t.set_bit_rate(0);
    t.try_set_dimensions(Dimensions::new(0, 0)).unwrap();
    t.set_is_primary(false);
    t.set_index_status(VideoIndexStatus::empty());
    t.set_scenes(Vec::<Uuid7>::new());
    assert_eq!(t.bit_rate(), 0);
    assert_eq!(t.dimensions(), Dimensions::new(0, 0));
    assert!(!t.is_primary());
    assert!(t.index_status().is_empty());
    assert!(t.scenes_slice().is_empty());
}

#[test]
fn duration_rejects_negative_timestamp() {
    let t = VideoTrack::try_new(Uuid7::new(), Uuid7::new()).unwrap();
    assert_eq!(
        t.clone().try_with_duration(Some(MediaTimestamp::new(-1, tb()))).err(),
        Some(VideoTrackError::NegativeDuration)
    );
    let mut t = t;
    assert_eq!(
        t.try_set_duration(Some(MediaTimestamp::new(-5_000, tb()))).err(),
        Some(VideoTrackError::NegativeDuration)
    );
    assert!(t.duration_ref().is_none());
    assert!(VideoTrackError::NegativeDuration.is_negative_duration());
    let t = t
        .try_with_duration(Some(MediaTimestamp::new(0, tb())))
        .unwrap()
        .try_with_duration(Some(MediaTimestamp::new(48_000, tb())))
        .unwrap();
    assert_eq!(t.duration_ref().map(MediaTimestamp::pts), Some(48_000));
    let mut t = t;
    t.try_set_duration(None).unwrap();
    assert!(t.duration_ref().is_none());
}

#[test]
fn codec_other_preserves_wire_string() {
    let c = VideoCodec::other("xyz-codec");
    assert!(c.is_other());
    assert_eq!(c.as_str(), "xyz-codec");
}

#[test]
fn mediaframe_descriptors_flow_through() {
    let t = VideoTrack::try_new(Uuid7::new(), Uuid7::new())
        .unwrap()
        .try_with_dimensions(Dimensions::new(1920, 1080))
        .unwrap()
        .try_with_visible_rect(Some(Rect::new(0, 0, 1920, 1080)))
        .unwrap()
        .with_sample_aspect_ratio(SampleAspectRatio::new(16, NonZeroI64::new(9).unwrap()))
        .with_rotation(Rotation::D90)
        .with_field_order(FieldOrder::Progressive)
        .with_stereo_mode(Some(StereoMode::SideBySide))
        .with_color(ColorInfo::UNSPECIFIED)
        .with_hdr_static(Some(HdrStaticMetadata::new(None, None)))
        .with_dovi(Some(DolbyVisionConfig::new(8, 9, true, false, 1)))
        .with_disposition(TrackDisposition::empty());
    assert_eq!(t.visible_rect().unwrap().width(), 1920);
    assert_eq!(t.sample_aspect_ratio().num(), 16);
    assert!(matches!(t.rotation(), Rotation::D90));
    assert!(matches!(t.field_order(), FieldOrder::Progressive));
    assert!(matches!(t.stereo_mode(), Some(StereoMode::SideBySide)));
    assert_eq!(t.color_ref(), &ColorInfo::UNSPECIFIED);
    assert!(t.hdr_static_ref().is_some());
    assert_eq!(t.dovi().unwrap().profile(), 8);
    assert!(t.disposition().is_empty());
}

#[test]
fn crop_must_fit_within_coded_dimensions() {
    let t = VideoTrack::try_new(Uuid7::new(), Uuid7::new())
        .unwrap()
        .try_with_dimensions(Dimensions::new(1920, 1080))
        .unwrap();
    assert_eq!(
        t.clone().try_with_visible_rect(Some(Rect::new(100, 0, 1900, 1080))).err(),
        Some(VideoTrackError::CropExceedsDimensions)
    );
    assert_eq!(
        t.clone().try_with_visible_rect(Some(Rect::new(0, 100, 1920, 1000))).err(),
        Some(VideoTrackError::CropExceedsDimensions)
    );
    assert!(VideoTrackError::CropExceedsDimensions.is_crop_exceeds_dimensions());
    let t = t.try_with_visible_rect(Some(Rect::new(0, 0, 1920, 1080))).unwrap();
    let mut t = t;
    assert_eq!(
        t.try_set_dimensions(Dimensions::new(1280, 720)).err(),
        Some(VideoTrackError::CropExceedsDimensions)
    );
    assert_eq!(t.dimensions(), Dimensions::new(1920, 1080));
    assert_eq!(t.visible_rect(), Some(Rect::new(0, 0, 1920, 1080)));
    assert_eq!(
        t.try_set_visible_rect(Some(Rect::new(0, 0, 4000, 4000))).err(),
        Some(VideoTrackError::CropExceedsDimensions)
    );
    assert_eq!(t.visible_rect(), Some(Rect::new(0, 0, 1920, 1080)));
    t.try_set_dimensions(Dimensions::new(3840, 2160)).unwrap();
    t.try_set_visible_rect(None).unwrap();
    assert!(t.visible_rect().is_none());
    t.try_set_dimensions(Dimensions::new(0, 0)).unwrap();
}

#[test]
fn dimensions_reject_partial_zero() {
    let mut t = VideoTrack::try_new(Uuid7::new(), Uuid7::new()).unwrap();
    assert_eq!(
        t.try_set_dimensions(Dimensions::new(0, 1080)).err(),
        Some(VideoTrackError::PartialZeroDimensions)
    );
    assert_eq!(
        t.try_set_dimensions(Dimensions::new(1920, 0)).err(),
        Some(VideoTrackError::PartialZeroDimensions)
    );
    assert_eq!(t.dimensions(), Dimensions::new(0, 0));
    assert!(VideoTrackError::PartialZeroDimensions.is_partial_zero_dimensions());
    t.try_set_dimensions(Dimensions::new(0, 0)).unwrap();
    t.try_set_dimensions(Dimensions::new(1920, 1080)).unwrap();
}

#[test]
fn crop_rejects_zero_extent_and_unknown_dimensions() {
    let t = VideoTrack::try_new(Uuid7::new(), Uuid7::new()).unwrap();
    assert_eq!(
        t.clone().try_with_visible_rect(Some(Rect::new(0, 0, 100, 100))).err(),
        Some(VideoTrackError::CropWithoutDimensions)
    );
    assert!(VideoTrackError::CropWithoutDimensions.is_crop_without_dimensions());
    let t = t.try_with_dimensions(Dimensions::new(1920, 1080)).unwrap();
    assert_eq!(
        t.clone().try_with_visible_rect(Some(Rect::new(0, 0, 0, 1080))).err(),
        Some(VideoTrackError::ZeroExtentCrop)
    );
    assert_eq!(
        t.clone().try_with_visible_rect(Some(Rect::new(0, 0, 1920, 0))).err(),
        Some(VideoTrackError::ZeroExtentCrop)
    );
    assert!(VideoTrackError::ZeroExtentCrop.is_zero_extent_crop());
    let t = t.try_with_visible_rect(Some(Rect::new(10, 10, 100, 100))).unwrap();
    assert_eq!(t.visible_rect(), Some(Rect::new(10, 10, 100, 100)));
}

#[test]
fn crop_offset_overflow_counts_as_outside() {
    let t = VideoTrack::try_new(Uuid7::new(), Uuid7::new())
        .unwrap()
        .try_with_dimensions(Dimensions::new(u32::MAX, u32::MAX))
        .unwrap();
    assert_eq!(
        t.clone().try_with_visible_rect(Some(Rect::new(u32::MAX, 0, 1, 1))).err(),
        Some(VideoTrackError::CropExceedsDimensions)
    );
    let t = t.try_with_visible_rect(Some(Rect::new(u32::MAX - 1, 0, 1, 1))).unwrap();
    let parts = t.clone().into_parts();
    let back = VideoTrack::rehydrate(parts);
    assert_eq!(back, t);
}

#[test]
fn scene_parts_round_trip() {
    let kf = Uuid7::new();
    let s = Scene::try_new(Uuid7::new(), Uuid7::new(), 2, TimeRange::new(0, 5_000, tb()), SceneDetector::Content)
        .unwrap()
        .with_keyframes(vec![kf])
        .with_description("a kitchen");
    let parts: SceneParts = s.clone().into_parts();
    assert_eq!(parts.index, 2);
    assert_eq!(parts.keyframes, vec![kf]);
    assert_eq!(parts.description, "a kitchen");
    assert_eq!(parts.span.end_pts(), 5_000);
    assert_eq!(Scene::rehydrate(parts), s);
}

#[test]
fn time_values_compare_by_value() {
    let half = Timebase::new(1, 2);
    let two_quarters = Timebase::new(2, 4);
    assert_eq!(half, two_quarters);
    assert_ne!(half, Timebase::new(1, 3));
    assert_eq!(MediaTimestamp::new(1, half), MediaTimestamp::new(1, two_quarters));
    assert_eq!(MediaTimestamp::new(1, Timebase::new(1, 1)), MediaTimestamp::new(90_000, Timebase::new(1, 90_000)));
    assert_ne!(MediaTimestamp::new(1, half), MediaTimestamp::new(2, two_quarters));
    // Under a zero-numerator timebase every tick names instant zero.
    assert_eq!(MediaTimestamp::new(7, Timebase::new(0, 3)), MediaTimestamp::new(0, Timebase::new(1, 5)));
    // Ranges compare their counts as written and their timebases by value.
    assert_eq!(TimeRange::new(1_500, 3_250, Timebase::new(1, 1_000)), TimeRange::new(1_500, 3_250, Timebase::new(2, 2_000)));
    assert_ne!(TimeRange::new(1_500, 3_250, Timebase::new(1, 1_000)), TimeRange::new(135_000, 292_500, Timebase::new(1, 90_000)));
}

#[test]
fn video_track_clone_keeps_every_field() {
    let t = VideoTrack::try_new(Uuid7::new(), Uuid7::new())
        .unwrap()
        .with_bit_rate(8_000_000)
        .with_profile(Some(String::from("High")));
    let c = t.clone();
    assert_eq!(c, t);
    assert_eq!(c.bit_rate(), 8_000_000);
}
