use mediaschema::identified::Identified;
use mediaframe::codec::SubtitleCodec;
use mediaschema::audio_probe::AudioProbe;
use mediaschema::time::{MediaTimestamp, Timebase};
use mediaschema::subtitle_track::{check_subtitle_track, SubtitleTrackError};
use mediaschema::detection_kinds::{BodyPose3DHeightEstimation, DetectionError, HandChirality};
use mediaframe::lang::Language;
use mediaframe::subtitle::Format;
use mediaschema::audio_rules::{check_audio_track, check_channels, check_index_status, check_sample_rate, language_mismatch};
use mediaschema::enums::{CedDetector, KeyframeRole, SubtitleIndexStage};
use mediaschema::errors::ErrorInfo;
use mediaschema::flags::{AudioIndexStatus, SubtitleIndexStatus};
use mediaschema::geometry::Dimensions;
use mediaschema::keyframe_rules::{check_keyframe, check_keyframe_dimensions, KeyframeError};
use mediaschema::primitives::Uuid7;
use mediaschema::stages::AudioTrackError;
use mediaschema::subtitle_ocr::{
    image_based_of, requires_ocr_of, track_image_based, track_index_stage, track_is_fully_indexed,
    track_requires_ocr,
};

// ---- Subtitle OCR gating ---------------------------------------------------

#[test]
fn image_based_known_bitmap_codec_forces_ocr_despite_default_format() {
    let codec = SubtitleCodec::HdmvPgsSubtitle;
    let format = Format::default();
    assert_eq!(codec.is_image_based(), Some(true));
    assert_eq!(track_image_based(&codec, &format), Some(true));
    assert!(track_requires_ocr(&codec, &format), "known bitmap codec must require OCR");
}

#[test]
fn image_based_dvbsub_codec_with_other_format() {
    let codec = SubtitleCodec::DvbSubtitle;
    let format = Format::other("weird");
    assert_eq!(track_image_based(&codec, &format), Some(true));
    assert!(track_requires_ocr(&codec, &format));
}

#[test]
fn image_based_text_codec_and_format_not_ocr() {
    let codec = SubtitleCodec::Ass;
    let format = Format::Ass;
    assert_eq!(track_image_based(&codec, &format), Some(false));
    assert!(!track_requires_ocr(&codec, &format));
}

#[test]
fn image_based_unknown_on_both_axes_conservatively_requires_ocr() {
    let codec = SubtitleCodec::other("mystery");
    let format = Format::other("mystery");
    assert_eq!(track_image_based(&codec, &format), None);
    assert!(track_requires_ocr(&codec, &format), "an unclassified track must never under-require OCR");
}

#[test]
fn unknown_track_with_text_complete_bits_is_not_done() {
    type S = SubtitleIndexStatus;
    let codec = SubtitleCodec::other("mystery");
    let format = Format::other("mystery");
    let status = S::TRACKS_DISCOVERED() | S::CUES_EXTRACTED() | S::SEARCH_INDEXED();
    let no_err: &[ErrorInfo] = &[];
    assert!(track_requires_ocr(&codec, &format));
    assert!(!track_is_fully_indexed(status, &codec, &format));
    assert_ne!(track_index_stage(status, &codec, &format, no_err), SubtitleIndexStage::Done);
    let done = S::expected_mask(true);
    assert!(track_is_fully_indexed(done, &codec, &format));
    assert_eq!(track_index_stage(done, &codec, &format, no_err), SubtitleIndexStage::Done);
}

#[test]
fn image_based_known_bitmap_format_with_other_codec() {
    let codec = SubtitleCodec::other("");
    let format = Format::HdmvPgs;
    assert_eq!(track_image_based(&codec, &format), Some(true));
    assert!(track_requires_ocr(&codec, &format));
}

#[test]
fn image_based_combination_table() {
    assert_eq!(image_based_of(Some(true), Some(false)), Some(true));
    assert_eq!(image_based_of(Some(false), Some(true)), Some(true));
    assert_eq!(image_based_of(None, Some(false)), Some(false));
    assert_eq!(image_based_of(Some(false), None), Some(false));
    assert_eq!(image_based_of(None, None), None);
    assert!(requires_ocr_of(None));
    assert!(requires_ocr_of(Some(true)));
    assert!(!requires_ocr_of(Some(false)));
}

#[test]
fn text_track_is_complete_without_ocr_done() {
    type S = SubtitleIndexStatus;
    let codec = SubtitleCodec::Subrip;
    let format = Format::Srt;
    let status = S::TRACKS_DISCOVERED() | S::CUES_EXTRACTED() | S::SEARCH_INDEXED();
    assert!(track_is_fully_indexed(status, &codec, &format));
    assert_eq!(track_index_stage(status, &codec, &format, &[]), SubtitleIndexStage::Done);
}

// ---- Audio track rules -----------------------------------------------------

#[test]
fn index_status_rejects_stage_bit_without_prerequisites() {
    type S = AudioIndexStatus;
    assert_eq!(check_index_status(S::STT_DONE(), 48_000, 2), Err(AudioTrackError::StatusOutOfOrder));
    assert_eq!(
        check_index_status(S::EXTRACTED() | S::STT_DONE(), 48_000, 2),
        Err(AudioTrackError::StatusOutOfOrder)
    );
    assert_eq!(
        check_index_status(S::EXTRACTED() | S::VAD_DONE() | S::SPEAKER_DONE(), 48_000, 2),
        Err(AudioTrackError::StatusOutOfOrder)
    );
    assert_eq!(
        check_index_status(S::EXTRACTED() | S::VAD_DONE() | S::STT_DONE() | S::TEXT_EMBED(), 48_000, 2),
        Err(AudioTrackError::StatusOutOfOrder)
    );
    assert!(AudioTrackError::StatusOutOfOrder.is_status_out_of_order());
}

#[test]
fn index_status_accepts_valid_contiguous_masks() {
    type S = AudioIndexStatus;
    for s in [
        S::empty(),
        S::EXTRACTED(),
        S::EXTRACTED() | S::CLASSIFIED(),
        S::EXTRACTED() | S::VAD_DONE() | S::STT_DONE(),
        S::EXTRACTED() | S::VAD_DONE() | S::STT_DONE() | S::SPEAKER_DONE() | S::TEXT_EMBED(),
        S::fully_indexed_mask(),
    ] {
        assert_eq!(check_index_status(s, 48_000, 2), Ok(()), "{s:?}");
    }
}

#[test]
fn index_status_rejects_unknown_bits() {
    let s = AudioIndexStatus::from_bits_retain(0x800 | 0x001);
    assert_eq!(check_index_status(s, 48_000, 2), Err(AudioTrackError::UnknownStatusBits));
    assert!(AudioTrackError::UnknownStatusBits.is_unknown_status_bits());
}

#[test]
fn extracted_status_rejected_without_descriptor() {
    let s = AudioIndexStatus::EXTRACTED();
    assert_eq!(check_index_status(s, 0, 2), Err(AudioTrackError::ExtractedWithoutDescriptor));
    assert_eq!(check_index_status(s, 48_000, 0), Err(AudioTrackError::ExtractedWithoutDescriptor));
    assert_eq!(check_index_status(s, 48_000, 2), Ok(()));
    assert_eq!(check_index_status(AudioIndexStatus::empty(), 0, 0), Ok(()));
}

#[test]
fn clearing_descriptor_on_extracted_track_rejected() {
    let extracted = AudioIndexStatus::EXTRACTED();
    assert_eq!(check_sample_rate(0, extracted), Err(AudioTrackError::ProbedDescriptorCleared));
    assert_eq!(check_channels(0, extracted), Err(AudioTrackError::ProbedDescriptorCleared));
    assert_eq!(check_sample_rate(44_100, extracted), Ok(()));
    assert_eq!(check_channels(0, AudioIndexStatus::empty()), Ok(()));
    assert_eq!(
        AudioTrackError::ProbedDescriptorCleared.message(),
        "AudioTrack sample_rate/channels cannot be cleared to 0 once the track is EXTRACTED"
    );
}

#[test]
fn language_mismatch_is_derived_from_languages() {
    let en = Language::new("en").unwrap();
    let fr = Language::new("fr").unwrap();
    assert!(language_mismatch(Some(en), Some(fr)));
    assert!(!language_mismatch(Some(en), Some(en)));
    assert!(!language_mismatch(Some(en), None));
    assert!(!language_mismatch(None, Some(fr)));
    assert!(!language_mismatch(None, None));
}

// ---- Keyframe rules ---------------------------------------------------------

#[test]
fn keyframe_rules_reject_nil_ids_and_zero_dimensions() {
    let dims = Dimensions::new(320, 180);
    assert_eq!(check_keyframe(Uuid7::new(), Some(Uuid7::new()), Uuid7::new(), dims), Ok(()));
    assert_eq!(check_keyframe(Uuid7::nil(), Some(Uuid7::nil()), Uuid7::nil(), dims), Err(KeyframeError::NilSceneId));
    assert_eq!(check_keyframe(Uuid7::nil(), Some(Uuid7::new()), Uuid7::new(), dims), Err(KeyframeError::NilId));
    assert_eq!(check_keyframe(Uuid7::new(), None, Uuid7::nil(), dims), Err(KeyframeError::NilThumbnailId));
    assert_eq!(
        check_keyframe(Uuid7::new(), None, Uuid7::new(), Dimensions::new(0, 180)),
        Err(KeyframeError::ZeroDimensions)
    );
    assert_eq!(check_keyframe(Uuid7::new(), None, Uuid7::new(), dims), Ok(()));
    assert_eq!(check_keyframe_dimensions(Dimensions::new(320, 0)), Err(KeyframeError::ZeroDimensions));
    assert_eq!(check_keyframe_dimensions(dims), Ok(()));
    assert!(KeyframeError::ZeroDimensions.is_zero_dimensions());
    assert!(KeyframeRole::Cover.is_cover());
    assert!(KeyframeRole::Scene.is_scene());
}

// ---- Track identities and analysis vocabularies ------------------------------

#[test]
fn subtitle_track_identity_rule() {
    assert_eq!(check_subtitle_track(Uuid7::new(), Uuid7::new()), Ok(()));
    assert_eq!(check_subtitle_track(Uuid7::nil(), Uuid7::nil()), Err(SubtitleTrackError::NilId));
    assert_eq!(check_subtitle_track(Uuid7::new(), Uuid7::nil()), Err(SubtitleTrackError::NilParent));
    assert_eq!(SubtitleTrackError::NilId.message(), "SubtitleTrack id must not be the nil UUID");
    assert!(SubtitleTrackError::NilParent.is_nil_parent());
}

#[test]
fn audio_track_identity_rule() {
    assert_eq!(check_audio_track(Uuid7::new(), Uuid7::new()), Ok(()));
    assert_eq!(check_audio_track(Uuid7::nil(), Uuid7::new()), Err(AudioTrackError::NilId));
    assert_eq!(check_audio_track(Uuid7::new(), Uuid7::nil()), Err(AudioTrackError::NilAudioId));
}

#[test]
fn detection_vocabularies() {
    assert_eq!(HandChirality::default(), HandChirality::Unknown);
    assert!(HandChirality::Left.is_left());
    assert_eq!(BodyPose3DHeightEstimation::default(), BodyPose3DHeightEstimation::Unknown);
    assert!(BodyPose3DHeightEstimation::Measured.is_measured());
    assert_eq!(
        DetectionError::QuadSelfIntersecting.message(),
        "document quad must be simple (non-self-intersecting, consistent winding)"
    );
    assert!(DetectionError::BoxDegenerate.is_box_degenerate());
    assert!(!DetectionError::BoxDegenerate.is_box_out_of_bounds());
}

#[test]
fn ced_detector_vocabulary() {
    assert!(CedDetector::Ced.is_ced());
}

#[test]
fn audio_probe_keeps_descriptor_rule() {
    let mut p = AudioProbe::new();
    assert_eq!(p.sample_rate(), 0);
    assert_eq!(p.index_status(), AudioIndexStatus::empty());
    assert_eq!(
        p.try_set_index_status(AudioIndexStatus::EXTRACTED()),
        Err(AudioTrackError::ExtractedWithoutDescriptor)
    );
    assert_eq!(p.index_status(), AudioIndexStatus::empty());
    assert_eq!(p.try_set_sample_rate(48_000), Ok(()));
    assert_eq!(p.try_set_channels(2), Ok(()));
    assert_eq!(p.try_set_index_status(AudioIndexStatus::EXTRACTED()), Ok(()));
    assert_eq!(p.try_set_sample_rate(0), Err(AudioTrackError::ProbedDescriptorCleared));
    assert_eq!(p.try_set_channels(0), Err(AudioTrackError::ProbedDescriptorCleared));
    assert_eq!(p.sample_rate(), 48_000);
    assert_eq!(p.channels(), 2);
    assert_eq!(
        p.try_set_index_status(AudioIndexStatus::EXTRACTED() | AudioIndexStatus::STT_DONE()),
        Err(AudioTrackError::StatusOutOfOrder)
    );
    assert_eq!(p.index_status(), AudioIndexStatus::EXTRACTED());
}

#[test]
fn audio_probe_refuses_negative_duration() {
    let mut p = AudioProbe::default();
    let tb = Timebase::new(1, 1000);
    assert_eq!(
        p.try_set_duration(Some(MediaTimestamp::new(-1, tb))),
        Err(AudioTrackError::NegativeDuration)
    );
    assert_eq!(p.duration(), None);
    assert_eq!(p.try_set_duration(Some(MediaTimestamp::new(0, tb))), Ok(()));
    assert_eq!(p.duration(), Some(MediaTimestamp::new(0, tb)));
    assert_eq!(p.duration_ref().map(|d| d.pts()), Some(0));
    assert_eq!(p.try_set_duration(None), Ok(()));
    assert_eq!(p.duration(), None);
}

#[test]
fn identified_envelopes_equal_by_parts() {
    let id = Uuid7::new();
    assert_eq!(Identified::new(id, 5u32), Identified::new(id, 5u32));
    assert_ne!(Identified::new(id, 5u32), Identified::new(id, 6u32));
    assert_ne!(Identified::new(id, 5u32), Identified::new(Uuid7::new(), 5u32));
}

#[test]
fn subtitle_full_indexing_needs_ocr_only_for_image_tracks() {
    let text_done = SubtitleIndexStatus::TRACKS_DISCOVERED()
        | SubtitleIndexStatus::CUES_EXTRACTED()
        | SubtitleIndexStatus::SEARCH_INDEXED();
    assert!(text_done.is_fully_indexed_for(false));
    assert!(!text_done.is_fully_indexed_for(true));
    assert!(!text_done.is_fully_indexed());
    let all = text_done | SubtitleIndexStatus::OCR_DONE();
    assert!(all.is_fully_indexed_for(true));
    assert!(all.is_fully_indexed_for(false));
    assert!(!SubtitleIndexStatus::TRACKS_DISCOVERED().is_fully_indexed_for(false));
}
