use mediaschema::enums::{AudioIndexStage, KeyframeExtractor, MediaKind, SceneDetector, SubtitleIndexStage, VideoIndexStage};
use mediaschema::errors::{ErrorCode, ErrorInfo};
use mediaschema::flags::{AudioIndexStatus, MediaErrorFlags, SubtitleIndexStatus, VideoIndexStatus};

#[test]
fn media_error_flags_bit_values() {
    assert_eq!(MediaErrorFlags::VIDEO_ERROR().bits(), 0x0001);
    assert_eq!(MediaErrorFlags::AUDIO_ERROR().bits(), 0x0002);
    assert_eq!(MediaErrorFlags::SUBTITLE_ERROR().bits(), 0x0004);
}

#[test]
fn video_index_status_verified_vs_findit_proto() {
    assert_eq!(VideoIndexStatus::PROBED().bits(), 0x01);
    assert_eq!(VideoIndexStatus::SCENE_DETECTED().bits(), 0x02);
    assert_eq!(VideoIndexStatus::KEYFRAME_EXTRACTED().bits(), 0x04);
    assert_eq!(VideoIndexStatus::VLM_ANALYZED().bits(), 0x10);
    assert_eq!(VideoIndexStatus::APPLE_VISION_ANALYZED().bits(), 0x20);
    assert_eq!(VideoIndexStatus::TEXT_EMBEDDING_FINISHED().bits(), 0x40);
    assert_eq!(VideoIndexStatus::SCENE_EMBEDDING_FINISHED().bits(), 0x80);
    assert_ne!(VideoIndexStatus::VLM_ANALYZED(), VideoIndexStatus::APPLE_VISION_ANALYZED());
    assert_ne!(VideoIndexStatus::TEXT_EMBEDDING_FINISHED(), VideoIndexStatus::SCENE_EMBEDDING_FINISHED());
}

#[test]
fn video_index_status_fully_indexed() {
    let mask = VideoIndexStatus::fully_indexed_mask();
    assert!(mask.is_fully_indexed());
    assert_eq!(mask.bits() & 0x08, 0);
    for bit in [
        VideoIndexStatus::PROBED(),
        VideoIndexStatus::SCENE_DETECTED(),
        VideoIndexStatus::KEYFRAME_EXTRACTED(),
        VideoIndexStatus::VLM_ANALYZED(),
        VideoIndexStatus::APPLE_VISION_ANALYZED(),
        VideoIndexStatus::TEXT_EMBEDDING_FINISHED(),
        VideoIndexStatus::SCENE_EMBEDDING_FINISHED(),
    ] {
        assert!(mask.contains(bit), "fully_indexed_mask must contain {bit:?}");
    }
    assert!(!VideoIndexStatus::empty().is_fully_indexed());
}

#[test]
fn audio_index_status_verified_11_bit_processing_stage() {
    assert_eq!(AudioIndexStatus::EXTRACTED().bits(), 0x001);
    assert_eq!(AudioIndexStatus::CLASSIFIED().bits(), 0x002);
    assert_eq!(AudioIndexStatus::VAD_DONE().bits(), 0x004);
    assert_eq!(AudioIndexStatus::STT_DONE().bits(), 0x008);
    assert_eq!(AudioIndexStatus::SPEAKER_DONE().bits(), 0x010);
    assert_eq!(AudioIndexStatus::LLM_DONE().bits(), 0x020);
    assert_eq!(AudioIndexStatus::TEXT_EMBED().bits(), 0x040);
    assert_eq!(AudioIndexStatus::CED_DONE().bits(), 0x080);
    assert_eq!(AudioIndexStatus::CLAP_DONE().bits(), 0x100);
    assert_eq!(AudioIndexStatus::EBUR128_DONE().bits(), 0x200);
    assert_eq!(AudioIndexStatus::FPRINT_DONE().bits(), 0x400);
    assert_eq!(AudioIndexStatus::fully_indexed_mask().bits(), 0x7FF);
}

#[test]
fn subtitle_index_status_verified_names_and_bits() {
    assert_eq!(SubtitleIndexStatus::TRACKS_DISCOVERED().bits(), 0x01);
    assert_eq!(SubtitleIndexStatus::CUES_EXTRACTED().bits(), 0x02);
    assert_eq!(SubtitleIndexStatus::OCR_DONE().bits(), 0x04);
    assert_eq!(SubtitleIndexStatus::SEARCH_INDEXED().bits(), 0x08);
    assert_eq!(SubtitleIndexStatus::fully_indexed_mask().bits(), 0x0F);
}

#[test]
fn bitflags_default_is_empty() {
    assert_eq!(VideoIndexStatus::default(), VideoIndexStatus::empty());
    assert_eq!(AudioIndexStatus::default(), AudioIndexStatus::empty());
    assert_eq!(SubtitleIndexStatus::default(), SubtitleIndexStatus::empty());
    assert_eq!(MediaErrorFlags::default(), MediaErrorFlags::empty());
}

#[test]
fn media_kind_default_video() {
    assert_eq!(MediaKind::default(), MediaKind::Video);
}

#[test]
fn keyframe_extractor_superset_of_scene_detector() {
    let _ = SceneDetector::Histogram;
    let _ = KeyframeExtractor::Histogram;
    let _ = KeyframeExtractor::Phash;
    let _ = KeyframeExtractor::Threshold;
    let _ = KeyframeExtractor::Content;
    let _ = KeyframeExtractor::Adaptive;
    let _ = KeyframeExtractor::Manual;
    let _ = KeyframeExtractor::CompositeQuality;
    let _ = KeyframeExtractor::Interval;
    let _ = KeyframeExtractor::IFrame;
    let _ = KeyframeExtractor::SceneRepresentative;
}

fn probe_error() -> Vec<ErrorInfo> {
    vec![ErrorInfo::code_only(ErrorCode::ProbeCorrupt)]
}

#[test]
fn video_index_stage_progression() {
    type S = VideoIndexStatus;
    let no_err: &[ErrorInfo] = &[];
    assert_eq!(VideoIndexStage::from_status(S::empty(), no_err), VideoIndexStage::Pending);
    assert_eq!(VideoIndexStage::from_status(S::PROBED(), no_err), VideoIndexStage::Probed);
    assert_eq!(
        VideoIndexStage::from_status(S::PROBED() | S::SCENE_DETECTED(), no_err),
        VideoIndexStage::SceneDetected
    );
    assert_eq!(
        VideoIndexStage::from_status(S::PROBED() | S::SCENE_DETECTED() | S::KEYFRAME_EXTRACTED(), no_err),
        VideoIndexStage::KeyframeExtracted
    );
    assert_eq!(
        VideoIndexStage::from_status(
            S::PROBED() | S::SCENE_DETECTED() | S::KEYFRAME_EXTRACTED() | S::VLM_ANALYZED(),
            no_err
        ),
        VideoIndexStage::Analyzed
    );
    assert_eq!(
        VideoIndexStage::from_status(
            S::PROBED()
                | S::SCENE_DETECTED()
                | S::KEYFRAME_EXTRACTED()
                | S::APPLE_VISION_ANALYZED()
                | S::TEXT_EMBEDDING_FINISHED(),
            no_err
        ),
        VideoIndexStage::Embedded
    );
    assert_eq!(VideoIndexStage::from_status(S::fully_indexed_mask(), no_err), VideoIndexStage::Done);
}

#[test]
fn video_index_stage_contiguous_walk_does_not_jump_on_out_of_order_bits() {
    type S = VideoIndexStatus;
    let no_err: &[ErrorInfo] = &[];
    let stray = S::TEXT_EMBEDDING_FINISHED();
    assert_eq!(
        VideoIndexStage::from_status(stray, no_err),
        VideoIndexStage::Pending,
        "stray late bit must not advance stage"
    );
    assert_eq!(
        VideoIndexStage::from_status(S::PROBED() | S::TEXT_EMBEDDING_FINISHED(), no_err),
        VideoIndexStage::Probed,
    );
}

#[test]
fn video_index_stage_failed_precedence_on_live_errors_only() {
    type S = VideoIndexStatus;
    assert_eq!(VideoIndexStage::from_status(S::empty(), &probe_error()), VideoIndexStage::Failed);
    assert_eq!(
        VideoIndexStage::from_status(S::PROBED(), &probe_error()),
        VideoIndexStage::Probed,
        "successful retry must clear stale stage errors"
    );
    let mixed = vec![
        ErrorInfo::code_only(ErrorCode::ProbeCorrupt),
        ErrorInfo::code_only(ErrorCode::SceneDetectionFailed),
    ];
    assert_eq!(VideoIndexStage::from_status(S::PROBED(), &mixed), VideoIndexStage::Failed);
}

#[test]
fn audio_index_stage_progression() {
    type S = AudioIndexStatus;
    let no_err: &[ErrorInfo] = &[];
    assert_eq!(AudioIndexStage::from_status(S::empty(), no_err), AudioIndexStage::Pending);
    assert_eq!(AudioIndexStage::from_status(S::EXTRACTED(), no_err), AudioIndexStage::Extracted);
    assert_eq!(
        AudioIndexStage::from_status(S::EXTRACTED() | S::VAD_DONE(), no_err),
        AudioIndexStage::Analyzed
    );
    assert_eq!(
        AudioIndexStage::from_status(S::EXTRACTED() | S::CLASSIFIED() | S::VAD_DONE() | S::STT_DONE(), no_err),
        AudioIndexStage::Transcribed
    );
    assert_eq!(
        AudioIndexStage::from_status(
            S::EXTRACTED() | S::CLASSIFIED() | S::VAD_DONE() | S::STT_DONE() | S::SPEAKER_DONE(),
            no_err
        ),
        AudioIndexStage::Diarized
    );
    assert_eq!(AudioIndexStage::from_status(S::fully_indexed_mask(), no_err), AudioIndexStage::Done);
    assert_eq!(AudioIndexStage::from_status(S::empty(), &probe_error()), AudioIndexStage::Failed);
}

#[test]
fn audio_index_stage_contiguous_walk() {
    type S = AudioIndexStatus;
    let no_err: &[ErrorInfo] = &[];
    assert_eq!(AudioIndexStage::from_status(S::STT_DONE(), no_err), AudioIndexStage::Pending);
}

#[test]
fn subtitle_text_track_reaches_done_without_ocr() {
    type S = SubtitleIndexStatus;
    let no_err: &[ErrorInfo] = &[];
    let status = S::TRACKS_DISCOVERED() | S::CUES_EXTRACTED() | S::SEARCH_INDEXED();
    assert_eq!(SubtitleIndexStage::from_status(status, false, no_err), SubtitleIndexStage::Done);
    assert_ne!(SubtitleIndexStage::from_status(status, true, no_err), SubtitleIndexStage::Done);
}

#[test]
fn subtitle_index_stage_progression() {
    type S = SubtitleIndexStatus;
    let no_err: &[ErrorInfo] = &[];
    assert_eq!(SubtitleIndexStage::from_status(S::empty(), true, no_err), SubtitleIndexStage::Pending);
    assert_eq!(
        SubtitleIndexStage::from_status(S::TRACKS_DISCOVERED(), true, no_err),
        SubtitleIndexStage::TracksDiscovered
    );
    assert_eq!(
        SubtitleIndexStage::from_status(S::TRACKS_DISCOVERED() | S::CUES_EXTRACTED(), true, no_err),
        SubtitleIndexStage::CuesExtracted
    );
    assert_eq!(
        SubtitleIndexStage::from_status(S::TRACKS_DISCOVERED() | S::CUES_EXTRACTED() | S::OCR_DONE(), true, no_err),
        SubtitleIndexStage::Ocr
    );
    assert_eq!(
        SubtitleIndexStage::from_status(S::expected_mask(true), true, no_err),
        SubtitleIndexStage::Done
    );
    assert_eq!(SubtitleIndexStage::from_status(S::empty(), true, &probe_error()), SubtitleIndexStage::Failed);
}
