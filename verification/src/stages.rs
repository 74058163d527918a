//! Derivation of the coarse indexing stages from a track's status bits and
//! its structured error history, and the audio status-topology check.
//!
//! A stage is **derived**, never stored: `Failed` wins when any error is
//! *live*; otherwise the stage is the furthest point of a contiguous walk over
//! the status bits (a later bit without its prerequisites does not advance
//! the stage). An error is *stale* — and ignored — once the success bit of
//! the stage it belongs to is set, so a successful retry clears it without
//! any change to the history.
use vstd::prelude::*;

use crate::enums::{AudioIndexStage, SubtitleIndexStage, VideoIndexStage};
use crate::errors::{ErrorCode, ErrorInfo};
use crate::flags::{
    audio_full_mask, audio_index_status_all_bits, subtitle_full_mask, video_full_mask,
    AudioIndexStatus, SubtitleIndexStatus, VideoIndexStatus,
};

verus! {

/// `m`'s bits all lie in `s`.
pub open spec fn has_all(s: u32, m: u32) -> bool {
    s & m == m
}

/// `s` shares a bit with `m`.
pub open spec fn has_any(s: u32, m: u32) -> bool {
    s & m != 0
}

/// Bits set in `a` stay set in any superset `b` of `a`.
proof fn lemma_superset_keeps(a: u32, b: u32, m: u32)
    requires
        a & b == a,
    ensures
        has_all(a, m) ==> has_all(b, m),
        has_any(a, m) ==> has_any(b, m),
{
    assert(a & b == a && a & m == m ==> b & m == m) by (bit_vector);
    assert(a & b == a && a & m != 0 ==> b & m != 0) by (bit_vector);
}

// ===========================================================================
// Video
// ===========================================================================

/// The stage success bits that resolve a video-pipeline error code, if the
/// code has a clean stage mapping.
pub open spec fn video_error_bits(c: ErrorCode) -> Option<u32> {
    match c {
        ErrorCode::ProbeCorrupt | ErrorCode::ProbeUnsupportedFormat
        | ErrorCode::ProbeNoVideoStream | ErrorCode::ProbeNoAudioStream => Some(0x01u32),
        ErrorCode::SceneDetectionFailed | ErrorCode::SceneDetectionModelError => Some(0x02u32),
        ErrorCode::VlmFailed | ErrorCode::VlmModelError => Some(0x10u32),
        ErrorCode::AppleVisionFailed | ErrorCode::AppleVisionRequestFailed => Some(0x20u32),
        ErrorCode::EmbeddingFailed | ErrorCode::EmbeddingModelError
        | ErrorCode::EmbeddingModelLoadFailed | ErrorCode::EmbeddingPreprocessFailed
        | ErrorCode::EmbeddingInferenceFailed | ErrorCode::EmbeddingOutputInvalid => Some(0xc0u32),
        _ => None,
    }
}

/// A video error is live unless one of its stage success bits is set.
pub open spec fn video_error_live(status: u32, c: ErrorCode) -> bool {
    match video_error_bits(c) {
        Some(b) => !has_any(status, b),
        None => true,
    }
}

/// Some error of the history is live against `status`.
pub open spec fn video_any_live(status: u32, errors: Seq<ErrorInfo>) -> bool {
    exists|i: int| 0 <= i < errors.len() && video_error_live(status, #[trigger] errors[i].code)
}

/// The contiguous progression of the video status bits (no error).
pub open spec fn video_progress(s: u32) -> VideoIndexStage {
    if has_all(s, video_full_mask()) {
        VideoIndexStage::Done
    } else if !has_all(s, 0x01) {
        VideoIndexStage::Pending
    } else if !has_all(s, 0x02) {
        VideoIndexStage::Probed
    } else if !has_all(s, 0x04) {
        VideoIndexStage::SceneDetected
    } else if !has_any(s, 0x30) {
        VideoIndexStage::KeyframeExtracted
    } else if !has_any(s, 0xc0) {
        VideoIndexStage::Analyzed
    } else {
        VideoIndexStage::Embedded
    }
}

/// The derived video stage: `Failed` on any live error, else the
/// progression.
pub open spec fn video_stage(status: u32, errors: Seq<ErrorInfo>) -> VideoIndexStage {
    if video_any_live(status, errors) {
        VideoIndexStage::Failed
    } else {
        video_progress(status)
    }
}

/// Position of a non-failed video stage along the progression.
pub open spec fn video_rank(st: VideoIndexStage) -> int {
    match st {
        VideoIndexStage::Pending => 0,
        VideoIndexStage::Probed => 1,
        VideoIndexStage::SceneDetected => 2,
        VideoIndexStage::KeyframeExtracted => 3,
        VideoIndexStage::Analyzed => 4,
        VideoIndexStage::Embedded => 5,
        VideoIndexStage::Done => 6,
        VideoIndexStage::Failed => -1,
    }
}

fn video_error_stage_bit(code: ErrorCode) -> (r: Option<VideoIndexStatus>)
    ensures
        match video_error_bits(code) {
            Some(b) => r matches Some(s) && s@ == b,
            None => r is None,
        },
{
    match code {
        ErrorCode::ProbeCorrupt | ErrorCode::ProbeUnsupportedFormat
        | ErrorCode::ProbeNoVideoStream | ErrorCode::ProbeNoAudioStream => Some(
            VideoIndexStatus::PROBED(),
        ),
        ErrorCode::SceneDetectionFailed | ErrorCode::SceneDetectionModelError => Some(
            VideoIndexStatus::SCENE_DETECTED(),
        ),
        ErrorCode::VlmFailed | ErrorCode::VlmModelError => Some(VideoIndexStatus::VLM_ANALYZED()),
        ErrorCode::AppleVisionFailed | ErrorCode::AppleVisionRequestFailed => Some(
            VideoIndexStatus::APPLE_VISION_ANALYZED(),
        ),
        ErrorCode::EmbeddingFailed | ErrorCode::EmbeddingModelError
        | ErrorCode::EmbeddingModelLoadFailed | ErrorCode::EmbeddingPreprocessFailed
        | ErrorCode::EmbeddingInferenceFailed | ErrorCode::EmbeddingOutputInvalid => Some(
            VideoIndexStatus::from_bits_retain(0xc0),
        ),
        _ => None,
    }
}

fn video_is_live(status: VideoIndexStatus, e: &ErrorInfo) -> (r: bool)
    ensures
        r == video_error_live(status@, e.code),
{
    match video_error_stage_bit(e.code) {
        Some(bit) => !status.intersects(bit),
        None => true,
    }
}

impl VideoIndexStage {
    /// Derive the coarse stage from the status bits and the structured
    /// error history.
    pub fn from_status(status: VideoIndexStatus, errors: &[ErrorInfo]) -> (r: Self)
        ensures
            r == video_stage(status@, errors@),
    {
        let mut i: usize = 0;
        while i < errors.len()
            invariant
                0 <= i <= errors@.len(),
                forall|j: int| 0 <= j < i ==> !video_error_live(status@, #[trigger] errors@[j].code),
            decreases errors@.len() - i,
        {
            if video_is_live(status, &errors[i]) {
                return VideoIndexStage::Failed;
            }
            i = i + 1;
        }
        if status.is_fully_indexed() {
            return VideoIndexStage::Done;
        }
        if !status.contains(VideoIndexStatus::PROBED()) {
            return VideoIndexStage::Pending;
        }
        if !status.contains(VideoIndexStatus::SCENE_DETECTED()) {
            return VideoIndexStage::Probed;
        }
        if !status.contains(VideoIndexStatus::KEYFRAME_EXTRACTED()) {
            return VideoIndexStage::SceneDetected;
        }
        if !status.intersects(VideoIndexStatus::from_bits_retain(0x30)) {
            return VideoIndexStage::KeyframeExtracted;
        }
        if !status.intersects(VideoIndexStatus::from_bits_retain(0xc0)) {
            return VideoIndexStage::Analyzed;
        }
        VideoIndexStage::Embedded
    }
}

/// Failed precedence: a live error makes the stage `Failed` whatever the
/// status; without one the stage is never `Failed`.
pub proof fn lemma_video_failed_iff_live(status: u32, errors: Seq<ErrorInfo>)
    ensures
        (video_stage(status, errors) == VideoIndexStage::Failed) <==> video_any_live(
            status,
            errors,
        ),
{
}

/// Stale errors are ignored: when every recorded error's stage has since
/// succeeded, the stage is the one an empty history gives.
pub proof fn lemma_video_stale_errors_ignored(status: u32, errors: Seq<ErrorInfo>)
    requires
        forall|i: int|
            0 <= i < errors.len() ==> (video_error_bits(#[trigger] errors[i].code) matches Some(b)
                && has_any(status, b)),
    ensures
        video_stage(status, errors) == video_stage(status, Seq::empty()),
{
    assert(!video_any_live(status, errors)) by {
        assert forall|i: int| 0 <= i < errors.len() implies !video_error_live(
            status,
            #[trigger] errors[i].code,
        ) by {
            assert(video_error_bits(errors[i].code) is Some);
        }
    }
}

/// For a single bit, sharing it and containing it are the same.
proof fn lemma_single_bit(s: u32)
    ensures
        has_any(s, 0x01) <==> has_all(s, 0x01),
        has_any(s, 0x02) <==> has_all(s, 0x02),
        has_any(s, 0x04) <==> has_all(s, 0x04),
        has_any(s, 0x08) <==> has_all(s, 0x08),
        has_any(s, 0x10) <==> has_all(s, 0x10),
        has_any(s, 0x20) <==> has_all(s, 0x20),
        has_any(s, 0x40) <==> has_all(s, 0x40),
        has_any(s, 0x80) <==> has_all(s, 0x80),
{
    assert(s & 0x01 != 0 <==> s & 0x01 == 0x01) by (bit_vector);
    assert(s & 0x02 != 0 <==> s & 0x02 == 0x02) by (bit_vector);
    assert(s & 0x04 != 0 <==> s & 0x04 == 0x04) by (bit_vector);
    assert(s & 0x08 != 0 <==> s & 0x08 == 0x08) by (bit_vector);
    assert(s & 0x10 != 0 <==> s & 0x10 == 0x10) by (bit_vector);
    assert(s & 0x20 != 0 <==> s & 0x20 == 0x20) by (bit_vector);
    assert(s & 0x40 != 0 <==> s & 0x40 == 0x40) by (bit_vector);
    assert(s & 0x80 != 0 <==> s & 0x80 == 0x80) by (bit_vector);
}
/// A single recorded video error is cleared exactly by the success of the
/// stage it belongs to: a probe error by `PROBED` (`0x01`), a
/// scene-detection error by `SCENE_DETECTED` (`0x02`), a VLM error by
/// `VLM_ANALYZED` (`0x10`), an Apple Vision error by
/// `APPLE_VISION_ANALYZED` (`0x20`), an embedding error by either embedding
/// bit (`0xc0`); any other code keeps the track `Failed` whatever the
/// status. A cleared error leaves the stage that the status alone gives.
pub proof fn lemma_video_error_cleared_by_its_stage(s: u32, e: ErrorInfo)
    ensures
        (e.code == ErrorCode::ProbeCorrupt || e.code == ErrorCode::ProbeUnsupportedFormat || e.code == ErrorCode::ProbeNoVideoStream || e.code == ErrorCode::ProbeNoAudioStream) ==> ((video_stage(s, seq![e]) == VideoIndexStage::Failed) <==> !has_all(s, 0x01)),
        (e.code == ErrorCode::SceneDetectionFailed || e.code == ErrorCode::SceneDetectionModelError) ==> ((video_stage(s, seq![e]) == VideoIndexStage::Failed) <==> !has_all(s, 0x02)),
        (e.code == ErrorCode::VlmFailed || e.code == ErrorCode::VlmModelError) ==> ((video_stage(s, seq![e]) == VideoIndexStage::Failed) <==> !has_all(s, 0x10)),
        (e.code == ErrorCode::AppleVisionFailed || e.code == ErrorCode::AppleVisionRequestFailed) ==> ((video_stage(s, seq![e]) == VideoIndexStage::Failed) <==> !has_all(s, 0x20)),
        (e.code == ErrorCode::EmbeddingFailed || e.code == ErrorCode::EmbeddingModelError || e.code == ErrorCode::EmbeddingModelLoadFailed || e.code == ErrorCode::EmbeddingPreprocessFailed || e.code == ErrorCode::EmbeddingInferenceFailed || e.code == ErrorCode::EmbeddingOutputInvalid) ==> ((video_stage(s, seq![e]) == VideoIndexStage::Failed) <==> !has_any(s, 0xc0)),
        !((e.code == ErrorCode::ProbeCorrupt || e.code == ErrorCode::ProbeUnsupportedFormat || e.code == ErrorCode::ProbeNoVideoStream || e.code == ErrorCode::ProbeNoAudioStream) || (e.code == ErrorCode::SceneDetectionFailed || e.code == ErrorCode::SceneDetectionModelError) || (e.code == ErrorCode::VlmFailed || e.code == ErrorCode::VlmModelError) || (e.code == ErrorCode::AppleVisionFailed || e.code == ErrorCode::AppleVisionRequestFailed) || (e.code == ErrorCode::EmbeddingFailed || e.code == ErrorCode::EmbeddingModelError || e.code == ErrorCode::EmbeddingModelLoadFailed || e.code == ErrorCode::EmbeddingPreprocessFailed || e.code == ErrorCode::EmbeddingInferenceFailed || e.code == ErrorCode::EmbeddingOutputInvalid)) ==> video_stage(s, seq![e])
            == VideoIndexStage::Failed,
        video_stage(s, seq![e]) != VideoIndexStage::Failed ==> video_stage(s, seq![e]) == video_progress(s),
{
    assert(seq![e][0] == e);
    assert(video_any_live(s, seq![e]) <==> video_error_live(s, e.code));
    lemma_single_bit(s);
}

/// The walk is contiguous: reaching a stage means every prerequisite stage's
/// bits are set, so an out-of-order bit never advances the stage.
pub proof fn lemma_video_progress_contiguous(s: u32)
    ensures
        video_rank(video_progress(s)) >= 1 ==> has_all(s, 0x01),
        video_rank(video_progress(s)) >= 2 ==> has_all(s, 0x02),
        video_rank(video_progress(s)) >= 3 ==> has_all(s, 0x04),
        video_rank(video_progress(s)) >= 4 ==> has_any(s, 0x30),
        video_rank(video_progress(s)) >= 5 ==> has_any(s, 0xc0),
{
    assert(s & 0xf7 == 0xf7 ==> s & 0x01 == 0x01 && s & 0x02 == 0x02 && s & 0x04 == 0x04 && s
        & 0x30 != 0 && s & 0xc0 != 0) by (bit_vector);
}

/// Progress is monotone: setting more status bits never moves the derived
/// stage backwards.
pub proof fn lemma_video_progress_monotone(a: u32, b: u32)
    requires
        a & b == a,
    ensures
        video_rank(video_progress(a)) <= video_rank(video_progress(b)),
{
    lemma_superset_keeps(a, b, 0xf7);
    lemma_superset_keeps(a, b, 0x01);
    lemma_superset_keeps(a, b, 0x02);
    lemma_superset_keeps(a, b, 0x04);
    lemma_superset_keeps(a, b, 0x30);
    lemma_superset_keeps(a, b, 0xc0);
}

// ===========================================================================
// Audio
// ===========================================================================

/// The stage success bit that resolves an audio-pipeline error code, if the
/// code has a clean stage mapping.
pub open spec fn audio_error_bits(c: ErrorCode) -> Option<u32> {
    match c {
        ErrorCode::ProbeCorrupt | ErrorCode::ProbeUnsupportedFormat
        | ErrorCode::ProbeNoAudioStream | ErrorCode::ProbeNoVideoStream => Some(0x001u32),
        ErrorCode::CedFailed | ErrorCode::CedRequestFailed | ErrorCode::CedModelError => Some(
            0x080u32,
        ),
        ErrorCode::TranscriptionFailed | ErrorCode::TranscriptionModelError => Some(0x008u32),
        ErrorCode::EmbeddingFailed | ErrorCode::EmbeddingModelError
        | ErrorCode::EmbeddingModelLoadFailed | ErrorCode::EmbeddingPreprocessFailed
        | ErrorCode::EmbeddingInferenceFailed | ErrorCode::EmbeddingOutputInvalid => Some(
            0x040u32,
        ),
        _ => None,
    }
}

/// An audio error is live unless its stage success bit is set.
pub open spec fn audio_error_live(status: u32, c: ErrorCode) -> bool {
    match audio_error_bits(c) {
        Some(b) => !has_any(status, b),
        None => true,
    }
}

/// Some error of the history is live against `status`.
pub open spec fn audio_any_live(status: u32, errors: Seq<ErrorInfo>) -> bool {
    exists|i: int| 0 <= i < errors.len() && audio_error_live(status, #[trigger] errors[i].code)
}

/// The contiguous progression of the audio status bits: EXTRACTED →
/// (CLASSIFIED | VAD_DONE) → STT_DONE → SPEAKER_DONE → TEXT_EMBED; the
/// secondary stages only count towards `Done`.
pub open spec fn audio_progress(s: u32) -> AudioIndexStage {
    if has_all(s, audio_full_mask()) {
        AudioIndexStage::Done
    } else if !has_all(s, 0x001) {
        AudioIndexStage::Pending
    } else if !has_any(s, 0x006) {
        AudioIndexStage::Extracted
    } else if !has_all(s, 0x008) {
        AudioIndexStage::Analyzed
    } else if !has_all(s, 0x010) {
        AudioIndexStage::Transcribed
    } else if !has_all(s, 0x040) {
        AudioIndexStage::Diarized
    } else {
        AudioIndexStage::Embedded
    }
}

/// The derived audio stage: `Failed` on any live error, else the
/// progression.
pub open spec fn audio_stage(status: u32, errors: Seq<ErrorInfo>) -> AudioIndexStage {
    if audio_any_live(status, errors) {
        AudioIndexStage::Failed
    } else {
        audio_progress(status)
    }
}

/// Position of a non-failed audio stage along the progression.
pub open spec fn audio_rank(st: AudioIndexStage) -> int {
    match st {
        AudioIndexStage::Pending => 0,
        AudioIndexStage::Extracted => 1,
        AudioIndexStage::Analyzed => 2,
        AudioIndexStage::Transcribed => 3,
        AudioIndexStage::Diarized => 4,
        AudioIndexStage::Embedded => 5,
        AudioIndexStage::Done => 6,
        AudioIndexStage::Failed => -1,
    }
}

fn audio_error_stage_bit(code: ErrorCode) -> (r: Option<AudioIndexStatus>)
    ensures
        match audio_error_bits(code) {
            Some(b) => r matches Some(s) && s@ == b,
            None => r is None,
        },
{
    match code {
        ErrorCode::ProbeCorrupt | ErrorCode::ProbeUnsupportedFormat
        | ErrorCode::ProbeNoAudioStream | ErrorCode::ProbeNoVideoStream => Some(
            AudioIndexStatus::EXTRACTED(),
        ),
        ErrorCode::CedFailed | ErrorCode::CedRequestFailed | ErrorCode::CedModelError => Some(
            AudioIndexStatus::CED_DONE(),
        ),
        ErrorCode::TranscriptionFailed | ErrorCode::TranscriptionModelError => Some(
            AudioIndexStatus::STT_DONE(),
        ),
        ErrorCode::EmbeddingFailed | ErrorCode::EmbeddingModelError
        | ErrorCode::EmbeddingModelLoadFailed | ErrorCode::EmbeddingPreprocessFailed
        | ErrorCode::EmbeddingInferenceFailed | ErrorCode::EmbeddingOutputInvalid => Some(
            AudioIndexStatus::TEXT_EMBED(),
        ),
        _ => None,
    }
}

fn audio_is_live(status: AudioIndexStatus, e: &ErrorInfo) -> (r: bool)
    ensures
        r == audio_error_live(status@, e.code),
{
    match audio_error_stage_bit(e.code) {
        Some(bit) => !status.intersects(bit),
        None => true,
    }
}

impl AudioIndexStage {
    /// Derive the coarse stage from the status bits and the structured
    /// error history.
    pub fn from_status(status: AudioIndexStatus, errors: &[ErrorInfo]) -> (r: Self)
        ensures
            r == audio_stage(status@, errors@),
    {
        let mut i: usize = 0;
        while i < errors.len()
            invariant
                0 <= i <= errors@.len(),
                forall|j: int| 0 <= j < i ==> !audio_error_live(status@, #[trigger] errors@[j].code),
            decreases errors@.len() - i,
        {
            if audio_is_live(status, &errors[i]) {
                return AudioIndexStage::Failed;
            }
            i = i + 1;
        }
        if status.is_fully_indexed() {
            return AudioIndexStage::Done;
        }
        if !status.contains(AudioIndexStatus::EXTRACTED()) {
            return AudioIndexStage::Pending;
        }
        if !status.intersects(AudioIndexStatus::from_bits_retain(0x006)) {
            return AudioIndexStage::Extracted;
        }
        if !status.contains(AudioIndexStatus::STT_DONE()) {
            return AudioIndexStage::Analyzed;
        }
        if !status.contains(AudioIndexStatus::SPEAKER_DONE()) {
            return AudioIndexStage::Transcribed;
        }
        if !status.contains(AudioIndexStatus::TEXT_EMBED()) {
            return AudioIndexStage::Diarized;
        }
        AudioIndexStage::Embedded
    }
}

/// Failed precedence for audio.
pub proof fn lemma_audio_failed_iff_live(status: u32, errors: Seq<ErrorInfo>)
    ensures
        (audio_stage(status, errors) == AudioIndexStage::Failed) <==> audio_any_live(
            status,
            errors,
        ),
{
}

/// Stale audio errors are ignored.
pub proof fn lemma_audio_stale_errors_ignored(status: u32, errors: Seq<ErrorInfo>)
    requires
        forall|i: int|
            0 <= i < errors.len() ==> (audio_error_bits(#[trigger] errors[i].code) matches Some(b)
                && has_any(status, b)),
    ensures
        audio_stage(status, errors) == audio_stage(status, Seq::empty()),
{
    assert(!audio_any_live(status, errors)) by {
        assert forall|i: int| 0 <= i < errors.len() implies !audio_error_live(
            status,
            #[trigger] errors[i].code,
        ) by {
            assert(audio_error_bits(errors[i].code) is Some);
        }
    }
}

/// A single recorded audio error is cleared exactly by the success of the
/// stage it belongs to: a probe error by `EXTRACTED` (`0x001`), a
/// transcription error by `STT_DONE` (`0x008`), an embedding error by
/// `TEXT_EMBED` (`0x040`), a sound-event error by `CED_DONE` (`0x080`); any
/// other code keeps the track `Failed` whatever the status. A cleared error
/// leaves the stage that the status alone gives.
pub proof fn lemma_audio_error_cleared_by_its_stage(s: u32, e: ErrorInfo)
    ensures
        (e.code == ErrorCode::ProbeCorrupt || e.code == ErrorCode::ProbeUnsupportedFormat || e.code == ErrorCode::ProbeNoVideoStream || e.code == ErrorCode::ProbeNoAudioStream) ==> ((audio_stage(s, seq![e]) == AudioIndexStage::Failed) <==> !has_all(s, 0x001)),
        (e.code == ErrorCode::TranscriptionFailed || e.code == ErrorCode::TranscriptionModelError) ==> ((audio_stage(s, seq![e]) == AudioIndexStage::Failed) <==> !has_all(s, 0x008)),
        (e.code == ErrorCode::EmbeddingFailed || e.code == ErrorCode::EmbeddingModelError || e.code == ErrorCode::EmbeddingModelLoadFailed || e.code == ErrorCode::EmbeddingPreprocessFailed || e.code == ErrorCode::EmbeddingInferenceFailed || e.code == ErrorCode::EmbeddingOutputInvalid) ==> ((audio_stage(s, seq![e]) == AudioIndexStage::Failed) <==> !has_all(s, 0x040)),
        (e.code == ErrorCode::CedFailed || e.code == ErrorCode::CedRequestFailed || e.code == ErrorCode::CedModelError) ==> ((audio_stage(s, seq![e]) == AudioIndexStage::Failed) <==> !has_all(s, 0x080)),
        !((e.code == ErrorCode::ProbeCorrupt || e.code == ErrorCode::ProbeUnsupportedFormat || e.code == ErrorCode::ProbeNoVideoStream || e.code == ErrorCode::ProbeNoAudioStream) || (e.code == ErrorCode::TranscriptionFailed || e.code == ErrorCode::TranscriptionModelError) || (e.code == ErrorCode::EmbeddingFailed || e.code == ErrorCode::EmbeddingModelError || e.code == ErrorCode::EmbeddingModelLoadFailed || e.code == ErrorCode::EmbeddingPreprocessFailed || e.code == ErrorCode::EmbeddingInferenceFailed || e.code == ErrorCode::EmbeddingOutputInvalid) || (e.code == ErrorCode::CedFailed || e.code == ErrorCode::CedRequestFailed || e.code == ErrorCode::CedModelError)) ==> audio_stage(s, seq![e])
            == AudioIndexStage::Failed,
        audio_stage(s, seq![e]) != AudioIndexStage::Failed ==> audio_stage(s, seq![e]) == audio_progress(s),
{
    assert(seq![e][0] == e);
    assert(audio_any_live(s, seq![e]) <==> audio_error_live(s, e.code));
    lemma_single_bit(s);
}

/// The audio walk is contiguous.
pub proof fn lemma_audio_progress_contiguous(s: u32)
    ensures
        audio_rank(audio_progress(s)) >= 1 ==> has_all(s, 0x001),
        audio_rank(audio_progress(s)) >= 2 ==> has_any(s, 0x006),
        audio_rank(audio_progress(s)) >= 3 ==> has_all(s, 0x008),
        audio_rank(audio_progress(s)) >= 4 ==> has_all(s, 0x010),
        audio_rank(audio_progress(s)) >= 5 ==> has_all(s, 0x040),
{
    assert(s & 0x7ff == 0x7ff ==> s & 0x001 == 0x001 && s & 0x006 != 0 && s & 0x008 == 0x008 && s
        & 0x010 == 0x010 && s & 0x040 == 0x040) by (bit_vector);
}

/// Audio progress is monotone in the status bits.
pub proof fn lemma_audio_progress_monotone(a: u32, b: u32)
    requires
        a & b == a,
    ensures
        audio_rank(audio_progress(a)) <= audio_rank(audio_progress(b)),
{
    lemma_superset_keeps(a, b, 0x7ff);
    lemma_superset_keeps(a, b, 0x001);
    lemma_superset_keeps(a, b, 0x006);
    lemma_superset_keeps(a, b, 0x008);
    lemma_superset_keeps(a, b, 0x010);
    lemma_superset_keeps(a, b, 0x040);
}

/// Error returned when an `AudioTrack` constructor or fallible mutator
/// cannot uphold an invariant.
#[derive(Debug, Clone, Copy, PartialEq, Eq, Hash, Structural)]
#[non_exhaustive]
pub enum AudioTrackError {
    /// `id` was the nil sentinel.
    NilId,
    /// `audio_id` was the nil sentinel.
    NilAudioId,
    /// a `speech_ratio` was non-finite or outside `[0, 1]`.
    SpeechRatioOutOfRange,
    /// the status reached `EXTRACTED` while `sample_rate` / `channels` were 0.
    ExtractedWithoutDescriptor,
    /// `sample_rate` / `channels` cleared to 0 on an extracted track.
    ProbedDescriptorCleared,
    /// a stage bit was set without its prerequisite bits.
    StatusOutOfOrder,
    /// the status held bits outside the declared `AudioIndexStatus` set.
    UnknownStatusBits,
    /// a present `duration` was negative.
    NegativeDuration,
}

/// The message of each [`AudioTrackError`].
pub open spec fn audio_track_error_message(e: AudioTrackError) -> Seq<char> {
    match e {
        AudioTrackError::NilId => "AudioTrack id must not be the nil UUID"@,
        AudioTrackError::NilAudioId => "AudioTrack `audio_id` (FK → Audio) must not be the nil UUID"@,
        AudioTrackError::SpeechRatioOutOfRange => "AudioTrack speech_ratio must be finite and within [0, 1]"@,
        AudioTrackError::ExtractedWithoutDescriptor => "AudioTrack index_status reached EXTRACTED while sample_rate/channels are still 0"@,
        AudioTrackError::ProbedDescriptorCleared => "AudioTrack sample_rate/channels cannot be cleared to 0 once the track is EXTRACTED"@,
        AudioTrackError::StatusOutOfOrder => "AudioTrack index_status mask is out of order: a stage bit is set without its prerequisites"@,
        AudioTrackError::UnknownStatusBits => "AudioTrack index_status mask contains unknown bits outside AudioIndexStatus"@,
        AudioTrackError::NegativeDuration => "AudioTrack duration must not be negative"@,
    }
}

impl AudioTrackError {
    /// True iff this is `AudioTrackError::NilId`.
    pub fn is_nil_id(&self) -> (r: bool)
        ensures
            r == (*self is NilId),
    {
        match self {
            AudioTrackError::NilId => true,
            #[allow(unreachable_patterns)]
            _ => false,
        }
    }

    /// True iff this is `AudioTrackError::NilAudioId`.
    pub fn is_nil_audio_id(&self) -> (r: bool)
        ensures
            r == (*self is NilAudioId),
    {
        match self {
            AudioTrackError::NilAudioId => true,
            #[allow(unreachable_patterns)]
            _ => false,
        }
    }

    /// True iff this is `AudioTrackError::SpeechRatioOutOfRange`.
    pub fn is_speech_ratio_out_of_range(&self) -> (r: bool)
        ensures
            r == (*self is SpeechRatioOutOfRange),
    {
        match self {
            AudioTrackError::SpeechRatioOutOfRange => true,
            #[allow(unreachable_patterns)]
            _ => false,
        }
    }

    /// True iff this is `AudioTrackError::ExtractedWithoutDescriptor`.
    pub fn is_extracted_without_descriptor(&self) -> (r: bool)
        ensures
            r == (*self is ExtractedWithoutDescriptor),
    {
        match self {
            AudioTrackError::ExtractedWithoutDescriptor => true,
            #[allow(unreachable_patterns)]
            _ => false,
        }
    }

    /// True iff this is `AudioTrackError::ProbedDescriptorCleared`.
    pub fn is_probed_descriptor_cleared(&self) -> (r: bool)
        ensures
            r == (*self is ProbedDescriptorCleared),
    {
        match self {
            AudioTrackError::ProbedDescriptorCleared => true,
            #[allow(unreachable_patterns)]
            _ => false,
        }
    }

    /// True iff this is `AudioTrackError::StatusOutOfOrder`.
    pub fn is_status_out_of_order(&self) -> (r: bool)
        ensures
            r == (*self is StatusOutOfOrder),
    {
        match self {
            AudioTrackError::StatusOutOfOrder => true,
            #[allow(unreachable_patterns)]
            _ => false,
        }
    }

    /// True iff this is `AudioTrackError::UnknownStatusBits`.
    pub fn is_unknown_status_bits(&self) -> (r: bool)
        ensures
            r == (*self is UnknownStatusBits),
    {
        match self {
            AudioTrackError::UnknownStatusBits => true,
            #[allow(unreachable_patterns)]
            _ => false,
        }
    }

    /// True iff this is `AudioTrackError::NegativeDuration`.
    pub fn is_negative_duration(&self) -> (r: bool)
        ensures
            r == (*self is NegativeDuration),
    {
        match self {
            AudioTrackError::NegativeDuration => true,
            #[allow(unreachable_patterns)]
            _ => false,
        }
    }

    /// Human-readable description.
    pub fn message(&self) -> (r: String)
        ensures
            r@ == audio_track_error_message(*self),
    {
        match self {
            AudioTrackError::NilId => {
                proof {
                    reveal_strlit("AudioTrack id must not be the nil UUID");
                }
                "AudioTrack id must not be the nil UUID".to_owned()
            },
            AudioTrackError::NilAudioId => {
                proof {
                    reveal_strlit("AudioTrack `audio_id` (FK → Audio) must not be the nil UUID");
                }
                "AudioTrack `audio_id` (FK → Audio) must not be the nil UUID".to_owned()
            },
            AudioTrackError::SpeechRatioOutOfRange => {
                proof {
                    reveal_strlit("AudioTrack speech_ratio must be finite and within [0, 1]");
                }
                "AudioTrack speech_ratio must be finite and within [0, 1]".to_owned()
            },
            AudioTrackError::ExtractedWithoutDescriptor => {
                proof {
                    reveal_strlit("AudioTrack index_status reached EXTRACTED while sample_rate/channels are still 0");
                }
                "AudioTrack index_status reached EXTRACTED while sample_rate/channels are still 0".to_owned()
            },
            AudioTrackError::ProbedDescriptorCleared => {
                proof {
                    reveal_strlit("AudioTrack sample_rate/channels cannot be cleared to 0 once the track is EXTRACTED");
                }
                "AudioTrack sample_rate/channels cannot be cleared to 0 once the track is EXTRACTED".to_owned()
            },
            AudioTrackError::StatusOutOfOrder => {
                proof {
                    reveal_strlit("AudioTrack index_status mask is out of order: a stage bit is set without its prerequisites");
                }
                "AudioTrack index_status mask is out of order: a stage bit is set without its prerequisites".to_owned()
            },
            AudioTrackError::UnknownStatusBits => {
                proof {
                    reveal_strlit("AudioTrack index_status mask contains unknown bits outside AudioIndexStatus");
                }
                "AudioTrack index_status mask contains unknown bits outside AudioIndexStatus".to_owned()
            },
            AudioTrackError::NegativeDuration => {
                proof {
                    reveal_strlit("AudioTrack duration must not be negative");
                }
                "AudioTrack duration must not be negative".to_owned()
            },
        }
    }
}

/// The outcome of the audio status-topology check.
pub open spec fn audio_topology(s: u32) -> Result<(), AudioTrackError> {
    if s & !audio_index_status_all_bits() != 0 {
        Err(AudioTrackError::UnknownStatusBits)
    } else if s == 0 {
        Ok(())
    } else if !has_all(s, 0x001) {
        Err(AudioTrackError::StatusOutOfOrder)
    } else if has_all(s, 0x008) && !has_any(s, 0x006) {
        Err(AudioTrackError::StatusOutOfOrder)
    } else if has_all(s, 0x010) && !has_all(s, 0x008) {
        Err(AudioTrackError::StatusOutOfOrder)
    } else if has_all(s, 0x040) && !has_all(s, 0x010) {
        Err(AudioTrackError::StatusOutOfOrder)
    } else {
        Ok(())
    }
}

/// Checks that an [`AudioIndexStatus`] holds only declared bits and is
/// consistent with the contiguous audio lifecycle: a non-empty mask carries
/// `EXTRACTED`; `STT_DONE` needs `CLASSIFIED` or `VAD_DONE`; `SPEAKER_DONE`
/// needs `STT_DONE`; `TEXT_EMBED` needs `SPEAKER_DONE`.
pub fn validate_status_topology(s: AudioIndexStatus) -> (r: Result<(), AudioTrackError>)
    ensures
        r == audio_topology(s@),
{
    if s.bits() & !AudioIndexStatus::all().bits() != 0 {
        return Err(AudioTrackError::UnknownStatusBits);
    }
    if s.is_empty() {
        return Ok(());
    }
    if !s.contains(AudioIndexStatus::EXTRACTED()) {
        return Err(AudioTrackError::StatusOutOfOrder);
    }
    if s.contains(AudioIndexStatus::STT_DONE()) && !s.intersects(
        AudioIndexStatus::from_bits_retain(0x006),
    ) {
        return Err(AudioTrackError::StatusOutOfOrder);
    }
    if s.contains(AudioIndexStatus::SPEAKER_DONE()) && !s.contains(AudioIndexStatus::STT_DONE()) {
        return Err(AudioTrackError::StatusOutOfOrder);
    }
    if s.contains(AudioIndexStatus::TEXT_EMBED()) && !s.contains(AudioIndexStatus::SPEAKER_DONE()) {
        return Err(AudioTrackError::StatusOutOfOrder);
    }
    Ok(())
}

/// A status that passes the topology check is read faithfully by the
/// derived stage: each primary stage bit it sets is reflected by a stage at
/// least that far along.
pub proof fn lemma_topology_agrees_with_stage(s: u32)
    requires
        audio_topology(s) is Ok,
    ensures
        s != 0 ==> audio_rank(audio_progress(s)) >= 1,
        has_any(s, 0x006) ==> audio_rank(audio_progress(s)) >= 2,
        has_all(s, 0x008) ==> audio_rank(audio_progress(s)) >= 3,
        has_all(s, 0x010) ==> audio_rank(audio_progress(s)) >= 4,
        has_all(s, 0x040) ==> audio_rank(audio_progress(s)) >= 5,
{
    assert(s & 0x006 != 0 ==> s != 0) by (bit_vector);
    assert(s & 0x008 == 0x008 ==> s != 0) by (bit_vector);
    assert(s & 0x010 == 0x010 ==> s != 0) by (bit_vector);
    assert(s & 0x040 == 0x040 ==> s != 0) by (bit_vector);
}

/// The topology check accepts exactly the well-ordered statuses: only
/// declared bits, and either empty or carrying `EXTRACTED` (`0x001`), with
/// `STT_DONE` (`0x008`) only beside `CLASSIFIED` or `VAD_DONE` (`0x006`),
/// `SPEAKER_DONE` (`0x010`) only beside `STT_DONE`, and `TEXT_EMBED`
/// (`0x040`) only beside `SPEAKER_DONE`. The secondary bits gate nothing.
pub proof fn lemma_topology_accepts_exactly_well_ordered(s: u32)
    ensures
        audio_topology(s) is Ok <==> {
            &&& s & 0x7ff == s
            &&& (s == 0 || has_all(s, 0x001))
            &&& (has_all(s, 0x008) ==> has_any(s, 0x006))
            &&& (has_all(s, 0x010) ==> has_all(s, 0x008))
            &&& (has_all(s, 0x040) ==> has_all(s, 0x010))
        },
{
    let all = audio_index_status_all_bits();
    assert(all == 0x7ffu32);
    assert((s & !all != 0) <==> (s & 0x7ff != s)) by (bit_vector)
        requires
            all == 0x7ffu32,
    ;
    assert((s & !audio_index_status_all_bits() != 0) <==> (s & 0x7ff != s));
    assert(s == 0 ==> s & 0x7ff == s && s & 0x008 != 0x008 && s & 0x010 != 0x010 && s & 0x040
        != 0x040) by (bit_vector);
}

// ===========================================================================
// Subtitle
// ===========================================================================

/// The stage success bit that resolves a subtitle-pipeline error code; the
/// Apple Vision codes map to `OCR_DONE` only on tracks that require OCR.
pub open spec fn subtitle_error_bits(c: ErrorCode, requires_ocr: bool) -> Option<u32> {
    match c {
        ErrorCode::ProbeCorrupt | ErrorCode::ProbeUnsupportedFormat
        | ErrorCode::ProbeNoVideoStream => Some(0x01u32),
        ErrorCode::AppleVisionFailed | ErrorCode::AppleVisionRequestFailed => if requires_ocr {
            Some(0x04u32)
        } else {
            None
        },
        _ => None,
    }
}

/// A subtitle error is live unless its stage success bit is set.
pub open spec fn subtitle_error_live(status: u32, requires_ocr: bool, c: ErrorCode) -> bool {
    match subtitle_error_bits(c, requires_ocr) {
        Some(b) => !has_any(status, b),
        None => true,
    }
}

/// Some error of the history is live against `status`.
pub open spec fn subtitle_any_live(status: u32, requires_ocr: bool, errors: Seq<ErrorInfo>) -> bool {
    exists|i: int|
        0 <= i < errors.len() && subtitle_error_live(status, requires_ocr, #[trigger] errors[i].code)
}

/// The bits a subtitle track needs for `Done`: `OCR_DONE` only when the
/// track requires OCR.
pub open spec fn subtitle_expected_mask(requires_ocr: bool) -> u32 {
    if requires_ocr {
        subtitle_full_mask()
    } else {
        0x0bu32
    }
}

/// The contiguous progression of the subtitle status bits; `OCR_DONE` is
/// part of the chain only when the track requires OCR.
pub open spec fn subtitle_progress(s: u32, requires_ocr: bool) -> SubtitleIndexStage {
    if has_all(s, subtitle_expected_mask(requires_ocr)) {
        SubtitleIndexStage::Done
    } else if !has_all(s, 0x01) {
        SubtitleIndexStage::Pending
    } else if !has_all(s, 0x02) {
        SubtitleIndexStage::TracksDiscovered
    } else if requires_ocr && !has_all(s, 0x04) {
        SubtitleIndexStage::CuesExtracted
    } else if !has_all(s, 0x08) {
        if requires_ocr {
            SubtitleIndexStage::Ocr
        } else {
            SubtitleIndexStage::CuesExtracted
        }
    } else {
        SubtitleIndexStage::SearchIndexed
    }
}

/// The derived subtitle stage.
pub open spec fn subtitle_stage(status: u32, requires_ocr: bool, errors: Seq<ErrorInfo>) -> SubtitleIndexStage {
    if subtitle_any_live(status, requires_ocr, errors) {
        SubtitleIndexStage::Failed
    } else {
        subtitle_progress(status, requires_ocr)
    }
}

fn subtitle_error_stage_bit(code: ErrorCode, requires_ocr: bool) -> (r: Option<SubtitleIndexStatus>)
    ensures
        match subtitle_error_bits(code, requires_ocr) {
            Some(b) => r matches Some(s) && s@ == b,
            None => r is None,
        },
{
    match code {
        ErrorCode::ProbeCorrupt | ErrorCode::ProbeUnsupportedFormat
        | ErrorCode::ProbeNoVideoStream => Some(SubtitleIndexStatus::TRACKS_DISCOVERED()),
        ErrorCode::AppleVisionFailed | ErrorCode::AppleVisionRequestFailed => if requires_ocr {
            Some(SubtitleIndexStatus::OCR_DONE())
        } else {
            None
        },
        _ => None,
    }
}

impl SubtitleIndexStatus {
    /// The bits a subtitle track needs to be fully indexed: every stage bit
    /// when it requires OCR, else every bit but `OCR_DONE`.
    pub fn expected_mask(requires_ocr: bool) -> (r: Self)
        ensures
            r@ == subtitle_expected_mask(requires_ocr),
    {
        if requires_ocr {
            SubtitleIndexStatus::fully_indexed_mask()
        } else {
            SubtitleIndexStatus::from_bits_retain(0x0b)
        }
    }

    /// True iff every bit the track needs is set: `OCR_DONE` counts only
    /// when the track requires OCR (an image-based subtitle).
    pub fn is_fully_indexed_for(&self, requires_ocr: bool) -> (r: bool)
        ensures
            r == has_all(self@, subtitle_expected_mask(requires_ocr)),
    {
        self.contains(SubtitleIndexStatus::expected_mask(requires_ocr))
    }
}

/// `OCR_DONE` is needed only by a track that requires OCR: a text track is
/// fully indexed once its tracks are discovered, its cues extracted and it
/// is search-indexed, while an image track needs all four bits.
pub proof fn lemma_ocr_done_only_for_image_tracks(s: u32)
    ensures
        has_all(s, subtitle_expected_mask(false)) <==> has_all(s, 0x01u32 | 0x02u32 | 0x08u32),
        has_all(s, subtitle_expected_mask(true)) <==> has_all(s, 0x0fu32),
        has_all(s, subtitle_expected_mask(true)) ==> has_all(s, subtitle_expected_mask(false)),
{
    assert(0x01u32 | 0x02u32 | 0x08u32 == 0x0bu32) by (bit_vector);
    assert(s & 0x0f == 0x0f ==> s & 0x0b == 0x0b) by (bit_vector);
}

impl SubtitleIndexStage {
    /// Derive the coarse stage from the status bits, whether the track
    /// requires OCR (image-based codec), and the error history.
    pub fn from_status(status: SubtitleIndexStatus, requires_ocr: bool, errors: &[ErrorInfo]) -> (r: Self)
        ensures
            r == subtitle_stage(status@, requires_ocr, errors@),
    {
        let mut i: usize = 0;
        while i < errors.len()
            invariant
                0 <= i <= errors@.len(),
                forall|j: int|
                    0 <= j < i ==> !subtitle_error_live(status@, requires_ocr, #[trigger] errors@[j].code),
            decreases errors@.len() - i,
        {
            let live = match subtitle_error_stage_bit(errors[i].code, requires_ocr) {
                Some(bit) => !status.intersects(bit),
                None => true,
            };
            if live {
                return SubtitleIndexStage::Failed;
            }
            i = i + 1;
        }
        if status.contains(SubtitleIndexStatus::expected_mask(requires_ocr)) {
            return SubtitleIndexStage::Done;
        }
        if !status.contains(SubtitleIndexStatus::TRACKS_DISCOVERED()) {
            return SubtitleIndexStage::Pending;
        }
        if !status.contains(SubtitleIndexStatus::CUES_EXTRACTED()) {
            return SubtitleIndexStage::TracksDiscovered;
        }
        if requires_ocr && !status.contains(SubtitleIndexStatus::OCR_DONE()) {
            return SubtitleIndexStage::CuesExtracted;
        }
        if !status.contains(SubtitleIndexStatus::SEARCH_INDEXED()) {
            return if requires_ocr {
                SubtitleIndexStage::Ocr
            } else {
                SubtitleIndexStage::CuesExtracted
            };
        }
        SubtitleIndexStage::SearchIndexed
    }
}

/// A text track (no OCR needed) is `Done` once discovered, extracted and
/// search-indexed; an image track with the same bits but no `OCR_DONE` is
/// not.
pub proof fn lemma_subtitle_ocr_requirement(s: u32)
    requires
        has_all(s, 0x0b),
        !has_all(s, 0x04),
    ensures
        subtitle_progress(s, false) == SubtitleIndexStage::Done,
        subtitle_progress(s, true) != SubtitleIndexStage::Done,
{
    assert(s & 0x0b == 0x0b && s & 0x04 != 0x04 ==> s & 0x0f != 0x0f) by (bit_vector);
}

/// Only a track that requires OCR passes through the `Ocr` stage: a text
/// track never reports it, and once discovered and extracted but not yet
/// search-indexed it reports `CuesExtracted`; an image track in that state
/// with `OCR_DONE` set reports `Ocr`, and without it `CuesExtracted`.
pub proof fn lemma_ocr_stage_only_for_image_tracks(s: u32, errors: Seq<ErrorInfo>)
    ensures
        subtitle_stage(s, false, errors) != SubtitleIndexStage::Ocr,
        has_all(s, 0x03) && !has_all(s, 0x08) && !subtitle_any_live(s, false, errors)
            ==> subtitle_stage(s, false, errors) == SubtitleIndexStage::CuesExtracted,
        has_all(s, 0x07) && !has_all(s, 0x08) && !subtitle_any_live(s, true, errors)
            ==> subtitle_stage(s, true, errors) == SubtitleIndexStage::Ocr,
        has_all(s, 0x03) && !has_all(s, 0x04) && !subtitle_any_live(s, true, errors)
            ==> subtitle_stage(s, true, errors) == SubtitleIndexStage::CuesExtracted,
{
    assert(s & 0x08 != 0x08 ==> s & 0x0b != 0x0b) by (bit_vector);
    assert(s & 0x08 != 0x08 ==> s & 0x0f != 0x0f) by (bit_vector);
    assert(s & 0x04 != 0x04 ==> s & 0x0f != 0x0f) by (bit_vector);
    assert(s & 0x03 == 0x03 ==> s & 0x01 == 0x01 && s & 0x02 == 0x02) by (bit_vector);
    assert(s & 0x07 == 0x07 ==> s & 0x01 == 0x01 && s & 0x02 == 0x02 && s & 0x04 == 0x04) by (bit_vector);
}

/// A single recorded subtitle error is cleared exactly by the success of
/// the stage it belongs to: a discovery error by `TRACKS_DISCOVERED`
/// (`0x01`), an Apple Vision (OCR) error by `OCR_DONE` (`0x04`) on a track
/// that requires OCR; on a text track an Apple Vision error, and on any
/// track every other code, keeps the track `Failed` whatever the status.
pub proof fn lemma_subtitle_error_cleared_by_its_stage(s: u32, requires_ocr: bool, e: ErrorInfo)
    ensures
        (e.code == ErrorCode::ProbeCorrupt || e.code == ErrorCode::ProbeUnsupportedFormat || e.code == ErrorCode::ProbeNoVideoStream) ==> ((subtitle_stage(s, requires_ocr, seq![e]) == SubtitleIndexStage::Failed)
            <==> !has_all(s, 0x01)),
        (e.code == ErrorCode::AppleVisionFailed || e.code == ErrorCode::AppleVisionRequestFailed) && requires_ocr ==> ((subtitle_stage(s, requires_ocr, seq![e])
            == SubtitleIndexStage::Failed) <==> !has_all(s, 0x04)),
        (e.code == ErrorCode::AppleVisionFailed || e.code == ErrorCode::AppleVisionRequestFailed) && !requires_ocr ==> subtitle_stage(s, requires_ocr, seq![e])
            == SubtitleIndexStage::Failed,
        !((e.code == ErrorCode::ProbeCorrupt || e.code == ErrorCode::ProbeUnsupportedFormat || e.code == ErrorCode::ProbeNoVideoStream) || (e.code == ErrorCode::AppleVisionFailed || e.code == ErrorCode::AppleVisionRequestFailed)) ==> subtitle_stage(s, requires_ocr, seq![e])
            == SubtitleIndexStage::Failed,
        subtitle_stage(s, requires_ocr, seq![e]) != SubtitleIndexStage::Failed ==> subtitle_stage(
            s,
            requires_ocr,
            seq![e],
        ) == subtitle_progress(s, requires_ocr),
{
    assert(seq![e][0] == e);
    assert(subtitle_any_live(s, requires_ocr, seq![e]) <==> subtitle_error_live(s, requires_ocr, e.code));
    lemma_single_bit(s);
}

/// Failed precedence for subtitles.
pub proof fn lemma_subtitle_failed_iff_live(status: u32, requires_ocr: bool, errors: Seq<ErrorInfo>)
    ensures
        (subtitle_stage(status, requires_ocr, errors) == SubtitleIndexStage::Failed)
            <==> subtitle_any_live(status, requires_ocr, errors),
{
}

} // verus!
