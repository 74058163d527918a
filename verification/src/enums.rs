//! Pipeline and analysis enums: media kind, detector / extractor
//! provenance, subtitle role, audio content class, reconcile status and the
//! three derived indexing stages.
use vstd::prelude::*;

verus! {

/// Top-level media classification, set at probe; drives which facets
/// (`Video` / `Audio` / `Subtitle`) exist.
#[derive(Debug, Clone, Copy, PartialEq, Eq, Hash, Structural)]
pub enum MediaKind {
    Video,
    Audio,
}

impl MediaKind {
    /// True iff this is `MediaKind::Video`.
    pub fn is_video(&self) -> (r: bool)
        ensures
            r == (*self is Video),
    {
        match self {
            MediaKind::Video => true,
            _ => false,
        }
    }

    /// True iff this is `MediaKind::Audio`.
    pub fn is_audio(&self) -> (r: bool)
        ensures
            r == (*self is Audio),
    {
        match self {
            MediaKind::Audio => true,
            _ => false,
        }
    }
}

impl Default for MediaKind {
    /// `MediaKind::Video`.
    fn default() -> (r: Self)
        ensures
            r == MediaKind::Video,
    {
        MediaKind::Video
    }
}

/// Which scene-detection module raised a `Scene` boundary (or `Manual`).
#[derive(Debug, Clone, Copy, PartialEq, Eq, Hash, Structural)]
#[non_exhaustive]
pub enum SceneDetector {
    Histogram,
    Phash,
    Threshold,
    Content,
    Adaptive,
    Manual,
}

impl SceneDetector {
    /// True iff this is `SceneDetector::Histogram`.
    pub fn is_histogram(&self) -> (r: bool)
        ensures
            r == (*self is Histogram),
    {
        match self {
            SceneDetector::Histogram => true,
            _ => false,
        }
    }

    /// True iff this is `SceneDetector::Phash`.
    pub fn is_phash(&self) -> (r: bool)
        ensures
            r == (*self is Phash),
    {
        match self {
            SceneDetector::Phash => true,
            _ => false,
        }
    }

    /// True iff this is `SceneDetector::Threshold`.
    pub fn is_threshold(&self) -> (r: bool)
        ensures
            r == (*self is Threshold),
    {
        match self {
            SceneDetector::Threshold => true,
            _ => false,
        }
    }

    /// True iff this is `SceneDetector::Content`.
    pub fn is_content(&self) -> (r: bool)
        ensures
            r == (*self is Content),
    {
        match self {
            SceneDetector::Content => true,
            _ => false,
        }
    }

    /// True iff this is `SceneDetector::Adaptive`.
    pub fn is_adaptive(&self) -> (r: bool)
        ensures
            r == (*self is Adaptive),
    {
        match self {
            SceneDetector::Adaptive => true,
            _ => false,
        }
    }

    /// True iff this is `SceneDetector::Manual`.
    pub fn is_manual(&self) -> (r: bool)
        ensures
            r == (*self is Manual),
    {
        match self {
            SceneDetector::Manual => true,
            _ => false,
        }
    }
}

/// Which extractor produced a `Keyframe`: every [`SceneDetector`] variant
/// (scene-boundary frames are keyframes too) plus the dedicated extractors.
#[derive(Debug, Clone, Copy, PartialEq, Eq, Hash, Structural)]
#[non_exhaustive]
pub enum KeyframeExtractor {
    Histogram,
    Phash,
    Threshold,
    Content,
    Adaptive,
    CompositeQuality,
    Interval,
    IFrame,
    SceneRepresentative,
    Manual,
}

impl KeyframeExtractor {
    /// True iff this is `KeyframeExtractor::Histogram`.
    pub fn is_histogram(&self) -> (r: bool)
        ensures
            r == (*self is Histogram),
    {
        match self {
            KeyframeExtractor::Histogram => true,
            _ => false,
        }
    }

    /// True iff this is `KeyframeExtractor::Phash`.
    pub fn is_phash(&self) -> (r: bool)
        ensures
            r == (*self is Phash),
    {
        match self {
            KeyframeExtractor::Phash => true,
            _ => false,
        }
    }

    /// True iff this is `KeyframeExtractor::Threshold`.
    pub fn is_threshold(&self) -> (r: bool)
        ensures
            r == (*self is Threshold),
    {
        match self {
            KeyframeExtractor::Threshold => true,
            _ => false,
        }
    }

    /// True iff this is `KeyframeExtractor::Content`.
    pub fn is_content(&self) -> (r: bool)
        ensures
            r == (*self is Content),
    {
        match self {
            KeyframeExtractor::Content => true,
            _ => false,
        }
    }

    /// True iff this is `KeyframeExtractor::Adaptive`.
    pub fn is_adaptive(&self) -> (r: bool)
        ensures
            r == (*self is Adaptive),
    {
        match self {
            KeyframeExtractor::Adaptive => true,
            _ => false,
        }
    }

    /// True iff this is `KeyframeExtractor::CompositeQuality`.
    pub fn is_composite_quality(&self) -> (r: bool)
        ensures
            r == (*self is CompositeQuality),
    {
        match self {
            KeyframeExtractor::CompositeQuality => true,
            _ => false,
        }
    }

    /// True iff this is `KeyframeExtractor::Interval`.
    pub fn is_interval(&self) -> (r: bool)
        ensures
            r == (*self is Interval),
    {
        match self {
            KeyframeExtractor::Interval => true,
            _ => false,
        }
    }

    /// True iff this is `KeyframeExtractor::IFrame`.
    pub fn is_i_frame(&self) -> (r: bool)
        ensures
            r == (*self is IFrame),
    {
        match self {
            KeyframeExtractor::IFrame => true,
            _ => false,
        }
    }

    /// True iff this is `KeyframeExtractor::SceneRepresentative`.
    pub fn is_scene_representative(&self) -> (r: bool)
        ensures
            r == (*self is SceneRepresentative),
    {
        match self {
            KeyframeExtractor::SceneRepresentative => true,
            _ => false,
        }
    }

    /// True iff this is `KeyframeExtractor::Manual`.
    pub fn is_manual(&self) -> (r: bool)
        ensures
            r == (*self is Manual),
    {
        match self {
            KeyframeExtractor::Manual => true,
            _ => false,
        }
    }
}

/// Subtitle role — a selection/search facet used for default-track picking.
#[derive(Debug, Clone, Copy, PartialEq, Eq, Hash, Structural)]
pub enum SubtitleKind {
    FullDialogue,
    ForcedNarrative,
    CommentaryText,
}

impl SubtitleKind {
    /// True iff this is `SubtitleKind::FullDialogue`.
    pub fn is_full_dialogue(&self) -> (r: bool)
        ensures
            r == (*self is FullDialogue),
    {
        match self {
            SubtitleKind::FullDialogue => true,
            _ => false,
        }
    }

    /// True iff this is `SubtitleKind::ForcedNarrative`.
    pub fn is_forced_narrative(&self) -> (r: bool)
        ensures
            r == (*self is ForcedNarrative),
    {
        match self {
            SubtitleKind::ForcedNarrative => true,
            _ => false,
        }
    }

    /// True iff this is `SubtitleKind::CommentaryText`.
    pub fn is_commentary_text(&self) -> (r: bool)
        ensures
            r == (*self is CommentaryText),
    {
        match self {
            SubtitleKind::CommentaryText => true,
            _ => false,
        }
    }
}

impl Default for SubtitleKind {
    /// `SubtitleKind::FullDialogue`.
    fn default() -> (r: Self)
        ensures
            r == SubtitleKind::FullDialogue,
    {
        SubtitleKind::FullDialogue
    }
}

/// Coarse audio-track content classification (output of the `CLASSIFIED`
/// stage); drives whether a track is transcribed at all.
#[derive(Debug, Clone, Copy, PartialEq, Eq, Hash, Structural)]
pub enum AudioContentKind {
    Speech,
    Music,
    Mixed,
    Silence,
}

impl AudioContentKind {
    /// True iff this is `AudioContentKind::Speech`.
    pub fn is_speech(&self) -> (r: bool)
        ensures
            r == (*self is Speech),
    {
        match self {
            AudioContentKind::Speech => true,
            _ => false,
        }
    }

    /// True iff this is `AudioContentKind::Music`.
    pub fn is_music(&self) -> (r: bool)
        ensures
            r == (*self is Music),
    {
        match self {
            AudioContentKind::Music => true,
            _ => false,
        }
    }

    /// True iff this is `AudioContentKind::Mixed`.
    pub fn is_mixed(&self) -> (r: bool)
        ensures
            r == (*self is Mixed),
    {
        match self {
            AudioContentKind::Mixed => true,
            _ => false,
        }
    }

    /// True iff this is `AudioContentKind::Silence`.
    pub fn is_silence(&self) -> (r: bool)
        ensures
            r == (*self is Silence),
    {
        match self {
            AudioContentKind::Silence => true,
            _ => false,
        }
    }
}

impl Default for AudioContentKind {
    /// `AudioContentKind::Speech`.
    fn default() -> (r: Self)
        ensures
            r == AudioContentKind::Speech,
    {
        AudioContentKind::Speech
    }
}

/// Status of a `WatchedLocation` reconcile sweep.
#[derive(Debug, Clone, Copy, PartialEq, Eq, Hash, Structural)]
pub enum ScanStatus {
    Succeeded,
    Partial,
    Failed,
}

impl ScanStatus {
    /// True iff this is `ScanStatus::Succeeded`.
    pub fn is_succeeded(&self) -> (r: bool)
        ensures
            r == (*self is Succeeded),
    {
        match self {
            ScanStatus::Succeeded => true,
            _ => false,
        }
    }

    /// True iff this is `ScanStatus::Partial`.
    pub fn is_partial(&self) -> (r: bool)
        ensures
            r == (*self is Partial),
    {
        match self {
            ScanStatus::Partial => true,
            _ => false,
        }
    }

    /// True iff this is `ScanStatus::Failed`.
    pub fn is_failed(&self) -> (r: bool)
        ensures
            r == (*self is Failed),
    {
        match self {
            ScanStatus::Failed => true,
            _ => false,
        }
    }
}

impl Default for ScanStatus {
    /// `ScanStatus::Succeeded`.
    fn default() -> (r: Self)
        ensures
            r == ScanStatus::Succeeded,
    {
        ScanStatus::Succeeded
    }
}

/// Coarse derived stage of a `VideoTrack`'s indexing lifecycle (see
/// [`crate::stages`]).
#[derive(Debug, Clone, Copy, PartialEq, Eq, Hash, Structural)]
pub enum VideoIndexStage {
    Pending,
    Probed,
    SceneDetected,
    KeyframeExtracted,
    Analyzed,
    Embedded,
    Done,
    Failed,
}

impl VideoIndexStage {
    /// True iff this is `VideoIndexStage::Pending`.
    pub fn is_pending(&self) -> (r: bool)
        ensures
            r == (*self is Pending),
    {
        match self {
            VideoIndexStage::Pending => true,
            _ => false,
        }
    }

    /// True iff this is `VideoIndexStage::Probed`.
    pub fn is_probed(&self) -> (r: bool)
        ensures
            r == (*self is Probed),
    {
        match self {
            VideoIndexStage::Probed => true,
            _ => false,
        }
    }

    /// True iff this is `VideoIndexStage::SceneDetected`.
    pub fn is_scene_detected(&self) -> (r: bool)
        ensures
            r == (*self is SceneDetected),
    {
        match self {
            VideoIndexStage::SceneDetected => true,
            _ => false,
        }
    }

    /// True iff this is `VideoIndexStage::KeyframeExtracted`.
    pub fn is_keyframe_extracted(&self) -> (r: bool)
        ensures
            r == (*self is KeyframeExtracted),
    {
        match self {
            VideoIndexStage::KeyframeExtracted => true,
            _ => false,
        }
    }

    /// True iff this is `VideoIndexStage::Analyzed`.
    pub fn is_analyzed(&self) -> (r: bool)
        ensures
            r == (*self is Analyzed),
    {
        match self {
            VideoIndexStage::Analyzed => true,
            _ => false,
        }
    }

    /// True iff this is `VideoIndexStage::Embedded`.
    pub fn is_embedded(&self) -> (r: bool)
        ensures
            r == (*self is Embedded),
    {
        match self {
            VideoIndexStage::Embedded => true,
            _ => false,
        }
    }

    /// True iff this is `VideoIndexStage::Done`.
    pub fn is_done(&self) -> (r: bool)
        ensures
            r == (*self is Done),
    {
        match self {
            VideoIndexStage::Done => true,
            _ => false,
        }
    }

    /// True iff this is `VideoIndexStage::Failed`.
    pub fn is_failed(&self) -> (r: bool)
        ensures
            r == (*self is Failed),
    {
        match self {
            VideoIndexStage::Failed => true,
            _ => false,
        }
    }
}

impl Default for VideoIndexStage {
    /// `VideoIndexStage::Pending`.
    fn default() -> (r: Self)
        ensures
            r == VideoIndexStage::Pending,
    {
        VideoIndexStage::Pending
    }
}

/// Coarse derived stage of an `AudioTrack`'s indexing lifecycle (see
/// [`crate::stages`]).
#[derive(Debug, Clone, Copy, PartialEq, Eq, Hash, Structural)]
pub enum AudioIndexStage {
    Pending,
    Extracted,
    Analyzed,
    Transcribed,
    Diarized,
    Embedded,
    Done,
    Failed,
}

impl AudioIndexStage {
    /// True iff this is `AudioIndexStage::Pending`.
    pub fn is_pending(&self) -> (r: bool)
        ensures
            r == (*self is Pending),
    {
        match self {
            AudioIndexStage::Pending => true,
            _ => false,
        }
    }

    /// True iff this is `AudioIndexStage::Extracted`.
    pub fn is_extracted(&self) -> (r: bool)
        ensures
            r == (*self is Extracted),
    {
        match self {
            AudioIndexStage::Extracted => true,
            _ => false,
        }
    }

    /// True iff this is `AudioIndexStage::Analyzed`.
    pub fn is_analyzed(&self) -> (r: bool)
        ensures
            r == (*self is Analyzed),
    {
        match self {
            AudioIndexStage::Analyzed => true,
            _ => false,
        }
    }

    /// True iff this is `AudioIndexStage::Transcribed`.
    pub fn is_transcribed(&self) -> (r: bool)
        ensures
            r == (*self is Transcribed),
    {
        match self {
            AudioIndexStage::Transcribed => true,
            _ => false,
        }
    }

    /// True iff this is `AudioIndexStage::Diarized`.
    pub fn is_diarized(&self) -> (r: bool)
        ensures
            r == (*self is Diarized),
    {
        match self {
            AudioIndexStage::Diarized => true,
            _ => false,
        }
    }

    /// True iff this is `AudioIndexStage::Embedded`.
    pub fn is_embedded(&self) -> (r: bool)
        ensures
            r == (*self is Embedded),
    {
        match self {
            AudioIndexStage::Embedded => true,
            _ => false,
        }
    }

    /// True iff this is `AudioIndexStage::Done`.
    pub fn is_done(&self) -> (r: bool)
        ensures
            r == (*self is Done),
    {
        match self {
            AudioIndexStage::Done => true,
            _ => false,
        }
    }

    /// True iff this is `AudioIndexStage::Failed`.
    pub fn is_failed(&self) -> (r: bool)
        ensures
            r == (*self is Failed),
    {
        match self {
            AudioIndexStage::Failed => true,
            _ => false,
        }
    }
}

impl Default for AudioIndexStage {
    /// `AudioIndexStage::Pending`.
    fn default() -> (r: Self)
        ensures
            r == AudioIndexStage::Pending,
    {
        AudioIndexStage::Pending
    }
}

/// Coarse derived stage of a `SubtitleTrack`'s indexing lifecycle (see
/// [`crate::stages`]).
#[derive(Debug, Clone, Copy, PartialEq, Eq, Hash, Structural)]
pub enum SubtitleIndexStage {
    Pending,
    TracksDiscovered,
    CuesExtracted,
    Ocr,
    SearchIndexed,
    Done,
    Failed,
}

impl SubtitleIndexStage {
    /// True iff this is `SubtitleIndexStage::Pending`.
    pub fn is_pending(&self) -> (r: bool)
        ensures
            r == (*self is Pending),
    {
        match self {
            SubtitleIndexStage::Pending => true,
            _ => false,
        }
    }

    /// True iff this is `SubtitleIndexStage::TracksDiscovered`.
    pub fn is_tracks_discovered(&self) -> (r: bool)
        ensures
            r == (*self is TracksDiscovered),
    {
        match self {
            SubtitleIndexStage::TracksDiscovered => true,
            _ => false,
        }
    }

    /// True iff this is `SubtitleIndexStage::CuesExtracted`.
    pub fn is_cues_extracted(&self) -> (r: bool)
        ensures
            r == (*self is CuesExtracted),
    {
        match self {
            SubtitleIndexStage::CuesExtracted => true,
            _ => false,
        }
    }

    /// True iff this is `SubtitleIndexStage::Ocr`.
    pub fn is_ocr(&self) -> (r: bool)
        ensures
            r == (*self is Ocr),
    {
        match self {
            SubtitleIndexStage::Ocr => true,
            _ => false,
        }
    }

    /// True iff this is `SubtitleIndexStage::SearchIndexed`.
    pub fn is_search_indexed(&self) -> (r: bool)
        ensures
            r == (*self is SearchIndexed),
    {
        match self {
            SubtitleIndexStage::SearchIndexed => true,
            _ => false,
        }
    }

    /// True iff this is `SubtitleIndexStage::Done`.
    pub fn is_done(&self) -> (r: bool)
        ensures
            r == (*self is Done),
    {
        match self {
            SubtitleIndexStage::Done => true,
            _ => false,
        }
    }

    /// True iff this is `SubtitleIndexStage::Failed`.
    pub fn is_failed(&self) -> (r: bool)
        ensures
            r == (*self is Failed),
    {
        match self {
            SubtitleIndexStage::Failed => true,
            _ => false,
        }
    }
}

impl Default for SubtitleIndexStage {
    /// `SubtitleIndexStage::Pending`.
    fn default() -> (r: Self)
        ensures
            r == SubtitleIndexStage::Pending,
    {
        SubtitleIndexStage::Pending
    }
}

/// Which storage backend holds a thumbnail's image bytes.
#[derive(Debug, Clone, Copy, PartialEq, Eq, Hash, Structural)]
#[non_exhaustive]
pub enum ThumbnailKind {
    /// Bytes inlined in the thumbnail row.
    Database,
    /// Bytes in a file at a path.
    FileSystem,
    /// Bytes behind a URL.
    Remote,
}

impl ThumbnailKind {
    /// True iff this is `ThumbnailKind::Database`.
    pub fn is_database(&self) -> (r: bool)
        ensures
            r == (*self is Database),
    {
        match self {
            ThumbnailKind::Database => true,
            _ => false,
        }
    }

    /// True iff this is `ThumbnailKind::FileSystem`.
    pub fn is_file_system(&self) -> (r: bool)
        ensures
            r == (*self is FileSystem),
    {
        match self {
            ThumbnailKind::FileSystem => true,
            _ => false,
        }
    }

    /// True iff this is `ThumbnailKind::Remote`.
    pub fn is_remote(&self) -> (r: bool)
        ensures
            r == (*self is Remote),
    {
        match self {
            ThumbnailKind::Remote => true,
            _ => false,
        }
    }
}

/// What a keyframe stands for: a scene-representative frame or the video's
/// cover poster.
#[derive(Debug, Clone, Copy, PartialEq, Eq, Hash, Structural)]
#[non_exhaustive]
pub enum KeyframeRole {
    /// A scene-representative frame (has a scene parent).
    Scene,
    /// The video's cover poster (attaches at the video level, no scene).
    Cover,
}

impl KeyframeRole {
    /// True iff this is `KeyframeRole::Scene`.
    pub fn is_scene(&self) -> (r: bool)
        ensures
            r == (*self is Scene),
    {
        match self {
            KeyframeRole::Scene => true,
            _ => false,
        }
    }

    /// True iff this is `KeyframeRole::Cover`.
    pub fn is_cover(&self) -> (r: bool)
        ensures
            r == (*self is Cover),
    {
        match self {
            KeyframeRole::Cover => true,
            _ => false,
        }
    }
}

/// Which sound-event detector produced a sound event.
#[derive(Debug, Clone, Copy, PartialEq, Eq, Hash, Structural)]
#[non_exhaustive]
pub enum CedDetector {
    /// The CED sound-event classifier.
    Ced,
}

impl CedDetector {
    /// True iff this is `CedDetector::Ced`.
    pub fn is_ced(&self) -> (r: bool)
        ensures
            r == (*self is Ced),
    {
        match self {
            CedDetector::Ced => true,
            #[allow(unreachable_patterns)]
            _ => false,
        }
    }
}

} // verus!
