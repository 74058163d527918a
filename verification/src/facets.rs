//! The thin per-kind facets of a `Media` (`Video`, `Audio`, `Subtitle`,
//! `Data`, `Attachment`): a facet holds its tracks' ids and the indexing
//! roll-up; per-track detail lives on the tracks.
use vstd::prelude::*;

use crate::primitives::{is_nil_bytes, Uuid7};
use crate::progress::IndexProgress;

verus! {

/// Error returned when [`Video::try_new`] cannot uphold its invariants.
#[derive(Debug, Clone, Copy, PartialEq, Eq, Hash, Structural)]
#[non_exhaustive]
pub enum VideoError {
    /// `id` was the nil sentinel.
    NilId,
    /// `media_id` was the nil sentinel.
    NilMediaId,
}

/// The message of each [`VideoError`].
pub open spec fn video_error_message(e: VideoError) -> Seq<char> {
    match e {
        VideoError::NilId => "Video facet id must not be the nil UUID"@,
        VideoError::NilMediaId => "Video `media_id` (FK → Media) must not be the nil UUID"@,
    }
}

impl VideoError {
    /// True iff this is `VideoError::NilId`.
    pub fn is_nil_id(&self) -> (r: bool)
        ensures
            r == (*self is NilId),
    {
        match self {
            VideoError::NilId => true,
            #[allow(unreachable_patterns)]
            _ => false,
        }
    }

    /// True iff this is `VideoError::NilMediaId`.
    pub fn is_nil_media_id(&self) -> (r: bool)
        ensures
            r == (*self is NilMediaId),
    {
        match self {
            VideoError::NilMediaId => true,
            #[allow(unreachable_patterns)]
            _ => false,
        }
    }

    /// Human-readable description.
    pub fn message(&self) -> (r: String)
        ensures
            r@ == video_error_message(*self),
    {
        match self {
            VideoError::NilId => {
                proof {
                    reveal_strlit("Video facet id must not be the nil UUID");
                }
                "Video facet id must not be the nil UUID".to_owned()
            },
            VideoError::NilMediaId => {
                proof {
                    reveal_strlit("Video `media_id` (FK → Media) must not be the nil UUID");
                }
                "Video `media_id` (FK → Media) must not be the nil UUID".to_owned()
            },
        }
    }
}

/// Video facet of a `Media`: the per-track id list, the scene count and the
/// indexing roll-up.
#[derive(Debug, Clone, PartialEq)]
pub struct Video<Id = Uuid7> {
    id: Id,
    /// FK → `Media.id`.
    media_id: Id,
    /// Denormalised scene count across tracks.
    total_scenes: u32,
    /// Forward refs to child `VideoTrack`s.
    tracks: Vec<Id>,
    /// Roll-up of each track's derived stage.
    track_progress: IndexProgress,
}

impl<Id> Video<Id> {
    /// Stored `id`.
    pub closed spec fn spec_id(self) -> Id {
        self.id
    }

    /// Stored `media_id`.
    pub closed spec fn spec_media_id(self) -> Id {
        self.media_id
    }

    /// Stored `total_scenes`.
    pub closed spec fn spec_total_scenes(self) -> u32 {
        self.total_scenes
    }

    /// Stored `tracks`.
    pub closed spec fn spec_tracks(self) -> Seq<Id> {
        self.tracks@
    }

    /// Stored `track_progress`.
    pub closed spec fn spec_track_progress(self) -> IndexProgress {
        self.track_progress
    }

}

impl Video<Uuid7> {
    /// Validating constructor: rejects a nil `id` (checked first) and a nil
    /// `media_id`; tracks start empty and every counter at zero.
    pub fn try_new(id: Uuid7, media_id: Uuid7) -> (r: Result<Self, VideoError>)
        ensures
            (is_nil_bytes(id@)) <==> r == Err::<Self, VideoError>(VideoError::NilId),
            (!is_nil_bytes(id@) && is_nil_bytes(media_id@)) <==> r == Err::<Self, VideoError>(VideoError::NilMediaId),
            r is Ok <==> (!is_nil_bytes(id@) && !is_nil_bytes(media_id@)),
            r matches Ok(x) ==> x.spec_id() == id,
            r matches Ok(x) ==> x.spec_media_id() == media_id,
            r matches Ok(x) ==> x.spec_total_scenes() == 0,
            r matches Ok(x) ==> x.spec_tracks() == Seq::<Uuid7>::empty(),
            r matches Ok(x) ==> x.spec_track_progress().is_zero(),
    {
        if id.is_nil() {
            return Err(VideoError::NilId);
        }
        if media_id.is_nil() {
            return Err(VideoError::NilMediaId);
        }
        Ok(Video {
            id: id,
            media_id: media_id,
            total_scenes: 0,
            tracks: Vec::new(),
            track_progress: IndexProgress::new(),
        })
    }
}

impl<Id> Video<Id> {
    /// Canonical identity (referenced from `Media`).
    pub fn id_ref(&self) -> (r: &Id)
        ensures
            *r == self.spec_id(),
    {
        &self.id
    }

    /// FK → `Media.id`.
    pub fn media_id_ref(&self) -> (r: &Id)
        ensures
            *r == self.spec_media_id(),
    {
        &self.media_id
    }

    /// Denormalised scene count across tracks.
    pub fn total_scenes(&self) -> (r: u32)
        ensures
            r == self.spec_total_scenes(),
    {
        self.total_scenes
    }

    /// Forward refs to child `VideoTrack`s.
    pub fn tracks_slice(&self) -> (r: &[Id])
        ensures
            r@ == self.spec_tracks(),
    {
        self.tracks.as_slice()
    }

    /// Roll-up of each track's derived stage.
    pub fn track_progress_ref(&self) -> (r: &IndexProgress)
        ensures
            *r == self.spec_track_progress(),
    {
        &self.track_progress
    }

    /// Builder: replace `total_scenes`.
    pub fn with_total_scenes(self, v: u32) -> (r: Self)
        ensures
            r.spec_total_scenes() == v,
            r.spec_id() == self.spec_id(),
            r.spec_media_id() == self.spec_media_id(),
            r.spec_tracks() == self.spec_tracks(),
            r.spec_track_progress() == self.spec_track_progress(),
    {
        let mut s = self;
        s.total_scenes = v;
        s
    }

    /// Builder: replace `tracks`.
    pub fn with_tracks(self, v: Vec<Id>) -> (r: Self)
        ensures
            r.spec_tracks() == v@,
            r.spec_id() == self.spec_id(),
            r.spec_media_id() == self.spec_media_id(),
            r.spec_total_scenes() == self.spec_total_scenes(),
            r.spec_track_progress() == self.spec_track_progress(),
    {
        let mut s = self;
        s.tracks = v;
        s
    }

    /// Builder: replace `track_progress`.
    pub fn with_track_progress(self, v: IndexProgress) -> (r: Self)
        ensures
            r.spec_track_progress() == v,
            r.spec_id() == self.spec_id(),
            r.spec_media_id() == self.spec_media_id(),
            r.spec_total_scenes() == self.spec_total_scenes(),
            r.spec_tracks() == self.spec_tracks(),
    {
        let mut s = self;
        s.track_progress = v;
        s
    }

    /// In-place mutator for `total_scenes`.
    pub fn set_total_scenes(&mut self, v: u32) -> (r: &mut Self)
        ensures
            *final(self) == *final(r),
            r.spec_total_scenes() == v,
            r.spec_id() == old(self).spec_id(),
            r.spec_media_id() == old(self).spec_media_id(),
            r.spec_tracks() == old(self).spec_tracks(),
            r.spec_track_progress() == old(self).spec_track_progress(),
    {
        self.total_scenes = v;
        self
    }

    /// In-place mutator for `tracks`.
    pub fn set_tracks(&mut self, v: Vec<Id>) -> (r: &mut Self)
        ensures
            *final(self) == *final(r),
            r.spec_tracks() == v@,
            r.spec_id() == old(self).spec_id(),
            r.spec_media_id() == old(self).spec_media_id(),
            r.spec_total_scenes() == old(self).spec_total_scenes(),
            r.spec_track_progress() == old(self).spec_track_progress(),
    {
        self.tracks = v;
        self
    }

    /// In-place mutator for `track_progress`.
    pub fn set_track_progress(&mut self, v: IndexProgress) -> (r: &mut Self)
        ensures
            *final(self) == *final(r),
            r.spec_track_progress() == v,
            r.spec_id() == old(self).spec_id(),
            r.spec_media_id() == old(self).spec_media_id(),
            r.spec_total_scenes() == old(self).spec_total_scenes(),
            r.spec_tracks() == old(self).spec_tracks(),
    {
        self.track_progress = v;
        self
    }

    /// Decompose into [`VideoParts`] — exhaustive, by value.
    pub fn into_parts(self) -> (r: VideoParts<Id>)
        ensures
            r.id == self.spec_id(),
            r.media_id == self.spec_media_id(),
            r.total_scenes == self.spec_total_scenes(),
            r.tracks@ == self.spec_tracks(),
            r.track_progress == self.spec_track_progress(),
    {
        let Video { id, media_id, total_scenes, tracks, track_progress } = self;
        VideoParts { id, media_id, total_scenes, tracks, track_progress }
    }

    /// Rebuild from [`VideoParts`]; the parts must come from an
    /// already-validated value.
    pub fn rehydrate(parts: VideoParts<Id>) -> (r: Self)
        ensures
            r.spec_id() == parts.id,
            r.spec_media_id() == parts.media_id,
            r.spec_total_scenes() == parts.total_scenes,
            r.spec_tracks() == parts.tracks@,
            r.spec_track_progress() == parts.track_progress,
    {
        let VideoParts { id, media_id, total_scenes, tracks, track_progress } = parts;
        Video { id, media_id, total_scenes, tracks, track_progress }
    }
}

/// Exhaustive by-value decomposition of [`Video`] — every stored
/// field, public.
#[derive(Debug, Clone, PartialEq)]
pub struct VideoParts<Id = Uuid7> {
    pub id: Id,
    pub media_id: Id,
    pub total_scenes: u32,
    pub tracks: Vec<Id>,
    pub track_progress: IndexProgress,
}

/// Error returned when [`Audio::try_new`] cannot uphold its invariants.
#[derive(Debug, Clone, Copy, PartialEq, Eq, Hash, Structural)]
#[non_exhaustive]
pub enum AudioError {
    /// `id` was the nil sentinel.
    NilId,
    /// `media_id` was the nil sentinel.
    NilMediaId,
}

/// The message of each [`AudioError`].
pub open spec fn audio_error_message(e: AudioError) -> Seq<char> {
    match e {
        AudioError::NilId => "Audio id must not be the nil UUID"@,
        AudioError::NilMediaId => "Audio `media_id` (FK → Media) must not be the nil UUID"@,
    }
}

impl AudioError {
    /// True iff this is `AudioError::NilId`.
    pub fn is_nil_id(&self) -> (r: bool)
        ensures
            r == (*self is NilId),
    {
        match self {
            AudioError::NilId => true,
            #[allow(unreachable_patterns)]
            _ => false,
        }
    }

    /// True iff this is `AudioError::NilMediaId`.
    pub fn is_nil_media_id(&self) -> (r: bool)
        ensures
            r == (*self is NilMediaId),
    {
        match self {
            AudioError::NilMediaId => true,
            #[allow(unreachable_patterns)]
            _ => false,
        }
    }

    /// Human-readable description.
    pub fn message(&self) -> (r: String)
        ensures
            r@ == audio_error_message(*self),
    {
        match self {
            AudioError::NilId => {
                proof {
                    reveal_strlit("Audio id must not be the nil UUID");
                }
                "Audio id must not be the nil UUID".to_owned()
            },
            AudioError::NilMediaId => {
                proof {
                    reveal_strlit("Audio `media_id` (FK → Media) must not be the nil UUID");
                }
                "Audio `media_id` (FK → Media) must not be the nil UUID".to_owned()
            },
        }
    }
}

/// Audio facet of a `Media`: the per-track id list, segment / sound-event
/// counts and the indexing roll-up.
#[derive(Debug, Clone, PartialEq)]
pub struct Audio<Id = Uuid7> {
    id: Id,
    /// FK → `Media.id`.
    media_id: Id,
    /// Forward refs to child `AudioTrack`s.
    tracks: Vec<Id>,
    /// Denormalised segment count across tracks.
    total_segments: u32,
    /// Denormalised sound-event count across tracks.
    total_sound_events: u32,
    /// Roll-up of each track's derived stage.
    track_progress: IndexProgress,
}

impl<Id> Audio<Id> {
    /// Stored `id`.
    pub closed spec fn spec_id(self) -> Id {
        self.id
    }

    /// Stored `media_id`.
    pub closed spec fn spec_media_id(self) -> Id {
        self.media_id
    }

    /// Stored `tracks`.
    pub closed spec fn spec_tracks(self) -> Seq<Id> {
        self.tracks@
    }

    /// Stored `total_segments`.
    pub closed spec fn spec_total_segments(self) -> u32 {
        self.total_segments
    }

    /// Stored `total_sound_events`.
    pub closed spec fn spec_total_sound_events(self) -> u32 {
        self.total_sound_events
    }

    /// Stored `track_progress`.
    pub closed spec fn spec_track_progress(self) -> IndexProgress {
        self.track_progress
    }

}

impl Audio<Uuid7> {
    /// Validating constructor: rejects a nil `id` (checked first) and a nil
    /// `media_id`; tracks start empty and every counter at zero.
    pub fn try_new(id: Uuid7, media_id: Uuid7) -> (r: Result<Self, AudioError>)
        ensures
            (is_nil_bytes(id@)) <==> r == Err::<Self, AudioError>(AudioError::NilId),
            (!is_nil_bytes(id@) && is_nil_bytes(media_id@)) <==> r == Err::<Self, AudioError>(AudioError::NilMediaId),
            r is Ok <==> (!is_nil_bytes(id@) && !is_nil_bytes(media_id@)),
            r matches Ok(x) ==> x.spec_id() == id,
            r matches Ok(x) ==> x.spec_media_id() == media_id,
            r matches Ok(x) ==> x.spec_tracks() == Seq::<Uuid7>::empty(),
            r matches Ok(x) ==> x.spec_total_segments() == 0,
            r matches Ok(x) ==> x.spec_total_sound_events() == 0,
            r matches Ok(x) ==> x.spec_track_progress().is_zero(),
    {
        if id.is_nil() {
            return Err(AudioError::NilId);
        }
        if media_id.is_nil() {
            return Err(AudioError::NilMediaId);
        }
        Ok(Audio {
            id: id,
            media_id: media_id,
            tracks: Vec::new(),
            total_segments: 0,
            total_sound_events: 0,
            track_progress: IndexProgress::new(),
        })
    }
}

impl<Id> Audio<Id> {
    /// Canonical identity (referenced from `Media`).
    pub fn id_ref(&self) -> (r: &Id)
        ensures
            *r == self.spec_id(),
    {
        &self.id
    }

    /// FK → `Media.id`.
    pub fn media_id_ref(&self) -> (r: &Id)
        ensures
            *r == self.spec_media_id(),
    {
        &self.media_id
    }

    /// Forward refs to child `AudioTrack`s.
    pub fn tracks_slice(&self) -> (r: &[Id])
        ensures
            r@ == self.spec_tracks(),
    {
        self.tracks.as_slice()
    }

    /// Denormalised segment count across tracks.
    pub fn total_segments(&self) -> (r: u32)
        ensures
            r == self.spec_total_segments(),
    {
        self.total_segments
    }

    /// Denormalised sound-event count across tracks.
    pub fn total_sound_events(&self) -> (r: u32)
        ensures
            r == self.spec_total_sound_events(),
    {
        self.total_sound_events
    }

    /// Roll-up of each track's derived stage.
    pub fn track_progress_ref(&self) -> (r: &IndexProgress)
        ensures
            *r == self.spec_track_progress(),
    {
        &self.track_progress
    }

    /// Builder: replace `tracks`.
    pub fn with_tracks(self, v: Vec<Id>) -> (r: Self)
        ensures
            r.spec_tracks() == v@,
            r.spec_id() == self.spec_id(),
            r.spec_media_id() == self.spec_media_id(),
            r.spec_total_segments() == self.spec_total_segments(),
            r.spec_total_sound_events() == self.spec_total_sound_events(),
            r.spec_track_progress() == self.spec_track_progress(),
    {
        let mut s = self;
        s.tracks = v;
        s
    }

    /// Builder: replace `total_segments`.
    pub fn with_total_segments(self, v: u32) -> (r: Self)
        ensures
            r.spec_total_segments() == v,
            r.spec_id() == self.spec_id(),
            r.spec_media_id() == self.spec_media_id(),
            r.spec_tracks() == self.spec_tracks(),
            r.spec_total_sound_events() == self.spec_total_sound_events(),
            r.spec_track_progress() == self.spec_track_progress(),
    {
        let mut s = self;
        s.total_segments = v;
        s
    }

    /// Builder: replace `total_sound_events`.
    pub fn with_total_sound_events(self, v: u32) -> (r: Self)
        ensures
            r.spec_total_sound_events() == v,
            r.spec_id() == self.spec_id(),
            r.spec_media_id() == self.spec_media_id(),
            r.spec_tracks() == self.spec_tracks(),
            r.spec_total_segments() == self.spec_total_segments(),
            r.spec_track_progress() == self.spec_track_progress(),
    {
        let mut s = self;
        s.total_sound_events = v;
        s
    }

    /// Builder: replace `track_progress`.
    pub fn with_track_progress(self, v: IndexProgress) -> (r: Self)
        ensures
            r.spec_track_progress() == v,
            r.spec_id() == self.spec_id(),
            r.spec_media_id() == self.spec_media_id(),
            r.spec_tracks() == self.spec_tracks(),
            r.spec_total_segments() == self.spec_total_segments(),
            r.spec_total_sound_events() == self.spec_total_sound_events(),
    {
        let mut s = self;
        s.track_progress = v;
        s
    }

    /// In-place mutator for `tracks`.
    pub fn set_tracks(&mut self, v: Vec<Id>) -> (r: &mut Self)
        ensures
            *final(self) == *final(r),
            r.spec_tracks() == v@,
            r.spec_id() == old(self).spec_id(),
            r.spec_media_id() == old(self).spec_media_id(),
            r.spec_total_segments() == old(self).spec_total_segments(),
            r.spec_total_sound_events() == old(self).spec_total_sound_events(),
            r.spec_track_progress() == old(self).spec_track_progress(),
    {
        self.tracks = v;
        self
    }

    /// In-place mutator for `total_segments`.
    pub fn set_total_segments(&mut self, v: u32) -> (r: &mut Self)
        ensures
            *final(self) == *final(r),
            r.spec_total_segments() == v,
            r.spec_id() == old(self).spec_id(),
            r.spec_media_id() == old(self).spec_media_id(),
            r.spec_tracks() == old(self).spec_tracks(),
            r.spec_total_sound_events() == old(self).spec_total_sound_events(),
            r.spec_track_progress() == old(self).spec_track_progress(),
    {
        self.total_segments = v;
        self
    }

    /// In-place mutator for `total_sound_events`.
    pub fn set_total_sound_events(&mut self, v: u32) -> (r: &mut Self)
        ensures
            *final(self) == *final(r),
            r.spec_total_sound_events() == v,
            r.spec_id() == old(self).spec_id(),
            r.spec_media_id() == old(self).spec_media_id(),
            r.spec_tracks() == old(self).spec_tracks(),
            r.spec_total_segments() == old(self).spec_total_segments(),
            r.spec_track_progress() == old(self).spec_track_progress(),
    {
        self.total_sound_events = v;
        self
    }

    /// In-place mutator for `track_progress`.
    pub fn set_track_progress(&mut self, v: IndexProgress) -> (r: &mut Self)
        ensures
            *final(self) == *final(r),
            r.spec_track_progress() == v,
            r.spec_id() == old(self).spec_id(),
            r.spec_media_id() == old(self).spec_media_id(),
            r.spec_tracks() == old(self).spec_tracks(),
            r.spec_total_segments() == old(self).spec_total_segments(),
            r.spec_total_sound_events() == old(self).spec_total_sound_events(),
    {
        self.track_progress = v;
        self
    }

    /// Decompose into [`AudioParts`] — exhaustive, by value.
    pub fn into_parts(self) -> (r: AudioParts<Id>)
        ensures
            r.id == self.spec_id(),
            r.media_id == self.spec_media_id(),
            r.tracks@ == self.spec_tracks(),
            r.total_segments == self.spec_total_segments(),
            r.total_sound_events == self.spec_total_sound_events(),
            r.track_progress == self.spec_track_progress(),
    {
        let Audio { id, media_id, tracks, total_segments, total_sound_events, track_progress } = self;
        AudioParts { id, media_id, tracks, total_segments, total_sound_events, track_progress }
    }

    /// Rebuild from [`AudioParts`]; the parts must come from an
    /// already-validated value.
    pub fn rehydrate(parts: AudioParts<Id>) -> (r: Self)
        ensures
            r.spec_id() == parts.id,
            r.spec_media_id() == parts.media_id,
            r.spec_tracks() == parts.tracks@,
            r.spec_total_segments() == parts.total_segments,
            r.spec_total_sound_events() == parts.total_sound_events,
            r.spec_track_progress() == parts.track_progress,
    {
        let AudioParts { id, media_id, tracks, total_segments, total_sound_events, track_progress } = parts;
        Audio { id, media_id, tracks, total_segments, total_sound_events, track_progress }
    }
}

/// Exhaustive by-value decomposition of [`Audio`] — every stored
/// field, public.
#[derive(Debug, Clone, PartialEq)]
pub struct AudioParts<Id = Uuid7> {
    pub id: Id,
    pub media_id: Id,
    pub tracks: Vec<Id>,
    pub total_segments: u32,
    pub total_sound_events: u32,
    pub track_progress: IndexProgress,
}

/// Error returned when [`Subtitle::try_new`] cannot uphold its invariants.
#[derive(Debug, Clone, Copy, PartialEq, Eq, Hash, Structural)]
#[non_exhaustive]
pub enum SubtitleError {
    /// `id` was the nil sentinel.
    NilId,
    /// `media_id` was the nil sentinel.
    NilMediaId,
}

/// The message of each [`SubtitleError`].
pub open spec fn subtitle_error_message(e: SubtitleError) -> Seq<char> {
    match e {
        SubtitleError::NilId => "Subtitle id must not be the nil UUID"@,
        SubtitleError::NilMediaId => "Subtitle `media_id` (FK → Media) must not be the nil UUID"@,
    }
}

impl SubtitleError {
    /// True iff this is `SubtitleError::NilId`.
    pub fn is_nil_id(&self) -> (r: bool)
        ensures
            r == (*self is NilId),
    {
        match self {
            SubtitleError::NilId => true,
            #[allow(unreachable_patterns)]
            _ => false,
        }
    }

    /// True iff this is `SubtitleError::NilMediaId`.
    pub fn is_nil_media_id(&self) -> (r: bool)
        ensures
            r == (*self is NilMediaId),
    {
        match self {
            SubtitleError::NilMediaId => true,
            #[allow(unreachable_patterns)]
            _ => false,
        }
    }

    /// Human-readable description.
    pub fn message(&self) -> (r: String)
        ensures
            r@ == subtitle_error_message(*self),
    {
        match self {
            SubtitleError::NilId => {
                proof {
                    reveal_strlit("Subtitle id must not be the nil UUID");
                }
                "Subtitle id must not be the nil UUID".to_owned()
            },
            SubtitleError::NilMediaId => {
                proof {
                    reveal_strlit("Subtitle `media_id` (FK → Media) must not be the nil UUID");
                }
                "Subtitle `media_id` (FK → Media) must not be the nil UUID".to_owned()
            },
        }
    }
}

/// Subtitle facet of a `Media`: the per-track id list and the indexing
/// roll-up.
#[derive(Debug, Clone, PartialEq)]
pub struct Subtitle<Id = Uuid7> {
    id: Id,
    /// FK → `Media.id`.
    media_id: Id,
    /// Forward refs to child `SubtitleTrack`s.
    tracks: Vec<Id>,
    /// Roll-up of each track's derived stage.
    track_progress: IndexProgress,
}

impl<Id> Subtitle<Id> {
    /// Stored `id`.
    pub closed spec fn spec_id(self) -> Id {
        self.id
    }

    /// Stored `media_id`.
    pub closed spec fn spec_media_id(self) -> Id {
        self.media_id
    }

    /// Stored `tracks`.
    pub closed spec fn spec_tracks(self) -> Seq<Id> {
        self.tracks@
    }

    /// Stored `track_progress`.
    pub closed spec fn spec_track_progress(self) -> IndexProgress {
        self.track_progress
    }

}

impl Subtitle<Uuid7> {
    /// Validating constructor: rejects a nil `id` (checked first) and a nil
    /// `media_id`; tracks start empty and every counter at zero.
    pub fn try_new(id: Uuid7, media_id: Uuid7) -> (r: Result<Self, SubtitleError>)
        ensures
            (is_nil_bytes(id@)) <==> r == Err::<Self, SubtitleError>(SubtitleError::NilId),
            (!is_nil_bytes(id@) && is_nil_bytes(media_id@)) <==> r == Err::<Self, SubtitleError>(SubtitleError::NilMediaId),
            r is Ok <==> (!is_nil_bytes(id@) && !is_nil_bytes(media_id@)),
            r matches Ok(x) ==> x.spec_id() == id,
            r matches Ok(x) ==> x.spec_media_id() == media_id,
            r matches Ok(x) ==> x.spec_tracks() == Seq::<Uuid7>::empty(),
            r matches Ok(x) ==> x.spec_track_progress().is_zero(),
    {
        if id.is_nil() {
            return Err(SubtitleError::NilId);
        }
        if media_id.is_nil() {
            return Err(SubtitleError::NilMediaId);
        }
        Ok(Subtitle {
            id: id,
            media_id: media_id,
            tracks: Vec::new(),
            track_progress: IndexProgress::new(),
        })
    }
}

impl<Id> Subtitle<Id> {
    /// Canonical identity (referenced from `Media`).
    pub fn id_ref(&self) -> (r: &Id)
        ensures
            *r == self.spec_id(),
    {
        &self.id
    }

    /// FK → `Media.id`.
    pub fn media_id_ref(&self) -> (r: &Id)
        ensures
            *r == self.spec_media_id(),
    {
        &self.media_id
    }

    /// Forward refs to child `SubtitleTrack`s.
    pub fn tracks_slice(&self) -> (r: &[Id])
        ensures
            r@ == self.spec_tracks(),
    {
        self.tracks.as_slice()
    }

    /// Roll-up of each track's derived stage.
    pub fn track_progress_ref(&self) -> (r: &IndexProgress)
        ensures
            *r == self.spec_track_progress(),
    {
        &self.track_progress
    }

    /// Builder: replace `tracks`.
    pub fn with_tracks(self, v: Vec<Id>) -> (r: Self)
        ensures
            r.spec_tracks() == v@,
            r.spec_id() == self.spec_id(),
            r.spec_media_id() == self.spec_media_id(),
            r.spec_track_progress() == self.spec_track_progress(),
    {
        let mut s = self;
        s.tracks = v;
        s
    }

    /// Builder: replace `track_progress`.
    pub fn with_track_progress(self, v: IndexProgress) -> (r: Self)
        ensures
            r.spec_track_progress() == v,
            r.spec_id() == self.spec_id(),
            r.spec_media_id() == self.spec_media_id(),
            r.spec_tracks() == self.spec_tracks(),
    {
        let mut s = self;
        s.track_progress = v;
        s
    }

    /// In-place mutator for `tracks`.
    pub fn set_tracks(&mut self, v: Vec<Id>) -> (r: &mut Self)
        ensures
            *final(self) == *final(r),
            r.spec_tracks() == v@,
            r.spec_id() == old(self).spec_id(),
            r.spec_media_id() == old(self).spec_media_id(),
            r.spec_track_progress() == old(self).spec_track_progress(),
    {
        self.tracks = v;
        self
    }

    /// In-place mutator for `track_progress`.
    pub fn set_track_progress(&mut self, v: IndexProgress) -> (r: &mut Self)
        ensures
            *final(self) == *final(r),
            r.spec_track_progress() == v,
            r.spec_id() == old(self).spec_id(),
            r.spec_media_id() == old(self).spec_media_id(),
            r.spec_tracks() == old(self).spec_tracks(),
    {
        self.track_progress = v;
        self
    }

    /// Decompose into [`SubtitleParts`] — exhaustive, by value.
    pub fn into_parts(self) -> (r: SubtitleParts<Id>)
        ensures
            r.id == self.spec_id(),
            r.media_id == self.spec_media_id(),
            r.tracks@ == self.spec_tracks(),
            r.track_progress == self.spec_track_progress(),
    {
        let Subtitle { id, media_id, tracks, track_progress } = self;
        SubtitleParts { id, media_id, tracks, track_progress }
    }

    /// Rebuild from [`SubtitleParts`]; the parts must come from an
    /// already-validated value.
    pub fn rehydrate(parts: SubtitleParts<Id>) -> (r: Self)
        ensures
            r.spec_id() == parts.id,
            r.spec_media_id() == parts.media_id,
            r.spec_tracks() == parts.tracks@,
            r.spec_track_progress() == parts.track_progress,
    {
        let SubtitleParts { id, media_id, tracks, track_progress } = parts;
        Subtitle { id, media_id, tracks, track_progress }
    }
}

/// Exhaustive by-value decomposition of [`Subtitle`] — every stored
/// field, public.
#[derive(Debug, Clone, PartialEq)]
pub struct SubtitleParts<Id = Uuid7> {
    pub id: Id,
    pub media_id: Id,
    pub tracks: Vec<Id>,
    pub track_progress: IndexProgress,
}

/// Error returned when [`Data::try_new`] cannot uphold its invariants.
#[derive(Debug, Clone, Copy, PartialEq, Eq, Hash, Structural)]
#[non_exhaustive]
pub enum DataError {
    /// `id` was the nil sentinel.
    NilId,
    /// `media_id` was the nil sentinel.
    NilMediaId,
}

/// The message of each [`DataError`].
pub open spec fn data_error_message(e: DataError) -> Seq<char> {
    match e {
        DataError::NilId => "Data facet id must not be the nil UUID"@,
        DataError::NilMediaId => "Data `media_id` (FK → Media) must not be the nil UUID"@,
    }
}

impl DataError {
    /// True iff this is `DataError::NilId`.
    pub fn is_nil_id(&self) -> (r: bool)
        ensures
            r == (*self is NilId),
    {
        match self {
            DataError::NilId => true,
            #[allow(unreachable_patterns)]
            _ => false,
        }
    }

    /// True iff this is `DataError::NilMediaId`.
    pub fn is_nil_media_id(&self) -> (r: bool)
        ensures
            r == (*self is NilMediaId),
    {
        match self {
            DataError::NilMediaId => true,
            #[allow(unreachable_patterns)]
            _ => false,
        }
    }

    /// Human-readable description.
    pub fn message(&self) -> (r: String)
        ensures
            r@ == data_error_message(*self),
    {
        match self {
            DataError::NilId => {
                proof {
                    reveal_strlit("Data facet id must not be the nil UUID");
                }
                "Data facet id must not be the nil UUID".to_owned()
            },
            DataError::NilMediaId => {
                proof {
                    reveal_strlit("Data `media_id` (FK → Media) must not be the nil UUID");
                }
                "Data `media_id` (FK → Media) must not be the nil UUID".to_owned()
            },
        }
    }
}

/// Data facet of a `Media` (data streams): the per-track id list and the
/// indexing roll-up.
#[derive(Debug, Clone, PartialEq)]
pub struct Data<Id = Uuid7> {
    id: Id,
    /// FK → `Media.id`.
    media_id: Id,
    /// Roll-up of each track's derived stage.
    track_progress: IndexProgress,
    /// Forward refs to child `DataTrack`s.
    tracks: Vec<Id>,
}

impl<Id> Data<Id> {
    /// Stored `id`.
    pub closed spec fn spec_id(self) -> Id {
        self.id
    }

    /// Stored `media_id`.
    pub closed spec fn spec_media_id(self) -> Id {
        self.media_id
    }

    /// Stored `track_progress`.
    pub closed spec fn spec_track_progress(self) -> IndexProgress {
        self.track_progress
    }

    /// Stored `tracks`.
    pub closed spec fn spec_tracks(self) -> Seq<Id> {
        self.tracks@
    }

}

impl Data<Uuid7> {
    /// Validating constructor: rejects a nil `id` (checked first) and a nil
    /// `media_id`; tracks start empty and every counter at zero.
    pub fn try_new(id: Uuid7, media_id: Uuid7) -> (r: Result<Self, DataError>)
        ensures
            (is_nil_bytes(id@)) <==> r == Err::<Self, DataError>(DataError::NilId),
            (!is_nil_bytes(id@) && is_nil_bytes(media_id@)) <==> r == Err::<Self, DataError>(DataError::NilMediaId),
            r is Ok <==> (!is_nil_bytes(id@) && !is_nil_bytes(media_id@)),
            r matches Ok(x) ==> x.spec_id() == id,
            r matches Ok(x) ==> x.spec_media_id() == media_id,
            r matches Ok(x) ==> x.spec_track_progress().is_zero(),
            r matches Ok(x) ==> x.spec_tracks() == Seq::<Uuid7>::empty(),
    {
        if id.is_nil() {
            return Err(DataError::NilId);
        }
        if media_id.is_nil() {
            return Err(DataError::NilMediaId);
        }
        Ok(Data {
            id: id,
            media_id: media_id,
            track_progress: IndexProgress::new(),
            tracks: Vec::new(),
        })
    }
}

impl<Id> Data<Id> {
    /// Canonical identity (referenced from `Media`).
    pub fn id_ref(&self) -> (r: &Id)
        ensures
            *r == self.spec_id(),
    {
        &self.id
    }

    /// FK → `Media.id`.
    pub fn media_id_ref(&self) -> (r: &Id)
        ensures
            *r == self.spec_media_id(),
    {
        &self.media_id
    }

    /// Roll-up of each track's derived stage.
    pub fn track_progress_ref(&self) -> (r: &IndexProgress)
        ensures
            *r == self.spec_track_progress(),
    {
        &self.track_progress
    }

    /// Forward refs to child `DataTrack`s.
    pub fn tracks_slice(&self) -> (r: &[Id])
        ensures
            r@ == self.spec_tracks(),
    {
        self.tracks.as_slice()
    }

    /// Builder: replace `track_progress`.
    pub fn with_track_progress(self, v: IndexProgress) -> (r: Self)
        ensures
            r.spec_track_progress() == v,
            r.spec_id() == self.spec_id(),
            r.spec_media_id() == self.spec_media_id(),
            r.spec_tracks() == self.spec_tracks(),
    {
        let mut s = self;
        s.track_progress = v;
        s
    }

    /// Builder: replace `tracks`.
    pub fn with_tracks(self, v: Vec<Id>) -> (r: Self)
        ensures
            r.spec_tracks() == v@,
            r.spec_id() == self.spec_id(),
            r.spec_media_id() == self.spec_media_id(),
            r.spec_track_progress() == self.spec_track_progress(),
    {
        let mut s = self;
        s.tracks = v;
        s
    }

    /// In-place mutator for `track_progress`.
    pub fn set_track_progress(&mut self, v: IndexProgress) -> (r: &mut Self)
        ensures
            *final(self) == *final(r),
            r.spec_track_progress() == v,
            r.spec_id() == old(self).spec_id(),
            r.spec_media_id() == old(self).spec_media_id(),
            r.spec_tracks() == old(self).spec_tracks(),
    {
        self.track_progress = v;
        self
    }

    /// In-place mutator for `tracks`.
    pub fn set_tracks(&mut self, v: Vec<Id>) -> (r: &mut Self)
        ensures
            *final(self) == *final(r),
            r.spec_tracks() == v@,
            r.spec_id() == old(self).spec_id(),
            r.spec_media_id() == old(self).spec_media_id(),
            r.spec_track_progress() == old(self).spec_track_progress(),
    {
        self.tracks = v;
        self
    }

    /// Decompose into [`DataParts`] — exhaustive, by value.
    pub fn into_parts(self) -> (r: DataParts<Id>)
        ensures
            r.id == self.spec_id(),
            r.media_id == self.spec_media_id(),
            r.track_progress == self.spec_track_progress(),
            r.tracks@ == self.spec_tracks(),
    {
        let Data { id, media_id, track_progress, tracks } = self;
        DataParts { id, media_id, track_progress, tracks }
    }

    /// Rebuild from [`DataParts`]; the parts must come from an
    /// already-validated value.
    pub fn rehydrate(parts: DataParts<Id>) -> (r: Self)
        ensures
            r.spec_id() == parts.id,
            r.spec_media_id() == parts.media_id,
            r.spec_track_progress() == parts.track_progress,
            r.spec_tracks() == parts.tracks@,
    {
        let DataParts { id, media_id, track_progress, tracks } = parts;
        Data { id, media_id, track_progress, tracks }
    }
}

/// Exhaustive by-value decomposition of [`Data`] — every stored
/// field, public.
#[derive(Debug, Clone, PartialEq)]
pub struct DataParts<Id = Uuid7> {
    pub id: Id,
    pub media_id: Id,
    pub track_progress: IndexProgress,
    pub tracks: Vec<Id>,
}

/// Error returned when [`Attachment::try_new`] cannot uphold its invariants.
#[derive(Debug, Clone, Copy, PartialEq, Eq, Hash, Structural)]
#[non_exhaustive]
pub enum AttachmentError {
    /// `id` was the nil sentinel.
    NilId,
    /// `media_id` was the nil sentinel.
    NilMediaId,
}

/// The message of each [`AttachmentError`].
pub open spec fn attachment_error_message(e: AttachmentError) -> Seq<char> {
    match e {
        AttachmentError::NilId => "Attachment facet id must not be the nil UUID"@,
        AttachmentError::NilMediaId => "Attachment `media_id` (FK → Media) must not be the nil UUID"@,
    }
}

impl AttachmentError {
    /// True iff this is `AttachmentError::NilId`.
    pub fn is_nil_id(&self) -> (r: bool)
        ensures
            r == (*self is NilId),
    {
        match self {
            AttachmentError::NilId => true,
            #[allow(unreachable_patterns)]
            _ => false,
        }
    }

    /// True iff this is `AttachmentError::NilMediaId`.
    pub fn is_nil_media_id(&self) -> (r: bool)
        ensures
            r == (*self is NilMediaId),
    {
        match self {
            AttachmentError::NilMediaId => true,
            #[allow(unreachable_patterns)]
            _ => false,
        }
    }

    /// Human-readable description.
    pub fn message(&self) -> (r: String)
        ensures
            r@ == attachment_error_message(*self),
    {
        match self {
            AttachmentError::NilId => {
                proof {
                    reveal_strlit("Attachment facet id must not be the nil UUID");
                }
                "Attachment facet id must not be the nil UUID".to_owned()
            },
            AttachmentError::NilMediaId => {
                proof {
                    reveal_strlit("Attachment `media_id` (FK → Media) must not be the nil UUID");
                }
                "Attachment `media_id` (FK → Media) must not be the nil UUID".to_owned()
            },
        }
    }
}

/// Attachment facet of a `Media` (attached files): the per-track id list and
/// the indexing roll-up.
#[derive(Debug, Clone, PartialEq)]
pub struct Attachment<Id = Uuid7> {
    id: Id,
    /// FK → `Media.id`.
    media_id: Id,
    /// Roll-up of each track's derived stage.
    track_progress: IndexProgress,
    /// Forward refs to child `AttachmentTrack`s.
    tracks: Vec<Id>,
}

impl<Id> Attachment<Id> {
    /// Stored `id`.
    pub closed spec fn spec_id(self) -> Id {
        self.id
    }

    /// Stored `media_id`.
    pub closed spec fn spec_media_id(self) -> Id {
        self.media_id
    }

    /// Stored `track_progress`.
    pub closed spec fn spec_track_progress(self) -> IndexProgress {
        self.track_progress
    }

    /// Stored `tracks`.
    pub closed spec fn spec_tracks(self) -> Seq<Id> {
        self.tracks@
    }

}

impl Attachment<Uuid7> {
    /// Validating constructor: rejects a nil `id` (checked first) and a nil
    /// `media_id`; tracks start empty and every counter at zero.
    pub fn try_new(id: Uuid7, media_id: Uuid7) -> (r: Result<Self, AttachmentError>)
        ensures
            (is_nil_bytes(id@)) <==> r == Err::<Self, AttachmentError>(AttachmentError::NilId),
            (!is_nil_bytes(id@) && is_nil_bytes(media_id@)) <==> r == Err::<Self, AttachmentError>(AttachmentError::NilMediaId),
            r is Ok <==> (!is_nil_bytes(id@) && !is_nil_bytes(media_id@)),
            r matches Ok(x) ==> x.spec_id() == id,
            r matches Ok(x) ==> x.spec_media_id() == media_id,
            r matches Ok(x) ==> x.spec_track_progress().is_zero(),
            r matches Ok(x) ==> x.spec_tracks() == Seq::<Uuid7>::empty(),
    {
        if id.is_nil() {
            return Err(AttachmentError::NilId);
        }
        if media_id.is_nil() {
            return Err(AttachmentError::NilMediaId);
        }
        Ok(Attachment {
            id: id,
            media_id: media_id,
            track_progress: IndexProgress::new(),
            tracks: Vec::new(),
        })
    }
}

impl<Id> Attachment<Id> {
    /// Canonical identity (referenced from `Media`).
    pub fn id_ref(&self) -> (r: &Id)
        ensures
            *r == self.spec_id(),
    {
        &self.id
    }

    /// FK → `Media.id`.
    pub fn media_id_ref(&self) -> (r: &Id)
        ensures
            *r == self.spec_media_id(),
    {
        &self.media_id
    }

    /// Roll-up of each track's derived stage.
    pub fn track_progress_ref(&self) -> (r: &IndexProgress)
        ensures
            *r == self.spec_track_progress(),
    {
        &self.track_progress
    }

    /// Forward refs to child `AttachmentTrack`s.
    pub fn tracks_slice(&self) -> (r: &[Id])
        ensures
            r@ == self.spec_tracks(),
    {
        self.tracks.as_slice()
    }

    /// Builder: replace `track_progress`.
    pub fn with_track_progress(self, v: IndexProgress) -> (r: Self)
        ensures
            r.spec_track_progress() == v,
            r.spec_id() == self.spec_id(),
            r.spec_media_id() == self.spec_media_id(),
            r.spec_tracks() == self.spec_tracks(),
    {
        let mut s = self;
        s.track_progress = v;
        s
    }

    /// Builder: replace `tracks`.
    pub fn with_tracks(self, v: Vec<Id>) -> (r: Self)
        ensures
            r.spec_tracks() == v@,
            r.spec_id() == self.spec_id(),
            r.spec_media_id() == self.spec_media_id(),
            r.spec_track_progress() == self.spec_track_progress(),
    {
        let mut s = self;
        s.tracks = v;
        s
    }

    /// In-place mutator for `track_progress`.
    pub fn set_track_progress(&mut self, v: IndexProgress) -> (r: &mut Self)
        ensures
            *final(self) == *final(r),
            r.spec_track_progress() == v,
            r.spec_id() == old(self).spec_id(),
            r.spec_media_id() == old(self).spec_media_id(),
            r.spec_tracks() == old(self).spec_tracks(),
    {
        self.track_progress = v;
        self
    }

    /// In-place mutator for `tracks`.
    pub fn set_tracks(&mut self, v: Vec<Id>) -> (r: &mut Self)
        ensures
            *final(self) == *final(r),
            r.spec_tracks() == v@,
            r.spec_id() == old(self).spec_id(),
            r.spec_media_id() == old(self).spec_media_id(),
            r.spec_track_progress() == old(self).spec_track_progress(),
    {
        self.tracks = v;
        self
    }

    /// Decompose into [`AttachmentParts`] — exhaustive, by value.
    pub fn into_parts(self) -> (r: AttachmentParts<Id>)
        ensures
            r.id == self.spec_id(),
            r.media_id == self.spec_media_id(),
            r.track_progress == self.spec_track_progress(),
            r.tracks@ == self.spec_tracks(),
    {
        let Attachment { id, media_id, track_progress, tracks } = self;
        AttachmentParts { id, media_id, track_progress, tracks }
    }

    /// Rebuild from [`AttachmentParts`]; the parts must come from an
    /// already-validated value.
    pub fn rehydrate(parts: AttachmentParts<Id>) -> (r: Self)
        ensures
            r.spec_id() == parts.id,
            r.spec_media_id() == parts.media_id,
            r.spec_track_progress() == parts.track_progress,
            r.spec_tracks() == parts.tracks@,
    {
        let AttachmentParts { id, media_id, track_progress, tracks } = parts;
        Attachment { id, media_id, track_progress, tracks }
    }
}

/// Exhaustive by-value decomposition of [`Attachment`] — every stored
/// field, public.
#[derive(Debug, Clone, PartialEq)]
pub struct AttachmentParts<Id = Uuid7> {
    pub id: Id,
    pub media_id: Id,
    pub track_progress: IndexProgress,
    pub tracks: Vec<Id>,
}

} // verus!
