//! `Scene` — one detected scene of a video track.
use vstd::prelude::*;

use crate::enums::SceneDetector;
use crate::primitives::{is_nil_bytes, Uuid7};
use crate::time::TimeRange;

verus! {

/// Error returned by a [`Scene`] constructor or fallible mutator.
#[derive(Debug, Clone, Copy, PartialEq, Eq, Hash, Structural)]
#[non_exhaustive]
pub enum SceneError {
    /// `id` was the nil sentinel.
    NilId,
    /// `video_track_id` was the nil sentinel.
    NilVideoTrackId,
    /// the span's start lies after its end.
    InvertedSpan,
}

/// The message of each [`SceneError`].
pub open spec fn scene_error_message(e: SceneError) -> Seq<char> {
    match e {
        SceneError::NilId => "Scene id must not be the nil UUID"@,
        SceneError::NilVideoTrackId => "Scene `video_track_id` (FK → VideoTrack) must not be the nil UUID"@,
        SceneError::InvertedSpan => "Scene span must not be inverted (start_pts <= end_pts)"@,
    }
}

impl SceneError {
    /// True iff this is `SceneError::NilId`.
    pub fn is_nil_id(&self) -> (r: bool)
        ensures
            r == (*self is NilId),
    {
        match self {
            SceneError::NilId => true,
            #[allow(unreachable_patterns)]
            _ => false,
        }
    }

    /// True iff this is `SceneError::NilVideoTrackId`.
    pub fn is_nil_video_track_id(&self) -> (r: bool)
        ensures
            r == (*self is NilVideoTrackId),
    {
        match self {
            SceneError::NilVideoTrackId => true,
            #[allow(unreachable_patterns)]
            _ => false,
        }
    }

    /// True iff this is `SceneError::InvertedSpan`.
    pub fn is_inverted_span(&self) -> (r: bool)
        ensures
            r == (*self is InvertedSpan),
    {
        match self {
            SceneError::InvertedSpan => true,
            #[allow(unreachable_patterns)]
            _ => false,
        }
    }

    /// Human-readable description.
    pub fn message(&self) -> (r: String)
        ensures
            r@ == scene_error_message(*self),
    {
        match self {
            SceneError::NilId => {
                proof {
                    reveal_strlit("Scene id must not be the nil UUID");
                }
                "Scene id must not be the nil UUID".to_owned()
            },
            SceneError::NilVideoTrackId => {
                proof {
                    reveal_strlit("Scene `video_track_id` (FK → VideoTrack) must not be the nil UUID");
                }
                "Scene `video_track_id` (FK → VideoTrack) must not be the nil UUID".to_owned()
            },
            SceneError::InvertedSpan => {
                proof {
                    reveal_strlit("Scene span must not be inverted (start_pts <= end_pts)");
                }
                "Scene span must not be inverted (start_pts <= end_pts)".to_owned()
            },
        }
    }
}

/// One detected scene of a video track: its span, the detector that raised
/// the boundary, its keyframes and an optional description.
#[derive(Debug, Clone, PartialEq)]
pub struct Scene<Id = Uuid7> {
    id: Id,
    /// FK → `VideoTrack.id`.
    video_track_id: Id,
    /// Ordinal within the track.
    index: u32,
    /// Time span of the scene.
    span: TimeRange,
    /// Detector that raised the boundary.
    detector: SceneDetector,
    /// Refs to the scene's `Keyframe`s.
    keyframes: Vec<Id>,
    /// Description (`""` = none).
    description: String,
}

impl<Id> Scene<Id> {
    /// Stored `id`.
    pub closed spec fn spec_id(self) -> Id {
        self.id
    }

    /// Stored `video_track_id`.
    pub closed spec fn spec_video_track_id(self) -> Id {
        self.video_track_id
    }

    /// Stored `index`.
    pub closed spec fn spec_index(self) -> u32 {
        self.index
    }

    /// Stored `span`.
    pub closed spec fn spec_span(self) -> TimeRange {
        self.span
    }

    /// Stored `detector`.
    pub closed spec fn spec_detector(self) -> SceneDetector {
        self.detector
    }

    /// Stored `keyframes`.
    pub closed spec fn spec_keyframes(self) -> Seq<Id> {
        self.keyframes@
    }

    /// Stored `description`.
    pub closed spec fn spec_description(self) -> Seq<char> {
        self.description@
    }

}

impl Scene<Uuid7> {
    /// Validating constructor. Checks in order: nil `id`, nil
    /// `video_track_id`, inverted span; keyframes start empty and the
    /// description blank.
    pub fn try_new(id: Uuid7, video_track_id: Uuid7, index: u32, span: TimeRange, detector: SceneDetector) -> (r: Result<Self, SceneError>)
        ensures
            is_nil_bytes(id@) <==> r == Err::<Self, SceneError>(SceneError::NilId),
            !is_nil_bytes(id@) && is_nil_bytes(video_track_id@) <==> r == Err::<Self, SceneError>(
                SceneError::NilVideoTrackId,
            ),
            !is_nil_bytes(id@) && !is_nil_bytes(video_track_id@) && span.spec_start()
                > span.spec_end() <==> r == Err::<Self, SceneError>(SceneError::InvertedSpan),
            r matches Ok(x) ==> {
                &&& x.spec_id() == id
                &&& x.spec_video_track_id() == video_track_id
                &&& x.spec_index() == index
                &&& x.spec_span() == span
                &&& x.spec_detector() == detector
                &&& x.spec_keyframes() == Seq::<Uuid7>::empty()
                &&& x.spec_description() == Seq::<char>::empty()
            },
    {
        if id.is_nil() {
            return Err(SceneError::NilId);
        }
        if video_track_id.is_nil() {
            return Err(SceneError::NilVideoTrackId);
        }
        if span.start_pts() > span.end_pts() {
            return Err(SceneError::InvertedSpan);
        }
        Ok(Scene {
            id,
            video_track_id,
            index,
            span,
            detector,
            keyframes: Vec::new(),
            description: String::new(),
        })
    }
}

impl<Id> Scene<Id> {
    /// Canonical identity.
    pub fn id_ref(&self) -> (r: &Id)
        ensures
            *r == self.spec_id(),
    {
        &self.id
    }

    /// FK → `VideoTrack.id`.
    pub fn video_track_id_ref(&self) -> (r: &Id)
        ensures
            *r == self.spec_video_track_id(),
    {
        &self.video_track_id
    }

    /// Ordinal within the track.
    pub fn index(&self) -> (r: u32)
        ensures
            r == self.spec_index(),
    {
        self.index
    }

    /// Time span.
    pub fn span_ref(&self) -> (r: &TimeRange)
        ensures
            *r == self.spec_span(),
    {
        &self.span
    }

    /// Detector that raised the boundary.
    pub fn detector(&self) -> (r: SceneDetector)
        ensures
            r == self.spec_detector(),
    {
        self.detector
    }

    /// Refs to the scene's keyframes.
    pub fn keyframes_slice(&self) -> (r: &[Id])
        ensures
            r@ == self.spec_keyframes(),
    {
        self.keyframes.as_slice()
    }

    /// Description.
    pub fn description(&self) -> (r: &str)
        ensures
            r@ == self.spec_description(),
    {
        self.description.as_str()
    }

    /// Builder: replace `index`.
    pub fn with_index(self, v: u32) -> (r: Self)
        ensures
            r.spec_index() == v,
            r.spec_id() == self.spec_id(),
            r.spec_video_track_id() == self.spec_video_track_id(),
            r.spec_span() == self.spec_span(),
            r.spec_detector() == self.spec_detector(),
            r.spec_keyframes() == self.spec_keyframes(),
            r.spec_description() == self.spec_description(),
    {
        let mut s = self;
        s.index = v;
        s
    }

    /// Fallible builder for `span`: an inverted span is rejected.
    pub fn try_with_span(self, v: TimeRange) -> (r: Result<Self, SceneError>)
        ensures
            r is Err <==> v.spec_start() > v.spec_end(),
            v.spec_start() > v.spec_end() <==> r == Err::<Self, SceneError>(SceneError::InvertedSpan),
            r matches Ok(x) ==> x.spec_span() == v
                && x.spec_id() == self.spec_id()
                && x.spec_video_track_id() == self.spec_video_track_id()
                && x.spec_index() == self.spec_index()
                && x.spec_detector() == self.spec_detector()
                && x.spec_keyframes() == self.spec_keyframes()
                && x.spec_description() == self.spec_description()
                ,
    {
        if v.start_pts() > v.end_pts() {
            return Err(SceneError::InvertedSpan);
        }
        let mut s = self;
        s.span = v;
        Ok(s)
    }

    /// Fallible in-place mutator for `span`: an inverted span is rejected and
    /// the scene left unchanged.
    pub fn try_set_span(&mut self, v: TimeRange) -> (r: Result<&mut Self, SceneError>)
        ensures
            v.spec_start() > v.spec_end() <==> r is Err,
            r matches Err(e) ==> e == SceneError::InvertedSpan && *final(self) == *old(self),
            r matches Ok(x) ==> *final(self) == *final(x) && x.spec_span() == v
                && x.spec_id() == old(self).spec_id()
                && x.spec_video_track_id() == old(self).spec_video_track_id()
                && x.spec_index() == old(self).spec_index()
                && x.spec_detector() == old(self).spec_detector()
                && x.spec_keyframes() == old(self).spec_keyframes()
                && x.spec_description() == old(self).spec_description()
                ,
    {
        if v.start_pts() > v.end_pts() {
            return Err(SceneError::InvertedSpan);
        }
        self.span = v;
        Ok(self)
    }

    /// Builder: replace `detector`.
    pub fn with_detector(self, v: SceneDetector) -> (r: Self)
        ensures
            r.spec_detector() == v,
            r.spec_id() == self.spec_id(),
            r.spec_video_track_id() == self.spec_video_track_id(),
            r.spec_index() == self.spec_index(),
            r.spec_span() == self.spec_span(),
            r.spec_keyframes() == self.spec_keyframes(),
            r.spec_description() == self.spec_description(),
    {
        let mut s = self;
        s.detector = v;
        s
    }

    /// Builder: replace `description`.
    pub fn with_description(self, v: &str) -> (r: Self)
        ensures
            r.spec_description() == v@,
            r.spec_id() == self.spec_id(),
            r.spec_video_track_id() == self.spec_video_track_id(),
            r.spec_index() == self.spec_index(),
            r.spec_span() == self.spec_span(),
            r.spec_detector() == self.spec_detector(),
            r.spec_keyframes() == self.spec_keyframes(),
    {
        let mut s = self;
        s.description = v.to_owned();
        s
    }

    /// Builder: replace the keyframe refs.
    pub fn with_keyframes(self, v: Vec<Id>) -> (r: Self)
        ensures
            r.spec_keyframes() == v@,
            r.spec_id() == self.spec_id(),
            r.spec_video_track_id() == self.spec_video_track_id(),
            r.spec_index() == self.spec_index(),
            r.spec_span() == self.spec_span(),
            r.spec_detector() == self.spec_detector(),
            r.spec_description() == self.spec_description(),
    {
        let mut s = self;
        s.keyframes = v;
        s
    }

    /// In-place mutator for `index`.
    pub fn set_index(&mut self, v: u32) -> (r: &mut Self)
        ensures
            *final(self) == *final(r),
            r.spec_index() == v,
            r.spec_id() == old(self).spec_id(),
            r.spec_video_track_id() == old(self).spec_video_track_id(),
            r.spec_span() == old(self).spec_span(),
            r.spec_detector() == old(self).spec_detector(),
            r.spec_keyframes() == old(self).spec_keyframes(),
            r.spec_description() == old(self).spec_description(),
    {
        self.index = v;
        self
    }

    /// In-place mutator for `detector`.
    pub fn set_detector(&mut self, v: SceneDetector) -> (r: &mut Self)
        ensures
            *final(self) == *final(r),
            r.spec_detector() == v,
            r.spec_id() == old(self).spec_id(),
            r.spec_video_track_id() == old(self).spec_video_track_id(),
            r.spec_index() == old(self).spec_index(),
            r.spec_span() == old(self).spec_span(),
            r.spec_keyframes() == old(self).spec_keyframes(),
            r.spec_description() == old(self).spec_description(),
    {
        self.detector = v;
        self
    }

    /// In-place mutator for `description`.
    pub fn set_description(&mut self, v: &str) -> (r: &mut Self)
        ensures
            *final(self) == *final(r),
            r.spec_description() == v@,
            r.spec_id() == old(self).spec_id(),
            r.spec_video_track_id() == old(self).spec_video_track_id(),
            r.spec_index() == old(self).spec_index(),
            r.spec_span() == old(self).spec_span(),
            r.spec_detector() == old(self).spec_detector(),
            r.spec_keyframes() == old(self).spec_keyframes(),
    {
        self.description = v.to_owned();
        self
    }

    /// In-place mutator for the keyframe refs.
    pub fn set_keyframes(&mut self, v: Vec<Id>) -> (r: &mut Self)
        ensures
            *final(self) == *final(r),
            r.spec_keyframes() == v@,
            r.spec_id() == old(self).spec_id(),
            r.spec_video_track_id() == old(self).spec_video_track_id(),
            r.spec_index() == old(self).spec_index(),
            r.spec_span() == old(self).spec_span(),
            r.spec_detector() == old(self).spec_detector(),
            r.spec_description() == old(self).spec_description(),
    {
        self.keyframes = v;
        self
    }
}

impl<Id> Scene<Id> {
    /// Decompose into [`SceneParts`], every stored field by value.
    pub fn into_parts(self) -> (r: SceneParts<Id>)
        ensures
            r.id == self.spec_id(),
            r.video_track_id == self.spec_video_track_id(),
            r.index == self.spec_index(),
            r.span == self.spec_span(),
            r.detector == self.spec_detector(),
            r.keyframes@ == self.spec_keyframes(),
            r.description@ == self.spec_description(),
    {
        let Scene { id, video_track_id, index, span, detector, keyframes, description } = self;
        SceneParts { id, video_track_id, index, span, detector, keyframes, description }
    }

    /// Rebuild from [`SceneParts`]; the parts must come from an
    /// already-validated value.
    pub fn rehydrate(parts: SceneParts<Id>) -> (r: Self)
        ensures
            r.spec_id() == parts.id,
            r.spec_video_track_id() == parts.video_track_id,
            r.spec_index() == parts.index,
            r.spec_span() == parts.span,
            r.spec_detector() == parts.detector,
            r.spec_keyframes() == parts.keyframes@,
            r.spec_description() == parts.description@,
    {
        let SceneParts { id, video_track_id, index, span, detector, keyframes, description } = parts;
        Scene { id, video_track_id, index, span, detector, keyframes, description }
    }
}

/// Exhaustive by-value decomposition of [`Scene`]: every stored field,
/// public.
#[derive(Debug, Clone, PartialEq)]
pub struct SceneParts<Id = Uuid7> {
    pub id: Id,
    pub video_track_id: Id,
    pub index: u32,
    pub span: TimeRange,
    pub detector: SceneDetector,
    pub keyframes: Vec<Id>,
    pub description: String,
}

} // verus!
