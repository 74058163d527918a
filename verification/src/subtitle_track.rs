//! The identity rule of a subtitle track.
use vstd::prelude::*;

use crate::primitives::{is_nil_bytes, Uuid7};

verus! {

/// Error returned when a `SubtitleTrack` cannot be built.
#[derive(Debug, Clone, Copy, PartialEq, Eq, Hash, Structural)]
#[non_exhaustive]
pub enum SubtitleTrackError {
    /// `id` was the nil sentinel.
    NilId,
    /// `parent` (the `Subtitle` facet) was the nil sentinel.
    NilParent,
}

/// The message of each [`SubtitleTrackError`].
pub open spec fn subtitle_track_error_message(e: SubtitleTrackError) -> Seq<char> {
    match e {
        SubtitleTrackError::NilId => "SubtitleTrack id must not be the nil UUID"@,
        SubtitleTrackError::NilParent => "SubtitleTrack parent (Subtitle) must not be the nil UUID"@,
    }
}

impl SubtitleTrackError {
    /// True iff this is `SubtitleTrackError::NilId`.
    pub fn is_nil_id(&self) -> (r: bool)
        ensures
            r == (*self is NilId),
    {
        match self {
            SubtitleTrackError::NilId => true,
            #[allow(unreachable_patterns)]
            _ => false,
        }
    }

    /// True iff this is `SubtitleTrackError::NilParent`.
    pub fn is_nil_parent(&self) -> (r: bool)
        ensures
            r == (*self is NilParent),
    {
        match self {
            SubtitleTrackError::NilParent => true,
            #[allow(unreachable_patterns)]
            _ => false,
        }
    }

    /// Human-readable description.
    pub fn message(&self) -> (r: String)
        ensures
            r@ == subtitle_track_error_message(*self),
    {
        match self {
            SubtitleTrackError::NilId => {
                proof {
                    reveal_strlit("SubtitleTrack id must not be the nil UUID");
                }
                "SubtitleTrack id must not be the nil UUID".to_owned()
            },
            SubtitleTrackError::NilParent => {
                proof {
                    reveal_strlit("SubtitleTrack parent (Subtitle) must not be the nil UUID");
                }
                "SubtitleTrack parent (Subtitle) must not be the nil UUID".to_owned()
            },
        }
    }
}

/// Why a subtitle track with these ids cannot be built, if it cannot.
pub open spec fn subtitle_track_error(id: Uuid7, parent: Uuid7) -> Option<SubtitleTrackError> {
    if is_nil_bytes(id@) {
        Some(SubtitleTrackError::NilId)
    } else if is_nil_bytes(parent@) {
        Some(SubtitleTrackError::NilParent)
    } else {
        None
    }
}

/// Check a subtitle track's constructor invariants: a real `id` and a real
/// `parent`.
pub fn check_subtitle_track(id: Uuid7, parent: Uuid7) -> (r: Result<(), SubtitleTrackError>)
    ensures
        r is Err <==> subtitle_track_error(id, parent) is Some,
        r matches Err(e) ==> subtitle_track_error(id, parent) == Some(e),
{
    if id.is_nil() {
        return Err(SubtitleTrackError::NilId);
    }
    if parent.is_nil() {
        return Err(SubtitleTrackError::NilParent);
    }
    Ok(())
}

} // verus!
