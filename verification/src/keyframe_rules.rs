//! The invariants a keyframe's constructors and dimension mutators enforce:
//! real ids for the keyframe, its scene (for a scene keyframe) and its
//! thumbnail, and a thumbnail size with both axes non-zero.
use vstd::prelude::*;

use crate::geometry::Dimensions;
use crate::primitives::{is_nil_bytes, Uuid7};

verus! {

/// Error returned when a keyframe constructor or dimension mutator cannot
/// uphold an invariant.
#[derive(Debug, Clone, Copy, PartialEq, Eq, Hash, Structural)]
#[non_exhaustive]
pub enum KeyframeError {
    /// `id` was the nil sentinel.
    NilId,
    /// `scene_id` was the nil sentinel (orphan scene keyframe).
    NilSceneId,
    /// `thumbnail_id` was the nil sentinel (orphan keyframe).
    NilThumbnailId,
    /// the thumbnail size had a zero width or height.
    ZeroDimensions,
}

/// The message of each [`KeyframeError`].
pub open spec fn keyframe_error_message(e: KeyframeError) -> Seq<char> {
    match e {
        KeyframeError::NilId => "Keyframe id must not be the nil UUID"@,
        KeyframeError::NilSceneId => "Keyframe `scene_id` (FK → Scene) must not be the nil UUID"@,
        KeyframeError::NilThumbnailId => "Keyframe `thumbnail_id` (FK → Thumbnail) must not be the nil UUID"@,
        KeyframeError::ZeroDimensions => "Keyframe dimensions must be non-zero (locked invariant)"@,
    }
}

impl KeyframeError {
    /// True iff this is `KeyframeError::NilId`.
    pub fn is_nil_id(&self) -> (r: bool)
        ensures
            r == (*self is NilId),
    {
        match self {
            KeyframeError::NilId => true,
            #[allow(unreachable_patterns)]
            _ => false,
        }
    }

    /// True iff this is `KeyframeError::NilSceneId`.
    pub fn is_nil_scene_id(&self) -> (r: bool)
        ensures
            r == (*self is NilSceneId),
    {
        match self {
            KeyframeError::NilSceneId => true,
            #[allow(unreachable_patterns)]
            _ => false,
        }
    }

    /// True iff this is `KeyframeError::NilThumbnailId`.
    pub fn is_nil_thumbnail_id(&self) -> (r: bool)
        ensures
            r == (*self is NilThumbnailId),
    {
        match self {
            KeyframeError::NilThumbnailId => true,
            #[allow(unreachable_patterns)]
            _ => false,
        }
    }

    /// True iff this is `KeyframeError::ZeroDimensions`.
    pub fn is_zero_dimensions(&self) -> (r: bool)
        ensures
            r == (*self is ZeroDimensions),
    {
        match self {
            KeyframeError::ZeroDimensions => true,
            #[allow(unreachable_patterns)]
            _ => false,
        }
    }

    /// Human-readable description.
    pub fn message(&self) -> (r: String)
        ensures
            r@ == keyframe_error_message(*self),
    {
        match self {
            KeyframeError::NilId => {
                proof {
                    reveal_strlit("Keyframe id must not be the nil UUID");
                }
                "Keyframe id must not be the nil UUID".to_owned()
            },
            KeyframeError::NilSceneId => {
                proof {
                    reveal_strlit("Keyframe `scene_id` (FK → Scene) must not be the nil UUID");
                }
                "Keyframe `scene_id` (FK → Scene) must not be the nil UUID".to_owned()
            },
            KeyframeError::NilThumbnailId => {
                proof {
                    reveal_strlit("Keyframe `thumbnail_id` (FK → Thumbnail) must not be the nil UUID");
                }
                "Keyframe `thumbnail_id` (FK → Thumbnail) must not be the nil UUID".to_owned()
            },
            KeyframeError::ZeroDimensions => {
                proof {
                    reveal_strlit("Keyframe dimensions must be non-zero (locked invariant)");
                }
                "Keyframe dimensions must be non-zero (locked invariant)".to_owned()
            },
        }
    }
}

/// A keyframe's thumbnail size is valid when both axes are non-zero.
pub open spec fn keyframe_dimensions_ok(d: Dimensions) -> bool {
    d.spec_width() != 0 && d.spec_height() != 0
}

/// Why a keyframe with these ids and size cannot be built, if it cannot:
/// for a scene keyframe (`scene_id` present) a nil scene id comes first,
/// then a nil `id`, a nil `thumbnail_id` and a zero-extent size. A cover
/// keyframe (`scene_id` absent) has no scene id to check.
pub open spec fn keyframe_error(id: Uuid7, scene_id: Option<Uuid7>, thumbnail_id: Uuid7, dimensions: Dimensions) -> Option<
    KeyframeError,
> {
    if scene_id matches Some(s) && is_nil_bytes(s@) {
        Some(KeyframeError::NilSceneId)
    } else if is_nil_bytes(id@) {
        Some(KeyframeError::NilId)
    } else if is_nil_bytes(thumbnail_id@) {
        Some(KeyframeError::NilThumbnailId)
    } else if !keyframe_dimensions_ok(dimensions) {
        Some(KeyframeError::ZeroDimensions)
    } else {
        None
    }
}

/// Check the constructor invariants of a keyframe: `scene_id` is
/// `Some(..)` for a scene keyframe and `None` for the cover.
pub fn check_keyframe(id: Uuid7, scene_id: Option<Uuid7>, thumbnail_id: Uuid7, dimensions: Dimensions) -> (r:
    Result<(), KeyframeError>)
    ensures
        r is Err <==> keyframe_error(id, scene_id, thumbnail_id, dimensions) is Some,
        r matches Err(e) ==> keyframe_error(id, scene_id, thumbnail_id, dimensions) == Some(e),
{
    if let Some(s) = scene_id {
        if s.is_nil() {
            return Err(KeyframeError::NilSceneId);
        }
    }
    if id.is_nil() {
        return Err(KeyframeError::NilId);
    }
    if thumbnail_id.is_nil() {
        return Err(KeyframeError::NilThumbnailId);
    }
    check_keyframe_dimensions(dimensions)
}

/// Check a new thumbnail size for a keyframe: both axes must be non-zero.
pub fn check_keyframe_dimensions(dimensions: Dimensions) -> (r: Result<(), KeyframeError>)
    ensures
        r is Ok <==> keyframe_dimensions_ok(dimensions),
        r matches Err(e) ==> e == KeyframeError::ZeroDimensions,
{
    if dimensions.width() == 0 || dimensions.height() == 0 {
        Err(KeyframeError::ZeroDimensions)
    } else {
        Ok(())
    }
}

} // verus!
