//! Curation aggregates: `UserTag` (smart-folder tags) and `SceneAnnotation`
//! (favourite / tags / rating / note on a scene).
use vstd::prelude::*;

use crate::primitives::{is_nil_bytes, Rgba, Uuid7};

verus! {

/// Error returned when an id-carrying value gets the nil sentinel.
#[derive(Debug, Clone, Copy, PartialEq, Eq, Hash, Structural)]
#[non_exhaustive]
pub enum NilIdError {
    /// the id was the nil sentinel.
    Nil,
}

/// The message of each [`NilIdError`].
pub open spec fn nil_id_error_message(e: NilIdError) -> Seq<char> {
    match e {
        NilIdError::Nil => "id must not be the nil UUID"@,
    }
}

impl NilIdError {
    /// True iff this is `NilIdError::Nil`.
    pub fn is_nil(&self) -> (r: bool)
        ensures
            r == (*self is Nil),
    {
        match self {
            NilIdError::Nil => true,
            #[allow(unreachable_patterns)]
            _ => false,
        }
    }

    /// Human-readable description.
    pub fn message(&self) -> (r: String)
        ensures
            r@ == nil_id_error_message(*self),
    {
        match self {
            NilIdError::Nil => {
                proof {
                    reveal_strlit("id must not be the nil UUID");
                }
                "id must not be the nil UUID".to_owned()
            },
        }
    }
}

/// A user-defined tag (smart-folder layer): a name and an optional colour.
#[derive(Debug, Clone, PartialEq)]
pub struct UserTag<Id = Uuid7> {
    id: Id,
    /// Tag name.
    name: String,
    /// Display colour, if any.
    color: Option<Rgba>,
    /// Creation time.
    created_at: jiff::Timestamp,
}

impl<Id> UserTag<Id> {
    /// Stored `id`.
    pub closed spec fn spec_id(self) -> Id {
        self.id
    }

    /// Stored `name`.
    pub closed spec fn spec_name(self) -> Seq<char> {
        self.name@
    }

    /// Stored `color`.
    pub closed spec fn spec_color(self) -> Option<Rgba> {
        self.color
    }

    /// Stored `created_at`.
    pub closed spec fn spec_created_at(self) -> jiff::Timestamp {
        self.created_at
    }

}

impl UserTag<Uuid7> {
    /// Validating constructor: rejects a nil `id`; the colour starts unset.
    pub fn try_new(id: Uuid7, name: &str, created_at: jiff::Timestamp) -> (r: Result<Self, NilIdError>)
        ensures
            (is_nil_bytes(id@)) <==> r == Err::<Self, NilIdError>(NilIdError::Nil),
            r is Ok <==> (!is_nil_bytes(id@)),
            r matches Ok(x) ==> x.spec_id() == id,
            r matches Ok(x) ==> x.spec_name() == name@,
            r matches Ok(x) ==> x.spec_color() == None::<Rgba>,
            r matches Ok(x) ==> x.spec_created_at() == created_at,
    {
        if id.is_nil() {
            return Err(NilIdError::Nil);
        }
        Ok(UserTag {
            id: id,
            name: name.to_owned(),
            color: None,
            created_at: created_at,
        })
    }
}

impl<Id> UserTag<Id> {
    /// Canonical identity.
    pub fn id_ref(&self) -> (r: &Id)
        ensures
            *r == self.spec_id(),
    {
        &self.id
    }

    /// Tag name.
    pub fn name(&self) -> (r: &str)
        ensures
            r@ == self.spec_name(),
    {
        self.name.as_str()
    }

    /// Display colour, if any.
    pub fn color(&self) -> (r: Option<Rgba>)
        ensures
            r == self.spec_color(),
    {
        self.color
    }

    /// Creation time.
    pub fn created_at_ref(&self) -> (r: &jiff::Timestamp)
        ensures
            *r == self.spec_created_at(),
    {
        &self.created_at
    }

    /// Builder: replace `name`.
    pub fn with_name(self, v: &str) -> (r: Self)
        ensures
            r.spec_name() == v@,
            r.spec_id() == self.spec_id(),
            r.spec_color() == self.spec_color(),
            r.spec_created_at() == self.spec_created_at(),
    {
        let mut s = self;
        s.name = v.to_owned();
        s
    }

    /// Builder: replace `color`.
    pub fn with_color(self, v: Option<Rgba>) -> (r: Self)
        ensures
            r.spec_color() == v,
            r.spec_id() == self.spec_id(),
            r.spec_name() == self.spec_name(),
            r.spec_created_at() == self.spec_created_at(),
    {
        let mut s = self;
        s.color = v;
        s
    }

    /// In-place mutator for `name`.
    pub fn set_name(&mut self, v: &str) -> (r: &mut Self)
        ensures
            *final(self) == *final(r),
            r.spec_name() == v@,
            r.spec_id() == old(self).spec_id(),
            r.spec_color() == old(self).spec_color(),
            r.spec_created_at() == old(self).spec_created_at(),
    {
        self.name = v.to_owned();
        self
    }

    /// In-place mutator for `color`.
    pub fn set_color(&mut self, v: Option<Rgba>) -> (r: &mut Self)
        ensures
            *final(self) == *final(r),
            r.spec_color() == v,
            r.spec_id() == old(self).spec_id(),
            r.spec_name() == old(self).spec_name(),
            r.spec_created_at() == old(self).spec_created_at(),
    {
        self.color = v;
        self
    }
}

/// Error returned by [`SceneAnnotation::try_new`].
#[derive(Debug, Clone, Copy, PartialEq, Eq, Hash, Structural)]
#[non_exhaustive]
pub enum SceneAnnotationError {
    /// `id` was the nil sentinel.
    NilId,
    /// `scene_id` was the nil sentinel.
    NilSceneId,
}

/// The message of each [`SceneAnnotationError`].
pub open spec fn scene_annotation_error_message(e: SceneAnnotationError) -> Seq<char> {
    match e {
        SceneAnnotationError::NilId => "SceneAnnotation id must not be the nil UUID"@,
        SceneAnnotationError::NilSceneId => "SceneAnnotation `scene_id` (FK → Scene) must not be the nil UUID"@,
    }
}

impl SceneAnnotationError {
    /// True iff this is `SceneAnnotationError::NilId`.
    pub fn is_nil_id(&self) -> (r: bool)
        ensures
            r == (*self is NilId),
    {
        match self {
            SceneAnnotationError::NilId => true,
            #[allow(unreachable_patterns)]
            _ => false,
        }
    }

    /// True iff this is `SceneAnnotationError::NilSceneId`.
    pub fn is_nil_scene_id(&self) -> (r: bool)
        ensures
            r == (*self is NilSceneId),
    {
        match self {
            SceneAnnotationError::NilSceneId => true,
            #[allow(unreachable_patterns)]
            _ => false,
        }
    }

    /// Human-readable description.
    pub fn message(&self) -> (r: String)
        ensures
            r@ == scene_annotation_error_message(*self),
    {
        match self {
            SceneAnnotationError::NilId => {
                proof {
                    reveal_strlit("SceneAnnotation id must not be the nil UUID");
                }
                "SceneAnnotation id must not be the nil UUID".to_owned()
            },
            SceneAnnotationError::NilSceneId => {
                proof {
                    reveal_strlit("SceneAnnotation `scene_id` (FK → Scene) must not be the nil UUID");
                }
                "SceneAnnotation `scene_id` (FK → Scene) must not be the nil UUID".to_owned()
            },
        }
    }
}

/// User curation of one `Scene`: favourite flag, tag references, rating and
/// note.
#[derive(Debug, Clone, PartialEq)]
pub struct SceneAnnotation<Id = Uuid7> {
    id: Id,
    /// FK → `Scene.id`.
    scene_id: Id,
    /// Marked as favourite.
    favorite: bool,
    /// References to `UserTag`s.
    user_tags: Vec<Id>,
    /// User rating, if any.
    rating: Option<u8>,
    /// Free-text note (`""` = none).
    note: String,
    /// Last update time.
    updated_at: jiff::Timestamp,
}

impl<Id> SceneAnnotation<Id> {
    /// Stored `id`.
    pub closed spec fn spec_id(self) -> Id {
        self.id
    }

    /// Stored `scene_id`.
    pub closed spec fn spec_scene_id(self) -> Id {
        self.scene_id
    }

    /// Stored `favorite`.
    pub closed spec fn spec_favorite(self) -> bool {
        self.favorite
    }

    /// Stored `user_tags`.
    pub closed spec fn spec_user_tags(self) -> Seq<Id> {
        self.user_tags@
    }

    /// Stored `rating`.
    pub closed spec fn spec_rating(self) -> Option<u8> {
        self.rating
    }

    /// Stored `note`.
    pub closed spec fn spec_note(self) -> Seq<char> {
        self.note@
    }

    /// Stored `updated_at`.
    pub closed spec fn spec_updated_at(self) -> jiff::Timestamp {
        self.updated_at
    }

}

impl SceneAnnotation<Uuid7> {
    /// Validating constructor: rejects a nil `id` (checked first) and a nil
    /// `scene_id`; the annotation starts pristine.
    pub fn try_new(id: Uuid7, scene_id: Uuid7, updated_at: jiff::Timestamp) -> (r: Result<Self, SceneAnnotationError>)
        ensures
            (is_nil_bytes(id@)) <==> r == Err::<Self, SceneAnnotationError>(SceneAnnotationError::NilId),
            (!is_nil_bytes(id@) && is_nil_bytes(scene_id@)) <==> r == Err::<Self, SceneAnnotationError>(SceneAnnotationError::NilSceneId),
            r is Ok <==> (!is_nil_bytes(id@) && !is_nil_bytes(scene_id@)),
            r matches Ok(x) ==> x.spec_id() == id,
            r matches Ok(x) ==> x.spec_scene_id() == scene_id,
            r matches Ok(x) ==> x.spec_favorite() == false,
            r matches Ok(x) ==> x.spec_user_tags() == Seq::<Uuid7>::empty(),
            r matches Ok(x) ==> x.spec_rating() == None::<u8>,
            r matches Ok(x) ==> x.spec_note() == Seq::<char>::empty(),
            r matches Ok(x) ==> x.spec_updated_at() == updated_at,
    {
        if id.is_nil() {
            return Err(SceneAnnotationError::NilId);
        }
        if scene_id.is_nil() {
            return Err(SceneAnnotationError::NilSceneId);
        }
        Ok(SceneAnnotation {
            id: id,
            scene_id: scene_id,
            favorite: false,
            user_tags: Vec::new(),
            rating: None,
            note: String::new(),
            updated_at: updated_at,
        })
    }
}

impl<Id> SceneAnnotation<Id> {
    /// Canonical identity.
    pub fn id_ref(&self) -> (r: &Id)
        ensures
            *r == self.spec_id(),
    {
        &self.id
    }

    /// FK → `Scene.id`.
    pub fn scene_id_ref(&self) -> (r: &Id)
        ensures
            *r == self.spec_scene_id(),
    {
        &self.scene_id
    }

    /// Marked as favourite.
    pub fn is_favorite(&self) -> (r: bool)
        ensures
            r == self.spec_favorite(),
    {
        self.favorite
    }

    /// References to `UserTag`s.
    pub fn user_tags_slice(&self) -> (r: &[Id])
        ensures
            r@ == self.spec_user_tags(),
    {
        self.user_tags.as_slice()
    }

    /// User rating, if any.
    pub fn rating(&self) -> (r: Option<u8>)
        ensures
            r == self.spec_rating(),
    {
        self.rating
    }

    /// Free-text note.
    pub fn note(&self) -> (r: &str)
        ensures
            r@ == self.spec_note(),
    {
        self.note.as_str()
    }

    /// Last update time.
    pub fn updated_at_ref(&self) -> (r: &jiff::Timestamp)
        ensures
            *r == self.spec_updated_at(),
    {
        &self.updated_at
    }

    /// Builder: replace `favorite`.
    pub fn with_favorite(self, v: bool) -> (r: Self)
        ensures
            r.spec_favorite() == v,
            r.spec_id() == self.spec_id(),
            r.spec_scene_id() == self.spec_scene_id(),
            r.spec_user_tags() == self.spec_user_tags(),
            r.spec_rating() == self.spec_rating(),
            r.spec_note() == self.spec_note(),
            r.spec_updated_at() == self.spec_updated_at(),
    {
        let mut s = self;
        s.favorite = v;
        s
    }

    /// Builder: replace `user_tags`.
    pub fn with_user_tags(self, v: Vec<Id>) -> (r: Self)
        ensures
            r.spec_user_tags() == v@,
            r.spec_id() == self.spec_id(),
            r.spec_scene_id() == self.spec_scene_id(),
            r.spec_favorite() == self.spec_favorite(),
            r.spec_rating() == self.spec_rating(),
            r.spec_note() == self.spec_note(),
            r.spec_updated_at() == self.spec_updated_at(),
    {
        let mut s = self;
        s.user_tags = v;
        s
    }

    /// Builder: replace `rating`.
    pub fn with_rating(self, v: Option<u8>) -> (r: Self)
        ensures
            r.spec_rating() == v,
            r.spec_id() == self.spec_id(),
            r.spec_scene_id() == self.spec_scene_id(),
            r.spec_favorite() == self.spec_favorite(),
            r.spec_user_tags() == self.spec_user_tags(),
            r.spec_note() == self.spec_note(),
            r.spec_updated_at() == self.spec_updated_at(),
    {
        let mut s = self;
        s.rating = v;
        s
    }

    /// Builder: replace `note`.
    pub fn with_note(self, v: &str) -> (r: Self)
        ensures
            r.spec_note() == v@,
            r.spec_id() == self.spec_id(),
            r.spec_scene_id() == self.spec_scene_id(),
            r.spec_favorite() == self.spec_favorite(),
            r.spec_user_tags() == self.spec_user_tags(),
            r.spec_rating() == self.spec_rating(),
            r.spec_updated_at() == self.spec_updated_at(),
    {
        let mut s = self;
        s.note = v.to_owned();
        s
    }

    /// In-place mutator for `favorite`.
    pub fn set_favorite(&mut self, v: bool) -> (r: &mut Self)
        ensures
            *final(self) == *final(r),
            r.spec_favorite() == v,
            r.spec_id() == old(self).spec_id(),
            r.spec_scene_id() == old(self).spec_scene_id(),
            r.spec_user_tags() == old(self).spec_user_tags(),
            r.spec_rating() == old(self).spec_rating(),
            r.spec_note() == old(self).spec_note(),
            r.spec_updated_at() == old(self).spec_updated_at(),
    {
        self.favorite = v;
        self
    }

    /// In-place mutator for `user_tags`.
    pub fn set_user_tags(&mut self, v: Vec<Id>) -> (r: &mut Self)
        ensures
            *final(self) == *final(r),
            r.spec_user_tags() == v@,
            r.spec_id() == old(self).spec_id(),
            r.spec_scene_id() == old(self).spec_scene_id(),
            r.spec_favorite() == old(self).spec_favorite(),
            r.spec_rating() == old(self).spec_rating(),
            r.spec_note() == old(self).spec_note(),
            r.spec_updated_at() == old(self).spec_updated_at(),
    {
        self.user_tags = v;
        self
    }

    /// In-place mutator for `rating`.
    pub fn set_rating(&mut self, v: Option<u8>) -> (r: &mut Self)
        ensures
            *final(self) == *final(r),
            r.spec_rating() == v,
            r.spec_id() == old(self).spec_id(),
            r.spec_scene_id() == old(self).spec_scene_id(),
            r.spec_favorite() == old(self).spec_favorite(),
            r.spec_user_tags() == old(self).spec_user_tags(),
            r.spec_note() == old(self).spec_note(),
            r.spec_updated_at() == old(self).spec_updated_at(),
    {
        self.rating = v;
        self
    }

    /// In-place mutator for `note`.
    pub fn set_note(&mut self, v: &str) -> (r: &mut Self)
        ensures
            *final(self) == *final(r),
            r.spec_note() == v@,
            r.spec_id() == old(self).spec_id(),
            r.spec_scene_id() == old(self).spec_scene_id(),
            r.spec_favorite() == old(self).spec_favorite(),
            r.spec_user_tags() == old(self).spec_user_tags(),
            r.spec_rating() == old(self).spec_rating(),
            r.spec_updated_at() == old(self).spec_updated_at(),
    {
        self.note = v.to_owned();
        self
    }
}

} // verus!
