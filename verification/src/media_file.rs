//! `MediaFile` — one physical copy of a `Media`: its location, file-system
//! creation time and discovering watch.
use vstd::prelude::*;

use crate::location::Location;
use crate::primitives::{is_nil_bytes, Uuid7};
use crate::watched_location::WatchedLocation;

verus! {

/// Error returned by a [`MediaFile`] constructor or fallible mutator.
#[derive(Debug, Clone, Copy, PartialEq, Eq, Hash, Structural)]
#[non_exhaustive]
pub enum MediaFileError {
    /// `id` was the nil sentinel.
    NilId,
    /// `media_id` was the nil sentinel.
    NilMediaId,
    /// the discovering watch's id was the nil sentinel.
    NilWatchedLocationId,
    /// the location's volume differs from the watch's volume.
    VolumeMismatch,
}

/// The message of each [`MediaFileError`].
pub open spec fn media_file_error_message(e: MediaFileError) -> Seq<char> {
    match e {
        MediaFileError::NilId => "MediaFile id must not be the nil UUID"@,
        MediaFileError::NilMediaId => "MediaFile media_id (Media) must not be the nil UUID"@,
        MediaFileError::NilWatchedLocationId => "MediaFile watched_location_id must not be the nil UUID"@,
        MediaFileError::VolumeMismatch => "MediaFile location volume must match its WatchedLocation volume"@,
    }
}

impl MediaFileError {
    /// True iff this is `MediaFileError::NilId`.
    pub fn is_nil_id(&self) -> (r: bool)
        ensures
            r == (*self is NilId),
    {
        match self {
            MediaFileError::NilId => true,
            #[allow(unreachable_patterns)]
            _ => false,
        }
    }

    /// True iff this is `MediaFileError::NilMediaId`.
    pub fn is_nil_media_id(&self) -> (r: bool)
        ensures
            r == (*self is NilMediaId),
    {
        match self {
            MediaFileError::NilMediaId => true,
            #[allow(unreachable_patterns)]
            _ => false,
        }
    }

    /// True iff this is `MediaFileError::NilWatchedLocationId`.
    pub fn is_nil_watched_location_id(&self) -> (r: bool)
        ensures
            r == (*self is NilWatchedLocationId),
    {
        match self {
            MediaFileError::NilWatchedLocationId => true,
            #[allow(unreachable_patterns)]
            _ => false,
        }
    }

    /// True iff this is `MediaFileError::VolumeMismatch`.
    pub fn is_volume_mismatch(&self) -> (r: bool)
        ensures
            r == (*self is VolumeMismatch),
    {
        match self {
            MediaFileError::VolumeMismatch => true,
            #[allow(unreachable_patterns)]
            _ => false,
        }
    }

    /// Human-readable description.
    pub fn message(&self) -> (r: String)
        ensures
            r@ == media_file_error_message(*self),
    {
        match self {
            MediaFileError::NilId => {
                proof {
                    reveal_strlit("MediaFile id must not be the nil UUID");
                }
                "MediaFile id must not be the nil UUID".to_owned()
            },
            MediaFileError::NilMediaId => {
                proof {
                    reveal_strlit("MediaFile media_id (Media) must not be the nil UUID");
                }
                "MediaFile media_id (Media) must not be the nil UUID".to_owned()
            },
            MediaFileError::NilWatchedLocationId => {
                proof {
                    reveal_strlit("MediaFile watched_location_id must not be the nil UUID");
                }
                "MediaFile watched_location_id must not be the nil UUID".to_owned()
            },
            MediaFileError::VolumeMismatch => {
                proof {
                    reveal_strlit("MediaFile location volume must match its WatchedLocation volume");
                }
                "MediaFile location volume must match its WatchedLocation volume".to_owned()
            },
        }
    }
}

/// One physical copy of a `Media` content row: where it lives and which watch
/// discovered it. The location always lies on the watch's volume.
#[derive(Debug, Clone, PartialEq)]
pub struct MediaFile<Id = Uuid7> {
    id: Id,
    /// FK → the shared `Media` content row.
    media_id: Id,
    /// File-system creation time, if recorded.
    created_at: Option<jiff::Timestamp>,
    /// Where the copy lives.
    location: Location<Id>,
    /// FK → the discovering `WatchedLocation`.
    watched_location_id: Id,
    /// The discovering watch's volume (cached).
    watch_volume: Id,
}

impl<Id> MediaFile<Id> {
    /// Stored `id`.
    pub closed spec fn spec_id(self) -> Id {
        self.id
    }

    /// Stored `media_id`.
    pub closed spec fn spec_media_id(self) -> Id {
        self.media_id
    }

    /// Stored `created_at`.
    pub closed spec fn spec_created_at(self) -> Option<jiff::Timestamp> {
        self.created_at
    }

    /// Stored `location`.
    pub closed spec fn spec_location(self) -> Location<Id> {
        self.location
    }

    /// Stored `watched_location_id`.
    pub closed spec fn spec_watched_location_id(self) -> Id {
        self.watched_location_id
    }

    /// Stored `watch_volume`.
    pub closed spec fn spec_watch_volume(self) -> Id {
        self.watch_volume
    }

}

impl MediaFile<Uuid7> {
    /// The copy lies on the volume of the watch that discovered it.
    pub open spec fn is_volume_consistent(self) -> bool {
        self.spec_location().spec_volume()@ == self.spec_watch_volume()@
    }

    /// Validating constructor. Checks in order: nil `id`, nil `media_id`,
    /// nil watch id, then that `location` lies on the watch's volume.
    pub fn try_new(
        id: Uuid7,
        media_id: Uuid7,
        created_at: Option<jiff::Timestamp>,
        location: Location<Uuid7>,
        watched_location: &WatchedLocation<Uuid7>,
    ) -> (r: Result<Self, MediaFileError>)
        ensures
            is_nil_bytes(id@) <==> r == Err::<Self, MediaFileError>(MediaFileError::NilId),
            !is_nil_bytes(id@) && is_nil_bytes(media_id@) <==> r == Err::<Self, MediaFileError>(
                MediaFileError::NilMediaId,
            ),
            !is_nil_bytes(id@) && !is_nil_bytes(media_id@) && is_nil_bytes(
                watched_location.spec_id()@,
            ) <==> r == Err::<Self, MediaFileError>(MediaFileError::NilWatchedLocationId),
            !is_nil_bytes(id@) && !is_nil_bytes(media_id@) && !is_nil_bytes(
                watched_location.spec_id()@,
            ) && location.spec_volume()@ != watched_location.spec_volume()@ <==> r == Err::<
                Self,
                MediaFileError,
            >(MediaFileError::VolumeMismatch),
            r matches Ok(x) ==> {
                &&& x.spec_id() == id
                &&& x.spec_media_id() == media_id
                &&& x.spec_created_at() == created_at
                &&& x.spec_location() == location
                &&& x.spec_watched_location_id() == watched_location.spec_id()
                &&& x.spec_watch_volume() == watched_location.spec_volume()
                &&& x.is_volume_consistent()
            },
    {
        if id.is_nil() {
            return Err(MediaFileError::NilId);
        }
        if media_id.is_nil() {
            return Err(MediaFileError::NilMediaId);
        }
        let watched_location_id = *watched_location.id();
        if watched_location_id.is_nil() {
            return Err(MediaFileError::NilWatchedLocationId);
        }
        let watch_volume = *watched_location.volume();
        if *location.volume_ref() != watch_volume {
            return Err(MediaFileError::VolumeMismatch);
        }
        Ok(MediaFile { id, media_id, created_at, location, watched_location_id, watch_volume })
    }

    /// Fallible builder: move/rename the copy. The new location must stay on
    /// the watch's volume.
    pub fn try_with_location(self, location: Location<Uuid7>) -> (r: Result<Self, MediaFileError>)
        ensures
            r is Err <==> location.spec_volume()@ != self.spec_watch_volume()@,
            location.spec_volume()@ != self.spec_watch_volume()@ <==> r == Err::<
                Self,
                MediaFileError,
            >(MediaFileError::VolumeMismatch),
            r matches Ok(x) ==> x.spec_location() == location
                && x.spec_id() == self.spec_id()
                && x.spec_media_id() == self.spec_media_id()
                && x.spec_created_at() == self.spec_created_at()
                && x.spec_watched_location_id() == self.spec_watched_location_id()
                && x.spec_watch_volume() == self.spec_watch_volume()
                ,
            r matches Ok(x) ==> x.is_volume_consistent(),
    {
        if *location.volume_ref() != self.watch_volume {
            return Err(MediaFileError::VolumeMismatch);
        }
        let mut s = self;
        s.location = location;
        Ok(s)
    }

    /// Fallible in-place move/rename; a cross-volume move is rejected and the
    /// copy is left unchanged.
    pub fn try_set_location(&mut self, location: Location<Uuid7>) -> (r: Result<&mut Self, MediaFileError>)
        ensures
            location.spec_volume()@ != old(self).spec_watch_volume()@ <==> r is Err,
            r matches Err(e) ==> e == MediaFileError::VolumeMismatch && *final(self) == *old(self),
            r matches Ok(x) ==> *final(self) == *final(x) && x.spec_location() == location
                && x.spec_id() == old(self).spec_id()
                && x.spec_media_id() == old(self).spec_media_id()
                && x.spec_created_at() == old(self).spec_created_at()
                && x.spec_watched_location_id() == old(self).spec_watched_location_id()
                && x.spec_watch_volume() == old(self).spec_watch_volume()
                ,
            r matches Ok(x) ==> x.is_volume_consistent(),
    {
        if *location.volume_ref() != self.watch_volume {
            return Err(MediaFileError::VolumeMismatch);
        }
        self.location = location;
        Ok(self)
    }

    /// Fallible builder: re-point the copy at another discovering watch,
    /// which must be on the same volume as the copy's location. Updates the
    /// watch id and the cached watch volume.
    pub fn try_with_watched_location(self, watched_location: &WatchedLocation<Uuid7>) -> (r: Result<
        Self,
        MediaFileError,
    >)
        ensures
            r is Err <==> self.spec_location().spec_volume()@ != watched_location.spec_volume()@,
            self.spec_location().spec_volume()@ != watched_location.spec_volume()@ <==> r == Err::<
                Self,
                MediaFileError,
            >(MediaFileError::VolumeMismatch),
            r matches Ok(x) ==> x.spec_watched_location_id() == watched_location.spec_id()
                && x.spec_watch_volume() == watched_location.spec_volume()
                && x.spec_id() == self.spec_id()
                && x.spec_media_id() == self.spec_media_id()
                && x.spec_created_at() == self.spec_created_at()
                && x.spec_location() == self.spec_location()
                ,
            r matches Ok(x) ==> x.is_volume_consistent(),
    {
        if *self.location.volume_ref() != *watched_location.volume() {
            return Err(MediaFileError::VolumeMismatch);
        }
        let mut s = self;
        s.watched_location_id = *watched_location.id();
        s.watch_volume = *watched_location.volume();
        Ok(s)
    }

    /// Fallible in-place re-pointing at another watch; a watch on another
    /// volume is rejected and the copy is left unchanged.
    pub fn try_set_watched_location(&mut self, watched_location: &WatchedLocation<Uuid7>) -> (r: Result<
        &mut Self,
        MediaFileError,
    >)
        ensures
            old(self).spec_location().spec_volume()@ != watched_location.spec_volume()@ <==> r is Err,
            r matches Err(e) ==> e == MediaFileError::VolumeMismatch && *final(self) == *old(self),
            r matches Ok(x) ==> *final(self) == *final(x) && x.spec_watched_location_id()
                == watched_location.spec_id() && x.spec_watch_volume()
                == watched_location.spec_volume()
                && x.spec_id() == old(self).spec_id()
                && x.spec_media_id() == old(self).spec_media_id()
                && x.spec_created_at() == old(self).spec_created_at()
                && x.spec_location() == old(self).spec_location()
                ,
            r matches Ok(x) ==> x.is_volume_consistent(),
    {
        if *self.location.volume_ref() != *watched_location.volume() {
            return Err(MediaFileError::VolumeMismatch);
        }
        self.watched_location_id = *watched_location.id();
        self.watch_volume = *watched_location.volume();
        Ok(self)
    }
}

impl<Id> MediaFile<Id> {
    /// Raw constructor for rebuilding a persisted row; no validation.
    pub fn from_parts(
        id: Id,
        media_id: Id,
        created_at: Option<jiff::Timestamp>,
        location: Location<Id>,
        watched_location_id: Id,
        watch_volume: Id,
    ) -> (r: Self)
        ensures
            r.spec_id() == id,
            r.spec_media_id() == media_id,
            r.spec_created_at() == created_at,
            r.spec_location() == location,
            r.spec_watched_location_id() == watched_location_id,
            r.spec_watch_volume() == watch_volume,
    {
        MediaFile { id, media_id, created_at, location, watched_location_id, watch_volume }
    }

    /// File name — derived from the location (its last path component),
    /// never stored, so it cannot drift from the path.
    pub fn name(&self) -> (r: &str)
        ensures
            self.spec_location().spec_components().len() == 0 ==> r@ == Seq::<char>::empty(),
            self.spec_location().spec_components().len() > 0 ==> r@
                == self.spec_location().spec_components().last(),
    {
        self.location.file_name()
    }

    /// Canonical identity (the copy's key).
    pub fn id_ref(&self) -> (r: &Id)
        ensures
            *r == self.spec_id(),
    {
        &self.id
    }

    /// FK → the shared `Media` content row.
    pub fn media_id_ref(&self) -> (r: &Id)
        ensures
            *r == self.spec_media_id(),
    {
        &self.media_id
    }

    /// File-system creation time, if recorded.
    pub fn created_at_ref(&self) -> (r: Option<&jiff::Timestamp>)
        ensures
            r is Some <==> self.spec_created_at() is Some,
            r matches Some(v) ==> self.spec_created_at() == Some(*v),
    {
        match &self.created_at {
            Some(v) => Some(v),
            None => None,
        }
    }

    /// Where the copy lives.
    pub fn location_ref(&self) -> (r: &Location<Id>)
        ensures
            *r == self.spec_location(),
    {
        &self.location
    }

    /// FK → the discovering `WatchedLocation`.
    pub fn watched_location_id_ref(&self) -> (r: &Id)
        ensures
            *r == self.spec_watched_location_id(),
    {
        &self.watched_location_id
    }

    /// The discovering watch's volume.
    pub fn watch_volume_ref(&self) -> (r: &Id)
        ensures
            *r == self.spec_watch_volume(),
    {
        &self.watch_volume
    }

    /// Builder: replace `created_at` (stored faithfully).
    pub fn with_created_at(self, v: Option<jiff::Timestamp>) -> (r: Self)
        ensures
            r.spec_created_at() == v,
            r.spec_id() == self.spec_id(),
            r.spec_media_id() == self.spec_media_id(),
            r.spec_location() == self.spec_location(),
            r.spec_watched_location_id() == self.spec_watched_location_id(),
            r.spec_watch_volume() == self.spec_watch_volume(),
    {
        let mut s = self;
        s.created_at = v;
        s
    }

    /// Builder: replace the `Media` FK.
    pub fn with_media_id(self, v: Id) -> (r: Self)
        ensures
            r.spec_media_id() == v,
            r.spec_id() == self.spec_id(),
            r.spec_created_at() == self.spec_created_at(),
            r.spec_location() == self.spec_location(),
            r.spec_watched_location_id() == self.spec_watched_location_id(),
            r.spec_watch_volume() == self.spec_watch_volume(),
    {
        let mut s = self;
        s.media_id = v;
        s
    }

    /// In-place mutator for `created_at`.
    pub fn set_created_at(&mut self, v: Option<jiff::Timestamp>) -> (r: &mut Self)
        ensures
            *final(self) == *final(r),
            r.spec_created_at() == v,
            r.spec_id() == old(self).spec_id(),
            r.spec_media_id() == old(self).spec_media_id(),
            r.spec_location() == old(self).spec_location(),
            r.spec_watched_location_id() == old(self).spec_watched_location_id(),
            r.spec_watch_volume() == old(self).spec_watch_volume(),
    {
        self.created_at = v;
        self
    }

    /// In-place mutator for the `Media` FK.
    pub fn set_media_id(&mut self, v: Id) -> (r: &mut Self)
        ensures
            *final(self) == *final(r),
            r.spec_media_id() == v,
            r.spec_id() == old(self).spec_id(),
            r.spec_created_at() == old(self).spec_created_at(),
            r.spec_location() == old(self).spec_location(),
            r.spec_watched_location_id() == old(self).spec_watched_location_id(),
            r.spec_watch_volume() == old(self).spec_watch_volume(),
    {
        self.media_id = v;
        self
    }
}

} // verus!
