//! `Thumbnail` — a storage-tagged thumbnail image referenced by keyframes,
//! with the storage rule: inline bytes for `Database`, a path or URL
//! otherwise.
use vstd::prelude::*;

use crate::enums::ThumbnailKind;
use crate::payload::{bytes_as_slice, bytes_contents, bytes_is_empty};
use crate::primitives::{is_nil_bytes, Uuid7};

verus! {

/// Error returned when a [`Thumbnail`] constructor or fallible mutator cannot
/// uphold an invariant.
#[derive(Debug, Clone, Copy, PartialEq, Eq, Hash, Structural)]
#[non_exhaustive]
pub enum ThumbnailError {
    /// `id` was the nil sentinel.
    NilId,
    /// a `Database` thumbnail had no inline bytes.
    EmptyData,
    /// a `FileSystem` / `Remote` thumbnail had no path or URL.
    EmptyLocation,
}

/// The message of each [`ThumbnailError`].
pub open spec fn thumbnail_error_message(e: ThumbnailError) -> Seq<char> {
    match e {
        ThumbnailError::NilId => "Thumbnail id must not be the nil UUID"@,
        ThumbnailError::EmptyData => "Thumbnail with `kind = database` must have non-empty `data`"@,
        ThumbnailError::EmptyLocation => "Thumbnail with `kind = filesystem`/`remote` must have non-empty `location`"@,
    }
}

impl ThumbnailError {
    /// True iff this is `ThumbnailError::NilId`.
    pub fn is_nil_id(&self) -> (r: bool)
        ensures
            r == (*self is NilId),
    {
        match self {
            ThumbnailError::NilId => true,
            #[allow(unreachable_patterns)]
            _ => false,
        }
    }

    /// True iff this is `ThumbnailError::EmptyData`.
    pub fn is_empty_data(&self) -> (r: bool)
        ensures
            r == (*self is EmptyData),
    {
        match self {
            ThumbnailError::EmptyData => true,
            #[allow(unreachable_patterns)]
            _ => false,
        }
    }

    /// True iff this is `ThumbnailError::EmptyLocation`.
    pub fn is_empty_location(&self) -> (r: bool)
        ensures
            r == (*self is EmptyLocation),
    {
        match self {
            ThumbnailError::EmptyLocation => true,
            #[allow(unreachable_patterns)]
            _ => false,
        }
    }

    /// Human-readable description.
    pub fn message(&self) -> (r: String)
        ensures
            r@ == thumbnail_error_message(*self),
    {
        match self {
            ThumbnailError::NilId => {
                proof {
                    reveal_strlit("Thumbnail id must not be the nil UUID");
                }
                "Thumbnail id must not be the nil UUID".to_owned()
            },
            ThumbnailError::EmptyData => {
                proof {
                    reveal_strlit("Thumbnail with `kind = database` must have non-empty `data`");
                }
                "Thumbnail with `kind = database` must have non-empty `data`".to_owned()
            },
            ThumbnailError::EmptyLocation => {
                proof {
                    reveal_strlit("Thumbnail with `kind = filesystem`/`remote` must have non-empty `location`");
                }
                "Thumbnail with `kind = filesystem`/`remote` must have non-empty `location`".to_owned()
            },
        }
    }
}

/// The storage rule of a thumbnail: a `Database` thumbnail inlines its
/// bytes, a `FileSystem` / `Remote` one names a path or URL. `None` when the
/// `(kind, data, location)` trio is valid.
pub open spec fn storage_error(kind: ThumbnailKind, data: Seq<u8>, location: Seq<char>) -> Option<ThumbnailError> {
    match kind {
        ThumbnailKind::Database => if data.len() == 0 {
            Some(ThumbnailError::EmptyData)
        } else {
            None
        },
        _ => if location.len() == 0 {
            Some(ThumbnailError::EmptyLocation)
        } else {
            None
        },
    }
}

/// Check the storage rule of a prospective `(kind, data, location)` trio.
fn check_storage(kind: ThumbnailKind, data: &bytes::Bytes, location: &str) -> (r: Result<(), ThumbnailError>)
    ensures
        r matches Err(e) ==> storage_error(kind, bytes_contents(*data), location@) == Some(e),
        r is Ok <==> storage_error(kind, bytes_contents(*data), location@) is None,
{
    match kind {
        ThumbnailKind::Database => {
            if bytes_is_empty(data) {
                Err(ThumbnailError::EmptyData)
            } else {
                Ok(())
            }
        },
        _ => {
            if location.is_empty() {
                Err(ThumbnailError::EmptyLocation)
            } else {
                Ok(())
            }
        },
    }
}

/// A thumbnail image and where its bytes are stored: inline (`Database`,
/// in `data`) or out of band (`FileSystem` / `Remote`, at `location`).
#[derive(Debug, PartialEq, Eq)]
pub struct Thumbnail<Id = Uuid7> {
    id: Id,
    /// Storage backend.
    kind: ThumbnailKind,
    /// Inline bytes; non-empty for `Database`.
    data: bytes::Bytes,
    /// Path or URL; non-empty for `FileSystem` / `Remote`.
    location: String,
    /// MIME type (`""` = absent).
    mime: String,
    /// Pixel width.
    width: u32,
    /// Pixel height.
    height: u32,
}

impl<Id> Thumbnail<Id> {
    /// Stored `id`.
    pub closed spec fn spec_id(self) -> Id {
        self.id
    }

    /// Stored `kind`.
    pub closed spec fn spec_kind(self) -> ThumbnailKind {
        self.kind
    }

    /// Stored `data`.
    pub closed spec fn spec_data(self) -> Seq<u8> {
        bytes_contents(self.data)
    }

    /// Stored `location`.
    pub closed spec fn spec_location(self) -> Seq<char> {
        self.location@
    }

    /// Stored `mime`.
    pub closed spec fn spec_mime(self) -> Seq<char> {
        self.mime@
    }

    /// Stored `width`.
    pub closed spec fn spec_width(self) -> u32 {
        self.width
    }

    /// Stored `height`.
    pub closed spec fn spec_height(self) -> u32 {
        self.height
    }

}

impl Thumbnail<Uuid7> {
    /// Validating constructor: rejects a nil `id`, then a trio that breaks the
    /// storage rule; `mime`, `width` and `height` are taken as given (a zero
    /// extent is allowed).
    pub fn try_new(
        id: Uuid7,
        kind: ThumbnailKind,
        data: bytes::Bytes,
        location: &str,
        mime: &str,
        width: u32,
        height: u32,
    ) -> (r: Result<Self, ThumbnailError>)
        ensures
            is_nil_bytes(id@) ==> r == Err::<Self, ThumbnailError>(ThumbnailError::NilId),
            !is_nil_bytes(id@) ==> ((r is Err) <==> storage_error(kind, bytes_contents(data), location@) is Some),
            !is_nil_bytes(id@) ==> (r matches Err(e) ==> storage_error(kind, bytes_contents(data), location@) == Some(e)),
            r matches Ok(x) ==> {
                &&& x.spec_id() == id
                &&& x.spec_kind() == kind
                &&& x.spec_data() == bytes_contents(data)
                &&& x.spec_location() == location@
                &&& x.spec_mime() == mime@
                &&& x.spec_width() == width
                &&& x.spec_height() == height
            },
    {
        if id.is_nil() {
            return Err(ThumbnailError::NilId);
        }
        match check_storage(kind, &data, location) {
            Err(e) => Err(e),
            Ok(()) => Ok(
                Thumbnail {
                    id,
                    kind,
                    data,
                    location: location.to_owned(),
                    mime: mime.to_owned(),
                    width,
                    height,
                },
            ),
        }
    }

    /// Fallible builder: replace the storage trio together, re-checking the
    /// storage rule.
    pub fn try_with_storage(self, kind: ThumbnailKind, data: bytes::Bytes, location: &str) -> (r: Result<
        Self,
        ThumbnailError,
    >)
        ensures
            (r is Err) <==> storage_error(kind, bytes_contents(data), location@) is Some,
            r matches Err(e) ==> storage_error(kind, bytes_contents(data), location@) == Some(e),
            r matches Ok(x) ==> x.spec_kind() == kind && x.spec_data() == bytes_contents(data)
                && x.spec_location() == location@
                && x.spec_id() == self.spec_id()
                && x.spec_mime() == self.spec_mime()
                && x.spec_width() == self.spec_width()
                && x.spec_height() == self.spec_height()
                ,
    {
        match check_storage(kind, &data, location) {
            Err(e) => Err(e),
            Ok(()) => {
                let mut s = self;
                s.set_storage_unchecked(kind, data, location);
                Ok(s)
            },
        }
    }

    /// Fallible in-place mutator for the storage trio; on rejection the
    /// thumbnail is unchanged.
    pub fn try_set_storage(&mut self, kind: ThumbnailKind, data: bytes::Bytes, location: &str) -> (r: Result<
        &mut Self,
        ThumbnailError,
    >)
        ensures
            (r is Err) <==> storage_error(kind, bytes_contents(data), location@) is Some,
            r matches Err(e) ==> storage_error(kind, bytes_contents(data), location@) == Some(e) && *final(self) == *old(self),
            r matches Ok(x) ==> *final(self) == *final(x) && x.spec_kind() == kind && x.spec_data()
                == bytes_contents(data) && x.spec_location() == location@
                && x.spec_id() == old(self).spec_id()
                && x.spec_mime() == old(self).spec_mime()
                && x.spec_width() == old(self).spec_width()
                && x.spec_height() == old(self).spec_height()
                ,
    {
        match check_storage(kind, &data, location) {
            Err(e) => Err(e),
            Ok(()) => {
                self.set_storage_unchecked(kind, data, location);
                Ok(self)
            },
        }
    }

    /// Replace the storage trio with one already checked against the rule.
    fn set_storage_unchecked(&mut self, kind: ThumbnailKind, data: bytes::Bytes, location: &str)
        requires
            storage_error(kind, bytes_contents(data), location@) is None,
        ensures
            final(self).spec_kind() == kind,
            final(self).spec_data() == bytes_contents(data),
            final(self).spec_location() == location@,
            final(self).spec_id() == old(self).spec_id(),
            final(self).spec_mime() == old(self).spec_mime(),
            final(self).spec_width() == old(self).spec_width(),
            final(self).spec_height() == old(self).spec_height(),
    {
        let t = Thumbnail {
            id: self.id,
            kind,
            data,
            location: location.to_owned(),
            mime: self.mime.clone(),
            width: self.width,
            height: self.height,
        };
        *self = t;
    }
}

impl<Id> Thumbnail<Id> {
    /// Every thumbnail satisfies the storage rule.
    #[verifier::type_invariant]
    spec fn storage_invariant(self) -> bool {
        storage_error(self.kind, bytes_contents(self.data), self.location@) is None
    }

    /// Canonical identity (the FK target of `Keyframe.thumbnail_id`).
    pub fn id_ref(&self) -> (r: &Id)
        ensures
            *r == self.spec_id(),
    {
        &self.id
    }

    /// Which storage backend holds the bytes.
    pub fn kind(&self) -> (r: ThumbnailKind)
        ensures
            r == self.spec_kind(),
    {
        self.kind
    }

    /// Inline image bytes (empty = stored out of band).
    pub fn data(&self) -> (r: &[u8])
        ensures
            r@ == self.spec_data(),
            self.spec_kind() is Database ==> r@.len() > 0,
    {
        proof {
            use_type_invariant(self);
        }
        bytes_as_slice(&self.data)
    }

    /// Another handle on the inline image bytes.
    pub fn data_bytes(&self) -> (r: bytes::Bytes)
        ensures
            bytes_contents(r) == self.spec_data(),
    {
        self.data.clone()
    }

    /// Path or URL of the image (`""` = inlined in `data`).
    pub fn location(&self) -> (r: &str)
        ensures
            r@ == self.spec_location(),
            !(self.spec_kind() is Database) ==> r@.len() > 0,
    {
        proof {
            use_type_invariant(self);
        }
        self.location.as_str()
    }

    /// MIME type (`""` = absent).
    pub fn mime(&self) -> (r: &str)
        ensures
            r@ == self.spec_mime(),
    {
        self.mime.as_str()
    }

    /// Pixel width of the stored image.
    pub fn width(&self) -> (r: u32)
        ensures
            r == self.spec_width(),
    {
        self.width
    }

    /// Pixel height of the stored image.
    pub fn height(&self) -> (r: u32)
        ensures
            r == self.spec_height(),
    {
        self.height
    }

    /// Builder: replace `mime`.
    pub fn with_mime(self, v: &str) -> (r: Self)
        ensures
            r.spec_mime() == v@,
            r.spec_id() == self.spec_id(),
            r.spec_kind() == self.spec_kind(),
            r.spec_data() == self.spec_data(),
            r.spec_location() == self.spec_location(),
            r.spec_width() == self.spec_width(),
            r.spec_height() == self.spec_height(),
    {
        proof {
            use_type_invariant(&self);
        }
        let mut s = self;
        s.mime = v.to_owned();
        s
    }

    /// In-place mutator for `mime`.
    pub fn set_mime(&mut self, v: &str) -> (r: &mut Self)
        ensures
            *final(self) == *final(r),
            r.spec_mime() == v@,
            r.spec_id() == old(self).spec_id(),
            r.spec_kind() == old(self).spec_kind(),
            r.spec_data() == old(self).spec_data(),
            r.spec_location() == old(self).spec_location(),
            r.spec_width() == old(self).spec_width(),
            r.spec_height() == old(self).spec_height(),
    {
        proof {
            use_type_invariant(&*self);
        }
        self.mime = v.to_owned();
        self
    }

    /// Builder: replace `width`.
    pub fn with_width(self, v: u32) -> (r: Self)
        ensures
            r.spec_width() == v,
            r.spec_id() == self.spec_id(),
            r.spec_kind() == self.spec_kind(),
            r.spec_data() == self.spec_data(),
            r.spec_location() == self.spec_location(),
            r.spec_mime() == self.spec_mime(),
            r.spec_height() == self.spec_height(),
    {
        proof {
            use_type_invariant(&self);
        }
        let mut s = self;
        s.width = v;
        s
    }

    /// In-place mutator for `width`.
    pub fn set_width(&mut self, v: u32) -> (r: &mut Self)
        ensures
            *final(self) == *final(r),
            r.spec_width() == v,
            r.spec_id() == old(self).spec_id(),
            r.spec_kind() == old(self).spec_kind(),
            r.spec_data() == old(self).spec_data(),
            r.spec_location() == old(self).spec_location(),
            r.spec_mime() == old(self).spec_mime(),
            r.spec_height() == old(self).spec_height(),
    {
        proof {
            use_type_invariant(&*self);
        }
        self.width = v;
        self
    }

    /// Builder: replace `height`.
    pub fn with_height(self, v: u32) -> (r: Self)
        ensures
            r.spec_height() == v,
            r.spec_id() == self.spec_id(),
            r.spec_kind() == self.spec_kind(),
            r.spec_data() == self.spec_data(),
            r.spec_location() == self.spec_location(),
            r.spec_mime() == self.spec_mime(),
            r.spec_width() == self.spec_width(),
    {
        proof {
            use_type_invariant(&self);
        }
        let mut s = self;
        s.height = v;
        s
    }

    /// In-place mutator for `height`.
    pub fn set_height(&mut self, v: u32) -> (r: &mut Self)
        ensures
            *final(self) == *final(r),
            r.spec_height() == v,
            r.spec_id() == old(self).spec_id(),
            r.spec_kind() == old(self).spec_kind(),
            r.spec_data() == old(self).spec_data(),
            r.spec_location() == old(self).spec_location(),
            r.spec_mime() == old(self).spec_mime(),
            r.spec_width() == old(self).spec_width(),
    {
        proof {
            use_type_invariant(&*self);
        }
        self.height = v;
        self
    }
}

impl<Id: Clone> Clone for Thumbnail<Id> {
    /// A field-by-field copy; the storage trio is the same, so the copy keeps
    /// the storage rule.
    fn clone(&self) -> (r: Self)
        ensures
            r.spec_kind() == self.spec_kind(),
            r.spec_data() == self.spec_data(),
            r.spec_location() == self.spec_location(),
            r.spec_mime() == self.spec_mime(),
            r.spec_width() == self.spec_width(),
            r.spec_height() == self.spec_height(),
    {
        proof {
            use_type_invariant(self);
        }
        Thumbnail {
            id: self.id.clone(),
            kind: self.kind,
            data: self.data.clone(),
            location: self.location.clone(),
            mime: self.mime.clone(),
            width: self.width,
            height: self.height,
        }
    }
}

} // verus!
