//! `Chapter` — one container-level chapter / cue point of a `Media`.
use vstd::prelude::*;

use crate::metadata::{metadata_entries, metadata_len, metadata_new, MetadataMap};
use crate::primitives::{is_nil_bytes, Uuid7};
use crate::text::{decimal_of, push_decimal};
use crate::time::TimeRange;

verus! {

/// Cap on a chapter title's length in UTF-8 bytes.
pub const MAX_CHAPTER_TITLE_BYTES: usize = 4096;

/// Cap on the number of entries of a chapter's metadata bag.
pub const MAX_CHAPTER_METADATA_ENTRIES: usize = 4096;

/// Length of a string in UTF-8 bytes.
pub open spec fn utf8_len(s: Seq<char>) -> nat {
    vstd::utf8::encode_utf8(s).len()
}

/// Error returned by a [`Chapter`] constructor or fallible mutator.
#[derive(Debug, Clone, PartialEq, Eq, Structural)]
#[non_exhaustive]
pub enum ChapterError {
    /// `id` was nil.
    NilId,
    /// `media_id` was nil.
    NilMediaId,
    /// the title is longer than [`MAX_CHAPTER_TITLE_BYTES`].
    TitleTooLong {
        /// The offending byte count.
        got: usize,
    },
    /// the metadata bag has more than [`MAX_CHAPTER_METADATA_ENTRIES`]
    /// entries.
    MetadataTooLarge {
        /// The offending entry count.
        got: usize,
    },
}

/// The message of each [`ChapterError`].
pub open spec fn chapter_error_message(e: ChapterError) -> Seq<char> {
    match e {
        ChapterError::NilId => "Chapter.id must be non-nil"@,
        ChapterError::NilMediaId => "Chapter.media_id must be non-nil"@,
        ChapterError::TitleTooLong { got } => "Chapter.title exceeds 4096 bytes: got "@ + decimal_of(got as nat),
        ChapterError::MetadataTooLarge { got } => "Chapter.metadata exceeds 4096 entries: got "@ + decimal_of(
            got as nat,
        ),
    }
}

impl ChapterError {
    /// True iff this is `ChapterError::NilId`.
    pub fn is_nil_id(&self) -> (r: bool)
        ensures
            r == (*self is NilId),
    {
        match self {
            ChapterError::NilId => true,
            _ => false,
        }
    }

    /// True iff this is `ChapterError::NilMediaId`.
    pub fn is_nil_media_id(&self) -> (r: bool)
        ensures
            r == (*self is NilMediaId),
    {
        match self {
            ChapterError::NilMediaId => true,
            _ => false,
        }
    }

    /// True iff this is `ChapterError::TitleTooLong`.
    pub fn is_title_too_long(&self) -> (r: bool)
        ensures
            r == (*self is TitleTooLong),
    {
        match self {
            ChapterError::TitleTooLong { .. } => true,
            _ => false,
        }
    }

    /// True iff this is `ChapterError::MetadataTooLarge`.
    pub fn is_metadata_too_large(&self) -> (r: bool)
        ensures
            r == (*self is MetadataTooLarge),
    {
        match self {
            ChapterError::MetadataTooLarge { .. } => true,
            _ => false,
        }
    }

    /// Human-readable description.
    pub fn message(&self) -> (r: String)
        ensures
            r@ == chapter_error_message(*self),
    {
        match self {
            ChapterError::NilId => {
                proof {
                    reveal_strlit("Chapter.id must be non-nil");
                }
                "Chapter.id must be non-nil".to_owned()
            },
            ChapterError::NilMediaId => {
                proof {
                    reveal_strlit("Chapter.media_id must be non-nil");
                }
                "Chapter.media_id must be non-nil".to_owned()
            },
            ChapterError::TitleTooLong { got } => {
                proof {
                    reveal_strlit("Chapter.title exceeds 4096 bytes: got ");
                }
                let mut s = "Chapter.title exceeds 4096 bytes: got ".to_owned();
                push_decimal(&mut s, *got);
                s
            },
            ChapterError::MetadataTooLarge { got } => {
                proof {
                    reveal_strlit("Chapter.metadata exceeds 4096 entries: got ");
                }
                let mut s = "Chapter.metadata exceeds 4096 entries: got ".to_owned();
                push_decimal(&mut s, *got);
                s
            },
        }
    }
}

/// One container-level chapter (cue point) of a `Media`: its ordinal, the
/// container's own id, its time range, a hoisted title and the remaining
/// metadata entries.
#[derive(Debug, Clone, PartialEq)]
pub struct Chapter<Id = Uuid7> {
    id: Id,
    /// FK → parent `Media`.
    media_id: Id,
    /// Ordinal within the parent media (kept verbatim).
    index: u32,
    /// The container's own chapter id, verbatim.
    source_id: i64,
    /// Start..end on the chapter's own timebase.
    time_range: TimeRange,
    /// Hoisted title (`""` = absent), at most [`MAX_CHAPTER_TITLE_BYTES`] bytes.
    title: String,
    /// Metadata entries with the title key removed, in insertion order.
    metadata: MetadataMap,
}

impl<Id> Chapter<Id> {
    /// Stored `id`.
    pub closed spec fn spec_id(self) -> Id {
        self.id
    }

    /// Stored `media_id`.
    pub closed spec fn spec_media_id(self) -> Id {
        self.media_id
    }

    /// Stored `index`.
    pub closed spec fn spec_index(self) -> u32 {
        self.index
    }

    /// Stored `source_id`.
    pub closed spec fn spec_source_id(self) -> i64 {
        self.source_id
    }

    /// Stored `time_range`.
    pub closed spec fn spec_time_range(self) -> TimeRange {
        self.time_range
    }

    /// Stored `title`.
    pub closed spec fn spec_title(self) -> Seq<char> {
        self.title@
    }

    /// Stored `metadata`.
    pub closed spec fn spec_metadata(self) -> MetadataMap {
        self.metadata
    }

}

impl Chapter<Uuid7> {
    /// Validating constructor: rejects a nil `id` (checked first) and a nil
    /// `media_id`; the title starts empty and the metadata bag empty.
    pub fn try_new(id: Uuid7, media_id: Uuid7, index: u32, source_id: i64, time_range: TimeRange) -> (r: Result<Self, ChapterError>)
        ensures
            (is_nil_bytes(id@)) <==> r == Err::<Self, ChapterError>(ChapterError::NilId),
            (!is_nil_bytes(id@) && is_nil_bytes(media_id@)) <==> r == Err::<Self, ChapterError>(ChapterError::NilMediaId),
            r is Ok <==> (!is_nil_bytes(id@) && !is_nil_bytes(media_id@)),
            r matches Ok(x) ==> x.spec_id() == id,
            r matches Ok(x) ==> x.spec_media_id() == media_id,
            r matches Ok(x) ==> x.spec_index() == index,
            r matches Ok(x) ==> x.spec_source_id() == source_id,
            r matches Ok(x) ==> x.spec_time_range() == time_range,
            r matches Ok(x) ==> x.spec_title() == Seq::<char>::empty(),
            r matches Ok(x) ==> metadata_entries(x.spec_metadata()) == Seq::<(Seq<char>, Seq<char>)>::empty(),
    {
        if id.is_nil() {
            return Err(ChapterError::NilId);
        }
        if media_id.is_nil() {
            return Err(ChapterError::NilMediaId);
        }
        Ok(Chapter {
            id: id,
            media_id: media_id,
            index: index,
            source_id: source_id,
            time_range: time_range,
            title: String::new(),
            metadata: metadata_new(),
        })
    }
}

impl<Id> Chapter<Id> {
    /// Canonical identity.
    pub fn id_ref(&self) -> (r: &Id)
        ensures
            *r == self.spec_id(),
    {
        &self.id
    }

    /// FK → parent `Media`.
    pub fn media_id_ref(&self) -> (r: &Id)
        ensures
            *r == self.spec_media_id(),
    {
        &self.media_id
    }

    /// Ordinal within the parent media.
    pub fn index(&self) -> (r: u32)
        ensures
            r == self.spec_index(),
    {
        self.index
    }

    /// The container's own chapter id.
    pub fn source_id(&self) -> (r: i64)
        ensures
            r == self.spec_source_id(),
    {
        self.source_id
    }

    /// Start..end on the chapter's own timebase.
    pub fn time_range_ref(&self) -> (r: &TimeRange)
        ensures
            *r == self.spec_time_range(),
    {
        &self.time_range
    }

    /// Hoisted title (empty = absent).
    pub fn title(&self) -> (r: &str)
        ensures
            r@ == self.spec_title(),
    {
        self.title.as_str()
    }

    /// The stored title string.
    pub fn title_ref(&self) -> (r: &String)
        ensures
            r@ == self.spec_title(),
    {
        &self.title
    }

    /// Metadata entries (title key removed), in insertion order.
    pub fn metadata_ref(&self) -> (r: &MetadataMap)
        ensures
            *r == self.spec_metadata(),
    {
        &self.metadata
    }

    /// Builder: replace `index`.
    pub fn with_index(self, v: u32) -> (r: Self)
        ensures
            r.spec_index() == v,
            r.spec_id() == self.spec_id(),
            r.spec_media_id() == self.spec_media_id(),
            r.spec_source_id() == self.spec_source_id(),
            r.spec_time_range() == self.spec_time_range(),
            r.spec_title() == self.spec_title(),
            r.spec_metadata() == self.spec_metadata(),
    {
        let mut s = self;
        s.index = v;
        s
    }

    /// Builder: replace `source_id`.
    pub fn with_source_id(self, v: i64) -> (r: Self)
        ensures
            r.spec_source_id() == v,
            r.spec_id() == self.spec_id(),
            r.spec_media_id() == self.spec_media_id(),
            r.spec_index() == self.spec_index(),
            r.spec_time_range() == self.spec_time_range(),
            r.spec_title() == self.spec_title(),
            r.spec_metadata() == self.spec_metadata(),
    {
        let mut s = self;
        s.source_id = v;
        s
    }

    /// Builder: replace `time_range`.
    pub fn with_time_range(self, v: TimeRange) -> (r: Self)
        ensures
            r.spec_time_range() == v,
            r.spec_id() == self.spec_id(),
            r.spec_media_id() == self.spec_media_id(),
            r.spec_index() == self.spec_index(),
            r.spec_source_id() == self.spec_source_id(),
            r.spec_title() == self.spec_title(),
            r.spec_metadata() == self.spec_metadata(),
    {
        let mut s = self;
        s.time_range = v;
        s
    }

    /// Validating builder: replace `title`. A title longer than
    /// [`MAX_CHAPTER_TITLE_BYTES`] UTF-8 bytes is rejected with its length.
    pub fn try_with_title(self, title: &str) -> (r: Result<Self, ChapterError>)
        ensures
            utf8_len(title@) > MAX_CHAPTER_TITLE_BYTES <==> (r is Err),
            r matches Err(e) ==> e == (ChapterError::TitleTooLong { got: utf8_len(title@) as usize }),
            r matches Ok(x) ==> x.spec_title() == title@
                && x.spec_id() == self.spec_id()
                && x.spec_media_id() == self.spec_media_id()
                && x.spec_index() == self.spec_index()
                && x.spec_source_id() == self.spec_source_id()
                && x.spec_time_range() == self.spec_time_range()
                && x.spec_metadata() == self.spec_metadata()
                ,
    {
        let n = title.as_bytes().len();
        if n > MAX_CHAPTER_TITLE_BYTES {
            return Err(ChapterError::TitleTooLong { got: n });
        }
        let mut s = self;
        s.title = title.to_owned();
        Ok(s)
    }

    /// Validating builder: replace `metadata`. A bag of more than
    /// [`MAX_CHAPTER_METADATA_ENTRIES`] entries is rejected with its size.
    pub fn try_with_metadata(self, metadata: MetadataMap) -> (r: Result<Self, ChapterError>)
        ensures
            metadata_entries(metadata).len() > MAX_CHAPTER_METADATA_ENTRIES <==> (r is Err),
            r matches Err(e) ==> e == (ChapterError::MetadataTooLarge {
                got: metadata_entries(metadata).len() as usize,
            }),
            r matches Ok(x) ==> x.spec_metadata() == metadata
                && x.spec_id() == self.spec_id()
                && x.spec_media_id() == self.spec_media_id()
                && x.spec_index() == self.spec_index()
                && x.spec_source_id() == self.spec_source_id()
                && x.spec_time_range() == self.spec_time_range()
                && x.spec_title() == self.spec_title()
                ,
    {
        let n = metadata_len(&metadata);
        if n > MAX_CHAPTER_METADATA_ENTRIES {
            return Err(ChapterError::MetadataTooLarge { got: n });
        }
        let mut s = self;
        s.metadata = metadata;
        Ok(s)
    }

    /// In-place mutator: replace `index`.
    pub fn set_index(&mut self, v: u32) -> (r: &mut Self)
        ensures
            *final(self) == *final(r),
            r.spec_index() == v,
            r.spec_id() == old(self).spec_id(),
            r.spec_media_id() == old(self).spec_media_id(),
            r.spec_source_id() == old(self).spec_source_id(),
            r.spec_time_range() == old(self).spec_time_range(),
            r.spec_title() == old(self).spec_title(),
            r.spec_metadata() == old(self).spec_metadata(),
    {
        self.index = v;
        self
    }

    /// In-place mutator: replace `source_id`.
    pub fn set_source_id(&mut self, v: i64) -> (r: &mut Self)
        ensures
            *final(self) == *final(r),
            r.spec_source_id() == v,
            r.spec_id() == old(self).spec_id(),
            r.spec_media_id() == old(self).spec_media_id(),
            r.spec_index() == old(self).spec_index(),
            r.spec_time_range() == old(self).spec_time_range(),
            r.spec_title() == old(self).spec_title(),
            r.spec_metadata() == old(self).spec_metadata(),
    {
        self.source_id = v;
        self
    }

    /// In-place mutator: replace `time_range`.
    pub fn set_time_range(&mut self, v: TimeRange) -> (r: &mut Self)
        ensures
            *final(self) == *final(r),
            r.spec_time_range() == v,
            r.spec_id() == old(self).spec_id(),
            r.spec_media_id() == old(self).spec_media_id(),
            r.spec_index() == old(self).spec_index(),
            r.spec_source_id() == old(self).spec_source_id(),
            r.spec_title() == old(self).spec_title(),
            r.spec_metadata() == old(self).spec_metadata(),
    {
        self.time_range = v;
        self
    }

    /// Validating in-place mutator: replace `title`; on rejection the chapter
    /// is left unchanged.
    pub fn try_set_title(&mut self, title: &str) -> (r: Result<&mut Self, ChapterError>)
        ensures
            utf8_len(title@) > MAX_CHAPTER_TITLE_BYTES <==> (r is Err),
            r matches Err(e) ==> e == (ChapterError::TitleTooLong { got: utf8_len(title@) as usize })
                && *final(self) == *old(self),
            r matches Ok(x) ==> *final(self) == *final(x) && x.spec_title() == title@
                && x.spec_id() == old(self).spec_id()
                && x.spec_media_id() == old(self).spec_media_id()
                && x.spec_index() == old(self).spec_index()
                && x.spec_source_id() == old(self).spec_source_id()
                && x.spec_time_range() == old(self).spec_time_range()
                && x.spec_metadata() == old(self).spec_metadata()
                ,
    {
        let n = title.as_bytes().len();
        if n > MAX_CHAPTER_TITLE_BYTES {
            return Err(ChapterError::TitleTooLong { got: n });
        }
        self.title = title.to_owned();
        Ok(self)
    }

    /// Validating in-place mutator: replace `metadata`; on rejection the
    /// chapter is left unchanged.
    pub fn try_set_metadata(&mut self, metadata: MetadataMap) -> (r: Result<&mut Self, ChapterError>)
        ensures
            metadata_entries(metadata).len() > MAX_CHAPTER_METADATA_ENTRIES <==> (r is Err),
            r matches Err(e) ==> e == (ChapterError::MetadataTooLarge {
                got: metadata_entries(metadata).len() as usize,
            }) && *final(self) == *old(self),
            r matches Ok(x) ==> *final(self) == *final(x) && x.spec_metadata() == metadata
                && x.spec_id() == old(self).spec_id()
                && x.spec_media_id() == old(self).spec_media_id()
                && x.spec_index() == old(self).spec_index()
                && x.spec_source_id() == old(self).spec_source_id()
                && x.spec_time_range() == old(self).spec_time_range()
                && x.spec_title() == old(self).spec_title()
                ,
    {
        let n = metadata_len(&metadata);
        if n > MAX_CHAPTER_METADATA_ENTRIES {
            return Err(ChapterError::MetadataTooLarge { got: n });
        }
        self.metadata = metadata;
        Ok(self)
    }

    /// Decompose into [`ChapterParts`] — exhaustive, by value.
    pub fn into_parts(self) -> (r: ChapterParts<Id>)
        ensures
            r.id == self.spec_id(),
            r.media_id == self.spec_media_id(),
            r.index == self.spec_index(),
            r.source_id == self.spec_source_id(),
            r.time_range == self.spec_time_range(),
            r.title@ == self.spec_title(),
            r.metadata == self.spec_metadata(),
    {
        let Chapter { id, media_id, index, source_id, time_range, title, metadata } = self;
        ChapterParts { id, media_id, index, source_id, time_range, title, metadata }
    }
}

/// Exhaustive by-value decomposition of [`Chapter`] — every stored
/// field, public.
#[derive(Debug, Clone, PartialEq)]
pub struct ChapterParts<Id = Uuid7> {
    pub id: Id,
    pub media_id: Id,
    pub index: u32,
    pub source_id: i64,
    pub time_range: TimeRange,
    pub title: String,
    pub metadata: MetadataMap,
}

} // verus!
