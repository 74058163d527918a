//! `AttachmentTrack` — one attachment stream (`codec_type=attachment`) of an
//! `Attachment` facet — and `BlobRef`, the handle reserved for its bytes.
use vstd::prelude::*;

use mediaframe::disposition::TrackDisposition;

use crate::errors::ErrorInfo;
use crate::flags::AttachmentIndexStatus;
use crate::metadata::{disposition_bits, disposition_none, metadata_entries, metadata_new, MetadataMap};
use crate::primitives::{is_nil_bytes, Uuid7};

verus! {

/// Error returned by [`BlobRef::try_new`].
#[derive(Debug, Clone, Copy, PartialEq, Eq, Hash, Structural)]
#[non_exhaustive]
pub enum BlobRefError {
    /// `uri` was empty (a handle must point somewhere).
    EmptyUri,
}

/// The message of each [`BlobRefError`].
pub open spec fn blob_ref_error_message(e: BlobRefError) -> Seq<char> {
    match e {
        BlobRefError::EmptyUri => "BlobRef `uri` must not be empty"@,
    }
}

impl BlobRefError {
    /// True iff this is `BlobRefError::EmptyUri`.
    pub fn is_empty_uri(&self) -> (r: bool)
        ensures
            r == (*self is EmptyUri),
    {
        match self {
            BlobRefError::EmptyUri => true,
            #[allow(unreachable_patterns)]
            _ => false,
        }
    }

    /// Human-readable description.
    pub fn message(&self) -> (r: String)
        ensures
            r@ == blob_ref_error_message(*self),
    {
        match self {
            BlobRefError::EmptyUri => {
                proof {
                    reveal_strlit("BlobRef `uri` must not be empty");
                }
                "BlobRef `uri` must not be empty".to_owned()
            },
        }
    }
}

/// A handle to externally stored bytes: where they live (`uri`), their
/// declared size and MIME type. Identity-free; `uri` is never empty.
#[derive(Debug, Clone, PartialEq, Eq, Hash)]
pub struct BlobRef {
    /// Where the bytes live (path / URL / object-store key); never empty.
    uri: String,
    /// Declared size in bytes (`0` = unknown).
    byte_size: u64,
    /// Declared MIME type (`""` = absent).
    content_type: String,
}

impl BlobRef {
    /// Stored `uri`.
    pub closed spec fn spec_uri(self) -> Seq<char> {
        self.uri@
    }

    /// Stored `byte_size`.
    pub closed spec fn spec_byte_size(self) -> u64 {
        self.byte_size
    }

    /// Stored `content_type`.
    pub closed spec fn spec_content_type(self) -> Seq<char> {
        self.content_type@
    }

}

impl BlobRef {
    /// Validating constructor: rejects an empty `uri`; `byte_size` and
    /// `content_type` are taken as given.
    pub fn try_new(uri: &str, byte_size: u64, content_type: &str) -> (r: Result<Self, BlobRefError>)
        ensures
            uri@.len() == 0 <==> r == Err::<Self, BlobRefError>(BlobRefError::EmptyUri),
            r matches Ok(x) ==> {
                &&& x.spec_uri() == uri@
                &&& x.spec_byte_size() == byte_size
                &&& x.spec_content_type() == content_type@
            },
    {
        if uri.is_empty() {
            return Err(BlobRefError::EmptyUri);
        }
        Ok(BlobRef { uri: uri.to_owned(), byte_size, content_type: content_type.to_owned() })
    }

    /// Where the bytes live.
    pub fn uri(&self) -> (r: &str)
        ensures
            r@ == self.spec_uri(),
    {
        self.uri.as_str()
    }

    /// Declared size in bytes (`0` = unknown).
    pub fn byte_size(&self) -> (r: u64)
        ensures
            r == self.spec_byte_size(),
    {
        self.byte_size
    }

    /// Declared MIME type (`""` = absent).
    pub fn content_type(&self) -> (r: &str)
        ensures
            r@ == self.spec_content_type(),
    {
        self.content_type.as_str()
    }
}

/// Error returned by [`AttachmentTrack::try_new`].
#[derive(Debug, Clone, Copy, PartialEq, Eq, Hash, Structural)]
#[non_exhaustive]
pub enum AttachmentTrackError {
    /// `id` was the nil sentinel.
    NilId,
    /// `attachment_id` was the nil sentinel (orphan track with no
    /// `Attachment` facet).
    NilAttachmentId,
}

/// The message of each [`AttachmentTrackError`].
pub open spec fn attachment_track_error_message(e: AttachmentTrackError) -> Seq<char> {
    match e {
        AttachmentTrackError::NilId => "AttachmentTrack id must not be the nil UUID"@,
        AttachmentTrackError::NilAttachmentId => "AttachmentTrack `attachment_id` (FK → Attachment) must not be the nil UUID"@,
    }
}

impl AttachmentTrackError {
    /// True iff this is `AttachmentTrackError::NilId`.
    pub fn is_nil_id(&self) -> (r: bool)
        ensures
            r == (*self is NilId),
    {
        match self {
            AttachmentTrackError::NilId => true,
            #[allow(unreachable_patterns)]
            _ => false,
        }
    }

    /// True iff this is `AttachmentTrackError::NilAttachmentId`.
    pub fn is_nil_attachment_id(&self) -> (r: bool)
        ensures
            r == (*self is NilAttachmentId),
    {
        match self {
            AttachmentTrackError::NilAttachmentId => true,
            #[allow(unreachable_patterns)]
            _ => false,
        }
    }

    /// Human-readable description.
    pub fn message(&self) -> (r: String)
        ensures
            r@ == attachment_track_error_message(*self),
    {
        match self {
            AttachmentTrackError::NilId => {
                proof {
                    reveal_strlit("AttachmentTrack id must not be the nil UUID");
                }
                "AttachmentTrack id must not be the nil UUID".to_owned()
            },
            AttachmentTrackError::NilAttachmentId => {
                proof {
                    reveal_strlit("AttachmentTrack `attachment_id` (FK → Attachment) must not be the nil UUID");
                }
                "AttachmentTrack `attachment_id` (FK → Attachment) must not be the nil UUID".to_owned()
            },
        }
    }
}

/// One attachment stream (font, cover art, thumbnail) of an `Attachment`
/// facet: presence, a descriptor and the container metadata. The `blob` slot
/// is reserved for an externalized copy of the bytes.
#[derive(Debug, Clone, PartialEq, Eq)]
pub struct AttachmentTrack<Id = Uuid7> {
    id: Id,
    /// FK → `Attachment.id`.
    attachment_id: Id,
    /// Source stream index.
    stream_index: Option<u32>,
    /// Codec slug (`""` = unknown).
    codec: String,
    /// Attachment filename (`""` = absent).
    filename: String,
    /// MIME type (`""` = absent).
    mimetype: String,
    /// Declared attachment size (`0` = unknown).
    byte_size: u64,
    /// `AV_DISPOSITION_*` flags.
    disposition: TrackDisposition,
    /// Container metadata entries, in insertion order.
    metadata: MetadataMap,
    /// Indexing state.
    index_status: AttachmentIndexStatus,
    /// Per-track index errors.
    index_errors: Vec<ErrorInfo>,
    /// Reserved handle to the externalized bytes (`None` until stored).
    blob: Option<BlobRef>,
}

impl<Id> AttachmentTrack<Id> {
    /// Stored `id`.
    pub closed spec fn spec_id(self) -> Id {
        self.id
    }

    /// Stored `attachment_id`.
    pub closed spec fn spec_attachment_id(self) -> Id {
        self.attachment_id
    }

    /// Stored `stream_index`.
    pub closed spec fn spec_stream_index(self) -> Option<u32> {
        self.stream_index
    }

    /// Stored `codec`.
    pub closed spec fn spec_codec(self) -> Seq<char> {
        self.codec@
    }

    /// Stored `filename`.
    pub closed spec fn spec_filename(self) -> Seq<char> {
        self.filename@
    }

    /// Stored `mimetype`.
    pub closed spec fn spec_mimetype(self) -> Seq<char> {
        self.mimetype@
    }

    /// Stored `byte_size`.
    pub closed spec fn spec_byte_size(self) -> u64 {
        self.byte_size
    }

    /// Stored `disposition`.
    pub closed spec fn spec_disposition(self) -> TrackDisposition {
        self.disposition
    }

    /// Stored `metadata`.
    pub closed spec fn spec_metadata(self) -> MetadataMap {
        self.metadata
    }

    /// Stored `index_status`.
    pub closed spec fn spec_index_status(self) -> AttachmentIndexStatus {
        self.index_status
    }

    /// Stored `index_errors`.
    pub closed spec fn spec_index_errors(self) -> Seq<ErrorInfo> {
        self.index_errors@
    }

    /// Stored `blob`.
    pub closed spec fn spec_blob(self) -> Option<BlobRef> {
        self.blob
    }

}

impl AttachmentTrack<Uuid7> {
    /// Validating constructor: rejects a nil `id` (checked first) and a nil
    /// `attachment_id`; every descriptive field starts in its neutral state and
    /// `blob` starts `None`.
    pub fn try_new(id: Uuid7, attachment_id: Uuid7) -> (r: Result<Self, AttachmentTrackError>)
        ensures
            (is_nil_bytes(id@)) <==> r == Err::<Self, AttachmentTrackError>(AttachmentTrackError::NilId),
            (!is_nil_bytes(id@) && is_nil_bytes(attachment_id@)) <==> r == Err::<Self, AttachmentTrackError>(AttachmentTrackError::NilAttachmentId),
            r is Ok <==> (!is_nil_bytes(id@) && !is_nil_bytes(attachment_id@)),
            r matches Ok(x) ==> x.spec_id() == id,
            r matches Ok(x) ==> x.spec_attachment_id() == attachment_id,
            r matches Ok(x) ==> x.spec_stream_index() == None::<u32>,
            r matches Ok(x) ==> x.spec_codec() == Seq::<char>::empty(),
            r matches Ok(x) ==> x.spec_filename() == Seq::<char>::empty(),
            r matches Ok(x) ==> x.spec_mimetype() == Seq::<char>::empty(),
            r matches Ok(x) ==> x.spec_byte_size() == 0,
            r matches Ok(x) ==> disposition_bits(x.spec_disposition()) == 0,
            r matches Ok(x) ==> metadata_entries(x.spec_metadata()) == Seq::<(Seq<char>, Seq<char>)>::empty(),
            r matches Ok(x) ==> x.spec_index_status()@ == 0,
            r matches Ok(x) ==> x.spec_index_errors() == Seq::<ErrorInfo>::empty(),
            r matches Ok(x) ==> x.spec_blob() == None::<BlobRef>,
    {
        if id.is_nil() {
            return Err(AttachmentTrackError::NilId);
        }
        if attachment_id.is_nil() {
            return Err(AttachmentTrackError::NilAttachmentId);
        }
        Ok(AttachmentTrack {
            id: id,
            attachment_id: attachment_id,
            stream_index: None,
            codec: String::new(),
            filename: String::new(),
            mimetype: String::new(),
            byte_size: 0,
            disposition: disposition_none(),
            metadata: metadata_new(),
            index_status: AttachmentIndexStatus::empty(),
            index_errors: Vec::new(),
            blob: None,
        })
    }
}

impl<Id> AttachmentTrack<Id> {
    /// Canonical identity.
    pub fn id_ref(&self) -> (r: &Id)
        ensures
            *r == self.spec_id(),
    {
        &self.id
    }

    /// FK → `Attachment.id`.
    pub fn attachment_id_ref(&self) -> (r: &Id)
        ensures
            *r == self.spec_attachment_id(),
    {
        &self.attachment_id
    }

    /// Source stream index.
    pub fn stream_index(&self) -> (r: Option<u32>)
        ensures
            r == self.spec_stream_index(),
    {
        self.stream_index
    }

    /// Codec slug (`""` = unknown).
    pub fn codec(&self) -> (r: &str)
        ensures
            r@ == self.spec_codec(),
    {
        self.codec.as_str()
    }

    /// Attachment filename (`""` = absent).
    pub fn filename(&self) -> (r: &str)
        ensures
            r@ == self.spec_filename(),
    {
        self.filename.as_str()
    }

    /// MIME type (`""` = absent).
    pub fn mimetype(&self) -> (r: &str)
        ensures
            r@ == self.spec_mimetype(),
    {
        self.mimetype.as_str()
    }

    /// Declared attachment size (`0` = unknown).
    pub fn byte_size(&self) -> (r: u64)
        ensures
            r == self.spec_byte_size(),
    {
        self.byte_size
    }

    /// Disposition flags.
    pub fn disposition(&self) -> (r: TrackDisposition)
        ensures
            r == self.spec_disposition(),
    {
        self.disposition
    }

    /// Container metadata entries, in insertion order.
    pub fn metadata_ref(&self) -> (r: &MetadataMap)
        ensures
            *r == self.spec_metadata(),
    {
        &self.metadata
    }

    /// Indexing state.
    pub fn index_status(&self) -> (r: AttachmentIndexStatus)
        ensures
            r == self.spec_index_status(),
    {
        self.index_status
    }

    /// Per-track index errors.
    pub fn index_errors_slice(&self) -> (r: &[ErrorInfo])
        ensures
            r@ == self.spec_index_errors(),
    {
        self.index_errors.as_slice()
    }

    /// Reserved handle to the externalized bytes.
    pub fn blob_ref(&self) -> (r: Option<&BlobRef>)
        ensures
            r is Some <==> self.spec_blob() is Some,
            r matches Some(v) ==> self.spec_blob() == Some(*v),
    {
        match &self.blob {
            Some(v) => Some(v),
            None => None,
        }
    }

    /// Builder: replace `stream_index`.
    pub fn with_stream_index(self, v: Option<u32>) -> (r: Self)
        ensures
            r.spec_stream_index() == v,
            r.spec_id() == self.spec_id(),
            r.spec_attachment_id() == self.spec_attachment_id(),
            r.spec_codec() == self.spec_codec(),
            r.spec_filename() == self.spec_filename(),
            r.spec_mimetype() == self.spec_mimetype(),
            r.spec_byte_size() == self.spec_byte_size(),
            r.spec_disposition() == self.spec_disposition(),
            r.spec_metadata() == self.spec_metadata(),
            r.spec_index_status() == self.spec_index_status(),
            r.spec_index_errors() == self.spec_index_errors(),
            r.spec_blob() == self.spec_blob(),
    {
        let mut s = self;
        s.stream_index = v;
        s
    }

    /// Builder: replace `codec`.
    pub fn with_codec(self, v: &str) -> (r: Self)
        ensures
            r.spec_codec() == v@,
            r.spec_id() == self.spec_id(),
            r.spec_attachment_id() == self.spec_attachment_id(),
            r.spec_stream_index() == self.spec_stream_index(),
            r.spec_filename() == self.spec_filename(),
            r.spec_mimetype() == self.spec_mimetype(),
            r.spec_byte_size() == self.spec_byte_size(),
            r.spec_disposition() == self.spec_disposition(),
            r.spec_metadata() == self.spec_metadata(),
            r.spec_index_status() == self.spec_index_status(),
            r.spec_index_errors() == self.spec_index_errors(),
            r.spec_blob() == self.spec_blob(),
    {
        let mut s = self;
        s.codec = v.to_owned();
        s
    }

    /// Builder: replace `filename`.
    pub fn with_filename(self, v: &str) -> (r: Self)
        ensures
            r.spec_filename() == v@,
            r.spec_id() == self.spec_id(),
            r.spec_attachment_id() == self.spec_attachment_id(),
            r.spec_stream_index() == self.spec_stream_index(),
            r.spec_codec() == self.spec_codec(),
            r.spec_mimetype() == self.spec_mimetype(),
            r.spec_byte_size() == self.spec_byte_size(),
            r.spec_disposition() == self.spec_disposition(),
            r.spec_metadata() == self.spec_metadata(),
            r.spec_index_status() == self.spec_index_status(),
            r.spec_index_errors() == self.spec_index_errors(),
            r.spec_blob() == self.spec_blob(),
    {
        let mut s = self;
        s.filename = v.to_owned();
        s
    }

    /// Builder: replace `mimetype`.
    pub fn with_mimetype(self, v: &str) -> (r: Self)
        ensures
            r.spec_mimetype() == v@,
            r.spec_id() == self.spec_id(),
            r.spec_attachment_id() == self.spec_attachment_id(),
            r.spec_stream_index() == self.spec_stream_index(),
            r.spec_codec() == self.spec_codec(),
            r.spec_filename() == self.spec_filename(),
            r.spec_byte_size() == self.spec_byte_size(),
            r.spec_disposition() == self.spec_disposition(),
            r.spec_metadata() == self.spec_metadata(),
            r.spec_index_status() == self.spec_index_status(),
            r.spec_index_errors() == self.spec_index_errors(),
            r.spec_blob() == self.spec_blob(),
    {
        let mut s = self;
        s.mimetype = v.to_owned();
        s
    }

    /// Builder: replace `byte_size`.
    pub fn with_byte_size(self, v: u64) -> (r: Self)
        ensures
            r.spec_byte_size() == v,
            r.spec_id() == self.spec_id(),
            r.spec_attachment_id() == self.spec_attachment_id(),
            r.spec_stream_index() == self.spec_stream_index(),
            r.spec_codec() == self.spec_codec(),
            r.spec_filename() == self.spec_filename(),
            r.spec_mimetype() == self.spec_mimetype(),
            r.spec_disposition() == self.spec_disposition(),
            r.spec_metadata() == self.spec_metadata(),
            r.spec_index_status() == self.spec_index_status(),
            r.spec_index_errors() == self.spec_index_errors(),
            r.spec_blob() == self.spec_blob(),
    {
        let mut s = self;
        s.byte_size = v;
        s
    }

    /// Builder: replace the disposition flags.
    pub fn with_disposition(self, v: TrackDisposition) -> (r: Self)
        ensures
            r.spec_disposition() == v,
            r.spec_id() == self.spec_id(),
            r.spec_attachment_id() == self.spec_attachment_id(),
            r.spec_stream_index() == self.spec_stream_index(),
            r.spec_codec() == self.spec_codec(),
            r.spec_filename() == self.spec_filename(),
            r.spec_mimetype() == self.spec_mimetype(),
            r.spec_byte_size() == self.spec_byte_size(),
            r.spec_metadata() == self.spec_metadata(),
            r.spec_index_status() == self.spec_index_status(),
            r.spec_index_errors() == self.spec_index_errors(),
            r.spec_blob() == self.spec_blob(),
    {
        let mut s = self;
        s.disposition = v;
        s
    }

    /// Builder: replace the metadata bag.
    pub fn with_metadata(self, v: MetadataMap) -> (r: Self)
        ensures
            r.spec_metadata() == v,
            r.spec_id() == self.spec_id(),
            r.spec_attachment_id() == self.spec_attachment_id(),
            r.spec_stream_index() == self.spec_stream_index(),
            r.spec_codec() == self.spec_codec(),
            r.spec_filename() == self.spec_filename(),
            r.spec_mimetype() == self.spec_mimetype(),
            r.spec_byte_size() == self.spec_byte_size(),
            r.spec_disposition() == self.spec_disposition(),
            r.spec_index_status() == self.spec_index_status(),
            r.spec_index_errors() == self.spec_index_errors(),
            r.spec_blob() == self.spec_blob(),
    {
        let mut s = self;
        s.metadata = v;
        s
    }

    /// Builder: replace `index_status`.
    pub fn with_index_status(self, v: AttachmentIndexStatus) -> (r: Self)
        ensures
            r.spec_index_status() == v,
            r.spec_id() == self.spec_id(),
            r.spec_attachment_id() == self.spec_attachment_id(),
            r.spec_stream_index() == self.spec_stream_index(),
            r.spec_codec() == self.spec_codec(),
            r.spec_filename() == self.spec_filename(),
            r.spec_mimetype() == self.spec_mimetype(),
            r.spec_byte_size() == self.spec_byte_size(),
            r.spec_disposition() == self.spec_disposition(),
            r.spec_metadata() == self.spec_metadata(),
            r.spec_index_errors() == self.spec_index_errors(),
            r.spec_blob() == self.spec_blob(),
    {
        let mut s = self;
        s.index_status = v;
        s
    }

    /// Builder: replace `index_errors`.
    pub fn with_index_errors(self, v: Vec<ErrorInfo>) -> (r: Self)
        ensures
            r.spec_index_errors() == v@,
            r.spec_id() == self.spec_id(),
            r.spec_attachment_id() == self.spec_attachment_id(),
            r.spec_stream_index() == self.spec_stream_index(),
            r.spec_codec() == self.spec_codec(),
            r.spec_filename() == self.spec_filename(),
            r.spec_mimetype() == self.spec_mimetype(),
            r.spec_byte_size() == self.spec_byte_size(),
            r.spec_disposition() == self.spec_disposition(),
            r.spec_metadata() == self.spec_metadata(),
            r.spec_index_status() == self.spec_index_status(),
            r.spec_blob() == self.spec_blob(),
    {
        let mut s = self;
        s.index_errors = v;
        s
    }

    /// Builder: replace the reserved `blob` handle.
    pub fn with_blob(self, v: Option<BlobRef>) -> (r: Self)
        ensures
            r.spec_blob() == v,
            r.spec_id() == self.spec_id(),
            r.spec_attachment_id() == self.spec_attachment_id(),
            r.spec_stream_index() == self.spec_stream_index(),
            r.spec_codec() == self.spec_codec(),
            r.spec_filename() == self.spec_filename(),
            r.spec_mimetype() == self.spec_mimetype(),
            r.spec_byte_size() == self.spec_byte_size(),
            r.spec_disposition() == self.spec_disposition(),
            r.spec_metadata() == self.spec_metadata(),
            r.spec_index_status() == self.spec_index_status(),
            r.spec_index_errors() == self.spec_index_errors(),
    {
        let mut s = self;
        s.blob = v;
        s
    }

    /// In-place mutator for `stream_index`.
    pub fn set_stream_index(&mut self, v: Option<u32>) -> (r: &mut Self)
        ensures
            *final(self) == *final(r),
            r.spec_stream_index() == v,
            r.spec_id() == old(self).spec_id(),
            r.spec_attachment_id() == old(self).spec_attachment_id(),
            r.spec_codec() == old(self).spec_codec(),
            r.spec_filename() == old(self).spec_filename(),
            r.spec_mimetype() == old(self).spec_mimetype(),
            r.spec_byte_size() == old(self).spec_byte_size(),
            r.spec_disposition() == old(self).spec_disposition(),
            r.spec_metadata() == old(self).spec_metadata(),
            r.spec_index_status() == old(self).spec_index_status(),
            r.spec_index_errors() == old(self).spec_index_errors(),
            r.spec_blob() == old(self).spec_blob(),
    {
        self.stream_index = v;
        self
    }

    /// In-place mutator for `codec`.
    pub fn set_codec(&mut self, v: &str) -> (r: &mut Self)
        ensures
            *final(self) == *final(r),
            r.spec_codec() == v@,
            r.spec_id() == old(self).spec_id(),
            r.spec_attachment_id() == old(self).spec_attachment_id(),
            r.spec_stream_index() == old(self).spec_stream_index(),
            r.spec_filename() == old(self).spec_filename(),
            r.spec_mimetype() == old(self).spec_mimetype(),
            r.spec_byte_size() == old(self).spec_byte_size(),
            r.spec_disposition() == old(self).spec_disposition(),
            r.spec_metadata() == old(self).spec_metadata(),
            r.spec_index_status() == old(self).spec_index_status(),
            r.spec_index_errors() == old(self).spec_index_errors(),
            r.spec_blob() == old(self).spec_blob(),
    {
        self.codec = v.to_owned();
        self
    }

    /// In-place mutator for `filename`.
    pub fn set_filename(&mut self, v: &str) -> (r: &mut Self)
        ensures
            *final(self) == *final(r),
            r.spec_filename() == v@,
            r.spec_id() == old(self).spec_id(),
            r.spec_attachment_id() == old(self).spec_attachment_id(),
            r.spec_stream_index() == old(self).spec_stream_index(),
            r.spec_codec() == old(self).spec_codec(),
            r.spec_mimetype() == old(self).spec_mimetype(),
            r.spec_byte_size() == old(self).spec_byte_size(),
            r.spec_disposition() == old(self).spec_disposition(),
            r.spec_metadata() == old(self).spec_metadata(),
            r.spec_index_status() == old(self).spec_index_status(),
            r.spec_index_errors() == old(self).spec_index_errors(),
            r.spec_blob() == old(self).spec_blob(),
    {
        self.filename = v.to_owned();
        self
    }

    /// In-place mutator for `mimetype`.
    pub fn set_mimetype(&mut self, v: &str) -> (r: &mut Self)
        ensures
            *final(self) == *final(r),
            r.spec_mimetype() == v@,
            r.spec_id() == old(self).spec_id(),
            r.spec_attachment_id() == old(self).spec_attachment_id(),
            r.spec_stream_index() == old(self).spec_stream_index(),
            r.spec_codec() == old(self).spec_codec(),
            r.spec_filename() == old(self).spec_filename(),
            r.spec_byte_size() == old(self).spec_byte_size(),
            r.spec_disposition() == old(self).spec_disposition(),
            r.spec_metadata() == old(self).spec_metadata(),
            r.spec_index_status() == old(self).spec_index_status(),
            r.spec_index_errors() == old(self).spec_index_errors(),
            r.spec_blob() == old(self).spec_blob(),
    {
        self.mimetype = v.to_owned();
        self
    }

    /// In-place mutator for `byte_size`.
    pub fn set_byte_size(&mut self, v: u64) -> (r: &mut Self)
        ensures
            *final(self) == *final(r),
            r.spec_byte_size() == v,
            r.spec_id() == old(self).spec_id(),
            r.spec_attachment_id() == old(self).spec_attachment_id(),
            r.spec_stream_index() == old(self).spec_stream_index(),
            r.spec_codec() == old(self).spec_codec(),
            r.spec_filename() == old(self).spec_filename(),
            r.spec_mimetype() == old(self).spec_mimetype(),
            r.spec_disposition() == old(self).spec_disposition(),
            r.spec_metadata() == old(self).spec_metadata(),
            r.spec_index_status() == old(self).spec_index_status(),
            r.spec_index_errors() == old(self).spec_index_errors(),
            r.spec_blob() == old(self).spec_blob(),
    {
        self.byte_size = v;
        self
    }

    /// In-place mutator for the disposition flags.
    pub fn set_disposition(&mut self, v: TrackDisposition) -> (r: &mut Self)
        ensures
            *final(self) == *final(r),
            r.spec_disposition() == v,
            r.spec_id() == old(self).spec_id(),
            r.spec_attachment_id() == old(self).spec_attachment_id(),
            r.spec_stream_index() == old(self).spec_stream_index(),
            r.spec_codec() == old(self).spec_codec(),
            r.spec_filename() == old(self).spec_filename(),
            r.spec_mimetype() == old(self).spec_mimetype(),
            r.spec_byte_size() == old(self).spec_byte_size(),
            r.spec_metadata() == old(self).spec_metadata(),
            r.spec_index_status() == old(self).spec_index_status(),
            r.spec_index_errors() == old(self).spec_index_errors(),
            r.spec_blob() == old(self).spec_blob(),
    {
        self.disposition = v;
        self
    }

    /// In-place mutator for the metadata bag.
    pub fn set_metadata(&mut self, v: MetadataMap) -> (r: &mut Self)
        ensures
            *final(self) == *final(r),
            r.spec_metadata() == v,
            r.spec_id() == old(self).spec_id(),
            r.spec_attachment_id() == old(self).spec_attachment_id(),
            r.spec_stream_index() == old(self).spec_stream_index(),
            r.spec_codec() == old(self).spec_codec(),
            r.spec_filename() == old(self).spec_filename(),
            r.spec_mimetype() == old(self).spec_mimetype(),
            r.spec_byte_size() == old(self).spec_byte_size(),
            r.spec_disposition() == old(self).spec_disposition(),
            r.spec_index_status() == old(self).spec_index_status(),
            r.spec_index_errors() == old(self).spec_index_errors(),
            r.spec_blob() == old(self).spec_blob(),
    {
        self.metadata = v;
        self
    }

    /// In-place mutator for `index_status`.
    pub fn set_index_status(&mut self, v: AttachmentIndexStatus) -> (r: &mut Self)
        ensures
            *final(self) == *final(r),
            r.spec_index_status() == v,
            r.spec_id() == old(self).spec_id(),
            r.spec_attachment_id() == old(self).spec_attachment_id(),
            r.spec_stream_index() == old(self).spec_stream_index(),
            r.spec_codec() == old(self).spec_codec(),
            r.spec_filename() == old(self).spec_filename(),
            r.spec_mimetype() == old(self).spec_mimetype(),
            r.spec_byte_size() == old(self).spec_byte_size(),
            r.spec_disposition() == old(self).spec_disposition(),
            r.spec_metadata() == old(self).spec_metadata(),
            r.spec_index_errors() == old(self).spec_index_errors(),
            r.spec_blob() == old(self).spec_blob(),
    {
        self.index_status = v;
        self
    }

    /// In-place mutator for `index_errors`.
    pub fn set_index_errors(&mut self, v: Vec<ErrorInfo>) -> (r: &mut Self)
        ensures
            *final(self) == *final(r),
            r.spec_index_errors() == v@,
            r.spec_id() == old(self).spec_id(),
            r.spec_attachment_id() == old(self).spec_attachment_id(),
            r.spec_stream_index() == old(self).spec_stream_index(),
            r.spec_codec() == old(self).spec_codec(),
            r.spec_filename() == old(self).spec_filename(),
            r.spec_mimetype() == old(self).spec_mimetype(),
            r.spec_byte_size() == old(self).spec_byte_size(),
            r.spec_disposition() == old(self).spec_disposition(),
            r.spec_metadata() == old(self).spec_metadata(),
            r.spec_index_status() == old(self).spec_index_status(),
            r.spec_blob() == old(self).spec_blob(),
    {
        self.index_errors = v;
        self
    }

    /// In-place mutator for the reserved `blob` handle.
    pub fn set_blob(&mut self, v: Option<BlobRef>) -> (r: &mut Self)
        ensures
            *final(self) == *final(r),
            r.spec_blob() == v,
            r.spec_id() == old(self).spec_id(),
            r.spec_attachment_id() == old(self).spec_attachment_id(),
            r.spec_stream_index() == old(self).spec_stream_index(),
            r.spec_codec() == old(self).spec_codec(),
            r.spec_filename() == old(self).spec_filename(),
            r.spec_mimetype() == old(self).spec_mimetype(),
            r.spec_byte_size() == old(self).spec_byte_size(),
            r.spec_disposition() == old(self).spec_disposition(),
            r.spec_metadata() == old(self).spec_metadata(),
            r.spec_index_status() == old(self).spec_index_status(),
            r.spec_index_errors() == old(self).spec_index_errors(),
    {
        self.blob = v;
        self
    }

    /// Decompose into [`AttachmentTrackParts`] — exhaustive, by value.
    pub fn into_parts(self) -> (r: AttachmentTrackParts<Id>)
        ensures
            r.id == self.spec_id(),
            r.attachment_id == self.spec_attachment_id(),
            r.stream_index == self.spec_stream_index(),
            r.codec@ == self.spec_codec(),
            r.filename@ == self.spec_filename(),
            r.mimetype@ == self.spec_mimetype(),
            r.byte_size == self.spec_byte_size(),
            r.disposition == self.spec_disposition(),
            r.metadata == self.spec_metadata(),
            r.index_status == self.spec_index_status(),
            r.index_errors@ == self.spec_index_errors(),
            r.blob == self.spec_blob(),
    {
        let AttachmentTrack { id, attachment_id, stream_index, codec, filename, mimetype, byte_size, disposition, metadata, index_status, index_errors, blob } = self;
        AttachmentTrackParts { id, attachment_id, stream_index, codec, filename, mimetype, byte_size, disposition, metadata, index_status, index_errors, blob }
    }

    /// Rebuild from [`AttachmentTrackParts`]; the parts must come from an
    /// already-validated value.
    pub fn rehydrate(parts: AttachmentTrackParts<Id>) -> (r: Self)
        ensures
            r.spec_id() == parts.id,
            r.spec_attachment_id() == parts.attachment_id,
            r.spec_stream_index() == parts.stream_index,
            r.spec_codec() == parts.codec@,
            r.spec_filename() == parts.filename@,
            r.spec_mimetype() == parts.mimetype@,
            r.spec_byte_size() == parts.byte_size,
            r.spec_disposition() == parts.disposition,
            r.spec_metadata() == parts.metadata,
            r.spec_index_status() == parts.index_status,
            r.spec_index_errors() == parts.index_errors@,
            r.spec_blob() == parts.blob,
    {
        let AttachmentTrackParts { id, attachment_id, stream_index, codec, filename, mimetype, byte_size, disposition, metadata, index_status, index_errors, blob } = parts;
        AttachmentTrack { id, attachment_id, stream_index, codec, filename, mimetype, byte_size, disposition, metadata, index_status, index_errors, blob }
    }
}

/// Exhaustive by-value decomposition of [`AttachmentTrack`] — every stored
/// field, public.
#[derive(Debug, Clone, PartialEq, Eq)]
pub struct AttachmentTrackParts<Id = Uuid7> {
    pub id: Id,
    pub attachment_id: Id,
    pub stream_index: Option<u32>,
    pub codec: String,
    pub filename: String,
    pub mimetype: String,
    pub byte_size: u64,
    pub disposition: TrackDisposition,
    pub metadata: MetadataMap,
    pub index_status: AttachmentIndexStatus,
    pub index_errors: Vec<ErrorInfo>,
    pub blob: Option<BlobRef>,
}

} // verus!
