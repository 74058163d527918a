//! `Media` — the shared content row (one per content hash): container format,
//! size, duration, kind, the copies that hold it, the facet FKs and the
//! error roll-up.
use vstd::prelude::*;

use crate::enums::MediaKind;
use crate::errors::ErrorInfo;
use crate::flags::MediaErrorFlags;
use crate::primitives::{is_nil_bytes, FileChecksum, Uuid7};
use crate::time::{is_negative_duration, spec_is_negative_duration, MediaTimestamp};

verus! {

/// Error returned by a [`Media`] constructor or fallible mutator.
#[derive(Debug, Clone, Copy, PartialEq, Eq, Hash, Structural)]
#[non_exhaustive]
pub enum MediaError {
    /// `id` was the nil sentinel.
    NilId,
    /// `checksum` was the all-zero \"not yet computed\" sentinel.
    ZeroChecksum,
    /// a `duration` was negative.
    NegativeDuration,
}

/// The message of each [`MediaError`].
pub open spec fn media_error_message(e: MediaError) -> Seq<char> {
    match e {
        MediaError::NilId => "Media id must not be the nil UUID"@,
        MediaError::ZeroChecksum => "Media checksum must not be the all-zero sentinel (file must be probed)"@,
        MediaError::NegativeDuration => "Media duration must not be negative"@,
    }
}

impl MediaError {
    /// True iff this is `MediaError::NilId`.
    pub fn is_nil_id(&self) -> (r: bool)
        ensures
            r == (*self is NilId),
    {
        match self {
            MediaError::NilId => true,
            #[allow(unreachable_patterns)]
            _ => false,
        }
    }

    /// True iff this is `MediaError::ZeroChecksum`.
    pub fn is_zero_checksum(&self) -> (r: bool)
        ensures
            r == (*self is ZeroChecksum),
    {
        match self {
            MediaError::ZeroChecksum => true,
            #[allow(unreachable_patterns)]
            _ => false,
        }
    }

    /// True iff this is `MediaError::NegativeDuration`.
    pub fn is_negative_duration(&self) -> (r: bool)
        ensures
            r == (*self is NegativeDuration),
    {
        match self {
            MediaError::NegativeDuration => true,
            #[allow(unreachable_patterns)]
            _ => false,
        }
    }

    /// Human-readable description.
    pub fn message(&self) -> (r: String)
        ensures
            r@ == media_error_message(*self),
    {
        match self {
            MediaError::NilId => {
                proof {
                    reveal_strlit("Media id must not be the nil UUID");
                }
                "Media id must not be the nil UUID".to_owned()
            },
            MediaError::ZeroChecksum => {
                proof {
                    reveal_strlit("Media checksum must not be the all-zero sentinel (file must be probed)");
                }
                "Media checksum must not be the all-zero sentinel (file must be probed)".to_owned()
            },
            MediaError::NegativeDuration => {
                proof {
                    reveal_strlit("Media duration must not be negative");
                }
                "Media duration must not be negative".to_owned()
            },
        }
    }
}

/// The indexed media content — one row per content hash; the architectural
/// root every other aggregate descends from through the facet FKs.
#[derive(Debug, Clone, PartialEq)]
pub struct Media<Id = Uuid7> {
    id: Id,
    /// Content hash (unique across `Media`).
    checksum: FileChecksum,
    /// Container format.
    format: mediaframe::container::Format,
    /// File size in bytes.
    size: u64,
    /// Overall media length (never negative).
    duration: Option<MediaTimestamp>,
    /// Top-level media kind.
    kind: MediaKind,
    /// Reverse lookup → this content's `MediaFile` copies.
    files: Vec<Id>,
    /// FK → `Video` facet.
    video: Option<Id>,
    /// FK → `Audio` facet.
    audio: Option<Id>,
    /// FK → `Subtitle` facet.
    subtitle: Option<Id>,
    /// Per-kind error roll-up.
    error_flags: MediaErrorFlags,
    /// File-level probe failure (no tracks were created).
    probe_error: Option<ErrorInfo>,
    /// Capture date, if recorded (stored faithfully).
    capture_date: Option<jiff::Timestamp>,
    /// Capture device, if recorded.
    device: Option<mediaframe::capture::Device>,
    /// Capture location, if recorded.
    gps: Option<mediaframe::capture::GeoLocation>,
}

impl<Id> Media<Id> {
    /// Stored `id`.
    pub closed spec fn spec_id(self) -> Id {
        self.id
    }

    /// Stored `checksum`.
    pub closed spec fn spec_checksum(self) -> FileChecksum {
        self.checksum
    }

    /// Stored `format`.
    pub closed spec fn spec_format(self) -> mediaframe::container::Format {
        self.format
    }

    /// Stored `size`.
    pub closed spec fn spec_size(self) -> u64 {
        self.size
    }

    /// Stored `duration`.
    pub closed spec fn spec_duration(self) -> Option<MediaTimestamp> {
        self.duration
    }

    /// Stored `kind`.
    pub closed spec fn spec_kind(self) -> MediaKind {
        self.kind
    }

    /// Stored `files`.
    pub closed spec fn spec_files(self) -> Seq<Id> {
        self.files@
    }

    /// Stored `video`.
    pub closed spec fn spec_video(self) -> Option<Id> {
        self.video
    }

    /// Stored `audio`.
    pub closed spec fn spec_audio(self) -> Option<Id> {
        self.audio
    }

    /// Stored `subtitle`.
    pub closed spec fn spec_subtitle(self) -> Option<Id> {
        self.subtitle
    }

    /// Stored `error_flags`.
    pub closed spec fn spec_error_flags(self) -> MediaErrorFlags {
        self.error_flags
    }

    /// Stored `probe_error`.
    pub closed spec fn spec_probe_error(self) -> Option<ErrorInfo> {
        self.probe_error
    }

    /// Stored `capture_date`.
    pub closed spec fn spec_capture_date(self) -> Option<jiff::Timestamp> {
        self.capture_date
    }

    /// Stored `device`.
    pub closed spec fn spec_device(self) -> Option<mediaframe::capture::Device> {
        self.device
    }

    /// Stored `gps`.
    pub closed spec fn spec_gps(self) -> Option<mediaframe::capture::GeoLocation> {
        self.gps
    }

}

impl Media<Uuid7> {
    /// Validating constructor: rejects a nil `id` (checked first) and the
    /// zero `checksum`; `files` starts empty, every facet FK unset, no error
    /// flag and no probe error.
    pub fn try_new(
        id: Uuid7,
        checksum: FileChecksum,
        format: mediaframe::container::Format,
        size: u64,
        kind: MediaKind,
    ) -> (r: Result<Self, MediaError>)
        ensures
            is_nil_bytes(id@) <==> r == Err::<Self, MediaError>(MediaError::NilId),
            !is_nil_bytes(id@) && is_nil_bytes(checksum.0@) <==> r == Err::<Self, MediaError>(
                MediaError::ZeroChecksum,
            ),
            r is Ok <==> !is_nil_bytes(id@) && !is_nil_bytes(checksum.0@),
            r matches Ok(x) ==> {
                &&& x.spec_id() == id
                &&& x.spec_checksum() == checksum
                &&& x.spec_format() == format
                &&& x.spec_size() == size
                &&& x.spec_duration() == None::<MediaTimestamp>
                &&& x.spec_kind() == kind
                &&& x.spec_files() == Seq::<Uuid7>::empty()
                &&& x.spec_video() == None::<Uuid7>
                &&& x.spec_audio() == None::<Uuid7>
                &&& x.spec_subtitle() == None::<Uuid7>
                &&& x.spec_probe_error() == None::<ErrorInfo>
                &&& x.spec_capture_date() == None::<jiff::Timestamp>
                &&& x.spec_device() == None::<mediaframe::capture::Device>
                &&& x.spec_gps() == None::<mediaframe::capture::GeoLocation>
                &&& x.spec_error_flags()@ == 0
            },
    {
        if id.is_nil() {
            return Err(MediaError::NilId);
        }
        if checksum.is_zero() {
            return Err(MediaError::ZeroChecksum);
        }
        Ok(Media {
            id,
            checksum,
            format,
            size,
            duration: None,
            kind,
            files: Vec::new(),
            video: None,
            audio: None,
            subtitle: None,
            error_flags: MediaErrorFlags::empty(),
            probe_error: None,
            capture_date: None,
            device: None,
            gps: None,
        })
    }
}

impl<Id> Media<Id> {
    /// Canonical identity.
    pub fn id(&self) -> (r: &Id)
        ensures
            *r == self.spec_id(),
    {
        &self.id
    }

    /// Content hash.
    pub fn checksum(&self) -> (r: &FileChecksum)
        ensures
            *r == self.spec_checksum(),
    {
        &self.checksum
    }

    /// Container format.
    pub fn format(&self) -> (r: &mediaframe::container::Format)
        ensures
            *r == self.spec_format(),
    {
        &self.format
    }

    /// File size in bytes.
    pub fn size(&self) -> (r: u64)
        ensures
            r == self.spec_size(),
    {
        self.size
    }

    /// Overall media length.
    pub fn duration(&self) -> (r: Option<&MediaTimestamp>)
        ensures
            r is Some <==> self.spec_duration() is Some,
            r matches Some(v) ==> self.spec_duration() == Some(*v),
    {
        match &self.duration {
            Some(v) => Some(v),
            None => None,
        }
    }

    /// Top-level media kind.
    pub fn kind(&self) -> (r: MediaKind)
        ensures
            r == self.spec_kind(),
    {
        self.kind
    }

    /// Reverse lookup → `MediaFile` copies.
    pub fn files(&self) -> (r: &[Id])
        ensures
            r@ == self.spec_files(),
    {
        self.files.as_slice()
    }

    /// FK → `Video` facet.
    pub fn video(&self) -> (r: Option<&Id>)
        ensures
            r is Some <==> self.spec_video() is Some,
            r matches Some(v) ==> self.spec_video() == Some(*v),
    {
        match &self.video {
            Some(v) => Some(v),
            None => None,
        }
    }

    /// FK → `Audio` facet.
    pub fn audio(&self) -> (r: Option<&Id>)
        ensures
            r is Some <==> self.spec_audio() is Some,
            r matches Some(v) ==> self.spec_audio() == Some(*v),
    {
        match &self.audio {
            Some(v) => Some(v),
            None => None,
        }
    }

    /// FK → `Subtitle` facet.
    pub fn subtitle(&self) -> (r: Option<&Id>)
        ensures
            r is Some <==> self.spec_subtitle() is Some,
            r matches Some(v) ==> self.spec_subtitle() == Some(*v),
    {
        match &self.subtitle {
            Some(v) => Some(v),
            None => None,
        }
    }

    /// Per-kind error roll-up.
    pub fn error_flags(&self) -> (r: MediaErrorFlags)
        ensures
            r == self.spec_error_flags(),
    {
        self.error_flags
    }

    /// File-level probe error.
    pub fn probe_error(&self) -> (r: Option<&ErrorInfo>)
        ensures
            r is Some <==> self.spec_probe_error() is Some,
            r matches Some(v) ==> self.spec_probe_error() == Some(*v),
    {
        match &self.probe_error {
            Some(v) => Some(v),
            None => None,
        }
    }

    /// Capture timestamp.
    pub fn capture_date(&self) -> (r: Option<&jiff::Timestamp>)
        ensures
            r is Some <==> self.spec_capture_date() is Some,
            r matches Some(v) ==> self.spec_capture_date() == Some(*v),
    {
        match &self.capture_date {
            Some(v) => Some(v),
            None => None,
        }
    }

    /// Capture device.
    pub fn device(&self) -> (r: Option<&mediaframe::capture::Device>)
        ensures
            r is Some <==> self.spec_device() is Some,
            r matches Some(v) ==> self.spec_device() == Some(*v),
    {
        match &self.device {
            Some(v) => Some(v),
            None => None,
        }
    }

    /// Capture location.
    pub fn gps(&self) -> (r: Option<&mediaframe::capture::GeoLocation>)
        ensures
            r is Some <==> self.spec_gps() is Some,
            r matches Some(v) ==> self.spec_gps() == Some(*v),
    {
        match &self.gps {
            Some(v) => Some(v),
            None => None,
        }
    }

    /// Fallible builder for the overall `duration`: a negative length is
    /// rejected; zero, positive and `None` are accepted.
    pub fn try_with_duration(self, d: Option<MediaTimestamp>) -> (r: Result<Self, MediaError>)
        ensures
            r is Err <==> spec_is_negative_duration(d),
            spec_is_negative_duration(d) <==> r == Err::<Self, MediaError>(MediaError::NegativeDuration),
            r matches Ok(x) ==> x.spec_duration() == d
                && x.spec_id() == self.spec_id()
                && x.spec_checksum() == self.spec_checksum()
                && x.spec_format() == self.spec_format()
                && x.spec_size() == self.spec_size()
                && x.spec_kind() == self.spec_kind()
                && x.spec_files() == self.spec_files()
                && x.spec_video() == self.spec_video()
                && x.spec_audio() == self.spec_audio()
                && x.spec_subtitle() == self.spec_subtitle()
                && x.spec_error_flags() == self.spec_error_flags()
                && x.spec_probe_error() == self.spec_probe_error()
                && x.spec_capture_date() == self.spec_capture_date()
                && x.spec_device() == self.spec_device()
                && x.spec_gps() == self.spec_gps()
                ,
    {
        if is_negative_duration(d) {
            return Err(MediaError::NegativeDuration);
        }
        let mut s = self;
        s.duration = d;
        Ok(s)
    }

    /// Fallible in-place mutator for `duration`; a negative length is
    /// rejected and the prior value kept.
    pub fn try_set_duration(&mut self, d: Option<MediaTimestamp>) -> (r: Result<&mut Self, MediaError>)
        ensures
            spec_is_negative_duration(d) <==> r is Err,
            r matches Err(e) ==> e == MediaError::NegativeDuration && *final(self) == *old(self),
            r matches Ok(x) ==> *final(self) == *final(x) && x.spec_duration() == d
                && x.spec_id() == old(self).spec_id()
                && x.spec_checksum() == old(self).spec_checksum()
                && x.spec_format() == old(self).spec_format()
                && x.spec_size() == old(self).spec_size()
                && x.spec_kind() == old(self).spec_kind()
                && x.spec_files() == old(self).spec_files()
                && x.spec_video() == old(self).spec_video()
                && x.spec_audio() == old(self).spec_audio()
                && x.spec_subtitle() == old(self).spec_subtitle()
                && x.spec_error_flags() == old(self).spec_error_flags()
                && x.spec_probe_error() == old(self).spec_probe_error()
                && x.spec_capture_date() == old(self).spec_capture_date()
                && x.spec_device() == old(self).spec_device()
                && x.spec_gps() == old(self).spec_gps()
                ,
    {
        if is_negative_duration(d) {
            return Err(MediaError::NegativeDuration);
        }
        self.duration = d;
        Ok(self)
    }

    /// Builder: append one `MediaFile` id to the reverse lookup.
    pub fn push_file(self, file: Id) -> (r: Self)
        ensures
            r.spec_files() == self.spec_files().push(file),
            r.spec_id() == self.spec_id(),
            r.spec_checksum() == self.spec_checksum(),
            r.spec_format() == self.spec_format(),
            r.spec_size() == self.spec_size(),
            r.spec_duration() == self.spec_duration(),
            r.spec_kind() == self.spec_kind(),
            r.spec_video() == self.spec_video(),
            r.spec_audio() == self.spec_audio(),
            r.spec_subtitle() == self.spec_subtitle(),
            r.spec_error_flags() == self.spec_error_flags(),
            r.spec_probe_error() == self.spec_probe_error(),
            r.spec_capture_date() == self.spec_capture_date(),
            r.spec_device() == self.spec_device(),
            r.spec_gps() == self.spec_gps(),
    {
        let mut s = self;
        s.files.push(file);
        s
    }

    /// In-place mutator: append one `MediaFile` id to the reverse lookup.
    pub fn add_file(&mut self, file: Id)
        ensures
            final(self).spec_files() == old(self).spec_files().push(file),
            final(self).spec_id() == old(self).spec_id(),
            final(self).spec_checksum() == old(self).spec_checksum(),
            final(self).spec_format() == old(self).spec_format(),
            final(self).spec_size() == old(self).spec_size(),
            final(self).spec_duration() == old(self).spec_duration(),
            final(self).spec_kind() == old(self).spec_kind(),
            final(self).spec_video() == old(self).spec_video(),
            final(self).spec_audio() == old(self).spec_audio(),
            final(self).spec_subtitle() == old(self).spec_subtitle(),
            final(self).spec_error_flags() == old(self).spec_error_flags(),
            final(self).spec_probe_error() == old(self).spec_probe_error(),
            final(self).spec_capture_date() == old(self).spec_capture_date(),
            final(self).spec_device() == old(self).spec_device(),
            final(self).spec_gps() == old(self).spec_gps(),
    {
        self.files.push(file);
    }

    /// Builder: replace `files`.
    pub fn with_files(self, v: Vec<Id>) -> (r: Self)
        ensures
            r.spec_files() == v@,
            r.spec_id() == self.spec_id(),
            r.spec_checksum() == self.spec_checksum(),
            r.spec_format() == self.spec_format(),
            r.spec_size() == self.spec_size(),
            r.spec_duration() == self.spec_duration(),
            r.spec_kind() == self.spec_kind(),
            r.spec_video() == self.spec_video(),
            r.spec_audio() == self.spec_audio(),
            r.spec_subtitle() == self.spec_subtitle(),
            r.spec_error_flags() == self.spec_error_flags(),
            r.spec_probe_error() == self.spec_probe_error(),
            r.spec_capture_date() == self.spec_capture_date(),
            r.spec_device() == self.spec_device(),
            r.spec_gps() == self.spec_gps(),
    {
        let mut s = self;
        s.files = v;
        s
    }

    /// Builder: replace `video`.
    pub fn with_video(self, v: Option<Id>) -> (r: Self)
        ensures
            r.spec_video() == v,
            r.spec_id() == self.spec_id(),
            r.spec_checksum() == self.spec_checksum(),
            r.spec_format() == self.spec_format(),
            r.spec_size() == self.spec_size(),
            r.spec_duration() == self.spec_duration(),
            r.spec_kind() == self.spec_kind(),
            r.spec_files() == self.spec_files(),
            r.spec_audio() == self.spec_audio(),
            r.spec_subtitle() == self.spec_subtitle(),
            r.spec_error_flags() == self.spec_error_flags(),
            r.spec_probe_error() == self.spec_probe_error(),
            r.spec_capture_date() == self.spec_capture_date(),
            r.spec_device() == self.spec_device(),
            r.spec_gps() == self.spec_gps(),
    {
        let mut s = self;
        s.video = v;
        s
    }

    /// Builder: replace `audio`.
    pub fn with_audio(self, v: Option<Id>) -> (r: Self)
        ensures
            r.spec_audio() == v,
            r.spec_id() == self.spec_id(),
            r.spec_checksum() == self.spec_checksum(),
            r.spec_format() == self.spec_format(),
            r.spec_size() == self.spec_size(),
            r.spec_duration() == self.spec_duration(),
            r.spec_kind() == self.spec_kind(),
            r.spec_files() == self.spec_files(),
            r.spec_video() == self.spec_video(),
            r.spec_subtitle() == self.spec_subtitle(),
            r.spec_error_flags() == self.spec_error_flags(),
            r.spec_probe_error() == self.spec_probe_error(),
            r.spec_capture_date() == self.spec_capture_date(),
            r.spec_device() == self.spec_device(),
            r.spec_gps() == self.spec_gps(),
    {
        let mut s = self;
        s.audio = v;
        s
    }

    /// Builder: replace `subtitle`.
    pub fn with_subtitle(self, v: Option<Id>) -> (r: Self)
        ensures
            r.spec_subtitle() == v,
            r.spec_id() == self.spec_id(),
            r.spec_checksum() == self.spec_checksum(),
            r.spec_format() == self.spec_format(),
            r.spec_size() == self.spec_size(),
            r.spec_duration() == self.spec_duration(),
            r.spec_kind() == self.spec_kind(),
            r.spec_files() == self.spec_files(),
            r.spec_video() == self.spec_video(),
            r.spec_audio() == self.spec_audio(),
            r.spec_error_flags() == self.spec_error_flags(),
            r.spec_probe_error() == self.spec_probe_error(),
            r.spec_capture_date() == self.spec_capture_date(),
            r.spec_device() == self.spec_device(),
            r.spec_gps() == self.spec_gps(),
    {
        let mut s = self;
        s.subtitle = v;
        s
    }

    /// Builder: replace `error_flags`.
    pub fn with_error_flags(self, v: MediaErrorFlags) -> (r: Self)
        ensures
            r.spec_error_flags() == v,
            r.spec_id() == self.spec_id(),
            r.spec_checksum() == self.spec_checksum(),
            r.spec_format() == self.spec_format(),
            r.spec_size() == self.spec_size(),
            r.spec_duration() == self.spec_duration(),
            r.spec_kind() == self.spec_kind(),
            r.spec_files() == self.spec_files(),
            r.spec_video() == self.spec_video(),
            r.spec_audio() == self.spec_audio(),
            r.spec_subtitle() == self.spec_subtitle(),
            r.spec_probe_error() == self.spec_probe_error(),
            r.spec_capture_date() == self.spec_capture_date(),
            r.spec_device() == self.spec_device(),
            r.spec_gps() == self.spec_gps(),
    {
        let mut s = self;
        s.error_flags = v;
        s
    }

    /// Builder: replace `probe_error`.
    pub fn with_probe_error(self, v: Option<ErrorInfo>) -> (r: Self)
        ensures
            r.spec_probe_error() == v,
            r.spec_id() == self.spec_id(),
            r.spec_checksum() == self.spec_checksum(),
            r.spec_format() == self.spec_format(),
            r.spec_size() == self.spec_size(),
            r.spec_duration() == self.spec_duration(),
            r.spec_kind() == self.spec_kind(),
            r.spec_files() == self.spec_files(),
            r.spec_video() == self.spec_video(),
            r.spec_audio() == self.spec_audio(),
            r.spec_subtitle() == self.spec_subtitle(),
            r.spec_error_flags() == self.spec_error_flags(),
            r.spec_capture_date() == self.spec_capture_date(),
            r.spec_device() == self.spec_device(),
            r.spec_gps() == self.spec_gps(),
    {
        let mut s = self;
        s.probe_error = v;
        s
    }

    /// Builder: replace `capture_date`.
    pub fn with_capture_date(self, v: Option<jiff::Timestamp>) -> (r: Self)
        ensures
            r.spec_capture_date() == v,
            r.spec_id() == self.spec_id(),
            r.spec_checksum() == self.spec_checksum(),
            r.spec_format() == self.spec_format(),
            r.spec_size() == self.spec_size(),
            r.spec_duration() == self.spec_duration(),
            r.spec_kind() == self.spec_kind(),
            r.spec_files() == self.spec_files(),
            r.spec_video() == self.spec_video(),
            r.spec_audio() == self.spec_audio(),
            r.spec_subtitle() == self.spec_subtitle(),
            r.spec_error_flags() == self.spec_error_flags(),
            r.spec_probe_error() == self.spec_probe_error(),
            r.spec_device() == self.spec_device(),
            r.spec_gps() == self.spec_gps(),
    {
        let mut s = self;
        s.capture_date = v;
        s
    }

    /// Builder: replace `device`.
    pub fn with_device(self, v: Option<mediaframe::capture::Device>) -> (r: Self)
        ensures
            r.spec_device() == v,
            r.spec_id() == self.spec_id(),
            r.spec_checksum() == self.spec_checksum(),
            r.spec_format() == self.spec_format(),
            r.spec_size() == self.spec_size(),
            r.spec_duration() == self.spec_duration(),
            r.spec_kind() == self.spec_kind(),
            r.spec_files() == self.spec_files(),
            r.spec_video() == self.spec_video(),
            r.spec_audio() == self.spec_audio(),
            r.spec_subtitle() == self.spec_subtitle(),
            r.spec_error_flags() == self.spec_error_flags(),
            r.spec_probe_error() == self.spec_probe_error(),
            r.spec_capture_date() == self.spec_capture_date(),
            r.spec_gps() == self.spec_gps(),
    {
        let mut s = self;
        s.device = v;
        s
    }

    /// Builder: replace `gps`.
    pub fn with_gps(self, v: Option<mediaframe::capture::GeoLocation>) -> (r: Self)
        ensures
            r.spec_gps() == v,
            r.spec_id() == self.spec_id(),
            r.spec_checksum() == self.spec_checksum(),
            r.spec_format() == self.spec_format(),
            r.spec_size() == self.spec_size(),
            r.spec_duration() == self.spec_duration(),
            r.spec_kind() == self.spec_kind(),
            r.spec_files() == self.spec_files(),
            r.spec_video() == self.spec_video(),
            r.spec_audio() == self.spec_audio(),
            r.spec_subtitle() == self.spec_subtitle(),
            r.spec_error_flags() == self.spec_error_flags(),
            r.spec_probe_error() == self.spec_probe_error(),
            r.spec_capture_date() == self.spec_capture_date(),
            r.spec_device() == self.spec_device(),
    {
        let mut s = self;
        s.gps = v;
        s
    }

    /// In-place mutator for `files`.
    pub fn set_files(&mut self, v: Vec<Id>)
        ensures
            final(self).spec_files() == v@,
            final(self).spec_id() == old(self).spec_id(),
            final(self).spec_checksum() == old(self).spec_checksum(),
            final(self).spec_format() == old(self).spec_format(),
            final(self).spec_size() == old(self).spec_size(),
            final(self).spec_duration() == old(self).spec_duration(),
            final(self).spec_kind() == old(self).spec_kind(),
            final(self).spec_video() == old(self).spec_video(),
            final(self).spec_audio() == old(self).spec_audio(),
            final(self).spec_subtitle() == old(self).spec_subtitle(),
            final(self).spec_error_flags() == old(self).spec_error_flags(),
            final(self).spec_probe_error() == old(self).spec_probe_error(),
            final(self).spec_capture_date() == old(self).spec_capture_date(),
            final(self).spec_device() == old(self).spec_device(),
            final(self).spec_gps() == old(self).spec_gps(),
    {
        self.files = v;
    }

    /// In-place mutator for `video`.
    pub fn set_video(&mut self, v: Option<Id>)
        ensures
            final(self).spec_video() == v,
            final(self).spec_id() == old(self).spec_id(),
            final(self).spec_checksum() == old(self).spec_checksum(),
            final(self).spec_format() == old(self).spec_format(),
            final(self).spec_size() == old(self).spec_size(),
            final(self).spec_duration() == old(self).spec_duration(),
            final(self).spec_kind() == old(self).spec_kind(),
            final(self).spec_files() == old(self).spec_files(),
            final(self).spec_audio() == old(self).spec_audio(),
            final(self).spec_subtitle() == old(self).spec_subtitle(),
            final(self).spec_error_flags() == old(self).spec_error_flags(),
            final(self).spec_probe_error() == old(self).spec_probe_error(),
            final(self).spec_capture_date() == old(self).spec_capture_date(),
            final(self).spec_device() == old(self).spec_device(),
            final(self).spec_gps() == old(self).spec_gps(),
    {
        self.video = v;
    }

    /// In-place mutator for `audio`.
    pub fn set_audio(&mut self, v: Option<Id>)
        ensures
            final(self).spec_audio() == v,
            final(self).spec_id() == old(self).spec_id(),
            final(self).spec_checksum() == old(self).spec_checksum(),
            final(self).spec_format() == old(self).spec_format(),
            final(self).spec_size() == old(self).spec_size(),
            final(self).spec_duration() == old(self).spec_duration(),
            final(self).spec_kind() == old(self).spec_kind(),
            final(self).spec_files() == old(self).spec_files(),
            final(self).spec_video() == old(self).spec_video(),
            final(self).spec_subtitle() == old(self).spec_subtitle(),
            final(self).spec_error_flags() == old(self).spec_error_flags(),
            final(self).spec_probe_error() == old(self).spec_probe_error(),
            final(self).spec_capture_date() == old(self).spec_capture_date(),
            final(self).spec_device() == old(self).spec_device(),
            final(self).spec_gps() == old(self).spec_gps(),
    {
        self.audio = v;
    }

    /// In-place mutator for `subtitle`.
    pub fn set_subtitle(&mut self, v: Option<Id>)
        ensures
            final(self).spec_subtitle() == v,
            final(self).spec_id() == old(self).spec_id(),
            final(self).spec_checksum() == old(self).spec_checksum(),
            final(self).spec_format() == old(self).spec_format(),
            final(self).spec_size() == old(self).spec_size(),
            final(self).spec_duration() == old(self).spec_duration(),
            final(self).spec_kind() == old(self).spec_kind(),
            final(self).spec_files() == old(self).spec_files(),
            final(self).spec_video() == old(self).spec_video(),
            final(self).spec_audio() == old(self).spec_audio(),
            final(self).spec_error_flags() == old(self).spec_error_flags(),
            final(self).spec_probe_error() == old(self).spec_probe_error(),
            final(self).spec_capture_date() == old(self).spec_capture_date(),
            final(self).spec_device() == old(self).spec_device(),
            final(self).spec_gps() == old(self).spec_gps(),
    {
        self.subtitle = v;
    }

    /// In-place mutator for `error_flags`.
    pub fn set_error_flags(&mut self, v: MediaErrorFlags)
        ensures
            final(self).spec_error_flags() == v,
            final(self).spec_id() == old(self).spec_id(),
            final(self).spec_checksum() == old(self).spec_checksum(),
            final(self).spec_format() == old(self).spec_format(),
            final(self).spec_size() == old(self).spec_size(),
            final(self).spec_duration() == old(self).spec_duration(),
            final(self).spec_kind() == old(self).spec_kind(),
            final(self).spec_files() == old(self).spec_files(),
            final(self).spec_video() == old(self).spec_video(),
            final(self).spec_audio() == old(self).spec_audio(),
            final(self).spec_subtitle() == old(self).spec_subtitle(),
            final(self).spec_probe_error() == old(self).spec_probe_error(),
            final(self).spec_capture_date() == old(self).spec_capture_date(),
            final(self).spec_device() == old(self).spec_device(),
            final(self).spec_gps() == old(self).spec_gps(),
    {
        self.error_flags = v;
    }

    /// In-place mutator for `probe_error`.
    pub fn set_probe_error(&mut self, v: Option<ErrorInfo>)
        ensures
            final(self).spec_probe_error() == v,
            final(self).spec_id() == old(self).spec_id(),
            final(self).spec_checksum() == old(self).spec_checksum(),
            final(self).spec_format() == old(self).spec_format(),
            final(self).spec_size() == old(self).spec_size(),
            final(self).spec_duration() == old(self).spec_duration(),
            final(self).spec_kind() == old(self).spec_kind(),
            final(self).spec_files() == old(self).spec_files(),
            final(self).spec_video() == old(self).spec_video(),
            final(self).spec_audio() == old(self).spec_audio(),
            final(self).spec_subtitle() == old(self).spec_subtitle(),
            final(self).spec_error_flags() == old(self).spec_error_flags(),
            final(self).spec_capture_date() == old(self).spec_capture_date(),
            final(self).spec_device() == old(self).spec_device(),
            final(self).spec_gps() == old(self).spec_gps(),
    {
        self.probe_error = v;
    }

    /// In-place mutator for `capture_date`.
    pub fn set_capture_date(&mut self, v: Option<jiff::Timestamp>)
        ensures
            final(self).spec_capture_date() == v,
            final(self).spec_id() == old(self).spec_id(),
            final(self).spec_checksum() == old(self).spec_checksum(),
            final(self).spec_format() == old(self).spec_format(),
            final(self).spec_size() == old(self).spec_size(),
            final(self).spec_duration() == old(self).spec_duration(),
            final(self).spec_kind() == old(self).spec_kind(),
            final(self).spec_files() == old(self).spec_files(),
            final(self).spec_video() == old(self).spec_video(),
            final(self).spec_audio() == old(self).spec_audio(),
            final(self).spec_subtitle() == old(self).spec_subtitle(),
            final(self).spec_error_flags() == old(self).spec_error_flags(),
            final(self).spec_probe_error() == old(self).spec_probe_error(),
            final(self).spec_device() == old(self).spec_device(),
            final(self).spec_gps() == old(self).spec_gps(),
    {
        self.capture_date = v;
    }

    /// In-place mutator for `device`.
    pub fn set_device(&mut self, v: Option<mediaframe::capture::Device>)
        ensures
            final(self).spec_device() == v,
            final(self).spec_id() == old(self).spec_id(),
            final(self).spec_checksum() == old(self).spec_checksum(),
            final(self).spec_format() == old(self).spec_format(),
            final(self).spec_size() == old(self).spec_size(),
            final(self).spec_duration() == old(self).spec_duration(),
            final(self).spec_kind() == old(self).spec_kind(),
            final(self).spec_files() == old(self).spec_files(),
            final(self).spec_video() == old(self).spec_video(),
            final(self).spec_audio() == old(self).spec_audio(),
            final(self).spec_subtitle() == old(self).spec_subtitle(),
            final(self).spec_error_flags() == old(self).spec_error_flags(),
            final(self).spec_probe_error() == old(self).spec_probe_error(),
            final(self).spec_capture_date() == old(self).spec_capture_date(),
            final(self).spec_gps() == old(self).spec_gps(),
    {
        self.device = v;
    }

    /// In-place mutator for `gps`.
    pub fn set_gps(&mut self, v: Option<mediaframe::capture::GeoLocation>)
        ensures
            final(self).spec_gps() == v,
            final(self).spec_id() == old(self).spec_id(),
            final(self).spec_checksum() == old(self).spec_checksum(),
            final(self).spec_format() == old(self).spec_format(),
            final(self).spec_size() == old(self).spec_size(),
            final(self).spec_duration() == old(self).spec_duration(),
            final(self).spec_kind() == old(self).spec_kind(),
            final(self).spec_files() == old(self).spec_files(),
            final(self).spec_video() == old(self).spec_video(),
            final(self).spec_audio() == old(self).spec_audio(),
            final(self).spec_subtitle() == old(self).spec_subtitle(),
            final(self).spec_error_flags() == old(self).spec_error_flags(),
            final(self).spec_probe_error() == old(self).spec_probe_error(),
            final(self).spec_capture_date() == old(self).spec_capture_date(),
            final(self).spec_device() == old(self).spec_device(),
    {
        self.gps = v;
    }
}

} // verus!
