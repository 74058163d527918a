//! `DataTrack` — one timed-metadata stream (`codec_type=data`) of a `Data`
//! facet: presence, a stream descriptor and container metadata only.
use vstd::prelude::*;

use mediaframe::disposition::TrackDisposition;

use crate::errors::ErrorInfo;
use crate::flags::DataIndexStatus;
use crate::metadata::{disposition_bits, disposition_none, metadata_entries, metadata_new, MetadataMap};
use crate::primitives::{is_nil_bytes, Uuid7};
use crate::time::{is_negative_duration, spec_is_negative_duration, MediaTimestamp};

verus! {

/// Error returned by [`DataTrack::try_new`] and its duration mutators.
#[derive(Debug, Clone, Copy, PartialEq, Eq, Hash, Structural)]
#[non_exhaustive]
pub enum DataTrackError {
    /// `id` was the nil sentinel.
    NilId,
    /// `data_id` was the nil sentinel (orphan track with no `Data` facet).
    NilDataId,
    /// a present `duration` was negative.
    NegativeDuration,
}

/// The message of each [`DataTrackError`].
pub open spec fn data_track_error_message(e: DataTrackError) -> Seq<char> {
    match e {
        DataTrackError::NilId => "DataTrack id must not be the nil UUID"@,
        DataTrackError::NilDataId => "DataTrack `data_id` (FK → Data) must not be the nil UUID"@,
        DataTrackError::NegativeDuration => "DataTrack duration must not be negative"@,
    }
}

impl DataTrackError {
    /// True iff this is `DataTrackError::NilId`.
    pub fn is_nil_id(&self) -> (r: bool)
        ensures
            r == (*self is NilId),
    {
        match self {
            DataTrackError::NilId => true,
            #[allow(unreachable_patterns)]
            _ => false,
        }
    }

    /// True iff this is `DataTrackError::NilDataId`.
    pub fn is_nil_data_id(&self) -> (r: bool)
        ensures
            r == (*self is NilDataId),
    {
        match self {
            DataTrackError::NilDataId => true,
            #[allow(unreachable_patterns)]
            _ => false,
        }
    }

    /// True iff this is `DataTrackError::NegativeDuration`.
    pub fn is_negative_duration(&self) -> (r: bool)
        ensures
            r == (*self is NegativeDuration),
    {
        match self {
            DataTrackError::NegativeDuration => true,
            #[allow(unreachable_patterns)]
            _ => false,
        }
    }

    /// Human-readable description.
    pub fn message(&self) -> (r: String)
        ensures
            r@ == data_track_error_message(*self),
    {
        match self {
            DataTrackError::NilId => {
                proof {
                    reveal_strlit("DataTrack id must not be the nil UUID");
                }
                "DataTrack id must not be the nil UUID".to_owned()
            },
            DataTrackError::NilDataId => {
                proof {
                    reveal_strlit("DataTrack `data_id` (FK → Data) must not be the nil UUID");
                }
                "DataTrack `data_id` (FK → Data) must not be the nil UUID".to_owned()
            },
            DataTrackError::NegativeDuration => {
                proof {
                    reveal_strlit("DataTrack duration must not be negative");
                }
                "DataTrack duration must not be negative".to_owned()
            },
        }
    }
}

/// One timed-metadata stream of a `Data` facet (`data_id → Data.id`):
/// presence, a codec / stream descriptor and the container metadata.
#[derive(Debug, Clone, PartialEq, Eq)]
pub struct DataTrack<Id = Uuid7> {
    id: Id,
    /// FK → `Data.id`.
    data_id: Id,
    /// Source stream index (container locator, not identity).
    stream_index: Option<u32>,
    /// Container-specific track id.
    container_track_id: Option<u64>,
    /// Codec slug (`""` = unknown).
    codec: String,
    /// FourCC / handler tag (`""` = absent).
    codec_tag: String,
    /// First-PTS offset.
    start_pts: Option<MediaTimestamp>,
    /// Track duration; never negative.
    duration: Option<MediaTimestamp>,
    /// Packet count.
    nb_packets: Option<u64>,
    /// Total stream byte size (`0` = unknown).
    byte_size: u64,
    /// `AV_DISPOSITION_*` flags.
    disposition: TrackDisposition,
    /// Container metadata entries, in insertion order.
    metadata: MetadataMap,
    /// Indexing state.
    index_status: DataIndexStatus,
    /// Per-track index errors.
    index_errors: Vec<ErrorInfo>,
}

impl<Id> DataTrack<Id> {
    /// Stored `id`.
    pub closed spec fn spec_id(self) -> Id {
        self.id
    }

    /// Stored `data_id`.
    pub closed spec fn spec_data_id(self) -> Id {
        self.data_id
    }

    /// Stored `stream_index`.
    pub closed spec fn spec_stream_index(self) -> Option<u32> {
        self.stream_index
    }

    /// Stored `container_track_id`.
    pub closed spec fn spec_container_track_id(self) -> Option<u64> {
        self.container_track_id
    }

    /// Stored `codec`.
    pub closed spec fn spec_codec(self) -> Seq<char> {
        self.codec@
    }

    /// Stored `codec_tag`.
    pub closed spec fn spec_codec_tag(self) -> Seq<char> {
        self.codec_tag@
    }

    /// Stored `start_pts`.
    pub closed spec fn spec_start_pts(self) -> Option<MediaTimestamp> {
        self.start_pts
    }

    /// Stored `duration`.
    pub closed spec fn spec_duration(self) -> Option<MediaTimestamp> {
        self.duration
    }

    /// Stored `nb_packets`.
    pub closed spec fn spec_nb_packets(self) -> Option<u64> {
        self.nb_packets
    }

    /// Stored `byte_size`.
    pub closed spec fn spec_byte_size(self) -> u64 {
        self.byte_size
    }

    /// Stored `disposition`.
    pub closed spec fn spec_disposition(self) -> TrackDisposition {
        self.disposition
    }

    /// Stored `metadata`.
    pub closed spec fn spec_metadata(self) -> MetadataMap {
        self.metadata
    }

    /// Stored `index_status`.
    pub closed spec fn spec_index_status(self) -> DataIndexStatus {
        self.index_status
    }

    /// Stored `index_errors`.
    pub closed spec fn spec_index_errors(self) -> Seq<ErrorInfo> {
        self.index_errors@
    }

}

impl DataTrack<Uuid7> {
    /// Validating constructor: rejects a nil `id` (checked first) and a nil
    /// `data_id`; every descriptive field starts in its neutral state (empty
    /// strings, `None`, `0`, no disposition flag, no metadata, no status bit, no
    /// error).
    pub fn try_new(id: Uuid7, data_id: Uuid7) -> (r: Result<Self, DataTrackError>)
        ensures
            (is_nil_bytes(id@)) <==> r == Err::<Self, DataTrackError>(DataTrackError::NilId),
            (!is_nil_bytes(id@) && is_nil_bytes(data_id@)) <==> r == Err::<Self, DataTrackError>(DataTrackError::NilDataId),
            r is Ok <==> (!is_nil_bytes(id@) && !is_nil_bytes(data_id@)),
            r matches Ok(x) ==> x.spec_id() == id,
            r matches Ok(x) ==> x.spec_data_id() == data_id,
            r matches Ok(x) ==> x.spec_stream_index() == None::<u32>,
            r matches Ok(x) ==> x.spec_container_track_id() == None::<u64>,
            r matches Ok(x) ==> x.spec_codec() == Seq::<char>::empty(),
            r matches Ok(x) ==> x.spec_codec_tag() == Seq::<char>::empty(),
            r matches Ok(x) ==> x.spec_start_pts() == None::<MediaTimestamp>,
            r matches Ok(x) ==> x.spec_duration() == None::<MediaTimestamp>,
            r matches Ok(x) ==> x.spec_nb_packets() == None::<u64>,
            r matches Ok(x) ==> x.spec_byte_size() == 0,
            r matches Ok(x) ==> disposition_bits(x.spec_disposition()) == 0,
            r matches Ok(x) ==> metadata_entries(x.spec_metadata()) == Seq::<(Seq<char>, Seq<char>)>::empty(),
            r matches Ok(x) ==> x.spec_index_status()@ == 0,
            r matches Ok(x) ==> x.spec_index_errors() == Seq::<ErrorInfo>::empty(),
    {
        if id.is_nil() {
            return Err(DataTrackError::NilId);
        }
        if data_id.is_nil() {
            return Err(DataTrackError::NilDataId);
        }
        Ok(DataTrack {
            id: id,
            data_id: data_id,
            stream_index: None,
            container_track_id: None,
            codec: String::new(),
            codec_tag: String::new(),
            start_pts: None,
            duration: None,
            nb_packets: None,
            byte_size: 0,
            disposition: disposition_none(),
            metadata: metadata_new(),
            index_status: DataIndexStatus::empty(),
            index_errors: Vec::new(),
        })
    }
}

impl<Id> DataTrack<Id> {
    /// Canonical identity.
    pub fn id_ref(&self) -> (r: &Id)
        ensures
            *r == self.spec_id(),
    {
        &self.id
    }

    /// FK → `Data.id`.
    pub fn data_id_ref(&self) -> (r: &Id)
        ensures
            *r == self.spec_data_id(),
    {
        &self.data_id
    }

    /// Source stream index.
    pub fn stream_index(&self) -> (r: Option<u32>)
        ensures
            r == self.spec_stream_index(),
    {
        self.stream_index
    }

    /// Container-specific track id.
    pub fn container_track_id(&self) -> (r: Option<u64>)
        ensures
            r == self.spec_container_track_id(),
    {
        self.container_track_id
    }

    /// Codec slug (`""` = unknown).
    pub fn codec(&self) -> (r: &str)
        ensures
            r@ == self.spec_codec(),
    {
        self.codec.as_str()
    }

    /// FourCC / handler tag (`""` = absent).
    pub fn codec_tag(&self) -> (r: &str)
        ensures
            r@ == self.spec_codec_tag(),
    {
        self.codec_tag.as_str()
    }

    /// First-PTS offset (`None` = absent).
    pub fn start_pts_ref(&self) -> (r: Option<&MediaTimestamp>)
        ensures
            r is Some <==> self.spec_start_pts() is Some,
            r matches Some(v) ==> self.spec_start_pts() == Some(*v),
    {
        match &self.start_pts {
            Some(v) => Some(v),
            None => None,
        }
    }

    /// Track duration (never negative).
    pub fn duration_ref(&self) -> (r: Option<&MediaTimestamp>)
        ensures
            r is Some <==> self.spec_duration() is Some,
            r matches Some(v) ==> self.spec_duration() == Some(*v),
    {
        match &self.duration {
            Some(v) => Some(v),
            None => None,
        }
    }

    /// Packet count (`None` = unknown).
    pub fn nb_packets(&self) -> (r: Option<u64>)
        ensures
            r == self.spec_nb_packets(),
    {
        self.nb_packets
    }

    /// Total stream byte size (`0` = unknown).
    pub fn byte_size(&self) -> (r: u64)
        ensures
            r == self.spec_byte_size(),
    {
        self.byte_size
    }

    /// Disposition flags.
    pub fn disposition(&self) -> (r: TrackDisposition)
        ensures
            r == self.spec_disposition(),
    {
        self.disposition
    }

    /// Container metadata entries, in insertion order.
    pub fn metadata_ref(&self) -> (r: &MetadataMap)
        ensures
            *r == self.spec_metadata(),
    {
        &self.metadata
    }

    /// Indexing state.
    pub fn index_status(&self) -> (r: DataIndexStatus)
        ensures
            r == self.spec_index_status(),
    {
        self.index_status
    }

    /// Per-track index errors.
    pub fn index_errors_slice(&self) -> (r: &[ErrorInfo])
        ensures
            r@ == self.spec_index_errors(),
    {
        self.index_errors.as_slice()
    }

    /// Builder: replace `stream_index`.
    pub fn with_stream_index(self, v: Option<u32>) -> (r: Self)
        ensures
            r.spec_stream_index() == v,
            r.spec_id() == self.spec_id(),
            r.spec_data_id() == self.spec_data_id(),
            r.spec_container_track_id() == self.spec_container_track_id(),
            r.spec_codec() == self.spec_codec(),
            r.spec_codec_tag() == self.spec_codec_tag(),
            r.spec_start_pts() == self.spec_start_pts(),
            r.spec_duration() == self.spec_duration(),
            r.spec_nb_packets() == self.spec_nb_packets(),
            r.spec_byte_size() == self.spec_byte_size(),
            r.spec_disposition() == self.spec_disposition(),
            r.spec_metadata() == self.spec_metadata(),
            r.spec_index_status() == self.spec_index_status(),
            r.spec_index_errors() == self.spec_index_errors(),
    {
        let mut s = self;
        s.stream_index = v;
        s
    }

    /// Builder: replace `container_track_id`.
    pub fn with_container_track_id(self, v: Option<u64>) -> (r: Self)
        ensures
            r.spec_container_track_id() == v,
            r.spec_id() == self.spec_id(),
            r.spec_data_id() == self.spec_data_id(),
            r.spec_stream_index() == self.spec_stream_index(),
            r.spec_codec() == self.spec_codec(),
            r.spec_codec_tag() == self.spec_codec_tag(),
            r.spec_start_pts() == self.spec_start_pts(),
            r.spec_duration() == self.spec_duration(),
            r.spec_nb_packets() == self.spec_nb_packets(),
            r.spec_byte_size() == self.spec_byte_size(),
            r.spec_disposition() == self.spec_disposition(),
            r.spec_metadata() == self.spec_metadata(),
            r.spec_index_status() == self.spec_index_status(),
            r.spec_index_errors() == self.spec_index_errors(),
    {
        let mut s = self;
        s.container_track_id = v;
        s
    }

    /// Builder: replace `codec`.
    pub fn with_codec(self, v: &str) -> (r: Self)
        ensures
            r.spec_codec() == v@,
            r.spec_id() == self.spec_id(),
            r.spec_data_id() == self.spec_data_id(),
            r.spec_stream_index() == self.spec_stream_index(),
            r.spec_container_track_id() == self.spec_container_track_id(),
            r.spec_codec_tag() == self.spec_codec_tag(),
            r.spec_start_pts() == self.spec_start_pts(),
            r.spec_duration() == self.spec_duration(),
            r.spec_nb_packets() == self.spec_nb_packets(),
            r.spec_byte_size() == self.spec_byte_size(),
            r.spec_disposition() == self.spec_disposition(),
            r.spec_metadata() == self.spec_metadata(),
            r.spec_index_status() == self.spec_index_status(),
            r.spec_index_errors() == self.spec_index_errors(),
    {
        let mut s = self;
        s.codec = v.to_owned();
        s
    }

    /// Builder: replace `codec_tag`.
    pub fn with_codec_tag(self, v: &str) -> (r: Self)
        ensures
            r.spec_codec_tag() == v@,
            r.spec_id() == self.spec_id(),
            r.spec_data_id() == self.spec_data_id(),
            r.spec_stream_index() == self.spec_stream_index(),
            r.spec_container_track_id() == self.spec_container_track_id(),
            r.spec_codec() == self.spec_codec(),
            r.spec_start_pts() == self.spec_start_pts(),
            r.spec_duration() == self.spec_duration(),
            r.spec_nb_packets() == self.spec_nb_packets(),
            r.spec_byte_size() == self.spec_byte_size(),
            r.spec_disposition() == self.spec_disposition(),
            r.spec_metadata() == self.spec_metadata(),
            r.spec_index_status() == self.spec_index_status(),
            r.spec_index_errors() == self.spec_index_errors(),
    {
        let mut s = self;
        s.codec_tag = v.to_owned();
        s
    }

    /// Builder: replace `start_pts` (a negative offset is legitimate).
    pub fn with_start_pts(self, v: Option<MediaTimestamp>) -> (r: Self)
        ensures
            r.spec_start_pts() == v,
            r.spec_id() == self.spec_id(),
            r.spec_data_id() == self.spec_data_id(),
            r.spec_stream_index() == self.spec_stream_index(),
            r.spec_container_track_id() == self.spec_container_track_id(),
            r.spec_codec() == self.spec_codec(),
            r.spec_codec_tag() == self.spec_codec_tag(),
            r.spec_duration() == self.spec_duration(),
            r.spec_nb_packets() == self.spec_nb_packets(),
            r.spec_byte_size() == self.spec_byte_size(),
            r.spec_disposition() == self.spec_disposition(),
            r.spec_metadata() == self.spec_metadata(),
            r.spec_index_status() == self.spec_index_status(),
            r.spec_index_errors() == self.spec_index_errors(),
    {
        let mut s = self;
        s.start_pts = v;
        s
    }

    /// Validating builder: replace `duration`; a present negative duration is
    /// rejected.
    pub fn try_with_duration(self, v: Option<MediaTimestamp>) -> (r: Result<Self, DataTrackError>)
        ensures
            r is Err <==> spec_is_negative_duration(v),
            spec_is_negative_duration(v) <==> r == Err::<Self, DataTrackError>(DataTrackError::NegativeDuration),
            r matches Ok(x) ==> x.spec_duration() == v
                && x.spec_id() == self.spec_id()
                && x.spec_data_id() == self.spec_data_id()
                && x.spec_stream_index() == self.spec_stream_index()
                && x.spec_container_track_id() == self.spec_container_track_id()
                && x.spec_codec() == self.spec_codec()
                && x.spec_codec_tag() == self.spec_codec_tag()
                && x.spec_start_pts() == self.spec_start_pts()
                && x.spec_nb_packets() == self.spec_nb_packets()
                && x.spec_byte_size() == self.spec_byte_size()
                && x.spec_disposition() == self.spec_disposition()
                && x.spec_metadata() == self.spec_metadata()
                && x.spec_index_status() == self.spec_index_status()
                && x.spec_index_errors() == self.spec_index_errors()
                ,
    {
        if is_negative_duration(v) {
            return Err(DataTrackError::NegativeDuration);
        }
        let mut s = self;
        s.duration = v;
        Ok(s)
    }

    /// Builder: replace `nb_packets`.
    pub fn with_nb_packets(self, v: Option<u64>) -> (r: Self)
        ensures
            r.spec_nb_packets() == v,
            r.spec_id() == self.spec_id(),
            r.spec_data_id() == self.spec_data_id(),
            r.spec_stream_index() == self.spec_stream_index(),
            r.spec_container_track_id() == self.spec_container_track_id(),
            r.spec_codec() == self.spec_codec(),
            r.spec_codec_tag() == self.spec_codec_tag(),
            r.spec_start_pts() == self.spec_start_pts(),
            r.spec_duration() == self.spec_duration(),
            r.spec_byte_size() == self.spec_byte_size(),
            r.spec_disposition() == self.spec_disposition(),
            r.spec_metadata() == self.spec_metadata(),
            r.spec_index_status() == self.spec_index_status(),
            r.spec_index_errors() == self.spec_index_errors(),
    {
        let mut s = self;
        s.nb_packets = v;
        s
    }

    /// Builder: replace `byte_size`.
    pub fn with_byte_size(self, v: u64) -> (r: Self)
        ensures
            r.spec_byte_size() == v,
            r.spec_id() == self.spec_id(),
            r.spec_data_id() == self.spec_data_id(),
            r.spec_stream_index() == self.spec_stream_index(),
            r.spec_container_track_id() == self.spec_container_track_id(),
            r.spec_codec() == self.spec_codec(),
            r.spec_codec_tag() == self.spec_codec_tag(),
            r.spec_start_pts() == self.spec_start_pts(),
            r.spec_duration() == self.spec_duration(),
            r.spec_nb_packets() == self.spec_nb_packets(),
            r.spec_disposition() == self.spec_disposition(),
            r.spec_metadata() == self.spec_metadata(),
            r.spec_index_status() == self.spec_index_status(),
            r.spec_index_errors() == self.spec_index_errors(),
    {
        let mut s = self;
        s.byte_size = v;
        s
    }

    /// Builder: replace the disposition flags.
    pub fn with_disposition(self, v: TrackDisposition) -> (r: Self)
        ensures
            r.spec_disposition() == v,
            r.spec_id() == self.spec_id(),
            r.spec_data_id() == self.spec_data_id(),
            r.spec_stream_index() == self.spec_stream_index(),
            r.spec_container_track_id() == self.spec_container_track_id(),
            r.spec_codec() == self.spec_codec(),
            r.spec_codec_tag() == self.spec_codec_tag(),
            r.spec_start_pts() == self.spec_start_pts(),
            r.spec_duration() == self.spec_duration(),
            r.spec_nb_packets() == self.spec_nb_packets(),
            r.spec_byte_size() == self.spec_byte_size(),
            r.spec_metadata() == self.spec_metadata(),
            r.spec_index_status() == self.spec_index_status(),
            r.spec_index_errors() == self.spec_index_errors(),
    {
        let mut s = self;
        s.disposition = v;
        s
    }

    /// Builder: replace the metadata bag.
    pub fn with_metadata(self, v: MetadataMap) -> (r: Self)
        ensures
            r.spec_metadata() == v,
            r.spec_id() == self.spec_id(),
            r.spec_data_id() == self.spec_data_id(),
            r.spec_stream_index() == self.spec_stream_index(),
            r.spec_container_track_id() == self.spec_container_track_id(),
            r.spec_codec() == self.spec_codec(),
            r.spec_codec_tag() == self.spec_codec_tag(),
            r.spec_start_pts() == self.spec_start_pts(),
            r.spec_duration() == self.spec_duration(),
            r.spec_nb_packets() == self.spec_nb_packets(),
            r.spec_byte_size() == self.spec_byte_size(),
            r.spec_disposition() == self.spec_disposition(),
            r.spec_index_status() == self.spec_index_status(),
            r.spec_index_errors() == self.spec_index_errors(),
    {
        let mut s = self;
        s.metadata = v;
        s
    }

    /// Builder: replace `index_status`.
    pub fn with_index_status(self, v: DataIndexStatus) -> (r: Self)
        ensures
            r.spec_index_status() == v,
            r.spec_id() == self.spec_id(),
            r.spec_data_id() == self.spec_data_id(),
            r.spec_stream_index() == self.spec_stream_index(),
            r.spec_container_track_id() == self.spec_container_track_id(),
            r.spec_codec() == self.spec_codec(),
            r.spec_codec_tag() == self.spec_codec_tag(),
            r.spec_start_pts() == self.spec_start_pts(),
            r.spec_duration() == self.spec_duration(),
            r.spec_nb_packets() == self.spec_nb_packets(),
            r.spec_byte_size() == self.spec_byte_size(),
            r.spec_disposition() == self.spec_disposition(),
            r.spec_metadata() == self.spec_metadata(),
            r.spec_index_errors() == self.spec_index_errors(),
    {
        let mut s = self;
        s.index_status = v;
        s
    }

    /// Builder: replace `index_errors`.
    pub fn with_index_errors(self, v: Vec<ErrorInfo>) -> (r: Self)
        ensures
            r.spec_index_errors() == v@,
            r.spec_id() == self.spec_id(),
            r.spec_data_id() == self.spec_data_id(),
            r.spec_stream_index() == self.spec_stream_index(),
            r.spec_container_track_id() == self.spec_container_track_id(),
            r.spec_codec() == self.spec_codec(),
            r.spec_codec_tag() == self.spec_codec_tag(),
            r.spec_start_pts() == self.spec_start_pts(),
            r.spec_duration() == self.spec_duration(),
            r.spec_nb_packets() == self.spec_nb_packets(),
            r.spec_byte_size() == self.spec_byte_size(),
            r.spec_disposition() == self.spec_disposition(),
            r.spec_metadata() == self.spec_metadata(),
            r.spec_index_status() == self.spec_index_status(),
    {
        let mut s = self;
        s.index_errors = v;
        s
    }

    /// In-place mutator for `stream_index`.
    pub fn set_stream_index(&mut self, v: Option<u32>) -> (r: &mut Self)
        ensures
            *final(self) == *final(r),
            r.spec_stream_index() == v,
            r.spec_id() == old(self).spec_id(),
            r.spec_data_id() == old(self).spec_data_id(),
            r.spec_container_track_id() == old(self).spec_container_track_id(),
            r.spec_codec() == old(self).spec_codec(),
            r.spec_codec_tag() == old(self).spec_codec_tag(),
            r.spec_start_pts() == old(self).spec_start_pts(),
            r.spec_duration() == old(self).spec_duration(),
            r.spec_nb_packets() == old(self).spec_nb_packets(),
            r.spec_byte_size() == old(self).spec_byte_size(),
            r.spec_disposition() == old(self).spec_disposition(),
            r.spec_metadata() == old(self).spec_metadata(),
            r.spec_index_status() == old(self).spec_index_status(),
            r.spec_index_errors() == old(self).spec_index_errors(),
    {
        self.stream_index = v;
        self
    }

    /// In-place mutator for `container_track_id`.
    pub fn set_container_track_id(&mut self, v: Option<u64>) -> (r: &mut Self)
        ensures
            *final(self) == *final(r),
            r.spec_container_track_id() == v,
            r.spec_id() == old(self).spec_id(),
            r.spec_data_id() == old(self).spec_data_id(),
            r.spec_stream_index() == old(self).spec_stream_index(),
            r.spec_codec() == old(self).spec_codec(),
            r.spec_codec_tag() == old(self).spec_codec_tag(),
            r.spec_start_pts() == old(self).spec_start_pts(),
            r.spec_duration() == old(self).spec_duration(),
            r.spec_nb_packets() == old(self).spec_nb_packets(),
            r.spec_byte_size() == old(self).spec_byte_size(),
            r.spec_disposition() == old(self).spec_disposition(),
            r.spec_metadata() == old(self).spec_metadata(),
            r.spec_index_status() == old(self).spec_index_status(),
            r.spec_index_errors() == old(self).spec_index_errors(),
    {
        self.container_track_id = v;
        self
    }

    /// In-place mutator for `codec`.
    pub fn set_codec(&mut self, v: &str) -> (r: &mut Self)
        ensures
            *final(self) == *final(r),
            r.spec_codec() == v@,
            r.spec_id() == old(self).spec_id(),
            r.spec_data_id() == old(self).spec_data_id(),
            r.spec_stream_index() == old(self).spec_stream_index(),
            r.spec_container_track_id() == old(self).spec_container_track_id(),
            r.spec_codec_tag() == old(self).spec_codec_tag(),
            r.spec_start_pts() == old(self).spec_start_pts(),
            r.spec_duration() == old(self).spec_duration(),
            r.spec_nb_packets() == old(self).spec_nb_packets(),
            r.spec_byte_size() == old(self).spec_byte_size(),
            r.spec_disposition() == old(self).spec_disposition(),
            r.spec_metadata() == old(self).spec_metadata(),
            r.spec_index_status() == old(self).spec_index_status(),
            r.spec_index_errors() == old(self).spec_index_errors(),
    {
        self.codec = v.to_owned();
        self
    }

    /// In-place mutator for `codec_tag`.
    pub fn set_codec_tag(&mut self, v: &str) -> (r: &mut Self)
        ensures
            *final(self) == *final(r),
            r.spec_codec_tag() == v@,
            r.spec_id() == old(self).spec_id(),
            r.spec_data_id() == old(self).spec_data_id(),
            r.spec_stream_index() == old(self).spec_stream_index(),
            r.spec_container_track_id() == old(self).spec_container_track_id(),
            r.spec_codec() == old(self).spec_codec(),
            r.spec_start_pts() == old(self).spec_start_pts(),
            r.spec_duration() == old(self).spec_duration(),
            r.spec_nb_packets() == old(self).spec_nb_packets(),
            r.spec_byte_size() == old(self).spec_byte_size(),
            r.spec_disposition() == old(self).spec_disposition(),
            r.spec_metadata() == old(self).spec_metadata(),
            r.spec_index_status() == old(self).spec_index_status(),
            r.spec_index_errors() == old(self).spec_index_errors(),
    {
        self.codec_tag = v.to_owned();
        self
    }

    /// In-place mutator for `start_pts`.
    pub fn set_start_pts(&mut self, v: Option<MediaTimestamp>) -> (r: &mut Self)
        ensures
            *final(self) == *final(r),
            r.spec_start_pts() == v,
            r.spec_id() == old(self).spec_id(),
            r.spec_data_id() == old(self).spec_data_id(),
            r.spec_stream_index() == old(self).spec_stream_index(),
            r.spec_container_track_id() == old(self).spec_container_track_id(),
            r.spec_codec() == old(self).spec_codec(),
            r.spec_codec_tag() == old(self).spec_codec_tag(),
            r.spec_duration() == old(self).spec_duration(),
            r.spec_nb_packets() == old(self).spec_nb_packets(),
            r.spec_byte_size() == old(self).spec_byte_size(),
            r.spec_disposition() == old(self).spec_disposition(),
            r.spec_metadata() == old(self).spec_metadata(),
            r.spec_index_status() == old(self).spec_index_status(),
            r.spec_index_errors() == old(self).spec_index_errors(),
    {
        self.start_pts = v;
        self
    }

    /// Validating in-place mutator for `duration`; on rejection the track is
    /// left unchanged.
    pub fn try_set_duration(&mut self, v: Option<MediaTimestamp>) -> (r: Result<&mut Self, DataTrackError>)
        ensures
            spec_is_negative_duration(v) <==> r is Err,
            r matches Err(e) ==> e == DataTrackError::NegativeDuration && *final(self) == *old(self),
            r matches Ok(x) ==> *final(self) == *final(x) && x.spec_duration() == v
                && x.spec_id() == old(self).spec_id()
                && x.spec_data_id() == old(self).spec_data_id()
                && x.spec_stream_index() == old(self).spec_stream_index()
                && x.spec_container_track_id() == old(self).spec_container_track_id()
                && x.spec_codec() == old(self).spec_codec()
                && x.spec_codec_tag() == old(self).spec_codec_tag()
                && x.spec_start_pts() == old(self).spec_start_pts()
                && x.spec_nb_packets() == old(self).spec_nb_packets()
                && x.spec_byte_size() == old(self).spec_byte_size()
                && x.spec_disposition() == old(self).spec_disposition()
                && x.spec_metadata() == old(self).spec_metadata()
                && x.spec_index_status() == old(self).spec_index_status()
                && x.spec_index_errors() == old(self).spec_index_errors()
                ,
    {
        if is_negative_duration(v) {
            return Err(DataTrackError::NegativeDuration);
        }
        self.duration = v;
        Ok(self)
    }

    /// In-place mutator for `nb_packets`.
    pub fn set_nb_packets(&mut self, v: Option<u64>) -> (r: &mut Self)
        ensures
            *final(self) == *final(r),
            r.spec_nb_packets() == v,
            r.spec_id() == old(self).spec_id(),
            r.spec_data_id() == old(self).spec_data_id(),
            r.spec_stream_index() == old(self).spec_stream_index(),
            r.spec_container_track_id() == old(self).spec_container_track_id(),
            r.spec_codec() == old(self).spec_codec(),
            r.spec_codec_tag() == old(self).spec_codec_tag(),
            r.spec_start_pts() == old(self).spec_start_pts(),
            r.spec_duration() == old(self).spec_duration(),
            r.spec_byte_size() == old(self).spec_byte_size(),
            r.spec_disposition() == old(self).spec_disposition(),
            r.spec_metadata() == old(self).spec_metadata(),
            r.spec_index_status() == old(self).spec_index_status(),
            r.spec_index_errors() == old(self).spec_index_errors(),
    {
        self.nb_packets = v;
        self
    }

    /// In-place mutator for `byte_size`.
    pub fn set_byte_size(&mut self, v: u64) -> (r: &mut Self)
        ensures
            *final(self) == *final(r),
            r.spec_byte_size() == v,
            r.spec_id() == old(self).spec_id(),
            r.spec_data_id() == old(self).spec_data_id(),
            r.spec_stream_index() == old(self).spec_stream_index(),
            r.spec_container_track_id() == old(self).spec_container_track_id(),
            r.spec_codec() == old(self).spec_codec(),
            r.spec_codec_tag() == old(self).spec_codec_tag(),
            r.spec_start_pts() == old(self).spec_start_pts(),
            r.spec_duration() == old(self).spec_duration(),
            r.spec_nb_packets() == old(self).spec_nb_packets(),
            r.spec_disposition() == old(self).spec_disposition(),
            r.spec_metadata() == old(self).spec_metadata(),
            r.spec_index_status() == old(self).spec_index_status(),
            r.spec_index_errors() == old(self).spec_index_errors(),
    {
        self.byte_size = v;
        self
    }

    /// In-place mutator for the disposition flags.
    pub fn set_disposition(&mut self, v: TrackDisposition) -> (r: &mut Self)
        ensures
            *final(self) == *final(r),
            r.spec_disposition() == v,
            r.spec_id() == old(self).spec_id(),
            r.spec_data_id() == old(self).spec_data_id(),
            r.spec_stream_index() == old(self).spec_stream_index(),
            r.spec_container_track_id() == old(self).spec_container_track_id(),
            r.spec_codec() == old(self).spec_codec(),
            r.spec_codec_tag() == old(self).spec_codec_tag(),
            r.spec_start_pts() == old(self).spec_start_pts(),
            r.spec_duration() == old(self).spec_duration(),
            r.spec_nb_packets() == old(self).spec_nb_packets(),
            r.spec_byte_size() == old(self).spec_byte_size(),
            r.spec_metadata() == old(self).spec_metadata(),
            r.spec_index_status() == old(self).spec_index_status(),
            r.spec_index_errors() == old(self).spec_index_errors(),
    {
        self.disposition = v;
        self
    }

    /// In-place mutator for the metadata bag.
    pub fn set_metadata(&mut self, v: MetadataMap) -> (r: &mut Self)
        ensures
            *final(self) == *final(r),
            r.spec_metadata() == v,
            r.spec_id() == old(self).spec_id(),
            r.spec_data_id() == old(self).spec_data_id(),
            r.spec_stream_index() == old(self).spec_stream_index(),
            r.spec_container_track_id() == old(self).spec_container_track_id(),
            r.spec_codec() == old(self).spec_codec(),
            r.spec_codec_tag() == old(self).spec_codec_tag(),
            r.spec_start_pts() == old(self).spec_start_pts(),
            r.spec_duration() == old(self).spec_duration(),
            r.spec_nb_packets() == old(self).spec_nb_packets(),
            r.spec_byte_size() == old(self).spec_byte_size(),
            r.spec_disposition() == old(self).spec_disposition(),
            r.spec_index_status() == old(self).spec_index_status(),
            r.spec_index_errors() == old(self).spec_index_errors(),
    {
        self.metadata = v;
        self
    }

    /// In-place mutator for `index_status`.
    pub fn set_index_status(&mut self, v: DataIndexStatus) -> (r: &mut Self)
        ensures
            *final(self) == *final(r),
            r.spec_index_status() == v,
            r.spec_id() == old(self).spec_id(),
            r.spec_data_id() == old(self).spec_data_id(),
            r.spec_stream_index() == old(self).spec_stream_index(),
            r.spec_container_track_id() == old(self).spec_container_track_id(),
            r.spec_codec() == old(self).spec_codec(),
            r.spec_codec_tag() == old(self).spec_codec_tag(),
            r.spec_start_pts() == old(self).spec_start_pts(),
            r.spec_duration() == old(self).spec_duration(),
            r.spec_nb_packets() == old(self).spec_nb_packets(),
            r.spec_byte_size() == old(self).spec_byte_size(),
            r.spec_disposition() == old(self).spec_disposition(),
            r.spec_metadata() == old(self).spec_metadata(),
            r.spec_index_errors() == old(self).spec_index_errors(),
    {
        self.index_status = v;
        self
    }

    /// In-place mutator for `index_errors`.
    pub fn set_index_errors(&mut self, v: Vec<ErrorInfo>) -> (r: &mut Self)
        ensures
            *final(self) == *final(r),
            r.spec_index_errors() == v@,
            r.spec_id() == old(self).spec_id(),
            r.spec_data_id() == old(self).spec_data_id(),
            r.spec_stream_index() == old(self).spec_stream_index(),
            r.spec_container_track_id() == old(self).spec_container_track_id(),
            r.spec_codec() == old(self).spec_codec(),
            r.spec_codec_tag() == old(self).spec_codec_tag(),
            r.spec_start_pts() == old(self).spec_start_pts(),
            r.spec_duration() == old(self).spec_duration(),
            r.spec_nb_packets() == old(self).spec_nb_packets(),
            r.spec_byte_size() == old(self).spec_byte_size(),
            r.spec_disposition() == old(self).spec_disposition(),
            r.spec_metadata() == old(self).spec_metadata(),
            r.spec_index_status() == old(self).spec_index_status(),
    {
        self.index_errors = v;
        self
    }

    /// Decompose into [`DataTrackParts`] — exhaustive, by value.
    pub fn into_parts(self) -> (r: DataTrackParts<Id>)
        ensures
            r.id == self.spec_id(),
            r.data_id == self.spec_data_id(),
            r.stream_index == self.spec_stream_index(),
            r.container_track_id == self.spec_container_track_id(),
            r.codec@ == self.spec_codec(),
            r.codec_tag@ == self.spec_codec_tag(),
            r.start_pts == self.spec_start_pts(),
            r.duration == self.spec_duration(),
            r.nb_packets == self.spec_nb_packets(),
            r.byte_size == self.spec_byte_size(),
            r.disposition == self.spec_disposition(),
            r.metadata == self.spec_metadata(),
            r.index_status == self.spec_index_status(),
            r.index_errors@ == self.spec_index_errors(),
    {
        let DataTrack { id, data_id, stream_index, container_track_id, codec, codec_tag, start_pts, duration, nb_packets, byte_size, disposition, metadata, index_status, index_errors } = self;
        DataTrackParts { id, data_id, stream_index, container_track_id, codec, codec_tag, start_pts, duration, nb_packets, byte_size, disposition, metadata, index_status, index_errors }
    }

    /// Rebuild from [`DataTrackParts`]; the parts must come from an
    /// already-validated value.
    pub fn rehydrate(parts: DataTrackParts<Id>) -> (r: Self)
        ensures
            r.spec_id() == parts.id,
            r.spec_data_id() == parts.data_id,
            r.spec_stream_index() == parts.stream_index,
            r.spec_container_track_id() == parts.container_track_id,
            r.spec_codec() == parts.codec@,
            r.spec_codec_tag() == parts.codec_tag@,
            r.spec_start_pts() == parts.start_pts,
            r.spec_duration() == parts.duration,
            r.spec_nb_packets() == parts.nb_packets,
            r.spec_byte_size() == parts.byte_size,
            r.spec_disposition() == parts.disposition,
            r.spec_metadata() == parts.metadata,
            r.spec_index_status() == parts.index_status,
            r.spec_index_errors() == parts.index_errors@,
    {
        let DataTrackParts { id, data_id, stream_index, container_track_id, codec, codec_tag, start_pts, duration, nb_packets, byte_size, disposition, metadata, index_status, index_errors } = parts;
        DataTrack { id, data_id, stream_index, container_track_id, codec, codec_tag, start_pts, duration, nb_packets, byte_size, disposition, metadata, index_status, index_errors }
    }
}

/// Exhaustive by-value decomposition of [`DataTrack`] — every stored
/// field, public.
#[derive(Debug, Clone, PartialEq, Eq)]
pub struct DataTrackParts<Id = Uuid7> {
    pub id: Id,
    pub data_id: Id,
    pub stream_index: Option<u32>,
    pub container_track_id: Option<u64>,
    pub codec: String,
    pub codec_tag: String,
    pub start_pts: Option<MediaTimestamp>,
    pub duration: Option<MediaTimestamp>,
    pub nb_packets: Option<u64>,
    pub byte_size: u64,
    pub disposition: TrackDisposition,
    pub metadata: MetadataMap,
    pub index_status: DataIndexStatus,
    pub index_errors: Vec<ErrorInfo>,
}

} // verus!
