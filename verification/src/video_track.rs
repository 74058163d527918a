//! `VideoTrack` — one video stream of a `Video` facet, with the geometry
//! rule: the coded size is `0x0` or fully non-zero, and a crop is
//! non-degenerate and lies within a known coded frame.
use vstd::prelude::*;

use mediaframe::codec::VideoCodec;
use mediaframe::color::{DolbyVisionConfig, HdrStaticMetadata, Info as ColorInfo};
use mediaframe::disposition::TrackDisposition;
use mediaframe::frame::{FieldOrder, FrameRate, Rotation, SampleAspectRatio, StereoMode};
use mediaframe::pixel_format::PixelFormat;

use crate::descriptors::{video_codec_named, video_codec_of_name};
use crate::errors::ErrorInfo;
use crate::flags::VideoIndexStatus;
use crate::geometry::{known_dimensions, rect_within, valid_dimensions, Dimensions, Rect};
use crate::metadata::{disposition_bits, disposition_none, metadata_entries, metadata_new, MetadataMap};
use crate::primitives::{is_nil_bytes, Uuid7};
use crate::provenance::Provenance;
use crate::time::{is_negative_duration, spec_is_negative_duration, MediaTimestamp};

verus! {

/// Error returned when a [`VideoTrack`] constructor or fallible mutator cannot
/// uphold an invariant.
#[derive(Debug, Clone, Copy, PartialEq, Eq, Hash, Structural)]
#[non_exhaustive]
pub enum VideoTrackError {
    /// `id` was the nil sentinel.
    NilId,
    /// `video_id` was the nil sentinel (orphan track).
    NilVideoId,
    /// a present `duration` was negative.
    NegativeDuration,
    /// the crop does not fit within the coded frame.
    CropExceedsDimensions,
    /// exactly one axis of the coded size was zero.
    PartialZeroDimensions,
    /// the crop had a zero width or height.
    ZeroExtentCrop,
    /// a crop was set while the coded size was unknown.
    CropWithoutDimensions,
}

/// The message of each [`VideoTrackError`].
pub open spec fn video_track_error_message(e: VideoTrackError) -> Seq<char> {
    match e {
        VideoTrackError::NilId => "VideoTrack id must not be the nil UUID"@,
        VideoTrackError::NilVideoId => "VideoTrack video_id (Video facet) must not be the nil UUID"@,
        VideoTrackError::NegativeDuration => "VideoTrack duration must not be negative"@,
        VideoTrackError::CropExceedsDimensions => "VideoTrack visible_rect crop must fit within the coded dimensions"@,
        VideoTrackError::PartialZeroDimensions => "VideoTrack dimensions must be 0x0 (unknown) or have both axes non-zero"@,
        VideoTrackError::ZeroExtentCrop => "VideoTrack visible_rect crop must have non-zero width and height"@,
        VideoTrackError::CropWithoutDimensions => "VideoTrack visible_rect crop requires known (non-zero) dimensions"@,
    }
}

impl VideoTrackError {
    /// True iff this is `VideoTrackError::NilId`.
    pub fn is_nil_id(&self) -> (r: bool)
        ensures
            r == (*self is NilId),
    {
        match self {
            VideoTrackError::NilId => true,
            #[allow(unreachable_patterns)]
            _ => false,
        }
    }

    /// True iff this is `VideoTrackError::NilVideoId`.
    pub fn is_nil_video_id(&self) -> (r: bool)
        ensures
            r == (*self is NilVideoId),
    {
        match self {
            VideoTrackError::NilVideoId => true,
            #[allow(unreachable_patterns)]
            _ => false,
        }
    }

    /// True iff this is `VideoTrackError::NegativeDuration`.
    pub fn is_negative_duration(&self) -> (r: bool)
        ensures
            r == (*self is NegativeDuration),
    {
        match self {
            VideoTrackError::NegativeDuration => true,
            #[allow(unreachable_patterns)]
            _ => false,
        }
    }

    /// True iff this is `VideoTrackError::CropExceedsDimensions`.
    pub fn is_crop_exceeds_dimensions(&self) -> (r: bool)
        ensures
            r == (*self is CropExceedsDimensions),
    {
        match self {
            VideoTrackError::CropExceedsDimensions => true,
            #[allow(unreachable_patterns)]
            _ => false,
        }
    }

    /// True iff this is `VideoTrackError::PartialZeroDimensions`.
    pub fn is_partial_zero_dimensions(&self) -> (r: bool)
        ensures
            r == (*self is PartialZeroDimensions),
    {
        match self {
            VideoTrackError::PartialZeroDimensions => true,
            #[allow(unreachable_patterns)]
            _ => false,
        }
    }

    /// True iff this is `VideoTrackError::ZeroExtentCrop`.
    pub fn is_zero_extent_crop(&self) -> (r: bool)
        ensures
            r == (*self is ZeroExtentCrop),
    {
        match self {
            VideoTrackError::ZeroExtentCrop => true,
            #[allow(unreachable_patterns)]
            _ => false,
        }
    }

    /// True iff this is `VideoTrackError::CropWithoutDimensions`.
    pub fn is_crop_without_dimensions(&self) -> (r: bool)
        ensures
            r == (*self is CropWithoutDimensions),
    {
        match self {
            VideoTrackError::CropWithoutDimensions => true,
            #[allow(unreachable_patterns)]
            _ => false,
        }
    }

    /// Human-readable description.
    pub fn message(&self) -> (r: String)
        ensures
            r@ == video_track_error_message(*self),
    {
        match self {
            VideoTrackError::NilId => {
                proof {
                    reveal_strlit("VideoTrack id must not be the nil UUID");
                }
                "VideoTrack id must not be the nil UUID".to_owned()
            },
            VideoTrackError::NilVideoId => {
                proof {
                    reveal_strlit("VideoTrack video_id (Video facet) must not be the nil UUID");
                }
                "VideoTrack video_id (Video facet) must not be the nil UUID".to_owned()
            },
            VideoTrackError::NegativeDuration => {
                proof {
                    reveal_strlit("VideoTrack duration must not be negative");
                }
                "VideoTrack duration must not be negative".to_owned()
            },
            VideoTrackError::CropExceedsDimensions => {
                proof {
                    reveal_strlit("VideoTrack visible_rect crop must fit within the coded dimensions");
                }
                "VideoTrack visible_rect crop must fit within the coded dimensions".to_owned()
            },
            VideoTrackError::PartialZeroDimensions => {
                proof {
                    reveal_strlit("VideoTrack dimensions must be 0x0 (unknown) or have both axes non-zero");
                }
                "VideoTrack dimensions must be 0x0 (unknown) or have both axes non-zero".to_owned()
            },
            VideoTrackError::ZeroExtentCrop => {
                proof {
                    reveal_strlit("VideoTrack visible_rect crop must have non-zero width and height");
                }
                "VideoTrack visible_rect crop must have non-zero width and height".to_owned()
            },
            VideoTrackError::CropWithoutDimensions => {
                proof {
                    reveal_strlit("VideoTrack visible_rect crop requires known (non-zero) dimensions");
                }
                "VideoTrack visible_rect crop requires known (non-zero) dimensions".to_owned()
            },
        }
    }
}

/// The geometry rule of a track: the coded size is valid, and a crop, when
/// present, is non-degenerate, set against a known size and inside it.
pub open spec fn geometry_ok(dims: Dimensions, crop: Option<Rect>) -> bool {
    &&& valid_dimensions(dims)
    &&& crop matches Some(r) ==> {
        &&& r.spec_width() != 0 && r.spec_height() != 0
        &&& known_dimensions(dims)
        &&& rect_within(r, dims)
    }
}

/// Why a new coded size is refused against the current crop, if it is.
pub open spec fn dimensions_error(v: Dimensions, crop: Option<Rect>) -> Option<VideoTrackError> {
    if !valid_dimensions(v) {
        Some(VideoTrackError::PartialZeroDimensions)
    } else if crop matches Some(r) && !rect_within(r, v) {
        Some(VideoTrackError::CropExceedsDimensions)
    } else {
        None
    }
}

/// Why a new crop is refused against the current coded size, if it is.
pub open spec fn crop_error(v: Option<Rect>, dims: Dimensions) -> Option<VideoTrackError> {
    match v {
        None => None,
        Some(r) => if r.spec_width() == 0 || r.spec_height() == 0 {
            Some(VideoTrackError::ZeroExtentCrop)
        } else if !known_dimensions(dims) {
            Some(VideoTrackError::CropWithoutDimensions)
        } else if !rect_within(r, dims) {
            Some(VideoTrackError::CropExceedsDimensions)
        } else {
            None
        },
    }
}

/// True iff `dims` is the `0x0` sentinel or has both axes non-zero.
fn dimensions_valid(dims: Dimensions) -> (r: bool)
    ensures
        r == valid_dimensions(dims),
{
    let (w, h) = (dims.width(), dims.height());
    (w == 0 && h == 0) || (w != 0 && h != 0)
}

/// True iff `dims` is not the `0x0` unknown sentinel.
fn dimensions_known(dims: Dimensions) -> (r: bool)
    ensures
        r == known_dimensions(dims),
{
    dims.width() != 0 && dims.height() != 0
}

/// True iff `rect` lies within `dims`; an `x + width` (or `y + height`)
/// overflow counts as outside.
fn rect_fits_dimensions(rect: Rect, dims: Dimensions) -> (r: bool)
    ensures
        r == rect_within(rect, dims),
{
    let right = match rect.x().checked_add(rect.width()) {
        Some(v) => v,
        None => return false,
    };
    let bottom = match rect.y().checked_add(rect.height()) {
        Some(v) => v,
        None => return false,
    };
    right <= dims.width() && bottom <= dims.height()
}

/// One video stream of a `Video` facet: stream and codec descriptors, the
/// frame / pixel / colour vocabulary, its scenes, indexing state and
/// provenance. The crop always lies within a known coded frame.
#[derive(Debug, PartialEq, Eq)]
pub struct VideoTrack<Id = Uuid7> {
    id: Id,
    /// FK → `Video.id`.
    video_id: Id,
    /// Source stream index.
    stream_index: Option<u32>,
    /// Container-specific track id.
    container_track_id: Option<u64>,
    /// First-PTS offset.
    start_pts: Option<MediaTimestamp>,
    /// Track duration; never negative.
    duration: Option<MediaTimestamp>,
    /// Codec.
    codec: VideoCodec,
    /// Codec profile.
    profile: Option<String>,
    /// Codec level.
    level: Option<u16>,
    /// Bit rate (`0` = unknown).
    bit_rate: u64,
    /// Frame count.
    nb_frames: Option<u64>,
    /// Whether the stream uses B-frames.
    has_b_frames: bool,
    /// Whether GOPs are closed.
    closed_gop: Option<bool>,
    /// Bits per raw sample.
    bits_per_raw_sample: Option<u8>,
    /// Coded width × height (`0x0` = unknown).
    dimensions: Dimensions,
    /// Clean-aperture crop within the coded frame.
    visible_rect: Option<Rect>,
    /// Sample aspect ratio.
    sample_aspect_ratio: SampleAspectRatio,
    /// Pixel format.
    pixel_format: PixelFormat,
    /// Primaries / transfer / matrix / range / chroma location.
    color: ColorInfo,
    /// HDR10 static metadata.
    hdr_static: Option<HdrStaticMetadata>,
    /// Display rotation.
    rotation: Rotation,
    /// Frame rate (`r_frame_rate`).
    frame_rate: FrameRate,
    /// Average frame rate (`0/1` = absent).
    avg_frame_rate: FrameRate,
    /// Field order.
    field_order: FieldOrder,
    /// 3D / stereo packing.
    stereo_mode: Option<StereoMode>,
    /// Dolby Vision configuration.
    dovi: Option<DolbyVisionConfig>,
    /// Whether captions are embedded in the stream.
    has_embedded_captions: bool,
    /// `AV_DISPOSITION_*` flags.
    disposition: TrackDisposition,
    /// Whether this is the primary video track.
    is_primary: bool,
    /// Whether the player selects this track by default.
    auto_selected: bool,
    /// Refs to the track's scenes.
    scenes: Vec<Id>,
    /// Container metadata entries, in insertion order.
    metadata: MetadataMap,
    /// Indexing state.
    index_status: VideoIndexStatus,
    /// Per-track index errors.
    index_errors: Vec<ErrorInfo>,
    /// Analysis-run provenance.
    provenance: Provenance,
}

impl<Id> VideoTrack<Id> {
    /// Stored `id`.
    pub closed spec fn spec_id(self) -> Id {
        self.id
    }

    /// Stored `video_id`.
    pub closed spec fn spec_video_id(self) -> Id {
        self.video_id
    }

    /// Stored `stream_index`.
    pub closed spec fn spec_stream_index(self) -> Option<u32> {
        self.stream_index
    }

    /// Stored `container_track_id`.
    pub closed spec fn spec_container_track_id(self) -> Option<u64> {
        self.container_track_id
    }

    /// Stored `start_pts`.
    pub closed spec fn spec_start_pts(self) -> Option<MediaTimestamp> {
        self.start_pts
    }

    /// Stored `duration`.
    pub closed spec fn spec_duration(self) -> Option<MediaTimestamp> {
        self.duration
    }

    /// Stored `codec`.
    pub closed spec fn spec_codec(self) -> VideoCodec {
        self.codec
    }

    /// Stored `profile`.
    pub closed spec fn spec_profile(self) -> Option<String> {
        self.profile
    }

    /// Stored `level`.
    pub closed spec fn spec_level(self) -> Option<u16> {
        self.level
    }

    /// Stored `bit_rate`.
    pub closed spec fn spec_bit_rate(self) -> u64 {
        self.bit_rate
    }

    /// Stored `nb_frames`.
    pub closed spec fn spec_nb_frames(self) -> Option<u64> {
        self.nb_frames
    }

    /// Stored `has_b_frames`.
    pub closed spec fn spec_has_b_frames(self) -> bool {
        self.has_b_frames
    }

    /// Stored `closed_gop`.
    pub closed spec fn spec_closed_gop(self) -> Option<bool> {
        self.closed_gop
    }

    /// Stored `bits_per_raw_sample`.
    pub closed spec fn spec_bits_per_raw_sample(self) -> Option<u8> {
        self.bits_per_raw_sample
    }

    /// Stored `dimensions`.
    pub closed spec fn spec_dimensions(self) -> Dimensions {
        self.dimensions
    }

    /// Stored `visible_rect`.
    pub closed spec fn spec_visible_rect(self) -> Option<Rect> {
        self.visible_rect
    }

    /// Stored `sample_aspect_ratio`.
    pub closed spec fn spec_sample_aspect_ratio(self) -> SampleAspectRatio {
        self.sample_aspect_ratio
    }

    /// Stored `pixel_format`.
    pub closed spec fn spec_pixel_format(self) -> PixelFormat {
        self.pixel_format
    }

    /// Stored `color`.
    pub closed spec fn spec_color(self) -> ColorInfo {
        self.color
    }

    /// Stored `hdr_static`.
    pub closed spec fn spec_hdr_static(self) -> Option<HdrStaticMetadata> {
        self.hdr_static
    }

    /// Stored `rotation`.
    pub closed spec fn spec_rotation(self) -> Rotation {
        self.rotation
    }

    /// Stored `frame_rate`.
    pub closed spec fn spec_frame_rate(self) -> FrameRate {
        self.frame_rate
    }

    /// Stored `avg_frame_rate`.
    pub closed spec fn spec_avg_frame_rate(self) -> FrameRate {
        self.avg_frame_rate
    }

    /// Stored `field_order`.
    pub closed spec fn spec_field_order(self) -> FieldOrder {
        self.field_order
    }

    /// Stored `stereo_mode`.
    pub closed spec fn spec_stereo_mode(self) -> Option<StereoMode> {
        self.stereo_mode
    }

    /// Stored `dovi`.
    pub closed spec fn spec_dovi(self) -> Option<DolbyVisionConfig> {
        self.dovi
    }

    /// Stored `has_embedded_captions`.
    pub closed spec fn spec_has_embedded_captions(self) -> bool {
        self.has_embedded_captions
    }

    /// Stored `disposition`.
    pub closed spec fn spec_disposition(self) -> TrackDisposition {
        self.disposition
    }

    /// Stored `is_primary`.
    pub closed spec fn spec_is_primary(self) -> bool {
        self.is_primary
    }

    /// Stored `auto_selected`.
    pub closed spec fn spec_auto_selected(self) -> bool {
        self.auto_selected
    }

    /// Stored `scenes`.
    pub closed spec fn spec_scenes(self) -> Seq<Id> {
        self.scenes@
    }

    /// Stored `metadata`.
    pub closed spec fn spec_metadata(self) -> MetadataMap {
        self.metadata
    }

    /// Stored `index_status`.
    pub closed spec fn spec_index_status(self) -> VideoIndexStatus {
        self.index_status
    }

    /// Stored `index_errors`.
    pub closed spec fn spec_index_errors(self) -> Seq<ErrorInfo> {
        self.index_errors@
    }

    /// Stored `provenance`.
    pub closed spec fn spec_provenance(self) -> Provenance {
        self.provenance
    }

}

impl VideoTrack<Uuid7> {
    /// Validating constructor: rejects a nil `id` (checked first) and a nil
    /// `video_id`; the codec starts as the unnamed codec `""`, the coded size
    /// `0x0` with no crop, every option `None`, every flag false, the lists,
    /// metadata, status and provenance empty, and the remaining descriptors at
    /// their `mediaframe` defaults.
    pub fn try_new(id: Uuid7, video_id: Uuid7) -> (r: Result<Self, VideoTrackError>)
        ensures
            (is_nil_bytes(id@)) <==> r == Err::<Self, VideoTrackError>(VideoTrackError::NilId),
            (!is_nil_bytes(id@) && is_nil_bytes(video_id@)) <==> r == Err::<Self, VideoTrackError>(VideoTrackError::NilVideoId),
            r is Ok <==> (!is_nil_bytes(id@) && !is_nil_bytes(video_id@)),
            r matches Ok(x) ==> x.spec_id() == id,
            r matches Ok(x) ==> x.spec_video_id() == video_id,
            r matches Ok(x) ==> x.spec_stream_index() == None::<u32>,
            r matches Ok(x) ==> x.spec_container_track_id() == None::<u64>,
            r matches Ok(x) ==> x.spec_start_pts() == None::<MediaTimestamp>,
            r matches Ok(x) ==> x.spec_duration() == None::<MediaTimestamp>,
            r matches Ok(x) ==> x.spec_codec() == video_codec_of_name(Seq::<char>::empty()),
            r matches Ok(x) ==> x.spec_profile() == None::<String>,
            r matches Ok(x) ==> x.spec_level() == None::<u16>,
            r matches Ok(x) ==> x.spec_bit_rate() == 0,
            r matches Ok(x) ==> x.spec_nb_frames() == None::<u64>,
            r matches Ok(x) ==> x.spec_has_b_frames() == false,
            r matches Ok(x) ==> x.spec_closed_gop() == None::<bool>,
            r matches Ok(x) ==> x.spec_bits_per_raw_sample() == None::<u8>,
            r matches Ok(x) ==> x.spec_dimensions().spec_width() == 0 && x.spec_dimensions().spec_height() == 0,
            r matches Ok(x) ==> x.spec_visible_rect() == None::<Rect>,
            r matches Ok(x) ==> x.spec_hdr_static() == None::<HdrStaticMetadata>,
            r matches Ok(x) ==> x.spec_stereo_mode() == None::<StereoMode>,
            r matches Ok(x) ==> x.spec_dovi() == None::<DolbyVisionConfig>,
            r matches Ok(x) ==> x.spec_has_embedded_captions() == false,
            r matches Ok(x) ==> disposition_bits(x.spec_disposition()) == 0,
            r matches Ok(x) ==> x.spec_is_primary() == false,
            r matches Ok(x) ==> x.spec_auto_selected() == false,
            r matches Ok(x) ==> x.spec_scenes() == Seq::<Uuid7>::empty(),
            r matches Ok(x) ==> metadata_entries(x.spec_metadata()) == Seq::<(Seq<char>, Seq<char>)>::empty(),
            r matches Ok(x) ==> x.spec_index_status()@ == 0,
            r matches Ok(x) ==> x.spec_index_errors() == Seq::<ErrorInfo>::empty(),
            r matches Ok(x) ==> x.spec_provenance().spec_is_empty(),
    {
        let unnamed = "";
        proof {
            reveal_strlit("");
            assert(unnamed@ =~= Seq::<char>::empty());
        }
        if id.is_nil() {
            return Err(VideoTrackError::NilId);
        }
        if video_id.is_nil() {
            return Err(VideoTrackError::NilVideoId);
        }
        Ok(VideoTrack {
            id: id,
            video_id: video_id,
            stream_index: None,
            container_track_id: None,
            start_pts: None,
            duration: None,
            codec: video_codec_named(unnamed),
            profile: None,
            level: None,
            bit_rate: 0,
            nb_frames: None,
            has_b_frames: false,
            closed_gop: None,
            bits_per_raw_sample: None,
            dimensions: Dimensions::new(0, 0),
            visible_rect: None,
            sample_aspect_ratio: SampleAspectRatio::default(),
            pixel_format: PixelFormat::default(),
            color: ColorInfo::default(),
            hdr_static: None,
            rotation: Rotation::default(),
            frame_rate: FrameRate::default(),
            avg_frame_rate: FrameRate::default(),
            field_order: FieldOrder::default(),
            stereo_mode: None,
            dovi: None,
            has_embedded_captions: false,
            disposition: disposition_none(),
            is_primary: false,
            auto_selected: false,
            scenes: Vec::new(),
            metadata: metadata_new(),
            index_status: VideoIndexStatus::empty(),
            index_errors: Vec::new(),
            provenance: Provenance::new(),
        })
    }

    /// Builder: replace the scene refs.
    pub fn with_scenes(self, v: Vec<Uuid7>) -> (r: Self)
        ensures
            r.spec_scenes() == v@,
            r.spec_id() == self.spec_id(),
            r.spec_video_id() == self.spec_video_id(),
            r.spec_stream_index() == self.spec_stream_index(),
            r.spec_container_track_id() == self.spec_container_track_id(),
            r.spec_start_pts() == self.spec_start_pts(),
            r.spec_duration() == self.spec_duration(),
            r.spec_codec() == self.spec_codec(),
            r.spec_profile() == self.spec_profile(),
            r.spec_level() == self.spec_level(),
            r.spec_bit_rate() == self.spec_bit_rate(),
            r.spec_nb_frames() == self.spec_nb_frames(),
            r.spec_has_b_frames() == self.spec_has_b_frames(),
            r.spec_closed_gop() == self.spec_closed_gop(),
            r.spec_bits_per_raw_sample() == self.spec_bits_per_raw_sample(),
            r.spec_dimensions() == self.spec_dimensions(),
            r.spec_visible_rect() == self.spec_visible_rect(),
            r.spec_sample_aspect_ratio() == self.spec_sample_aspect_ratio(),
            r.spec_pixel_format() == self.spec_pixel_format(),
            r.spec_color() == self.spec_color(),
            r.spec_hdr_static() == self.spec_hdr_static(),
            r.spec_rotation() == self.spec_rotation(),
            r.spec_frame_rate() == self.spec_frame_rate(),
            r.spec_avg_frame_rate() == self.spec_avg_frame_rate(),
            r.spec_field_order() == self.spec_field_order(),
            r.spec_stereo_mode() == self.spec_stereo_mode(),
            r.spec_dovi() == self.spec_dovi(),
            r.spec_has_embedded_captions() == self.spec_has_embedded_captions(),
            r.spec_disposition() == self.spec_disposition(),
            r.spec_is_primary() == self.spec_is_primary(),
            r.spec_auto_selected() == self.spec_auto_selected(),
            r.spec_metadata() == self.spec_metadata(),
            r.spec_index_status() == self.spec_index_status(),
            r.spec_index_errors() == self.spec_index_errors(),
            r.spec_provenance() == self.spec_provenance(),
    {
        proof {
            use_type_invariant(&self);
        }
        let mut s = self;
        s.scenes = v;
        s
    }

    /// In-place mutator for the scene refs.
    pub fn set_scenes(&mut self, v: Vec<Uuid7>) -> (r: &mut Self)
        ensures
            *final(self) == *final(r),
            r.spec_scenes() == v@,
            r.spec_id() == old(self).spec_id(),
            r.spec_video_id() == old(self).spec_video_id(),
            r.spec_stream_index() == old(self).spec_stream_index(),
            r.spec_container_track_id() == old(self).spec_container_track_id(),
            r.spec_start_pts() == old(self).spec_start_pts(),
            r.spec_duration() == old(self).spec_duration(),
            r.spec_codec() == old(self).spec_codec(),
            r.spec_profile() == old(self).spec_profile(),
            r.spec_level() == old(self).spec_level(),
            r.spec_bit_rate() == old(self).spec_bit_rate(),
            r.spec_nb_frames() == old(self).spec_nb_frames(),
            r.spec_has_b_frames() == old(self).spec_has_b_frames(),
            r.spec_closed_gop() == old(self).spec_closed_gop(),
            r.spec_bits_per_raw_sample() == old(self).spec_bits_per_raw_sample(),
            r.spec_dimensions() == old(self).spec_dimensions(),
            r.spec_visible_rect() == old(self).spec_visible_rect(),
            r.spec_sample_aspect_ratio() == old(self).spec_sample_aspect_ratio(),
            r.spec_pixel_format() == old(self).spec_pixel_format(),
            r.spec_color() == old(self).spec_color(),
            r.spec_hdr_static() == old(self).spec_hdr_static(),
            r.spec_rotation() == old(self).spec_rotation(),
            r.spec_frame_rate() == old(self).spec_frame_rate(),
            r.spec_avg_frame_rate() == old(self).spec_avg_frame_rate(),
            r.spec_field_order() == old(self).spec_field_order(),
            r.spec_stereo_mode() == old(self).spec_stereo_mode(),
            r.spec_dovi() == old(self).spec_dovi(),
            r.spec_has_embedded_captions() == old(self).spec_has_embedded_captions(),
            r.spec_disposition() == old(self).spec_disposition(),
            r.spec_is_primary() == old(self).spec_is_primary(),
            r.spec_auto_selected() == old(self).spec_auto_selected(),
            r.spec_metadata() == old(self).spec_metadata(),
            r.spec_index_status() == old(self).spec_index_status(),
            r.spec_index_errors() == old(self).spec_index_errors(),
            r.spec_provenance() == old(self).spec_provenance(),
    {
        proof {
            use_type_invariant(&*self);
        }
        self.scenes = v;
        self
    }
}

impl<Id> VideoTrack<Id> {
    /// Every track satisfies the geometry rule.
    #[verifier::type_invariant]
    spec fn geometry_invariant(self) -> bool {
        geometry_ok(self.dimensions, self.visible_rect)
    }

    /// Canonical identity.
    pub fn id_ref(&self) -> (r: &Id)
        ensures
            *r == self.spec_id(),
    {
        &self.id
    }

    /// FK → `Video.id`.
    pub fn video_id_ref(&self) -> (r: &Id)
        ensures
            *r == self.spec_video_id(),
    {
        &self.video_id
    }

    /// Source stream index.
    pub fn stream_index(&self) -> (r: Option<u32>)
        ensures
            r == self.spec_stream_index(),
    {
        self.stream_index
    }

    /// Container-specific track id.
    pub fn container_track_id(&self) -> (r: Option<u64>)
        ensures
            r == self.spec_container_track_id(),
    {
        self.container_track_id
    }

    /// First-PTS offset.
    pub fn start_pts_ref(&self) -> (r: Option<&MediaTimestamp>)
        ensures
            r is Some <==> self.spec_start_pts() is Some,
            r matches Some(v) ==> self.spec_start_pts() == Some(*v),
    {
        match &self.start_pts {
            Some(v) => Some(v),
            None => None,
        }
    }

    /// Track duration (never negative).
    pub fn duration_ref(&self) -> (r: Option<&MediaTimestamp>)
        ensures
            r is Some <==> self.spec_duration() is Some,
            r matches Some(v) ==> self.spec_duration() == Some(*v),
    {
        match &self.duration {
            Some(v) => Some(v),
            None => None,
        }
    }

    /// Codec.
    pub fn codec_ref(&self) -> (r: &VideoCodec)
        ensures
            *r == self.spec_codec(),
    {
        &self.codec
    }

    /// Codec profile.
    pub fn profile(&self) -> (r: Option<&str>)
        ensures
            r is Some <==> self.spec_profile() is Some,
            r matches Some(p) ==> self.spec_profile() matches Some(q) && p@ == q@,
    {
        match &self.profile {
            Some(p) => Some(p.as_str()),
            None => None,
        }
    }

    /// Codec level.
    pub fn level(&self) -> (r: Option<u16>)
        ensures
            r == self.spec_level(),
    {
        self.level
    }

    /// Bit rate (`0` = unknown).
    pub fn bit_rate(&self) -> (r: u64)
        ensures
            r == self.spec_bit_rate(),
    {
        self.bit_rate
    }

    /// Frame count.
    pub fn nb_frames(&self) -> (r: Option<u64>)
        ensures
            r == self.spec_nb_frames(),
    {
        self.nb_frames
    }

    /// Whether the stream uses B-frames.
    pub fn has_b_frames(&self) -> (r: bool)
        ensures
            r == self.spec_has_b_frames(),
    {
        self.has_b_frames
    }

    /// Whether GOPs are closed.
    pub fn closed_gop(&self) -> (r: Option<bool>)
        ensures
            r == self.spec_closed_gop(),
    {
        self.closed_gop
    }

    /// Bits per raw sample.
    pub fn bits_per_raw_sample(&self) -> (r: Option<u8>)
        ensures
            r == self.spec_bits_per_raw_sample(),
    {
        self.bits_per_raw_sample
    }

    /// Coded width × height; always `0x0` or both axes non-zero.
    pub fn dimensions(&self) -> (r: Dimensions)
        ensures
            r == self.spec_dimensions(),
            valid_dimensions(r),
    {
        proof {
            use_type_invariant(self);
        }
        self.dimensions
    }

    /// Clean-aperture crop; when present it is non-degenerate and lies within
    /// the known coded frame.
    pub fn visible_rect(&self) -> (r: Option<Rect>)
        ensures
            r == self.spec_visible_rect(),
            geometry_ok(self.spec_dimensions(), r),
    {
        proof {
            use_type_invariant(self);
        }
        self.visible_rect
    }

    /// Sample aspect ratio.
    pub fn sample_aspect_ratio(&self) -> (r: SampleAspectRatio)
        ensures
            r == self.spec_sample_aspect_ratio(),
    {
        self.sample_aspect_ratio
    }

    /// Pixel format.
    pub fn pixel_format(&self) -> (r: PixelFormat)
        ensures
            r == self.spec_pixel_format(),
    {
        self.pixel_format.clone()
    }

    /// Colour description.
    pub fn color_ref(&self) -> (r: &ColorInfo)
        ensures
            *r == self.spec_color(),
    {
        &self.color
    }

    /// HDR10 static metadata.
    pub fn hdr_static_ref(&self) -> (r: Option<&HdrStaticMetadata>)
        ensures
            r is Some <==> self.spec_hdr_static() is Some,
            r matches Some(v) ==> self.spec_hdr_static() == Some(*v),
    {
        match &self.hdr_static {
            Some(v) => Some(v),
            None => None,
        }
    }

    /// Display rotation.
    pub fn rotation(&self) -> (r: Rotation)
        ensures
            r == self.spec_rotation(),
    {
        self.rotation.clone()
    }

    /// Frame rate.
    pub fn frame_rate(&self) -> (r: FrameRate)
        ensures
            r == self.spec_frame_rate(),
    {
        self.frame_rate
    }

    /// Average frame rate.
    pub fn avg_frame_rate(&self) -> (r: FrameRate)
        ensures
            r == self.spec_avg_frame_rate(),
    {
        self.avg_frame_rate
    }

    /// Container metadata entries, in insertion order.
    pub fn metadata_ref(&self) -> (r: &MetadataMap)
        ensures
            *r == self.spec_metadata(),
    {
        &self.metadata
    }

    /// Field order.
    pub fn field_order(&self) -> (r: FieldOrder)
        ensures
            r == self.spec_field_order(),
    {
        self.field_order.clone()
    }

    /// 3D / stereo packing.
    pub fn stereo_mode(&self) -> (r: Option<StereoMode>)
        ensures
            r == self.spec_stereo_mode(),
    {
        self.stereo_mode.clone()
    }

    /// Dolby Vision configuration.
    pub fn dovi(&self) -> (r: Option<DolbyVisionConfig>)
        ensures
            r == self.spec_dovi(),
    {
        self.dovi
    }

    /// Whether captions are embedded.
    pub fn has_embedded_captions(&self) -> (r: bool)
        ensures
            r == self.spec_has_embedded_captions(),
    {
        self.has_embedded_captions
    }

    /// Disposition flags.
    pub fn disposition(&self) -> (r: TrackDisposition)
        ensures
            r == self.spec_disposition(),
    {
        self.disposition
    }

    /// Whether this is the primary video track.
    pub fn is_primary(&self) -> (r: bool)
        ensures
            r == self.spec_is_primary(),
    {
        self.is_primary
    }

    /// Whether selected by default.
    pub fn auto_selected(&self) -> (r: bool)
        ensures
            r == self.spec_auto_selected(),
    {
        self.auto_selected
    }

    /// Refs to the track's scenes.
    pub fn scenes_slice(&self) -> (r: &[Id])
        ensures
            r@ == self.spec_scenes(),
    {
        self.scenes.as_slice()
    }

    /// Indexing state.
    pub fn index_status(&self) -> (r: VideoIndexStatus)
        ensures
            r == self.spec_index_status(),
    {
        self.index_status
    }

    /// Per-track index errors.
    pub fn index_errors_slice(&self) -> (r: &[ErrorInfo])
        ensures
            r@ == self.spec_index_errors(),
    {
        self.index_errors.as_slice()
    }

    /// Analysis-run provenance.
    pub fn provenance_ref(&self) -> (r: &Provenance)
        ensures
            *r == self.spec_provenance(),
    {
        &self.provenance
    }

    /// Builder: replace `stream_index`.
    pub fn with_stream_index(self, v: Option<u32>) -> (r: Self)
        ensures
            r.spec_stream_index() == v,
            r.spec_id() == self.spec_id(),
            r.spec_video_id() == self.spec_video_id(),
            r.spec_container_track_id() == self.spec_container_track_id(),
            r.spec_start_pts() == self.spec_start_pts(),
            r.spec_duration() == self.spec_duration(),
            r.spec_codec() == self.spec_codec(),
            r.spec_profile() == self.spec_profile(),
            r.spec_level() == self.spec_level(),
            r.spec_bit_rate() == self.spec_bit_rate(),
            r.spec_nb_frames() == self.spec_nb_frames(),
            r.spec_has_b_frames() == self.spec_has_b_frames(),
            r.spec_closed_gop() == self.spec_closed_gop(),
            r.spec_bits_per_raw_sample() == self.spec_bits_per_raw_sample(),
            r.spec_dimensions() == self.spec_dimensions(),
            r.spec_visible_rect() == self.spec_visible_rect(),
            r.spec_sample_aspect_ratio() == self.spec_sample_aspect_ratio(),
            r.spec_pixel_format() == self.spec_pixel_format(),
            r.spec_color() == self.spec_color(),
            r.spec_hdr_static() == self.spec_hdr_static(),
            r.spec_rotation() == self.spec_rotation(),
            r.spec_frame_rate() == self.spec_frame_rate(),
            r.spec_avg_frame_rate() == self.spec_avg_frame_rate(),
            r.spec_field_order() == self.spec_field_order(),
            r.spec_stereo_mode() == self.spec_stereo_mode(),
            r.spec_dovi() == self.spec_dovi(),
            r.spec_has_embedded_captions() == self.spec_has_embedded_captions(),
            r.spec_disposition() == self.spec_disposition(),
            r.spec_is_primary() == self.spec_is_primary(),
            r.spec_auto_selected() == self.spec_auto_selected(),
            r.spec_scenes() == self.spec_scenes(),
            r.spec_metadata() == self.spec_metadata(),
            r.spec_index_status() == self.spec_index_status(),
            r.spec_index_errors() == self.spec_index_errors(),
            r.spec_provenance() == self.spec_provenance(),
    {
        proof {
            use_type_invariant(&self);
        }
        let mut s = self;
        s.stream_index = v;
        s
    }

    /// In-place mutator for `stream_index`.
    pub fn set_stream_index(&mut self, v: Option<u32>) -> (r: &mut Self)
        ensures
            *final(self) == *final(r),
            r.spec_stream_index() == v,
            r.spec_id() == old(self).spec_id(),
            r.spec_video_id() == old(self).spec_video_id(),
            r.spec_container_track_id() == old(self).spec_container_track_id(),
            r.spec_start_pts() == old(self).spec_start_pts(),
            r.spec_duration() == old(self).spec_duration(),
            r.spec_codec() == old(self).spec_codec(),
            r.spec_profile() == old(self).spec_profile(),
            r.spec_level() == old(self).spec_level(),
            r.spec_bit_rate() == old(self).spec_bit_rate(),
            r.spec_nb_frames() == old(self).spec_nb_frames(),
            r.spec_has_b_frames() == old(self).spec_has_b_frames(),
            r.spec_closed_gop() == old(self).spec_closed_gop(),
            r.spec_bits_per_raw_sample() == old(self).spec_bits_per_raw_sample(),
            r.spec_dimensions() == old(self).spec_dimensions(),
            r.spec_visible_rect() == old(self).spec_visible_rect(),
            r.spec_sample_aspect_ratio() == old(self).spec_sample_aspect_ratio(),
            r.spec_pixel_format() == old(self).spec_pixel_format(),
            r.spec_color() == old(self).spec_color(),
            r.spec_hdr_static() == old(self).spec_hdr_static(),
            r.spec_rotation() == old(self).spec_rotation(),
            r.spec_frame_rate() == old(self).spec_frame_rate(),
            r.spec_avg_frame_rate() == old(self).spec_avg_frame_rate(),
            r.spec_field_order() == old(self).spec_field_order(),
            r.spec_stereo_mode() == old(self).spec_stereo_mode(),
            r.spec_dovi() == old(self).spec_dovi(),
            r.spec_has_embedded_captions() == old(self).spec_has_embedded_captions(),
            r.spec_disposition() == old(self).spec_disposition(),
            r.spec_is_primary() == old(self).spec_is_primary(),
            r.spec_auto_selected() == old(self).spec_auto_selected(),
            r.spec_scenes() == old(self).spec_scenes(),
            r.spec_metadata() == old(self).spec_metadata(),
            r.spec_index_status() == old(self).spec_index_status(),
            r.spec_index_errors() == old(self).spec_index_errors(),
            r.spec_provenance() == old(self).spec_provenance(),
    {
        proof {
            use_type_invariant(&*self);
        }
        self.stream_index = v;
        self
    }

    /// Builder: replace `container_track_id`.
    pub fn with_container_track_id(self, v: Option<u64>) -> (r: Self)
        ensures
            r.spec_container_track_id() == v,
            r.spec_id() == self.spec_id(),
            r.spec_video_id() == self.spec_video_id(),
            r.spec_stream_index() == self.spec_stream_index(),
            r.spec_start_pts() == self.spec_start_pts(),
            r.spec_duration() == self.spec_duration(),
            r.spec_codec() == self.spec_codec(),
            r.spec_profile() == self.spec_profile(),
            r.spec_level() == self.spec_level(),
            r.spec_bit_rate() == self.spec_bit_rate(),
            r.spec_nb_frames() == self.spec_nb_frames(),
            r.spec_has_b_frames() == self.spec_has_b_frames(),
            r.spec_closed_gop() == self.spec_closed_gop(),
            r.spec_bits_per_raw_sample() == self.spec_bits_per_raw_sample(),
            r.spec_dimensions() == self.spec_dimensions(),
            r.spec_visible_rect() == self.spec_visible_rect(),
            r.spec_sample_aspect_ratio() == self.spec_sample_aspect_ratio(),
            r.spec_pixel_format() == self.spec_pixel_format(),
            r.spec_color() == self.spec_color(),
            r.spec_hdr_static() == self.spec_hdr_static(),
            r.spec_rotation() == self.spec_rotation(),
            r.spec_frame_rate() == self.spec_frame_rate(),
            r.spec_avg_frame_rate() == self.spec_avg_frame_rate(),
            r.spec_field_order() == self.spec_field_order(),
            r.spec_stereo_mode() == self.spec_stereo_mode(),
            r.spec_dovi() == self.spec_dovi(),
            r.spec_has_embedded_captions() == self.spec_has_embedded_captions(),
            r.spec_disposition() == self.spec_disposition(),
            r.spec_is_primary() == self.spec_is_primary(),
            r.spec_auto_selected() == self.spec_auto_selected(),
            r.spec_scenes() == self.spec_scenes(),
            r.spec_metadata() == self.spec_metadata(),
            r.spec_index_status() == self.spec_index_status(),
            r.spec_index_errors() == self.spec_index_errors(),
            r.spec_provenance() == self.spec_provenance(),
    {
        proof {
            use_type_invariant(&self);
        }
        let mut s = self;
        s.container_track_id = v;
        s
    }

    /// In-place mutator for `container_track_id`.
    pub fn set_container_track_id(&mut self, v: Option<u64>) -> (r: &mut Self)
        ensures
            *final(self) == *final(r),
            r.spec_container_track_id() == v,
            r.spec_id() == old(self).spec_id(),
            r.spec_video_id() == old(self).spec_video_id(),
            r.spec_stream_index() == old(self).spec_stream_index(),
            r.spec_start_pts() == old(self).spec_start_pts(),
            r.spec_duration() == old(self).spec_duration(),
            r.spec_codec() == old(self).spec_codec(),
            r.spec_profile() == old(self).spec_profile(),
            r.spec_level() == old(self).spec_level(),
            r.spec_bit_rate() == old(self).spec_bit_rate(),
            r.spec_nb_frames() == old(self).spec_nb_frames(),
            r.spec_has_b_frames() == old(self).spec_has_b_frames(),
            r.spec_closed_gop() == old(self).spec_closed_gop(),
            r.spec_bits_per_raw_sample() == old(self).spec_bits_per_raw_sample(),
            r.spec_dimensions() == old(self).spec_dimensions(),
            r.spec_visible_rect() == old(self).spec_visible_rect(),
            r.spec_sample_aspect_ratio() == old(self).spec_sample_aspect_ratio(),
            r.spec_pixel_format() == old(self).spec_pixel_format(),
            r.spec_color() == old(self).spec_color(),
            r.spec_hdr_static() == old(self).spec_hdr_static(),
            r.spec_rotation() == old(self).spec_rotation(),
            r.spec_frame_rate() == old(self).spec_frame_rate(),
            r.spec_avg_frame_rate() == old(self).spec_avg_frame_rate(),
            r.spec_field_order() == old(self).spec_field_order(),
            r.spec_stereo_mode() == old(self).spec_stereo_mode(),
            r.spec_dovi() == old(self).spec_dovi(),
            r.spec_has_embedded_captions() == old(self).spec_has_embedded_captions(),
            r.spec_disposition() == old(self).spec_disposition(),
            r.spec_is_primary() == old(self).spec_is_primary(),
            r.spec_auto_selected() == old(self).spec_auto_selected(),
            r.spec_scenes() == old(self).spec_scenes(),
            r.spec_metadata() == old(self).spec_metadata(),
            r.spec_index_status() == old(self).spec_index_status(),
            r.spec_index_errors() == old(self).spec_index_errors(),
            r.spec_provenance() == old(self).spec_provenance(),
    {
        proof {
            use_type_invariant(&*self);
        }
        self.container_track_id = v;
        self
    }

    /// Builder: replace `start_pts`.
    pub fn with_start_pts(self, v: Option<MediaTimestamp>) -> (r: Self)
        ensures
            r.spec_start_pts() == v,
            r.spec_id() == self.spec_id(),
            r.spec_video_id() == self.spec_video_id(),
            r.spec_stream_index() == self.spec_stream_index(),
            r.spec_container_track_id() == self.spec_container_track_id(),
            r.spec_duration() == self.spec_duration(),
            r.spec_codec() == self.spec_codec(),
            r.spec_profile() == self.spec_profile(),
            r.spec_level() == self.spec_level(),
            r.spec_bit_rate() == self.spec_bit_rate(),
            r.spec_nb_frames() == self.spec_nb_frames(),
            r.spec_has_b_frames() == self.spec_has_b_frames(),
            r.spec_closed_gop() == self.spec_closed_gop(),
            r.spec_bits_per_raw_sample() == self.spec_bits_per_raw_sample(),
            r.spec_dimensions() == self.spec_dimensions(),
            r.spec_visible_rect() == self.spec_visible_rect(),
            r.spec_sample_aspect_ratio() == self.spec_sample_aspect_ratio(),
            r.spec_pixel_format() == self.spec_pixel_format(),
            r.spec_color() == self.spec_color(),
            r.spec_hdr_static() == self.spec_hdr_static(),
            r.spec_rotation() == self.spec_rotation(),
            r.spec_frame_rate() == self.spec_frame_rate(),
            r.spec_avg_frame_rate() == self.spec_avg_frame_rate(),
            r.spec_field_order() == self.spec_field_order(),
            r.spec_stereo_mode() == self.spec_stereo_mode(),
            r.spec_dovi() == self.spec_dovi(),
            r.spec_has_embedded_captions() == self.spec_has_embedded_captions(),
            r.spec_disposition() == self.spec_disposition(),
            r.spec_is_primary() == self.spec_is_primary(),
            r.spec_auto_selected() == self.spec_auto_selected(),
            r.spec_scenes() == self.spec_scenes(),
            r.spec_metadata() == self.spec_metadata(),
            r.spec_index_status() == self.spec_index_status(),
            r.spec_index_errors() == self.spec_index_errors(),
            r.spec_provenance() == self.spec_provenance(),
    {
        proof {
            use_type_invariant(&self);
        }
        let mut s = self;
        s.start_pts = v;
        s
    }

    /// In-place mutator for `start_pts`.
    pub fn set_start_pts(&mut self, v: Option<MediaTimestamp>) -> (r: &mut Self)
        ensures
            *final(self) == *final(r),
            r.spec_start_pts() == v,
            r.spec_id() == old(self).spec_id(),
            r.spec_video_id() == old(self).spec_video_id(),
            r.spec_stream_index() == old(self).spec_stream_index(),
            r.spec_container_track_id() == old(self).spec_container_track_id(),
            r.spec_duration() == old(self).spec_duration(),
            r.spec_codec() == old(self).spec_codec(),
            r.spec_profile() == old(self).spec_profile(),
            r.spec_level() == old(self).spec_level(),
            r.spec_bit_rate() == old(self).spec_bit_rate(),
            r.spec_nb_frames() == old(self).spec_nb_frames(),
            r.spec_has_b_frames() == old(self).spec_has_b_frames(),
            r.spec_closed_gop() == old(self).spec_closed_gop(),
            r.spec_bits_per_raw_sample() == old(self).spec_bits_per_raw_sample(),
            r.spec_dimensions() == old(self).spec_dimensions(),
            r.spec_visible_rect() == old(self).spec_visible_rect(),
            r.spec_sample_aspect_ratio() == old(self).spec_sample_aspect_ratio(),
            r.spec_pixel_format() == old(self).spec_pixel_format(),
            r.spec_color() == old(self).spec_color(),
            r.spec_hdr_static() == old(self).spec_hdr_static(),
            r.spec_rotation() == old(self).spec_rotation(),
            r.spec_frame_rate() == old(self).spec_frame_rate(),
            r.spec_avg_frame_rate() == old(self).spec_avg_frame_rate(),
            r.spec_field_order() == old(self).spec_field_order(),
            r.spec_stereo_mode() == old(self).spec_stereo_mode(),
            r.spec_dovi() == old(self).spec_dovi(),
            r.spec_has_embedded_captions() == old(self).spec_has_embedded_captions(),
            r.spec_disposition() == old(self).spec_disposition(),
            r.spec_is_primary() == old(self).spec_is_primary(),
            r.spec_auto_selected() == old(self).spec_auto_selected(),
            r.spec_scenes() == old(self).spec_scenes(),
            r.spec_metadata() == old(self).spec_metadata(),
            r.spec_index_status() == old(self).spec_index_status(),
            r.spec_index_errors() == old(self).spec_index_errors(),
            r.spec_provenance() == old(self).spec_provenance(),
    {
        proof {
            use_type_invariant(&*self);
        }
        self.start_pts = v;
        self
    }

    /// Validating builder: replace `duration`; a present negative duration is
    /// rejected.
    pub fn try_with_duration(self, v: Option<MediaTimestamp>) -> (r: Result<Self, VideoTrackError>)
        ensures
            r is Err <==> spec_is_negative_duration(v),
            spec_is_negative_duration(v) <==> r == Err::<Self, VideoTrackError>(VideoTrackError::NegativeDuration),
            r matches Ok(x) ==> x.spec_duration() == v
                && x.spec_id() == self.spec_id()
                && x.spec_video_id() == self.spec_video_id()
                && x.spec_stream_index() == self.spec_stream_index()
                && x.spec_container_track_id() == self.spec_container_track_id()
                && x.spec_start_pts() == self.spec_start_pts()
                && x.spec_codec() == self.spec_codec()
                && x.spec_profile() == self.spec_profile()
                && x.spec_level() == self.spec_level()
                && x.spec_bit_rate() == self.spec_bit_rate()
                && x.spec_nb_frames() == self.spec_nb_frames()
                && x.spec_has_b_frames() == self.spec_has_b_frames()
                && x.spec_closed_gop() == self.spec_closed_gop()
                && x.spec_bits_per_raw_sample() == self.spec_bits_per_raw_sample()
                && x.spec_dimensions() == self.spec_dimensions()
                && x.spec_visible_rect() == self.spec_visible_rect()
                && x.spec_sample_aspect_ratio() == self.spec_sample_aspect_ratio()
                && x.spec_pixel_format() == self.spec_pixel_format()
                && x.spec_color() == self.spec_color()
                && x.spec_hdr_static() == self.spec_hdr_static()
                && x.spec_rotation() == self.spec_rotation()
                && x.spec_frame_rate() == self.spec_frame_rate()
                && x.spec_avg_frame_rate() == self.spec_avg_frame_rate()
                && x.spec_field_order() == self.spec_field_order()
                && x.spec_stereo_mode() == self.spec_stereo_mode()
                && x.spec_dovi() == self.spec_dovi()
                && x.spec_has_embedded_captions() == self.spec_has_embedded_captions()
                && x.spec_disposition() == self.spec_disposition()
                && x.spec_is_primary() == self.spec_is_primary()
                && x.spec_auto_selected() == self.spec_auto_selected()
                && x.spec_scenes() == self.spec_scenes()
                && x.spec_metadata() == self.spec_metadata()
                && x.spec_index_status() == self.spec_index_status()
                && x.spec_index_errors() == self.spec_index_errors()
                && x.spec_provenance() == self.spec_provenance()
                ,
    {
        proof {
            use_type_invariant(&self);
        }
        if is_negative_duration(v) {
            return Err(VideoTrackError::NegativeDuration);
        }
        let mut s = self;
        s.duration = v;
        Ok(s)
    }

    /// Validating in-place mutator for `duration`; on rejection the track is
    /// unchanged.
    pub fn try_set_duration(&mut self, v: Option<MediaTimestamp>) -> (r: Result<&mut Self, VideoTrackError>)
        ensures
            spec_is_negative_duration(v) <==> r is Err,
            r matches Err(e) ==> e == VideoTrackError::NegativeDuration && *final(self) == *old(self),
            r matches Ok(x) ==> *final(self) == *final(x) && x.spec_duration() == v
                && x.spec_id() == old(self).spec_id()
                && x.spec_video_id() == old(self).spec_video_id()
                && x.spec_stream_index() == old(self).spec_stream_index()
                && x.spec_container_track_id() == old(self).spec_container_track_id()
                && x.spec_start_pts() == old(self).spec_start_pts()
                && x.spec_codec() == old(self).spec_codec()
                && x.spec_profile() == old(self).spec_profile()
                && x.spec_level() == old(self).spec_level()
                && x.spec_bit_rate() == old(self).spec_bit_rate()
                && x.spec_nb_frames() == old(self).spec_nb_frames()
                && x.spec_has_b_frames() == old(self).spec_has_b_frames()
                && x.spec_closed_gop() == old(self).spec_closed_gop()
                && x.spec_bits_per_raw_sample() == old(self).spec_bits_per_raw_sample()
                && x.spec_dimensions() == old(self).spec_dimensions()
                && x.spec_visible_rect() == old(self).spec_visible_rect()
                && x.spec_sample_aspect_ratio() == old(self).spec_sample_aspect_ratio()
                && x.spec_pixel_format() == old(self).spec_pixel_format()
                && x.spec_color() == old(self).spec_color()
                && x.spec_hdr_static() == old(self).spec_hdr_static()
                && x.spec_rotation() == old(self).spec_rotation()
                && x.spec_frame_rate() == old(self).spec_frame_rate()
                && x.spec_avg_frame_rate() == old(self).spec_avg_frame_rate()
                && x.spec_field_order() == old(self).spec_field_order()
                && x.spec_stereo_mode() == old(self).spec_stereo_mode()
                && x.spec_dovi() == old(self).spec_dovi()
                && x.spec_has_embedded_captions() == old(self).spec_has_embedded_captions()
                && x.spec_disposition() == old(self).spec_disposition()
                && x.spec_is_primary() == old(self).spec_is_primary()
                && x.spec_auto_selected() == old(self).spec_auto_selected()
                && x.spec_scenes() == old(self).spec_scenes()
                && x.spec_metadata() == old(self).spec_metadata()
                && x.spec_index_status() == old(self).spec_index_status()
                && x.spec_index_errors() == old(self).spec_index_errors()
                && x.spec_provenance() == old(self).spec_provenance()
                ,
    {
        proof {
            use_type_invariant(&*self);
        }
        if is_negative_duration(v) {
            return Err(VideoTrackError::NegativeDuration);
        }
        self.duration = v;
        Ok(self)
    }

    /// Builder: replace `codec`.
    pub fn with_codec(self, v: VideoCodec) -> (r: Self)
        ensures
            r.spec_codec() == v,
            r.spec_id() == self.spec_id(),
            r.spec_video_id() == self.spec_video_id(),
            r.spec_stream_index() == self.spec_stream_index(),
            r.spec_container_track_id() == self.spec_container_track_id(),
            r.spec_start_pts() == self.spec_start_pts(),
            r.spec_duration() == self.spec_duration(),
            r.spec_profile() == self.spec_profile(),
            r.spec_level() == self.spec_level(),
            r.spec_bit_rate() == self.spec_bit_rate(),
            r.spec_nb_frames() == self.spec_nb_frames(),
            r.spec_has_b_frames() == self.spec_has_b_frames(),
            r.spec_closed_gop() == self.spec_closed_gop(),
            r.spec_bits_per_raw_sample() == self.spec_bits_per_raw_sample(),
            r.spec_dimensions() == self.spec_dimensions(),
            r.spec_visible_rect() == self.spec_visible_rect(),
            r.spec_sample_aspect_ratio() == self.spec_sample_aspect_ratio(),
            r.spec_pixel_format() == self.spec_pixel_format(),
            r.spec_color() == self.spec_color(),
            r.spec_hdr_static() == self.spec_hdr_static(),
            r.spec_rotation() == self.spec_rotation(),
            r.spec_frame_rate() == self.spec_frame_rate(),
            r.spec_avg_frame_rate() == self.spec_avg_frame_rate(),
            r.spec_field_order() == self.spec_field_order(),
            r.spec_stereo_mode() == self.spec_stereo_mode(),
            r.spec_dovi() == self.spec_dovi(),
            r.spec_has_embedded_captions() == self.spec_has_embedded_captions(),
            r.spec_disposition() == self.spec_disposition(),
            r.spec_is_primary() == self.spec_is_primary(),
            r.spec_auto_selected() == self.spec_auto_selected(),
            r.spec_scenes() == self.spec_scenes(),
            r.spec_metadata() == self.spec_metadata(),
            r.spec_index_status() == self.spec_index_status(),
            r.spec_index_errors() == self.spec_index_errors(),
            r.spec_provenance() == self.spec_provenance(),
    {
        proof {
            use_type_invariant(&self);
        }
        let mut s = self;
        s.codec = v;
        s
    }

    /// In-place mutator for `codec`.
    pub fn set_codec(&mut self, v: VideoCodec) -> (r: &mut Self)
        ensures
            *final(self) == *final(r),
            r.spec_codec() == v,
            r.spec_id() == old(self).spec_id(),
            r.spec_video_id() == old(self).spec_video_id(),
            r.spec_stream_index() == old(self).spec_stream_index(),
            r.spec_container_track_id() == old(self).spec_container_track_id(),
            r.spec_start_pts() == old(self).spec_start_pts(),
            r.spec_duration() == old(self).spec_duration(),
            r.spec_profile() == old(self).spec_profile(),
            r.spec_level() == old(self).spec_level(),
            r.spec_bit_rate() == old(self).spec_bit_rate(),
            r.spec_nb_frames() == old(self).spec_nb_frames(),
            r.spec_has_b_frames() == old(self).spec_has_b_frames(),
            r.spec_closed_gop() == old(self).spec_closed_gop(),
            r.spec_bits_per_raw_sample() == old(self).spec_bits_per_raw_sample(),
            r.spec_dimensions() == old(self).spec_dimensions(),
            r.spec_visible_rect() == old(self).spec_visible_rect(),
            r.spec_sample_aspect_ratio() == old(self).spec_sample_aspect_ratio(),
            r.spec_pixel_format() == old(self).spec_pixel_format(),
            r.spec_color() == old(self).spec_color(),
            r.spec_hdr_static() == old(self).spec_hdr_static(),
            r.spec_rotation() == old(self).spec_rotation(),
            r.spec_frame_rate() == old(self).spec_frame_rate(),
            r.spec_avg_frame_rate() == old(self).spec_avg_frame_rate(),
            r.spec_field_order() == old(self).spec_field_order(),
            r.spec_stereo_mode() == old(self).spec_stereo_mode(),
            r.spec_dovi() == old(self).spec_dovi(),
            r.spec_has_embedded_captions() == old(self).spec_has_embedded_captions(),
            r.spec_disposition() == old(self).spec_disposition(),
            r.spec_is_primary() == old(self).spec_is_primary(),
            r.spec_auto_selected() == old(self).spec_auto_selected(),
            r.spec_scenes() == old(self).spec_scenes(),
            r.spec_metadata() == old(self).spec_metadata(),
            r.spec_index_status() == old(self).spec_index_status(),
            r.spec_index_errors() == old(self).spec_index_errors(),
            r.spec_provenance() == old(self).spec_provenance(),
    {
        proof {
            use_type_invariant(&*self);
        }
        self.codec = v;
        self
    }

    /// Builder: replace `profile`.
    pub fn with_profile(self, v: Option<String>) -> (r: Self)
        ensures
            r.spec_profile() == v,
            r.spec_id() == self.spec_id(),
            r.spec_video_id() == self.spec_video_id(),
            r.spec_stream_index() == self.spec_stream_index(),
            r.spec_container_track_id() == self.spec_container_track_id(),
            r.spec_start_pts() == self.spec_start_pts(),
            r.spec_duration() == self.spec_duration(),
            r.spec_codec() == self.spec_codec(),
            r.spec_level() == self.spec_level(),
            r.spec_bit_rate() == self.spec_bit_rate(),
            r.spec_nb_frames() == self.spec_nb_frames(),
            r.spec_has_b_frames() == self.spec_has_b_frames(),
            r.spec_closed_gop() == self.spec_closed_gop(),
            r.spec_bits_per_raw_sample() == self.spec_bits_per_raw_sample(),
            r.spec_dimensions() == self.spec_dimensions(),
            r.spec_visible_rect() == self.spec_visible_rect(),
            r.spec_sample_aspect_ratio() == self.spec_sample_aspect_ratio(),
            r.spec_pixel_format() == self.spec_pixel_format(),
            r.spec_color() == self.spec_color(),
            r.spec_hdr_static() == self.spec_hdr_static(),
            r.spec_rotation() == self.spec_rotation(),
            r.spec_frame_rate() == self.spec_frame_rate(),
            r.spec_avg_frame_rate() == self.spec_avg_frame_rate(),
            r.spec_field_order() == self.spec_field_order(),
            r.spec_stereo_mode() == self.spec_stereo_mode(),
            r.spec_dovi() == self.spec_dovi(),
            r.spec_has_embedded_captions() == self.spec_has_embedded_captions(),
            r.spec_disposition() == self.spec_disposition(),
            r.spec_is_primary() == self.spec_is_primary(),
            r.spec_auto_selected() == self.spec_auto_selected(),
            r.spec_scenes() == self.spec_scenes(),
            r.spec_metadata() == self.spec_metadata(),
            r.spec_index_status() == self.spec_index_status(),
            r.spec_index_errors() == self.spec_index_errors(),
            r.spec_provenance() == self.spec_provenance(),
    {
        proof {
            use_type_invariant(&self);
        }
        let mut s = self;
        s.profile = v;
        s
    }

    /// In-place mutator for `profile`.
    pub fn set_profile(&mut self, v: Option<String>) -> (r: &mut Self)
        ensures
            *final(self) == *final(r),
            r.spec_profile() == v,
            r.spec_id() == old(self).spec_id(),
            r.spec_video_id() == old(self).spec_video_id(),
            r.spec_stream_index() == old(self).spec_stream_index(),
            r.spec_container_track_id() == old(self).spec_container_track_id(),
            r.spec_start_pts() == old(self).spec_start_pts(),
            r.spec_duration() == old(self).spec_duration(),
            r.spec_codec() == old(self).spec_codec(),
            r.spec_level() == old(self).spec_level(),
            r.spec_bit_rate() == old(self).spec_bit_rate(),
            r.spec_nb_frames() == old(self).spec_nb_frames(),
            r.spec_has_b_frames() == old(self).spec_has_b_frames(),
            r.spec_closed_gop() == old(self).spec_closed_gop(),
            r.spec_bits_per_raw_sample() == old(self).spec_bits_per_raw_sample(),
            r.spec_dimensions() == old(self).spec_dimensions(),
            r.spec_visible_rect() == old(self).spec_visible_rect(),
            r.spec_sample_aspect_ratio() == old(self).spec_sample_aspect_ratio(),
            r.spec_pixel_format() == old(self).spec_pixel_format(),
            r.spec_color() == old(self).spec_color(),
            r.spec_hdr_static() == old(self).spec_hdr_static(),
            r.spec_rotation() == old(self).spec_rotation(),
            r.spec_frame_rate() == old(self).spec_frame_rate(),
            r.spec_avg_frame_rate() == old(self).spec_avg_frame_rate(),
            r.spec_field_order() == old(self).spec_field_order(),
            r.spec_stereo_mode() == old(self).spec_stereo_mode(),
            r.spec_dovi() == old(self).spec_dovi(),
            r.spec_has_embedded_captions() == old(self).spec_has_embedded_captions(),
            r.spec_disposition() == old(self).spec_disposition(),
            r.spec_is_primary() == old(self).spec_is_primary(),
            r.spec_auto_selected() == old(self).spec_auto_selected(),
            r.spec_scenes() == old(self).spec_scenes(),
            r.spec_metadata() == old(self).spec_metadata(),
            r.spec_index_status() == old(self).spec_index_status(),
            r.spec_index_errors() == old(self).spec_index_errors(),
            r.spec_provenance() == old(self).spec_provenance(),
    {
        proof {
            use_type_invariant(&*self);
        }
        self.profile = v;
        self
    }

    /// Builder: replace `level`.
    pub fn with_level(self, v: Option<u16>) -> (r: Self)
        ensures
            r.spec_level() == v,
            r.spec_id() == self.spec_id(),
            r.spec_video_id() == self.spec_video_id(),
            r.spec_stream_index() == self.spec_stream_index(),
            r.spec_container_track_id() == self.spec_container_track_id(),
            r.spec_start_pts() == self.spec_start_pts(),
            r.spec_duration() == self.spec_duration(),
            r.spec_codec() == self.spec_codec(),
            r.spec_profile() == self.spec_profile(),
            r.spec_bit_rate() == self.spec_bit_rate(),
            r.spec_nb_frames() == self.spec_nb_frames(),
            r.spec_has_b_frames() == self.spec_has_b_frames(),
            r.spec_closed_gop() == self.spec_closed_gop(),
            r.spec_bits_per_raw_sample() == self.spec_bits_per_raw_sample(),
            r.spec_dimensions() == self.spec_dimensions(),
            r.spec_visible_rect() == self.spec_visible_rect(),
            r.spec_sample_aspect_ratio() == self.spec_sample_aspect_ratio(),
            r.spec_pixel_format() == self.spec_pixel_format(),
            r.spec_color() == self.spec_color(),
            r.spec_hdr_static() == self.spec_hdr_static(),
            r.spec_rotation() == self.spec_rotation(),
            r.spec_frame_rate() == self.spec_frame_rate(),
            r.spec_avg_frame_rate() == self.spec_avg_frame_rate(),
            r.spec_field_order() == self.spec_field_order(),
            r.spec_stereo_mode() == self.spec_stereo_mode(),
            r.spec_dovi() == self.spec_dovi(),
            r.spec_has_embedded_captions() == self.spec_has_embedded_captions(),
            r.spec_disposition() == self.spec_disposition(),
            r.spec_is_primary() == self.spec_is_primary(),
            r.spec_auto_selected() == self.spec_auto_selected(),
            r.spec_scenes() == self.spec_scenes(),
            r.spec_metadata() == self.spec_metadata(),
            r.spec_index_status() == self.spec_index_status(),
            r.spec_index_errors() == self.spec_index_errors(),
            r.spec_provenance() == self.spec_provenance(),
    {
        proof {
            use_type_invariant(&self);
        }
        let mut s = self;
        s.level = v;
        s
    }

    /// In-place mutator for `level`.
    pub fn set_level(&mut self, v: Option<u16>) -> (r: &mut Self)
        ensures
            *final(self) == *final(r),
            r.spec_level() == v,
            r.spec_id() == old(self).spec_id(),
            r.spec_video_id() == old(self).spec_video_id(),
            r.spec_stream_index() == old(self).spec_stream_index(),
            r.spec_container_track_id() == old(self).spec_container_track_id(),
            r.spec_start_pts() == old(self).spec_start_pts(),
            r.spec_duration() == old(self).spec_duration(),
            r.spec_codec() == old(self).spec_codec(),
            r.spec_profile() == old(self).spec_profile(),
            r.spec_bit_rate() == old(self).spec_bit_rate(),
            r.spec_nb_frames() == old(self).spec_nb_frames(),
            r.spec_has_b_frames() == old(self).spec_has_b_frames(),
            r.spec_closed_gop() == old(self).spec_closed_gop(),
            r.spec_bits_per_raw_sample() == old(self).spec_bits_per_raw_sample(),
            r.spec_dimensions() == old(self).spec_dimensions(),
            r.spec_visible_rect() == old(self).spec_visible_rect(),
            r.spec_sample_aspect_ratio() == old(self).spec_sample_aspect_ratio(),
            r.spec_pixel_format() == old(self).spec_pixel_format(),
            r.spec_color() == old(self).spec_color(),
            r.spec_hdr_static() == old(self).spec_hdr_static(),
            r.spec_rotation() == old(self).spec_rotation(),
            r.spec_frame_rate() == old(self).spec_frame_rate(),
            r.spec_avg_frame_rate() == old(self).spec_avg_frame_rate(),
            r.spec_field_order() == old(self).spec_field_order(),
            r.spec_stereo_mode() == old(self).spec_stereo_mode(),
            r.spec_dovi() == old(self).spec_dovi(),
            r.spec_has_embedded_captions() == old(self).spec_has_embedded_captions(),
            r.spec_disposition() == old(self).spec_disposition(),
            r.spec_is_primary() == old(self).spec_is_primary(),
            r.spec_auto_selected() == old(self).spec_auto_selected(),
            r.spec_scenes() == old(self).spec_scenes(),
            r.spec_metadata() == old(self).spec_metadata(),
            r.spec_index_status() == old(self).spec_index_status(),
            r.spec_index_errors() == old(self).spec_index_errors(),
            r.spec_provenance() == old(self).spec_provenance(),
    {
        proof {
            use_type_invariant(&*self);
        }
        self.level = v;
        self
    }

    /// Builder: replace `bit_rate`.
    pub fn with_bit_rate(self, v: u64) -> (r: Self)
        ensures
            r.spec_bit_rate() == v,
            r.spec_id() == self.spec_id(),
            r.spec_video_id() == self.spec_video_id(),
            r.spec_stream_index() == self.spec_stream_index(),
            r.spec_container_track_id() == self.spec_container_track_id(),
            r.spec_start_pts() == self.spec_start_pts(),
            r.spec_duration() == self.spec_duration(),
            r.spec_codec() == self.spec_codec(),
            r.spec_profile() == self.spec_profile(),
            r.spec_level() == self.spec_level(),
            r.spec_nb_frames() == self.spec_nb_frames(),
            r.spec_has_b_frames() == self.spec_has_b_frames(),
            r.spec_closed_gop() == self.spec_closed_gop(),
            r.spec_bits_per_raw_sample() == self.spec_bits_per_raw_sample(),
            r.spec_dimensions() == self.spec_dimensions(),
            r.spec_visible_rect() == self.spec_visible_rect(),
            r.spec_sample_aspect_ratio() == self.spec_sample_aspect_ratio(),
            r.spec_pixel_format() == self.spec_pixel_format(),
            r.spec_color() == self.spec_color(),
            r.spec_hdr_static() == self.spec_hdr_static(),
            r.spec_rotation() == self.spec_rotation(),
            r.spec_frame_rate() == self.spec_frame_rate(),
            r.spec_avg_frame_rate() == self.spec_avg_frame_rate(),
            r.spec_field_order() == self.spec_field_order(),
            r.spec_stereo_mode() == self.spec_stereo_mode(),
            r.spec_dovi() == self.spec_dovi(),
            r.spec_has_embedded_captions() == self.spec_has_embedded_captions(),
            r.spec_disposition() == self.spec_disposition(),
            r.spec_is_primary() == self.spec_is_primary(),
            r.spec_auto_selected() == self.spec_auto_selected(),
            r.spec_scenes() == self.spec_scenes(),
            r.spec_metadata() == self.spec_metadata(),
            r.spec_index_status() == self.spec_index_status(),
            r.spec_index_errors() == self.spec_index_errors(),
            r.spec_provenance() == self.spec_provenance(),
    {
        proof {
            use_type_invariant(&self);
        }
        let mut s = self;
        s.bit_rate = v;
        s
    }

    /// In-place mutator for `bit_rate`.
    pub fn set_bit_rate(&mut self, v: u64) -> (r: &mut Self)
        ensures
            *final(self) == *final(r),
            r.spec_bit_rate() == v,
            r.spec_id() == old(self).spec_id(),
            r.spec_video_id() == old(self).spec_video_id(),
            r.spec_stream_index() == old(self).spec_stream_index(),
            r.spec_container_track_id() == old(self).spec_container_track_id(),
            r.spec_start_pts() == old(self).spec_start_pts(),
            r.spec_duration() == old(self).spec_duration(),
            r.spec_codec() == old(self).spec_codec(),
            r.spec_profile() == old(self).spec_profile(),
            r.spec_level() == old(self).spec_level(),
            r.spec_nb_frames() == old(self).spec_nb_frames(),
            r.spec_has_b_frames() == old(self).spec_has_b_frames(),
            r.spec_closed_gop() == old(self).spec_closed_gop(),
            r.spec_bits_per_raw_sample() == old(self).spec_bits_per_raw_sample(),
            r.spec_dimensions() == old(self).spec_dimensions(),
            r.spec_visible_rect() == old(self).spec_visible_rect(),
            r.spec_sample_aspect_ratio() == old(self).spec_sample_aspect_ratio(),
            r.spec_pixel_format() == old(self).spec_pixel_format(),
            r.spec_color() == old(self).spec_color(),
            r.spec_hdr_static() == old(self).spec_hdr_static(),
            r.spec_rotation() == old(self).spec_rotation(),
            r.spec_frame_rate() == old(self).spec_frame_rate(),
            r.spec_avg_frame_rate() == old(self).spec_avg_frame_rate(),
            r.spec_field_order() == old(self).spec_field_order(),
            r.spec_stereo_mode() == old(self).spec_stereo_mode(),
            r.spec_dovi() == old(self).spec_dovi(),
            r.spec_has_embedded_captions() == old(self).spec_has_embedded_captions(),
            r.spec_disposition() == old(self).spec_disposition(),
            r.spec_is_primary() == old(self).spec_is_primary(),
            r.spec_auto_selected() == old(self).spec_auto_selected(),
            r.spec_scenes() == old(self).spec_scenes(),
            r.spec_metadata() == old(self).spec_metadata(),
            r.spec_index_status() == old(self).spec_index_status(),
            r.spec_index_errors() == old(self).spec_index_errors(),
            r.spec_provenance() == old(self).spec_provenance(),
    {
        proof {
            use_type_invariant(&*self);
        }
        self.bit_rate = v;
        self
    }

    /// Builder: replace `nb_frames`.
    pub fn with_nb_frames(self, v: Option<u64>) -> (r: Self)
        ensures
            r.spec_nb_frames() == v,
            r.spec_id() == self.spec_id(),
            r.spec_video_id() == self.spec_video_id(),
            r.spec_stream_index() == self.spec_stream_index(),
            r.spec_container_track_id() == self.spec_container_track_id(),
            r.spec_start_pts() == self.spec_start_pts(),
            r.spec_duration() == self.spec_duration(),
            r.spec_codec() == self.spec_codec(),
            r.spec_profile() == self.spec_profile(),
            r.spec_level() == self.spec_level(),
            r.spec_bit_rate() == self.spec_bit_rate(),
            r.spec_has_b_frames() == self.spec_has_b_frames(),
            r.spec_closed_gop() == self.spec_closed_gop(),
            r.spec_bits_per_raw_sample() == self.spec_bits_per_raw_sample(),
            r.spec_dimensions() == self.spec_dimensions(),
            r.spec_visible_rect() == self.spec_visible_rect(),
            r.spec_sample_aspect_ratio() == self.spec_sample_aspect_ratio(),
            r.spec_pixel_format() == self.spec_pixel_format(),
            r.spec_color() == self.spec_color(),
            r.spec_hdr_static() == self.spec_hdr_static(),
            r.spec_rotation() == self.spec_rotation(),
            r.spec_frame_rate() == self.spec_frame_rate(),
            r.spec_avg_frame_rate() == self.spec_avg_frame_rate(),
            r.spec_field_order() == self.spec_field_order(),
            r.spec_stereo_mode() == self.spec_stereo_mode(),
            r.spec_dovi() == self.spec_dovi(),
            r.spec_has_embedded_captions() == self.spec_has_embedded_captions(),
            r.spec_disposition() == self.spec_disposition(),
            r.spec_is_primary() == self.spec_is_primary(),
            r.spec_auto_selected() == self.spec_auto_selected(),
            r.spec_scenes() == self.spec_scenes(),
            r.spec_metadata() == self.spec_metadata(),
            r.spec_index_status() == self.spec_index_status(),
            r.spec_index_errors() == self.spec_index_errors(),
            r.spec_provenance() == self.spec_provenance(),
    {
        proof {
            use_type_invariant(&self);
        }
        let mut s = self;
        s.nb_frames = v;
        s
    }

    /// In-place mutator for `nb_frames`.
    pub fn set_nb_frames(&mut self, v: Option<u64>) -> (r: &mut Self)
        ensures
            *final(self) == *final(r),
            r.spec_nb_frames() == v,
            r.spec_id() == old(self).spec_id(),
            r.spec_video_id() == old(self).spec_video_id(),
            r.spec_stream_index() == old(self).spec_stream_index(),
            r.spec_container_track_id() == old(self).spec_container_track_id(),
            r.spec_start_pts() == old(self).spec_start_pts(),
            r.spec_duration() == old(self).spec_duration(),
            r.spec_codec() == old(self).spec_codec(),
            r.spec_profile() == old(self).spec_profile(),
            r.spec_level() == old(self).spec_level(),
            r.spec_bit_rate() == old(self).spec_bit_rate(),
            r.spec_has_b_frames() == old(self).spec_has_b_frames(),
            r.spec_closed_gop() == old(self).spec_closed_gop(),
            r.spec_bits_per_raw_sample() == old(self).spec_bits_per_raw_sample(),
            r.spec_dimensions() == old(self).spec_dimensions(),
            r.spec_visible_rect() == old(self).spec_visible_rect(),
            r.spec_sample_aspect_ratio() == old(self).spec_sample_aspect_ratio(),
            r.spec_pixel_format() == old(self).spec_pixel_format(),
            r.spec_color() == old(self).spec_color(),
            r.spec_hdr_static() == old(self).spec_hdr_static(),
            r.spec_rotation() == old(self).spec_rotation(),
            r.spec_frame_rate() == old(self).spec_frame_rate(),
            r.spec_avg_frame_rate() == old(self).spec_avg_frame_rate(),
            r.spec_field_order() == old(self).spec_field_order(),
            r.spec_stereo_mode() == old(self).spec_stereo_mode(),
            r.spec_dovi() == old(self).spec_dovi(),
            r.spec_has_embedded_captions() == old(self).spec_has_embedded_captions(),
            r.spec_disposition() == old(self).spec_disposition(),
            r.spec_is_primary() == old(self).spec_is_primary(),
            r.spec_auto_selected() == old(self).spec_auto_selected(),
            r.spec_scenes() == old(self).spec_scenes(),
            r.spec_metadata() == old(self).spec_metadata(),
            r.spec_index_status() == old(self).spec_index_status(),
            r.spec_index_errors() == old(self).spec_index_errors(),
            r.spec_provenance() == old(self).spec_provenance(),
    {
        proof {
            use_type_invariant(&*self);
        }
        self.nb_frames = v;
        self
    }

    /// Builder: replace `has_b_frames`.
    pub fn with_has_b_frames(self, v: bool) -> (r: Self)
        ensures
            r.spec_has_b_frames() == v,
            r.spec_id() == self.spec_id(),
            r.spec_video_id() == self.spec_video_id(),
            r.spec_stream_index() == self.spec_stream_index(),
            r.spec_container_track_id() == self.spec_container_track_id(),
            r.spec_start_pts() == self.spec_start_pts(),
            r.spec_duration() == self.spec_duration(),
            r.spec_codec() == self.spec_codec(),
            r.spec_profile() == self.spec_profile(),
            r.spec_level() == self.spec_level(),
            r.spec_bit_rate() == self.spec_bit_rate(),
            r.spec_nb_frames() == self.spec_nb_frames(),
            r.spec_closed_gop() == self.spec_closed_gop(),
            r.spec_bits_per_raw_sample() == self.spec_bits_per_raw_sample(),
            r.spec_dimensions() == self.spec_dimensions(),
            r.spec_visible_rect() == self.spec_visible_rect(),
            r.spec_sample_aspect_ratio() == self.spec_sample_aspect_ratio(),
            r.spec_pixel_format() == self.spec_pixel_format(),
            r.spec_color() == self.spec_color(),
            r.spec_hdr_static() == self.spec_hdr_static(),
            r.spec_rotation() == self.spec_rotation(),
            r.spec_frame_rate() == self.spec_frame_rate(),
            r.spec_avg_frame_rate() == self.spec_avg_frame_rate(),
            r.spec_field_order() == self.spec_field_order(),
            r.spec_stereo_mode() == self.spec_stereo_mode(),
            r.spec_dovi() == self.spec_dovi(),
            r.spec_has_embedded_captions() == self.spec_has_embedded_captions(),
            r.spec_disposition() == self.spec_disposition(),
            r.spec_is_primary() == self.spec_is_primary(),
            r.spec_auto_selected() == self.spec_auto_selected(),
            r.spec_scenes() == self.spec_scenes(),
            r.spec_metadata() == self.spec_metadata(),
            r.spec_index_status() == self.spec_index_status(),
            r.spec_index_errors() == self.spec_index_errors(),
            r.spec_provenance() == self.spec_provenance(),
    {
        proof {
            use_type_invariant(&self);
        }
        let mut s = self;
        s.has_b_frames = v;
        s
    }

    /// In-place mutator for `has_b_frames`.
    pub fn set_has_b_frames(&mut self, v: bool) -> (r: &mut Self)
        ensures
            *final(self) == *final(r),
            r.spec_has_b_frames() == v,
            r.spec_id() == old(self).spec_id(),
            r.spec_video_id() == old(self).spec_video_id(),
            r.spec_stream_index() == old(self).spec_stream_index(),
            r.spec_container_track_id() == old(self).spec_container_track_id(),
            r.spec_start_pts() == old(self).spec_start_pts(),
            r.spec_duration() == old(self).spec_duration(),
            r.spec_codec() == old(self).spec_codec(),
            r.spec_profile() == old(self).spec_profile(),
            r.spec_level() == old(self).spec_level(),
            r.spec_bit_rate() == old(self).spec_bit_rate(),
            r.spec_nb_frames() == old(self).spec_nb_frames(),
            r.spec_closed_gop() == old(self).spec_closed_gop(),
            r.spec_bits_per_raw_sample() == old(self).spec_bits_per_raw_sample(),
            r.spec_dimensions() == old(self).spec_dimensions(),
            r.spec_visible_rect() == old(self).spec_visible_rect(),
            r.spec_sample_aspect_ratio() == old(self).spec_sample_aspect_ratio(),
            r.spec_pixel_format() == old(self).spec_pixel_format(),
            r.spec_color() == old(self).spec_color(),
            r.spec_hdr_static() == old(self).spec_hdr_static(),
            r.spec_rotation() == old(self).spec_rotation(),
            r.spec_frame_rate() == old(self).spec_frame_rate(),
            r.spec_avg_frame_rate() == old(self).spec_avg_frame_rate(),
            r.spec_field_order() == old(self).spec_field_order(),
            r.spec_stereo_mode() == old(self).spec_stereo_mode(),
            r.spec_dovi() == old(self).spec_dovi(),
            r.spec_has_embedded_captions() == old(self).spec_has_embedded_captions(),
            r.spec_disposition() == old(self).spec_disposition(),
            r.spec_is_primary() == old(self).spec_is_primary(),
            r.spec_auto_selected() == old(self).spec_auto_selected(),
            r.spec_scenes() == old(self).spec_scenes(),
            r.spec_metadata() == old(self).spec_metadata(),
            r.spec_index_status() == old(self).spec_index_status(),
            r.spec_index_errors() == old(self).spec_index_errors(),
            r.spec_provenance() == old(self).spec_provenance(),
    {
        proof {
            use_type_invariant(&*self);
        }
        self.has_b_frames = v;
        self
    }

    /// Builder: replace `closed_gop`.
    pub fn with_closed_gop(self, v: Option<bool>) -> (r: Self)
        ensures
            r.spec_closed_gop() == v,
            r.spec_id() == self.spec_id(),
            r.spec_video_id() == self.spec_video_id(),
            r.spec_stream_index() == self.spec_stream_index(),
            r.spec_container_track_id() == self.spec_container_track_id(),
            r.spec_start_pts() == self.spec_start_pts(),
            r.spec_duration() == self.spec_duration(),
            r.spec_codec() == self.spec_codec(),
            r.spec_profile() == self.spec_profile(),
            r.spec_level() == self.spec_level(),
            r.spec_bit_rate() == self.spec_bit_rate(),
            r.spec_nb_frames() == self.spec_nb_frames(),
            r.spec_has_b_frames() == self.spec_has_b_frames(),
            r.spec_bits_per_raw_sample() == self.spec_bits_per_raw_sample(),
            r.spec_dimensions() == self.spec_dimensions(),
            r.spec_visible_rect() == self.spec_visible_rect(),
            r.spec_sample_aspect_ratio() == self.spec_sample_aspect_ratio(),
            r.spec_pixel_format() == self.spec_pixel_format(),
            r.spec_color() == self.spec_color(),
            r.spec_hdr_static() == self.spec_hdr_static(),
            r.spec_rotation() == self.spec_rotation(),
            r.spec_frame_rate() == self.spec_frame_rate(),
            r.spec_avg_frame_rate() == self.spec_avg_frame_rate(),
            r.spec_field_order() == self.spec_field_order(),
            r.spec_stereo_mode() == self.spec_stereo_mode(),
            r.spec_dovi() == self.spec_dovi(),
            r.spec_has_embedded_captions() == self.spec_has_embedded_captions(),
            r.spec_disposition() == self.spec_disposition(),
            r.spec_is_primary() == self.spec_is_primary(),
            r.spec_auto_selected() == self.spec_auto_selected(),
            r.spec_scenes() == self.spec_scenes(),
            r.spec_metadata() == self.spec_metadata(),
            r.spec_index_status() == self.spec_index_status(),
            r.spec_index_errors() == self.spec_index_errors(),
            r.spec_provenance() == self.spec_provenance(),
    {
        proof {
            use_type_invariant(&self);
        }
        let mut s = self;
        s.closed_gop = v;
        s
    }

    /// In-place mutator for `closed_gop`.
    pub fn set_closed_gop(&mut self, v: Option<bool>) -> (r: &mut Self)
        ensures
            *final(self) == *final(r),
            r.spec_closed_gop() == v,
            r.spec_id() == old(self).spec_id(),
            r.spec_video_id() == old(self).spec_video_id(),
            r.spec_stream_index() == old(self).spec_stream_index(),
            r.spec_container_track_id() == old(self).spec_container_track_id(),
            r.spec_start_pts() == old(self).spec_start_pts(),
            r.spec_duration() == old(self).spec_duration(),
            r.spec_codec() == old(self).spec_codec(),
            r.spec_profile() == old(self).spec_profile(),
            r.spec_level() == old(self).spec_level(),
            r.spec_bit_rate() == old(self).spec_bit_rate(),
            r.spec_nb_frames() == old(self).spec_nb_frames(),
            r.spec_has_b_frames() == old(self).spec_has_b_frames(),
            r.spec_bits_per_raw_sample() == old(self).spec_bits_per_raw_sample(),
            r.spec_dimensions() == old(self).spec_dimensions(),
            r.spec_visible_rect() == old(self).spec_visible_rect(),
            r.spec_sample_aspect_ratio() == old(self).spec_sample_aspect_ratio(),
            r.spec_pixel_format() == old(self).spec_pixel_format(),
            r.spec_color() == old(self).spec_color(),
            r.spec_hdr_static() == old(self).spec_hdr_static(),
            r.spec_rotation() == old(self).spec_rotation(),
            r.spec_frame_rate() == old(self).spec_frame_rate(),
            r.spec_avg_frame_rate() == old(self).spec_avg_frame_rate(),
            r.spec_field_order() == old(self).spec_field_order(),
            r.spec_stereo_mode() == old(self).spec_stereo_mode(),
            r.spec_dovi() == old(self).spec_dovi(),
            r.spec_has_embedded_captions() == old(self).spec_has_embedded_captions(),
            r.spec_disposition() == old(self).spec_disposition(),
            r.spec_is_primary() == old(self).spec_is_primary(),
            r.spec_auto_selected() == old(self).spec_auto_selected(),
            r.spec_scenes() == old(self).spec_scenes(),
            r.spec_metadata() == old(self).spec_metadata(),
            r.spec_index_status() == old(self).spec_index_status(),
            r.spec_index_errors() == old(self).spec_index_errors(),
            r.spec_provenance() == old(self).spec_provenance(),
    {
        proof {
            use_type_invariant(&*self);
        }
        self.closed_gop = v;
        self
    }

    /// Builder: replace `bits_per_raw_sample`.
    pub fn with_bits_per_raw_sample(self, v: Option<u8>) -> (r: Self)
        ensures
            r.spec_bits_per_raw_sample() == v,
            r.spec_id() == self.spec_id(),
            r.spec_video_id() == self.spec_video_id(),
            r.spec_stream_index() == self.spec_stream_index(),
            r.spec_container_track_id() == self.spec_container_track_id(),
            r.spec_start_pts() == self.spec_start_pts(),
            r.spec_duration() == self.spec_duration(),
            r.spec_codec() == self.spec_codec(),
            r.spec_profile() == self.spec_profile(),
            r.spec_level() == self.spec_level(),
            r.spec_bit_rate() == self.spec_bit_rate(),
            r.spec_nb_frames() == self.spec_nb_frames(),
            r.spec_has_b_frames() == self.spec_has_b_frames(),
            r.spec_closed_gop() == self.spec_closed_gop(),
            r.spec_dimensions() == self.spec_dimensions(),
            r.spec_visible_rect() == self.spec_visible_rect(),
            r.spec_sample_aspect_ratio() == self.spec_sample_aspect_ratio(),
            r.spec_pixel_format() == self.spec_pixel_format(),
            r.spec_color() == self.spec_color(),
            r.spec_hdr_static() == self.spec_hdr_static(),
            r.spec_rotation() == self.spec_rotation(),
            r.spec_frame_rate() == self.spec_frame_rate(),
            r.spec_avg_frame_rate() == self.spec_avg_frame_rate(),
            r.spec_field_order() == self.spec_field_order(),
            r.spec_stereo_mode() == self.spec_stereo_mode(),
            r.spec_dovi() == self.spec_dovi(),
            r.spec_has_embedded_captions() == self.spec_has_embedded_captions(),
            r.spec_disposition() == self.spec_disposition(),
            r.spec_is_primary() == self.spec_is_primary(),
            r.spec_auto_selected() == self.spec_auto_selected(),
            r.spec_scenes() == self.spec_scenes(),
            r.spec_metadata() == self.spec_metadata(),
            r.spec_index_status() == self.spec_index_status(),
            r.spec_index_errors() == self.spec_index_errors(),
            r.spec_provenance() == self.spec_provenance(),
    {
        proof {
            use_type_invariant(&self);
        }
        let mut s = self;
        s.bits_per_raw_sample = v;
        s
    }

    /// In-place mutator for `bits_per_raw_sample`.
    pub fn set_bits_per_raw_sample(&mut self, v: Option<u8>) -> (r: &mut Self)
        ensures
            *final(self) == *final(r),
            r.spec_bits_per_raw_sample() == v,
            r.spec_id() == old(self).spec_id(),
            r.spec_video_id() == old(self).spec_video_id(),
            r.spec_stream_index() == old(self).spec_stream_index(),
            r.spec_container_track_id() == old(self).spec_container_track_id(),
            r.spec_start_pts() == old(self).spec_start_pts(),
            r.spec_duration() == old(self).spec_duration(),
            r.spec_codec() == old(self).spec_codec(),
            r.spec_profile() == old(self).spec_profile(),
            r.spec_level() == old(self).spec_level(),
            r.spec_bit_rate() == old(self).spec_bit_rate(),
            r.spec_nb_frames() == old(self).spec_nb_frames(),
            r.spec_has_b_frames() == old(self).spec_has_b_frames(),
            r.spec_closed_gop() == old(self).spec_closed_gop(),
            r.spec_dimensions() == old(self).spec_dimensions(),
            r.spec_visible_rect() == old(self).spec_visible_rect(),
            r.spec_sample_aspect_ratio() == old(self).spec_sample_aspect_ratio(),
            r.spec_pixel_format() == old(self).spec_pixel_format(),
            r.spec_color() == old(self).spec_color(),
            r.spec_hdr_static() == old(self).spec_hdr_static(),
            r.spec_rotation() == old(self).spec_rotation(),
            r.spec_frame_rate() == old(self).spec_frame_rate(),
            r.spec_avg_frame_rate() == old(self).spec_avg_frame_rate(),
            r.spec_field_order() == old(self).spec_field_order(),
            r.spec_stereo_mode() == old(self).spec_stereo_mode(),
            r.spec_dovi() == old(self).spec_dovi(),
            r.spec_has_embedded_captions() == old(self).spec_has_embedded_captions(),
            r.spec_disposition() == old(self).spec_disposition(),
            r.spec_is_primary() == old(self).spec_is_primary(),
            r.spec_auto_selected() == old(self).spec_auto_selected(),
            r.spec_scenes() == old(self).spec_scenes(),
            r.spec_metadata() == old(self).spec_metadata(),
            r.spec_index_status() == old(self).spec_index_status(),
            r.spec_index_errors() == old(self).spec_index_errors(),
            r.spec_provenance() == old(self).spec_provenance(),
    {
        proof {
            use_type_invariant(&*self);
        }
        self.bits_per_raw_sample = v;
        self
    }

    /// Fallible builder for the coded size: a partially-zero size is rejected,
    /// and so is one that no longer contains the current crop.
    pub fn try_with_dimensions(self, v: Dimensions) -> (r: Result<Self, VideoTrackError>)
        ensures
            (r is Err) <==> dimensions_error(v, self.spec_visible_rect()) is Some,
            r matches Err(e) ==> dimensions_error(v, self.spec_visible_rect()) == Some(e),
            r matches Ok(x) ==> x.spec_dimensions() == v
                && x.spec_id() == self.spec_id()
                && x.spec_video_id() == self.spec_video_id()
                && x.spec_stream_index() == self.spec_stream_index()
                && x.spec_container_track_id() == self.spec_container_track_id()
                && x.spec_start_pts() == self.spec_start_pts()
                && x.spec_duration() == self.spec_duration()
                && x.spec_codec() == self.spec_codec()
                && x.spec_profile() == self.spec_profile()
                && x.spec_level() == self.spec_level()
                && x.spec_bit_rate() == self.spec_bit_rate()
                && x.spec_nb_frames() == self.spec_nb_frames()
                && x.spec_has_b_frames() == self.spec_has_b_frames()
                && x.spec_closed_gop() == self.spec_closed_gop()
                && x.spec_bits_per_raw_sample() == self.spec_bits_per_raw_sample()
                && x.spec_visible_rect() == self.spec_visible_rect()
                && x.spec_sample_aspect_ratio() == self.spec_sample_aspect_ratio()
                && x.spec_pixel_format() == self.spec_pixel_format()
                && x.spec_color() == self.spec_color()
                && x.spec_hdr_static() == self.spec_hdr_static()
                && x.spec_rotation() == self.spec_rotation()
                && x.spec_frame_rate() == self.spec_frame_rate()
                && x.spec_avg_frame_rate() == self.spec_avg_frame_rate()
                && x.spec_field_order() == self.spec_field_order()
                && x.spec_stereo_mode() == self.spec_stereo_mode()
                && x.spec_dovi() == self.spec_dovi()
                && x.spec_has_embedded_captions() == self.spec_has_embedded_captions()
                && x.spec_disposition() == self.spec_disposition()
                && x.spec_is_primary() == self.spec_is_primary()
                && x.spec_auto_selected() == self.spec_auto_selected()
                && x.spec_scenes() == self.spec_scenes()
                && x.spec_metadata() == self.spec_metadata()
                && x.spec_index_status() == self.spec_index_status()
                && x.spec_index_errors() == self.spec_index_errors()
                && x.spec_provenance() == self.spec_provenance()
                ,
    {
        let mut s = self;
        match s.try_set_dimensions(v) {
            Err(e) => Err(e),
            Ok(_) => Ok(s),
        }
    }

    /// Fallible in-place mutator for the coded size; on rejection the track
    /// is unchanged.
    pub fn try_set_dimensions(&mut self, v: Dimensions) -> (r: Result<&mut Self, VideoTrackError>)
        ensures
            (r is Err) <==> dimensions_error(v, old(self).spec_visible_rect()) is Some,
            r matches Err(e) ==> dimensions_error(v, old(self).spec_visible_rect()) == Some(e) && *final(self)
                == *old(self),
            r matches Ok(x) ==> *final(self) == *final(x) && x.spec_dimensions() == v
                && x.spec_id() == old(self).spec_id()
                && x.spec_video_id() == old(self).spec_video_id()
                && x.spec_stream_index() == old(self).spec_stream_index()
                && x.spec_container_track_id() == old(self).spec_container_track_id()
                && x.spec_start_pts() == old(self).spec_start_pts()
                && x.spec_duration() == old(self).spec_duration()
                && x.spec_codec() == old(self).spec_codec()
                && x.spec_profile() == old(self).spec_profile()
                && x.spec_level() == old(self).spec_level()
                && x.spec_bit_rate() == old(self).spec_bit_rate()
                && x.spec_nb_frames() == old(self).spec_nb_frames()
                && x.spec_has_b_frames() == old(self).spec_has_b_frames()
                && x.spec_closed_gop() == old(self).spec_closed_gop()
                && x.spec_bits_per_raw_sample() == old(self).spec_bits_per_raw_sample()
                && x.spec_visible_rect() == old(self).spec_visible_rect()
                && x.spec_sample_aspect_ratio() == old(self).spec_sample_aspect_ratio()
                && x.spec_pixel_format() == old(self).spec_pixel_format()
                && x.spec_color() == old(self).spec_color()
                && x.spec_hdr_static() == old(self).spec_hdr_static()
                && x.spec_rotation() == old(self).spec_rotation()
                && x.spec_frame_rate() == old(self).spec_frame_rate()
                && x.spec_avg_frame_rate() == old(self).spec_avg_frame_rate()
                && x.spec_field_order() == old(self).spec_field_order()
                && x.spec_stereo_mode() == old(self).spec_stereo_mode()
                && x.spec_dovi() == old(self).spec_dovi()
                && x.spec_has_embedded_captions() == old(self).spec_has_embedded_captions()
                && x.spec_disposition() == old(self).spec_disposition()
                && x.spec_is_primary() == old(self).spec_is_primary()
                && x.spec_auto_selected() == old(self).spec_auto_selected()
                && x.spec_scenes() == old(self).spec_scenes()
                && x.spec_metadata() == old(self).spec_metadata()
                && x.spec_index_status() == old(self).spec_index_status()
                && x.spec_index_errors() == old(self).spec_index_errors()
                && x.spec_provenance() == old(self).spec_provenance()
                ,
    {
        proof {
            use_type_invariant(&*self);
        }
        if !dimensions_valid(v) {
            return Err(VideoTrackError::PartialZeroDimensions);
        }
        if let Some(rect) = self.visible_rect {
            if !rect_fits_dimensions(rect, v) {
                return Err(VideoTrackError::CropExceedsDimensions);
            }
        }
        self.dimensions = v;
        Ok(self)
    }

    /// Fallible builder for the crop: a degenerate crop, a crop against an
    /// unknown coded size and one outside the coded frame are rejected;
    /// `None` is always accepted.
    pub fn try_with_visible_rect(self, v: Option<Rect>) -> (r: Result<Self, VideoTrackError>)
        ensures
            (r is Err) <==> crop_error(v, self.spec_dimensions()) is Some,
            r matches Err(e) ==> crop_error(v, self.spec_dimensions()) == Some(e),
            r matches Ok(x) ==> x.spec_visible_rect() == v
                && x.spec_id() == self.spec_id()
                && x.spec_video_id() == self.spec_video_id()
                && x.spec_stream_index() == self.spec_stream_index()
                && x.spec_container_track_id() == self.spec_container_track_id()
                && x.spec_start_pts() == self.spec_start_pts()
                && x.spec_duration() == self.spec_duration()
                && x.spec_codec() == self.spec_codec()
                && x.spec_profile() == self.spec_profile()
                && x.spec_level() == self.spec_level()
                && x.spec_bit_rate() == self.spec_bit_rate()
                && x.spec_nb_frames() == self.spec_nb_frames()
                && x.spec_has_b_frames() == self.spec_has_b_frames()
                && x.spec_closed_gop() == self.spec_closed_gop()
                && x.spec_bits_per_raw_sample() == self.spec_bits_per_raw_sample()
                && x.spec_dimensions() == self.spec_dimensions()
                && x.spec_sample_aspect_ratio() == self.spec_sample_aspect_ratio()
                && x.spec_pixel_format() == self.spec_pixel_format()
                && x.spec_color() == self.spec_color()
                && x.spec_hdr_static() == self.spec_hdr_static()
                && x.spec_rotation() == self.spec_rotation()
                && x.spec_frame_rate() == self.spec_frame_rate()
                && x.spec_avg_frame_rate() == self.spec_avg_frame_rate()
                && x.spec_field_order() == self.spec_field_order()
                && x.spec_stereo_mode() == self.spec_stereo_mode()
                && x.spec_dovi() == self.spec_dovi()
                && x.spec_has_embedded_captions() == self.spec_has_embedded_captions()
                && x.spec_disposition() == self.spec_disposition()
                && x.spec_is_primary() == self.spec_is_primary()
                && x.spec_auto_selected() == self.spec_auto_selected()
                && x.spec_scenes() == self.spec_scenes()
                && x.spec_metadata() == self.spec_metadata()
                && x.spec_index_status() == self.spec_index_status()
                && x.spec_index_errors() == self.spec_index_errors()
                && x.spec_provenance() == self.spec_provenance()
                ,
    {
        let mut s = self;
        match s.try_set_visible_rect(v) {
            Err(e) => Err(e),
            Ok(_) => Ok(s),
        }
    }

    /// Fallible in-place mutator for the crop; on rejection the track is
    /// unchanged.
    pub fn try_set_visible_rect(&mut self, v: Option<Rect>) -> (r: Result<&mut Self, VideoTrackError>)
        ensures
            (r is Err) <==> crop_error(v, old(self).spec_dimensions()) is Some,
            r matches Err(e) ==> crop_error(v, old(self).spec_dimensions()) == Some(e) && *final(self) == *old(
                self,
            ),
            r matches Ok(x) ==> *final(self) == *final(x) && x.spec_visible_rect() == v
                && x.spec_id() == old(self).spec_id()
                && x.spec_video_id() == old(self).spec_video_id()
                && x.spec_stream_index() == old(self).spec_stream_index()
                && x.spec_container_track_id() == old(self).spec_container_track_id()
                && x.spec_start_pts() == old(self).spec_start_pts()
                && x.spec_duration() == old(self).spec_duration()
                && x.spec_codec() == old(self).spec_codec()
                && x.spec_profile() == old(self).spec_profile()
                && x.spec_level() == old(self).spec_level()
                && x.spec_bit_rate() == old(self).spec_bit_rate()
                && x.spec_nb_frames() == old(self).spec_nb_frames()
                && x.spec_has_b_frames() == old(self).spec_has_b_frames()
                && x.spec_closed_gop() == old(self).spec_closed_gop()
                && x.spec_bits_per_raw_sample() == old(self).spec_bits_per_raw_sample()
                && x.spec_dimensions() == old(self).spec_dimensions()
                && x.spec_sample_aspect_ratio() == old(self).spec_sample_aspect_ratio()
                && x.spec_pixel_format() == old(self).spec_pixel_format()
                && x.spec_color() == old(self).spec_color()
                && x.spec_hdr_static() == old(self).spec_hdr_static()
                && x.spec_rotation() == old(self).spec_rotation()
                && x.spec_frame_rate() == old(self).spec_frame_rate()
                && x.spec_avg_frame_rate() == old(self).spec_avg_frame_rate()
                && x.spec_field_order() == old(self).spec_field_order()
                && x.spec_stereo_mode() == old(self).spec_stereo_mode()
                && x.spec_dovi() == old(self).spec_dovi()
                && x.spec_has_embedded_captions() == old(self).spec_has_embedded_captions()
                && x.spec_disposition() == old(self).spec_disposition()
                && x.spec_is_primary() == old(self).spec_is_primary()
                && x.spec_auto_selected() == old(self).spec_auto_selected()
                && x.spec_scenes() == old(self).spec_scenes()
                && x.spec_metadata() == old(self).spec_metadata()
                && x.spec_index_status() == old(self).spec_index_status()
                && x.spec_index_errors() == old(self).spec_index_errors()
                && x.spec_provenance() == old(self).spec_provenance()
                ,
    {
        proof {
            use_type_invariant(&*self);
        }
        if let Some(rect) = v {
            if rect.width() == 0 || rect.height() == 0 {
                return Err(VideoTrackError::ZeroExtentCrop);
            }
            if !dimensions_known(self.dimensions) {
                return Err(VideoTrackError::CropWithoutDimensions);
            }
            if !rect_fits_dimensions(rect, self.dimensions) {
                return Err(VideoTrackError::CropExceedsDimensions);
            }
        }
        self.visible_rect = v;
        Ok(self)
    }

    /// Builder: replace `sample_aspect_ratio`.
    pub fn with_sample_aspect_ratio(self, v: SampleAspectRatio) -> (r: Self)
        ensures
            r.spec_sample_aspect_ratio() == v,
            r.spec_id() == self.spec_id(),
            r.spec_video_id() == self.spec_video_id(),
            r.spec_stream_index() == self.spec_stream_index(),
            r.spec_container_track_id() == self.spec_container_track_id(),
            r.spec_start_pts() == self.spec_start_pts(),
            r.spec_duration() == self.spec_duration(),
            r.spec_codec() == self.spec_codec(),
            r.spec_profile() == self.spec_profile(),
            r.spec_level() == self.spec_level(),
            r.spec_bit_rate() == self.spec_bit_rate(),
            r.spec_nb_frames() == self.spec_nb_frames(),
            r.spec_has_b_frames() == self.spec_has_b_frames(),
            r.spec_closed_gop() == self.spec_closed_gop(),
            r.spec_bits_per_raw_sample() == self.spec_bits_per_raw_sample(),
            r.spec_dimensions() == self.spec_dimensions(),
            r.spec_visible_rect() == self.spec_visible_rect(),
            r.spec_pixel_format() == self.spec_pixel_format(),
            r.spec_color() == self.spec_color(),
            r.spec_hdr_static() == self.spec_hdr_static(),
            r.spec_rotation() == self.spec_rotation(),
            r.spec_frame_rate() == self.spec_frame_rate(),
            r.spec_avg_frame_rate() == self.spec_avg_frame_rate(),
            r.spec_field_order() == self.spec_field_order(),
            r.spec_stereo_mode() == self.spec_stereo_mode(),
            r.spec_dovi() == self.spec_dovi(),
            r.spec_has_embedded_captions() == self.spec_has_embedded_captions(),
            r.spec_disposition() == self.spec_disposition(),
            r.spec_is_primary() == self.spec_is_primary(),
            r.spec_auto_selected() == self.spec_auto_selected(),
            r.spec_scenes() == self.spec_scenes(),
            r.spec_metadata() == self.spec_metadata(),
            r.spec_index_status() == self.spec_index_status(),
            r.spec_index_errors() == self.spec_index_errors(),
            r.spec_provenance() == self.spec_provenance(),
    {
        proof {
            use_type_invariant(&self);
        }
        let mut s = self;
        s.sample_aspect_ratio = v;
        s
    }

    /// In-place mutator for `sample_aspect_ratio`.
    pub fn set_sample_aspect_ratio(&mut self, v: SampleAspectRatio) -> (r: &mut Self)
        ensures
            *final(self) == *final(r),
            r.spec_sample_aspect_ratio() == v,
            r.spec_id() == old(self).spec_id(),
            r.spec_video_id() == old(self).spec_video_id(),
            r.spec_stream_index() == old(self).spec_stream_index(),
            r.spec_container_track_id() == old(self).spec_container_track_id(),
            r.spec_start_pts() == old(self).spec_start_pts(),
            r.spec_duration() == old(self).spec_duration(),
            r.spec_codec() == old(self).spec_codec(),
            r.spec_profile() == old(self).spec_profile(),
            r.spec_level() == old(self).spec_level(),
            r.spec_bit_rate() == old(self).spec_bit_rate(),
            r.spec_nb_frames() == old(self).spec_nb_frames(),
            r.spec_has_b_frames() == old(self).spec_has_b_frames(),
            r.spec_closed_gop() == old(self).spec_closed_gop(),
            r.spec_bits_per_raw_sample() == old(self).spec_bits_per_raw_sample(),
            r.spec_dimensions() == old(self).spec_dimensions(),
            r.spec_visible_rect() == old(self).spec_visible_rect(),
            r.spec_pixel_format() == old(self).spec_pixel_format(),
            r.spec_color() == old(self).spec_color(),
            r.spec_hdr_static() == old(self).spec_hdr_static(),
            r.spec_rotation() == old(self).spec_rotation(),
            r.spec_frame_rate() == old(self).spec_frame_rate(),
            r.spec_avg_frame_rate() == old(self).spec_avg_frame_rate(),
            r.spec_field_order() == old(self).spec_field_order(),
            r.spec_stereo_mode() == old(self).spec_stereo_mode(),
            r.spec_dovi() == old(self).spec_dovi(),
            r.spec_has_embedded_captions() == old(self).spec_has_embedded_captions(),
            r.spec_disposition() == old(self).spec_disposition(),
            r.spec_is_primary() == old(self).spec_is_primary(),
            r.spec_auto_selected() == old(self).spec_auto_selected(),
            r.spec_scenes() == old(self).spec_scenes(),
            r.spec_metadata() == old(self).spec_metadata(),
            r.spec_index_status() == old(self).spec_index_status(),
            r.spec_index_errors() == old(self).spec_index_errors(),
            r.spec_provenance() == old(self).spec_provenance(),
    {
        proof {
            use_type_invariant(&*self);
        }
        self.sample_aspect_ratio = v;
        self
    }

    /// Builder: replace `pixel_format`.
    pub fn with_pixel_format(self, v: PixelFormat) -> (r: Self)
        ensures
            r.spec_pixel_format() == v,
            r.spec_id() == self.spec_id(),
            r.spec_video_id() == self.spec_video_id(),
            r.spec_stream_index() == self.spec_stream_index(),
            r.spec_container_track_id() == self.spec_container_track_id(),
            r.spec_start_pts() == self.spec_start_pts(),
            r.spec_duration() == self.spec_duration(),
            r.spec_codec() == self.spec_codec(),
            r.spec_profile() == self.spec_profile(),
            r.spec_level() == self.spec_level(),
            r.spec_bit_rate() == self.spec_bit_rate(),
            r.spec_nb_frames() == self.spec_nb_frames(),
            r.spec_has_b_frames() == self.spec_has_b_frames(),
            r.spec_closed_gop() == self.spec_closed_gop(),
            r.spec_bits_per_raw_sample() == self.spec_bits_per_raw_sample(),
            r.spec_dimensions() == self.spec_dimensions(),
            r.spec_visible_rect() == self.spec_visible_rect(),
            r.spec_sample_aspect_ratio() == self.spec_sample_aspect_ratio(),
            r.spec_color() == self.spec_color(),
            r.spec_hdr_static() == self.spec_hdr_static(),
            r.spec_rotation() == self.spec_rotation(),
            r.spec_frame_rate() == self.spec_frame_rate(),
            r.spec_avg_frame_rate() == self.spec_avg_frame_rate(),
            r.spec_field_order() == self.spec_field_order(),
            r.spec_stereo_mode() == self.spec_stereo_mode(),
            r.spec_dovi() == self.spec_dovi(),
            r.spec_has_embedded_captions() == self.spec_has_embedded_captions(),
            r.spec_disposition() == self.spec_disposition(),
            r.spec_is_primary() == self.spec_is_primary(),
            r.spec_auto_selected() == self.spec_auto_selected(),
            r.spec_scenes() == self.spec_scenes(),
            r.spec_metadata() == self.spec_metadata(),
            r.spec_index_status() == self.spec_index_status(),
            r.spec_index_errors() == self.spec_index_errors(),
            r.spec_provenance() == self.spec_provenance(),
    {
        proof {
            use_type_invariant(&self);
        }
        let mut s = self;
        s.pixel_format = v;
        s
    }

    /// In-place mutator for `pixel_format`.
    pub fn set_pixel_format(&mut self, v: PixelFormat) -> (r: &mut Self)
        ensures
            *final(self) == *final(r),
            r.spec_pixel_format() == v,
            r.spec_id() == old(self).spec_id(),
            r.spec_video_id() == old(self).spec_video_id(),
            r.spec_stream_index() == old(self).spec_stream_index(),
            r.spec_container_track_id() == old(self).spec_container_track_id(),
            r.spec_start_pts() == old(self).spec_start_pts(),
            r.spec_duration() == old(self).spec_duration(),
            r.spec_codec() == old(self).spec_codec(),
            r.spec_profile() == old(self).spec_profile(),
            r.spec_level() == old(self).spec_level(),
            r.spec_bit_rate() == old(self).spec_bit_rate(),
            r.spec_nb_frames() == old(self).spec_nb_frames(),
            r.spec_has_b_frames() == old(self).spec_has_b_frames(),
            r.spec_closed_gop() == old(self).spec_closed_gop(),
            r.spec_bits_per_raw_sample() == old(self).spec_bits_per_raw_sample(),
            r.spec_dimensions() == old(self).spec_dimensions(),
            r.spec_visible_rect() == old(self).spec_visible_rect(),
            r.spec_sample_aspect_ratio() == old(self).spec_sample_aspect_ratio(),
            r.spec_color() == old(self).spec_color(),
            r.spec_hdr_static() == old(self).spec_hdr_static(),
            r.spec_rotation() == old(self).spec_rotation(),
            r.spec_frame_rate() == old(self).spec_frame_rate(),
            r.spec_avg_frame_rate() == old(self).spec_avg_frame_rate(),
            r.spec_field_order() == old(self).spec_field_order(),
            r.spec_stereo_mode() == old(self).spec_stereo_mode(),
            r.spec_dovi() == old(self).spec_dovi(),
            r.spec_has_embedded_captions() == old(self).spec_has_embedded_captions(),
            r.spec_disposition() == old(self).spec_disposition(),
            r.spec_is_primary() == old(self).spec_is_primary(),
            r.spec_auto_selected() == old(self).spec_auto_selected(),
            r.spec_scenes() == old(self).spec_scenes(),
            r.spec_metadata() == old(self).spec_metadata(),
            r.spec_index_status() == old(self).spec_index_status(),
            r.spec_index_errors() == old(self).spec_index_errors(),
            r.spec_provenance() == old(self).spec_provenance(),
    {
        proof {
            use_type_invariant(&*self);
        }
        self.pixel_format = v;
        self
    }

    /// Builder: replace `color`.
    pub fn with_color(self, v: ColorInfo) -> (r: Self)
        ensures
            r.spec_color() == v,
            r.spec_id() == self.spec_id(),
            r.spec_video_id() == self.spec_video_id(),
            r.spec_stream_index() == self.spec_stream_index(),
            r.spec_container_track_id() == self.spec_container_track_id(),
            r.spec_start_pts() == self.spec_start_pts(),
            r.spec_duration() == self.spec_duration(),
            r.spec_codec() == self.spec_codec(),
            r.spec_profile() == self.spec_profile(),
            r.spec_level() == self.spec_level(),
            r.spec_bit_rate() == self.spec_bit_rate(),
            r.spec_nb_frames() == self.spec_nb_frames(),
            r.spec_has_b_frames() == self.spec_has_b_frames(),
            r.spec_closed_gop() == self.spec_closed_gop(),
            r.spec_bits_per_raw_sample() == self.spec_bits_per_raw_sample(),
            r.spec_dimensions() == self.spec_dimensions(),
            r.spec_visible_rect() == self.spec_visible_rect(),
            r.spec_sample_aspect_ratio() == self.spec_sample_aspect_ratio(),
            r.spec_pixel_format() == self.spec_pixel_format(),
            r.spec_hdr_static() == self.spec_hdr_static(),
            r.spec_rotation() == self.spec_rotation(),
            r.spec_frame_rate() == self.spec_frame_rate(),
            r.spec_avg_frame_rate() == self.spec_avg_frame_rate(),
            r.spec_field_order() == self.spec_field_order(),
            r.spec_stereo_mode() == self.spec_stereo_mode(),
            r.spec_dovi() == self.spec_dovi(),
            r.spec_has_embedded_captions() == self.spec_has_embedded_captions(),
            r.spec_disposition() == self.spec_disposition(),
            r.spec_is_primary() == self.spec_is_primary(),
            r.spec_auto_selected() == self.spec_auto_selected(),
            r.spec_scenes() == self.spec_scenes(),
            r.spec_metadata() == self.spec_metadata(),
            r.spec_index_status() == self.spec_index_status(),
            r.spec_index_errors() == self.spec_index_errors(),
            r.spec_provenance() == self.spec_provenance(),
    {
        proof {
            use_type_invariant(&self);
        }
        let mut s = self;
        s.color = v;
        s
    }

    /// In-place mutator for `color`.
    pub fn set_color(&mut self, v: ColorInfo) -> (r: &mut Self)
        ensures
            *final(self) == *final(r),
            r.spec_color() == v,
            r.spec_id() == old(self).spec_id(),
            r.spec_video_id() == old(self).spec_video_id(),
            r.spec_stream_index() == old(self).spec_stream_index(),
            r.spec_container_track_id() == old(self).spec_container_track_id(),
            r.spec_start_pts() == old(self).spec_start_pts(),
            r.spec_duration() == old(self).spec_duration(),
            r.spec_codec() == old(self).spec_codec(),
            r.spec_profile() == old(self).spec_profile(),
            r.spec_level() == old(self).spec_level(),
            r.spec_bit_rate() == old(self).spec_bit_rate(),
            r.spec_nb_frames() == old(self).spec_nb_frames(),
            r.spec_has_b_frames() == old(self).spec_has_b_frames(),
            r.spec_closed_gop() == old(self).spec_closed_gop(),
            r.spec_bits_per_raw_sample() == old(self).spec_bits_per_raw_sample(),
            r.spec_dimensions() == old(self).spec_dimensions(),
            r.spec_visible_rect() == old(self).spec_visible_rect(),
            r.spec_sample_aspect_ratio() == old(self).spec_sample_aspect_ratio(),
            r.spec_pixel_format() == old(self).spec_pixel_format(),
            r.spec_hdr_static() == old(self).spec_hdr_static(),
            r.spec_rotation() == old(self).spec_rotation(),
            r.spec_frame_rate() == old(self).spec_frame_rate(),
            r.spec_avg_frame_rate() == old(self).spec_avg_frame_rate(),
            r.spec_field_order() == old(self).spec_field_order(),
            r.spec_stereo_mode() == old(self).spec_stereo_mode(),
            r.spec_dovi() == old(self).spec_dovi(),
            r.spec_has_embedded_captions() == old(self).spec_has_embedded_captions(),
            r.spec_disposition() == old(self).spec_disposition(),
            r.spec_is_primary() == old(self).spec_is_primary(),
            r.spec_auto_selected() == old(self).spec_auto_selected(),
            r.spec_scenes() == old(self).spec_scenes(),
            r.spec_metadata() == old(self).spec_metadata(),
            r.spec_index_status() == old(self).spec_index_status(),
            r.spec_index_errors() == old(self).spec_index_errors(),
            r.spec_provenance() == old(self).spec_provenance(),
    {
        proof {
            use_type_invariant(&*self);
        }
        self.color = v;
        self
    }

    /// Builder: replace `hdr_static`.
    pub fn with_hdr_static(self, v: Option<HdrStaticMetadata>) -> (r: Self)
        ensures
            r.spec_hdr_static() == v,
            r.spec_id() == self.spec_id(),
            r.spec_video_id() == self.spec_video_id(),
            r.spec_stream_index() == self.spec_stream_index(),
            r.spec_container_track_id() == self.spec_container_track_id(),
            r.spec_start_pts() == self.spec_start_pts(),
            r.spec_duration() == self.spec_duration(),
            r.spec_codec() == self.spec_codec(),
            r.spec_profile() == self.spec_profile(),
            r.spec_level() == self.spec_level(),
            r.spec_bit_rate() == self.spec_bit_rate(),
            r.spec_nb_frames() == self.spec_nb_frames(),
            r.spec_has_b_frames() == self.spec_has_b_frames(),
            r.spec_closed_gop() == self.spec_closed_gop(),
            r.spec_bits_per_raw_sample() == self.spec_bits_per_raw_sample(),
            r.spec_dimensions() == self.spec_dimensions(),
            r.spec_visible_rect() == self.spec_visible_rect(),
            r.spec_sample_aspect_ratio() == self.spec_sample_aspect_ratio(),
            r.spec_pixel_format() == self.spec_pixel_format(),
            r.spec_color() == self.spec_color(),
            r.spec_rotation() == self.spec_rotation(),
            r.spec_frame_rate() == self.spec_frame_rate(),
            r.spec_avg_frame_rate() == self.spec_avg_frame_rate(),
            r.spec_field_order() == self.spec_field_order(),
            r.spec_stereo_mode() == self.spec_stereo_mode(),
            r.spec_dovi() == self.spec_dovi(),
            r.spec_has_embedded_captions() == self.spec_has_embedded_captions(),
            r.spec_disposition() == self.spec_disposition(),
            r.spec_is_primary() == self.spec_is_primary(),
            r.spec_auto_selected() == self.spec_auto_selected(),
            r.spec_scenes() == self.spec_scenes(),
            r.spec_metadata() == self.spec_metadata(),
            r.spec_index_status() == self.spec_index_status(),
            r.spec_index_errors() == self.spec_index_errors(),
            r.spec_provenance() == self.spec_provenance(),
    {
        proof {
            use_type_invariant(&self);
        }
        let mut s = self;
        s.hdr_static = v;
        s
    }

    /// In-place mutator for `hdr_static`.
    pub fn set_hdr_static(&mut self, v: Option<HdrStaticMetadata>) -> (r: &mut Self)
        ensures
            *final(self) == *final(r),
            r.spec_hdr_static() == v,
            r.spec_id() == old(self).spec_id(),
            r.spec_video_id() == old(self).spec_video_id(),
            r.spec_stream_index() == old(self).spec_stream_index(),
            r.spec_container_track_id() == old(self).spec_container_track_id(),
            r.spec_start_pts() == old(self).spec_start_pts(),
            r.spec_duration() == old(self).spec_duration(),
            r.spec_codec() == old(self).spec_codec(),
            r.spec_profile() == old(self).spec_profile(),
            r.spec_level() == old(self).spec_level(),
            r.spec_bit_rate() == old(self).spec_bit_rate(),
            r.spec_nb_frames() == old(self).spec_nb_frames(),
            r.spec_has_b_frames() == old(self).spec_has_b_frames(),
            r.spec_closed_gop() == old(self).spec_closed_gop(),
            r.spec_bits_per_raw_sample() == old(self).spec_bits_per_raw_sample(),
            r.spec_dimensions() == old(self).spec_dimensions(),
            r.spec_visible_rect() == old(self).spec_visible_rect(),
            r.spec_sample_aspect_ratio() == old(self).spec_sample_aspect_ratio(),
            r.spec_pixel_format() == old(self).spec_pixel_format(),
            r.spec_color() == old(self).spec_color(),
            r.spec_rotation() == old(self).spec_rotation(),
            r.spec_frame_rate() == old(self).spec_frame_rate(),
            r.spec_avg_frame_rate() == old(self).spec_avg_frame_rate(),
            r.spec_field_order() == old(self).spec_field_order(),
            r.spec_stereo_mode() == old(self).spec_stereo_mode(),
            r.spec_dovi() == old(self).spec_dovi(),
            r.spec_has_embedded_captions() == old(self).spec_has_embedded_captions(),
            r.spec_disposition() == old(self).spec_disposition(),
            r.spec_is_primary() == old(self).spec_is_primary(),
            r.spec_auto_selected() == old(self).spec_auto_selected(),
            r.spec_scenes() == old(self).spec_scenes(),
            r.spec_metadata() == old(self).spec_metadata(),
            r.spec_index_status() == old(self).spec_index_status(),
            r.spec_index_errors() == old(self).spec_index_errors(),
            r.spec_provenance() == old(self).spec_provenance(),
    {
        proof {
            use_type_invariant(&*self);
        }
        self.hdr_static = v;
        self
    }

    /// Builder: replace `rotation`.
    pub fn with_rotation(self, v: Rotation) -> (r: Self)
        ensures
            r.spec_rotation() == v,
            r.spec_id() == self.spec_id(),
            r.spec_video_id() == self.spec_video_id(),
            r.spec_stream_index() == self.spec_stream_index(),
            r.spec_container_track_id() == self.spec_container_track_id(),
            r.spec_start_pts() == self.spec_start_pts(),
            r.spec_duration() == self.spec_duration(),
            r.spec_codec() == self.spec_codec(),
            r.spec_profile() == self.spec_profile(),
            r.spec_level() == self.spec_level(),
            r.spec_bit_rate() == self.spec_bit_rate(),
            r.spec_nb_frames() == self.spec_nb_frames(),
            r.spec_has_b_frames() == self.spec_has_b_frames(),
            r.spec_closed_gop() == self.spec_closed_gop(),
            r.spec_bits_per_raw_sample() == self.spec_bits_per_raw_sample(),
            r.spec_dimensions() == self.spec_dimensions(),
            r.spec_visible_rect() == self.spec_visible_rect(),
            r.spec_sample_aspect_ratio() == self.spec_sample_aspect_ratio(),
            r.spec_pixel_format() == self.spec_pixel_format(),
            r.spec_color() == self.spec_color(),
            r.spec_hdr_static() == self.spec_hdr_static(),
            r.spec_frame_rate() == self.spec_frame_rate(),
            r.spec_avg_frame_rate() == self.spec_avg_frame_rate(),
            r.spec_field_order() == self.spec_field_order(),
            r.spec_stereo_mode() == self.spec_stereo_mode(),
            r.spec_dovi() == self.spec_dovi(),
            r.spec_has_embedded_captions() == self.spec_has_embedded_captions(),
            r.spec_disposition() == self.spec_disposition(),
            r.spec_is_primary() == self.spec_is_primary(),
            r.spec_auto_selected() == self.spec_auto_selected(),
            r.spec_scenes() == self.spec_scenes(),
            r.spec_metadata() == self.spec_metadata(),
            r.spec_index_status() == self.spec_index_status(),
            r.spec_index_errors() == self.spec_index_errors(),
            r.spec_provenance() == self.spec_provenance(),
    {
        proof {
            use_type_invariant(&self);
        }
        let mut s = self;
        s.rotation = v;
        s
    }

    /// In-place mutator for `rotation`.
    pub fn set_rotation(&mut self, v: Rotation) -> (r: &mut Self)
        ensures
            *final(self) == *final(r),
            r.spec_rotation() == v,
            r.spec_id() == old(self).spec_id(),
            r.spec_video_id() == old(self).spec_video_id(),
            r.spec_stream_index() == old(self).spec_stream_index(),
            r.spec_container_track_id() == old(self).spec_container_track_id(),
            r.spec_start_pts() == old(self).spec_start_pts(),
            r.spec_duration() == old(self).spec_duration(),
            r.spec_codec() == old(self).spec_codec(),
            r.spec_profile() == old(self).spec_profile(),
            r.spec_level() == old(self).spec_level(),
            r.spec_bit_rate() == old(self).spec_bit_rate(),
            r.spec_nb_frames() == old(self).spec_nb_frames(),
            r.spec_has_b_frames() == old(self).spec_has_b_frames(),
            r.spec_closed_gop() == old(self).spec_closed_gop(),
            r.spec_bits_per_raw_sample() == old(self).spec_bits_per_raw_sample(),
            r.spec_dimensions() == old(self).spec_dimensions(),
            r.spec_visible_rect() == old(self).spec_visible_rect(),
            r.spec_sample_aspect_ratio() == old(self).spec_sample_aspect_ratio(),
            r.spec_pixel_format() == old(self).spec_pixel_format(),
            r.spec_color() == old(self).spec_color(),
            r.spec_hdr_static() == old(self).spec_hdr_static(),
            r.spec_frame_rate() == old(self).spec_frame_rate(),
            r.spec_avg_frame_rate() == old(self).spec_avg_frame_rate(),
            r.spec_field_order() == old(self).spec_field_order(),
            r.spec_stereo_mode() == old(self).spec_stereo_mode(),
            r.spec_dovi() == old(self).spec_dovi(),
            r.spec_has_embedded_captions() == old(self).spec_has_embedded_captions(),
            r.spec_disposition() == old(self).spec_disposition(),
            r.spec_is_primary() == old(self).spec_is_primary(),
            r.spec_auto_selected() == old(self).spec_auto_selected(),
            r.spec_scenes() == old(self).spec_scenes(),
            r.spec_metadata() == old(self).spec_metadata(),
            r.spec_index_status() == old(self).spec_index_status(),
            r.spec_index_errors() == old(self).spec_index_errors(),
            r.spec_provenance() == old(self).spec_provenance(),
    {
        proof {
            use_type_invariant(&*self);
        }
        self.rotation = v;
        self
    }

    /// Builder: replace `frame_rate`.
    pub fn with_frame_rate(self, v: FrameRate) -> (r: Self)
        ensures
            r.spec_frame_rate() == v,
            r.spec_id() == self.spec_id(),
            r.spec_video_id() == self.spec_video_id(),
            r.spec_stream_index() == self.spec_stream_index(),
            r.spec_container_track_id() == self.spec_container_track_id(),
            r.spec_start_pts() == self.spec_start_pts(),
            r.spec_duration() == self.spec_duration(),
            r.spec_codec() == self.spec_codec(),
            r.spec_profile() == self.spec_profile(),
            r.spec_level() == self.spec_level(),
            r.spec_bit_rate() == self.spec_bit_rate(),
            r.spec_nb_frames() == self.spec_nb_frames(),
            r.spec_has_b_frames() == self.spec_has_b_frames(),
            r.spec_closed_gop() == self.spec_closed_gop(),
            r.spec_bits_per_raw_sample() == self.spec_bits_per_raw_sample(),
            r.spec_dimensions() == self.spec_dimensions(),
            r.spec_visible_rect() == self.spec_visible_rect(),
            r.spec_sample_aspect_ratio() == self.spec_sample_aspect_ratio(),
            r.spec_pixel_format() == self.spec_pixel_format(),
            r.spec_color() == self.spec_color(),
            r.spec_hdr_static() == self.spec_hdr_static(),
            r.spec_rotation() == self.spec_rotation(),
            r.spec_avg_frame_rate() == self.spec_avg_frame_rate(),
            r.spec_field_order() == self.spec_field_order(),
            r.spec_stereo_mode() == self.spec_stereo_mode(),
            r.spec_dovi() == self.spec_dovi(),
            r.spec_has_embedded_captions() == self.spec_has_embedded_captions(),
            r.spec_disposition() == self.spec_disposition(),
            r.spec_is_primary() == self.spec_is_primary(),
            r.spec_auto_selected() == self.spec_auto_selected(),
            r.spec_scenes() == self.spec_scenes(),
            r.spec_metadata() == self.spec_metadata(),
            r.spec_index_status() == self.spec_index_status(),
            r.spec_index_errors() == self.spec_index_errors(),
            r.spec_provenance() == self.spec_provenance(),
    {
        proof {
            use_type_invariant(&self);
        }
        let mut s = self;
        s.frame_rate = v;
        s
    }

    /// In-place mutator for `frame_rate`.
    pub fn set_frame_rate(&mut self, v: FrameRate) -> (r: &mut Self)
        ensures
            *final(self) == *final(r),
            r.spec_frame_rate() == v,
            r.spec_id() == old(self).spec_id(),
            r.spec_video_id() == old(self).spec_video_id(),
            r.spec_stream_index() == old(self).spec_stream_index(),
            r.spec_container_track_id() == old(self).spec_container_track_id(),
            r.spec_start_pts() == old(self).spec_start_pts(),
            r.spec_duration() == old(self).spec_duration(),
            r.spec_codec() == old(self).spec_codec(),
            r.spec_profile() == old(self).spec_profile(),
            r.spec_level() == old(self).spec_level(),
            r.spec_bit_rate() == old(self).spec_bit_rate(),
            r.spec_nb_frames() == old(self).spec_nb_frames(),
            r.spec_has_b_frames() == old(self).spec_has_b_frames(),
            r.spec_closed_gop() == old(self).spec_closed_gop(),
            r.spec_bits_per_raw_sample() == old(self).spec_bits_per_raw_sample(),
            r.spec_dimensions() == old(self).spec_dimensions(),
            r.spec_visible_rect() == old(self).spec_visible_rect(),
            r.spec_sample_aspect_ratio() == old(self).spec_sample_aspect_ratio(),
            r.spec_pixel_format() == old(self).spec_pixel_format(),
            r.spec_color() == old(self).spec_color(),
            r.spec_hdr_static() == old(self).spec_hdr_static(),
            r.spec_rotation() == old(self).spec_rotation(),
            r.spec_avg_frame_rate() == old(self).spec_avg_frame_rate(),
            r.spec_field_order() == old(self).spec_field_order(),
            r.spec_stereo_mode() == old(self).spec_stereo_mode(),
            r.spec_dovi() == old(self).spec_dovi(),
            r.spec_has_embedded_captions() == old(self).spec_has_embedded_captions(),
            r.spec_disposition() == old(self).spec_disposition(),
            r.spec_is_primary() == old(self).spec_is_primary(),
            r.spec_auto_selected() == old(self).spec_auto_selected(),
            r.spec_scenes() == old(self).spec_scenes(),
            r.spec_metadata() == old(self).spec_metadata(),
            r.spec_index_status() == old(self).spec_index_status(),
            r.spec_index_errors() == old(self).spec_index_errors(),
            r.spec_provenance() == old(self).spec_provenance(),
    {
        proof {
            use_type_invariant(&*self);
        }
        self.frame_rate = v;
        self
    }

    /// Builder: replace `avg_frame_rate`.
    pub fn with_avg_frame_rate(self, v: FrameRate) -> (r: Self)
        ensures
            r.spec_avg_frame_rate() == v,
            r.spec_id() == self.spec_id(),
            r.spec_video_id() == self.spec_video_id(),
            r.spec_stream_index() == self.spec_stream_index(),
            r.spec_container_track_id() == self.spec_container_track_id(),
            r.spec_start_pts() == self.spec_start_pts(),
            r.spec_duration() == self.spec_duration(),
            r.spec_codec() == self.spec_codec(),
            r.spec_profile() == self.spec_profile(),
            r.spec_level() == self.spec_level(),
            r.spec_bit_rate() == self.spec_bit_rate(),
            r.spec_nb_frames() == self.spec_nb_frames(),
            r.spec_has_b_frames() == self.spec_has_b_frames(),
            r.spec_closed_gop() == self.spec_closed_gop(),
            r.spec_bits_per_raw_sample() == self.spec_bits_per_raw_sample(),
            r.spec_dimensions() == self.spec_dimensions(),
            r.spec_visible_rect() == self.spec_visible_rect(),
            r.spec_sample_aspect_ratio() == self.spec_sample_aspect_ratio(),
            r.spec_pixel_format() == self.spec_pixel_format(),
            r.spec_color() == self.spec_color(),
            r.spec_hdr_static() == self.spec_hdr_static(),
            r.spec_rotation() == self.spec_rotation(),
            r.spec_frame_rate() == self.spec_frame_rate(),
            r.spec_field_order() == self.spec_field_order(),
            r.spec_stereo_mode() == self.spec_stereo_mode(),
            r.spec_dovi() == self.spec_dovi(),
            r.spec_has_embedded_captions() == self.spec_has_embedded_captions(),
            r.spec_disposition() == self.spec_disposition(),
            r.spec_is_primary() == self.spec_is_primary(),
            r.spec_auto_selected() == self.spec_auto_selected(),
            r.spec_scenes() == self.spec_scenes(),
            r.spec_metadata() == self.spec_metadata(),
            r.spec_index_status() == self.spec_index_status(),
            r.spec_index_errors() == self.spec_index_errors(),
            r.spec_provenance() == self.spec_provenance(),
    {
        proof {
            use_type_invariant(&self);
        }
        let mut s = self;
        s.avg_frame_rate = v;
        s
    }

    /// In-place mutator for `avg_frame_rate`.
    pub fn set_avg_frame_rate(&mut self, v: FrameRate) -> (r: &mut Self)
        ensures
            *final(self) == *final(r),
            r.spec_avg_frame_rate() == v,
            r.spec_id() == old(self).spec_id(),
            r.spec_video_id() == old(self).spec_video_id(),
            r.spec_stream_index() == old(self).spec_stream_index(),
            r.spec_container_track_id() == old(self).spec_container_track_id(),
            r.spec_start_pts() == old(self).spec_start_pts(),
            r.spec_duration() == old(self).spec_duration(),
            r.spec_codec() == old(self).spec_codec(),
            r.spec_profile() == old(self).spec_profile(),
            r.spec_level() == old(self).spec_level(),
            r.spec_bit_rate() == old(self).spec_bit_rate(),
            r.spec_nb_frames() == old(self).spec_nb_frames(),
            r.spec_has_b_frames() == old(self).spec_has_b_frames(),
            r.spec_closed_gop() == old(self).spec_closed_gop(),
            r.spec_bits_per_raw_sample() == old(self).spec_bits_per_raw_sample(),
            r.spec_dimensions() == old(self).spec_dimensions(),
            r.spec_visible_rect() == old(self).spec_visible_rect(),
            r.spec_sample_aspect_ratio() == old(self).spec_sample_aspect_ratio(),
            r.spec_pixel_format() == old(self).spec_pixel_format(),
            r.spec_color() == old(self).spec_color(),
            r.spec_hdr_static() == old(self).spec_hdr_static(),
            r.spec_rotation() == old(self).spec_rotation(),
            r.spec_frame_rate() == old(self).spec_frame_rate(),
            r.spec_field_order() == old(self).spec_field_order(),
            r.spec_stereo_mode() == old(self).spec_stereo_mode(),
            r.spec_dovi() == old(self).spec_dovi(),
            r.spec_has_embedded_captions() == old(self).spec_has_embedded_captions(),
            r.spec_disposition() == old(self).spec_disposition(),
            r.spec_is_primary() == old(self).spec_is_primary(),
            r.spec_auto_selected() == old(self).spec_auto_selected(),
            r.spec_scenes() == old(self).spec_scenes(),
            r.spec_metadata() == old(self).spec_metadata(),
            r.spec_index_status() == old(self).spec_index_status(),
            r.spec_index_errors() == old(self).spec_index_errors(),
            r.spec_provenance() == old(self).spec_provenance(),
    {
        proof {
            use_type_invariant(&*self);
        }
        self.avg_frame_rate = v;
        self
    }

    /// Builder: replace `metadata`.
    pub fn with_metadata(self, v: MetadataMap) -> (r: Self)
        ensures
            r.spec_metadata() == v,
            r.spec_id() == self.spec_id(),
            r.spec_video_id() == self.spec_video_id(),
            r.spec_stream_index() == self.spec_stream_index(),
            r.spec_container_track_id() == self.spec_container_track_id(),
            r.spec_start_pts() == self.spec_start_pts(),
            r.spec_duration() == self.spec_duration(),
            r.spec_codec() == self.spec_codec(),
            r.spec_profile() == self.spec_profile(),
            r.spec_level() == self.spec_level(),
            r.spec_bit_rate() == self.spec_bit_rate(),
            r.spec_nb_frames() == self.spec_nb_frames(),
            r.spec_has_b_frames() == self.spec_has_b_frames(),
            r.spec_closed_gop() == self.spec_closed_gop(),
            r.spec_bits_per_raw_sample() == self.spec_bits_per_raw_sample(),
            r.spec_dimensions() == self.spec_dimensions(),
            r.spec_visible_rect() == self.spec_visible_rect(),
            r.spec_sample_aspect_ratio() == self.spec_sample_aspect_ratio(),
            r.spec_pixel_format() == self.spec_pixel_format(),
            r.spec_color() == self.spec_color(),
            r.spec_hdr_static() == self.spec_hdr_static(),
            r.spec_rotation() == self.spec_rotation(),
            r.spec_frame_rate() == self.spec_frame_rate(),
            r.spec_avg_frame_rate() == self.spec_avg_frame_rate(),
            r.spec_field_order() == self.spec_field_order(),
            r.spec_stereo_mode() == self.spec_stereo_mode(),
            r.spec_dovi() == self.spec_dovi(),
            r.spec_has_embedded_captions() == self.spec_has_embedded_captions(),
            r.spec_disposition() == self.spec_disposition(),
            r.spec_is_primary() == self.spec_is_primary(),
            r.spec_auto_selected() == self.spec_auto_selected(),
            r.spec_scenes() == self.spec_scenes(),
            r.spec_index_status() == self.spec_index_status(),
            r.spec_index_errors() == self.spec_index_errors(),
            r.spec_provenance() == self.spec_provenance(),
    {
        proof {
            use_type_invariant(&self);
        }
        let mut s = self;
        s.metadata = v;
        s
    }

    /// In-place mutator for `metadata`.
    pub fn set_metadata(&mut self, v: MetadataMap) -> (r: &mut Self)
        ensures
            *final(self) == *final(r),
            r.spec_metadata() == v,
            r.spec_id() == old(self).spec_id(),
            r.spec_video_id() == old(self).spec_video_id(),
            r.spec_stream_index() == old(self).spec_stream_index(),
            r.spec_container_track_id() == old(self).spec_container_track_id(),
            r.spec_start_pts() == old(self).spec_start_pts(),
            r.spec_duration() == old(self).spec_duration(),
            r.spec_codec() == old(self).spec_codec(),
            r.spec_profile() == old(self).spec_profile(),
            r.spec_level() == old(self).spec_level(),
            r.spec_bit_rate() == old(self).spec_bit_rate(),
            r.spec_nb_frames() == old(self).spec_nb_frames(),
            r.spec_has_b_frames() == old(self).spec_has_b_frames(),
            r.spec_closed_gop() == old(self).spec_closed_gop(),
            r.spec_bits_per_raw_sample() == old(self).spec_bits_per_raw_sample(),
            r.spec_dimensions() == old(self).spec_dimensions(),
            r.spec_visible_rect() == old(self).spec_visible_rect(),
            r.spec_sample_aspect_ratio() == old(self).spec_sample_aspect_ratio(),
            r.spec_pixel_format() == old(self).spec_pixel_format(),
            r.spec_color() == old(self).spec_color(),
            r.spec_hdr_static() == old(self).spec_hdr_static(),
            r.spec_rotation() == old(self).spec_rotation(),
            r.spec_frame_rate() == old(self).spec_frame_rate(),
            r.spec_avg_frame_rate() == old(self).spec_avg_frame_rate(),
            r.spec_field_order() == old(self).spec_field_order(),
            r.spec_stereo_mode() == old(self).spec_stereo_mode(),
            r.spec_dovi() == old(self).spec_dovi(),
            r.spec_has_embedded_captions() == old(self).spec_has_embedded_captions(),
            r.spec_disposition() == old(self).spec_disposition(),
            r.spec_is_primary() == old(self).spec_is_primary(),
            r.spec_auto_selected() == old(self).spec_auto_selected(),
            r.spec_scenes() == old(self).spec_scenes(),
            r.spec_index_status() == old(self).spec_index_status(),
            r.spec_index_errors() == old(self).spec_index_errors(),
            r.spec_provenance() == old(self).spec_provenance(),
    {
        proof {
            use_type_invariant(&*self);
        }
        self.metadata = v;
        self
    }

    /// Builder: replace `field_order`.
    pub fn with_field_order(self, v: FieldOrder) -> (r: Self)
        ensures
            r.spec_field_order() == v,
            r.spec_id() == self.spec_id(),
            r.spec_video_id() == self.spec_video_id(),
            r.spec_stream_index() == self.spec_stream_index(),
            r.spec_container_track_id() == self.spec_container_track_id(),
            r.spec_start_pts() == self.spec_start_pts(),
            r.spec_duration() == self.spec_duration(),
            r.spec_codec() == self.spec_codec(),
            r.spec_profile() == self.spec_profile(),
            r.spec_level() == self.spec_level(),
            r.spec_bit_rate() == self.spec_bit_rate(),
            r.spec_nb_frames() == self.spec_nb_frames(),
            r.spec_has_b_frames() == self.spec_has_b_frames(),
            r.spec_closed_gop() == self.spec_closed_gop(),
            r.spec_bits_per_raw_sample() == self.spec_bits_per_raw_sample(),
            r.spec_dimensions() == self.spec_dimensions(),
            r.spec_visible_rect() == self.spec_visible_rect(),
            r.spec_sample_aspect_ratio() == self.spec_sample_aspect_ratio(),
            r.spec_pixel_format() == self.spec_pixel_format(),
            r.spec_color() == self.spec_color(),
            r.spec_hdr_static() == self.spec_hdr_static(),
            r.spec_rotation() == self.spec_rotation(),
            r.spec_frame_rate() == self.spec_frame_rate(),
            r.spec_avg_frame_rate() == self.spec_avg_frame_rate(),
            r.spec_stereo_mode() == self.spec_stereo_mode(),
            r.spec_dovi() == self.spec_dovi(),
            r.spec_has_embedded_captions() == self.spec_has_embedded_captions(),
            r.spec_disposition() == self.spec_disposition(),
            r.spec_is_primary() == self.spec_is_primary(),
            r.spec_auto_selected() == self.spec_auto_selected(),
            r.spec_scenes() == self.spec_scenes(),
            r.spec_metadata() == self.spec_metadata(),
            r.spec_index_status() == self.spec_index_status(),
            r.spec_index_errors() == self.spec_index_errors(),
            r.spec_provenance() == self.spec_provenance(),
    {
        proof {
            use_type_invariant(&self);
        }
        let mut s = self;
        s.field_order = v;
        s
    }

    /// In-place mutator for `field_order`.
    pub fn set_field_order(&mut self, v: FieldOrder) -> (r: &mut Self)
        ensures
            *final(self) == *final(r),
            r.spec_field_order() == v,
            r.spec_id() == old(self).spec_id(),
            r.spec_video_id() == old(self).spec_video_id(),
            r.spec_stream_index() == old(self).spec_stream_index(),
            r.spec_container_track_id() == old(self).spec_container_track_id(),
            r.spec_start_pts() == old(self).spec_start_pts(),
            r.spec_duration() == old(self).spec_duration(),
            r.spec_codec() == old(self).spec_codec(),
            r.spec_profile() == old(self).spec_profile(),
            r.spec_level() == old(self).spec_level(),
            r.spec_bit_rate() == old(self).spec_bit_rate(),
            r.spec_nb_frames() == old(self).spec_nb_frames(),
            r.spec_has_b_frames() == old(self).spec_has_b_frames(),
            r.spec_closed_gop() == old(self).spec_closed_gop(),
            r.spec_bits_per_raw_sample() == old(self).spec_bits_per_raw_sample(),
            r.spec_dimensions() == old(self).spec_dimensions(),
            r.spec_visible_rect() == old(self).spec_visible_rect(),
            r.spec_sample_aspect_ratio() == old(self).spec_sample_aspect_ratio(),
            r.spec_pixel_format() == old(self).spec_pixel_format(),
            r.spec_color() == old(self).spec_color(),
            r.spec_hdr_static() == old(self).spec_hdr_static(),
            r.spec_rotation() == old(self).spec_rotation(),
            r.spec_frame_rate() == old(self).spec_frame_rate(),
            r.spec_avg_frame_rate() == old(self).spec_avg_frame_rate(),
            r.spec_stereo_mode() == old(self).spec_stereo_mode(),
            r.spec_dovi() == old(self).spec_dovi(),
            r.spec_has_embedded_captions() == old(self).spec_has_embedded_captions(),
            r.spec_disposition() == old(self).spec_disposition(),
            r.spec_is_primary() == old(self).spec_is_primary(),
            r.spec_auto_selected() == old(self).spec_auto_selected(),
            r.spec_scenes() == old(self).spec_scenes(),
            r.spec_metadata() == old(self).spec_metadata(),
            r.spec_index_status() == old(self).spec_index_status(),
            r.spec_index_errors() == old(self).spec_index_errors(),
            r.spec_provenance() == old(self).spec_provenance(),
    {
        proof {
            use_type_invariant(&*self);
        }
        self.field_order = v;
        self
    }

    /// Builder: replace `stereo_mode`.
    pub fn with_stereo_mode(self, v: Option<StereoMode>) -> (r: Self)
        ensures
            r.spec_stereo_mode() == v,
            r.spec_id() == self.spec_id(),
            r.spec_video_id() == self.spec_video_id(),
            r.spec_stream_index() == self.spec_stream_index(),
            r.spec_container_track_id() == self.spec_container_track_id(),
            r.spec_start_pts() == self.spec_start_pts(),
            r.spec_duration() == self.spec_duration(),
            r.spec_codec() == self.spec_codec(),
            r.spec_profile() == self.spec_profile(),
            r.spec_level() == self.spec_level(),
            r.spec_bit_rate() == self.spec_bit_rate(),
            r.spec_nb_frames() == self.spec_nb_frames(),
            r.spec_has_b_frames() == self.spec_has_b_frames(),
            r.spec_closed_gop() == self.spec_closed_gop(),
            r.spec_bits_per_raw_sample() == self.spec_bits_per_raw_sample(),
            r.spec_dimensions() == self.spec_dimensions(),
            r.spec_visible_rect() == self.spec_visible_rect(),
            r.spec_sample_aspect_ratio() == self.spec_sample_aspect_ratio(),
            r.spec_pixel_format() == self.spec_pixel_format(),
            r.spec_color() == self.spec_color(),
            r.spec_hdr_static() == self.spec_hdr_static(),
            r.spec_rotation() == self.spec_rotation(),
            r.spec_frame_rate() == self.spec_frame_rate(),
            r.spec_avg_frame_rate() == self.spec_avg_frame_rate(),
            r.spec_field_order() == self.spec_field_order(),
            r.spec_dovi() == self.spec_dovi(),
            r.spec_has_embedded_captions() == self.spec_has_embedded_captions(),
            r.spec_disposition() == self.spec_disposition(),
            r.spec_is_primary() == self.spec_is_primary(),
            r.spec_auto_selected() == self.spec_auto_selected(),
            r.spec_scenes() == self.spec_scenes(),
            r.spec_metadata() == self.spec_metadata(),
            r.spec_index_status() == self.spec_index_status(),
            r.spec_index_errors() == self.spec_index_errors(),
            r.spec_provenance() == self.spec_provenance(),
    {
        proof {
            use_type_invariant(&self);
        }
        let mut s = self;
        s.stereo_mode = v;
        s
    }

    /// In-place mutator for `stereo_mode`.
    pub fn set_stereo_mode(&mut self, v: Option<StereoMode>) -> (r: &mut Self)
        ensures
            *final(self) == *final(r),
            r.spec_stereo_mode() == v,
            r.spec_id() == old(self).spec_id(),
            r.spec_video_id() == old(self).spec_video_id(),
            r.spec_stream_index() == old(self).spec_stream_index(),
            r.spec_container_track_id() == old(self).spec_container_track_id(),
            r.spec_start_pts() == old(self).spec_start_pts(),
            r.spec_duration() == old(self).spec_duration(),
            r.spec_codec() == old(self).spec_codec(),
            r.spec_profile() == old(self).spec_profile(),
            r.spec_level() == old(self).spec_level(),
            r.spec_bit_rate() == old(self).spec_bit_rate(),
            r.spec_nb_frames() == old(self).spec_nb_frames(),
            r.spec_has_b_frames() == old(self).spec_has_b_frames(),
            r.spec_closed_gop() == old(self).spec_closed_gop(),
            r.spec_bits_per_raw_sample() == old(self).spec_bits_per_raw_sample(),
            r.spec_dimensions() == old(self).spec_dimensions(),
            r.spec_visible_rect() == old(self).spec_visible_rect(),
            r.spec_sample_aspect_ratio() == old(self).spec_sample_aspect_ratio(),
            r.spec_pixel_format() == old(self).spec_pixel_format(),
            r.spec_color() == old(self).spec_color(),
            r.spec_hdr_static() == old(self).spec_hdr_static(),
            r.spec_rotation() == old(self).spec_rotation(),
            r.spec_frame_rate() == old(self).spec_frame_rate(),
            r.spec_avg_frame_rate() == old(self).spec_avg_frame_rate(),
            r.spec_field_order() == old(self).spec_field_order(),
            r.spec_dovi() == old(self).spec_dovi(),
            r.spec_has_embedded_captions() == old(self).spec_has_embedded_captions(),
            r.spec_disposition() == old(self).spec_disposition(),
            r.spec_is_primary() == old(self).spec_is_primary(),
            r.spec_auto_selected() == old(self).spec_auto_selected(),
            r.spec_scenes() == old(self).spec_scenes(),
            r.spec_metadata() == old(self).spec_metadata(),
            r.spec_index_status() == old(self).spec_index_status(),
            r.spec_index_errors() == old(self).spec_index_errors(),
            r.spec_provenance() == old(self).spec_provenance(),
    {
        proof {
            use_type_invariant(&*self);
        }
        self.stereo_mode = v;
        self
    }

    /// Builder: replace `dovi`.
    pub fn with_dovi(self, v: Option<DolbyVisionConfig>) -> (r: Self)
        ensures
            r.spec_dovi() == v,
            r.spec_id() == self.spec_id(),
            r.spec_video_id() == self.spec_video_id(),
            r.spec_stream_index() == self.spec_stream_index(),
            r.spec_container_track_id() == self.spec_container_track_id(),
            r.spec_start_pts() == self.spec_start_pts(),
            r.spec_duration() == self.spec_duration(),
            r.spec_codec() == self.spec_codec(),
            r.spec_profile() == self.spec_profile(),
            r.spec_level() == self.spec_level(),
            r.spec_bit_rate() == self.spec_bit_rate(),
            r.spec_nb_frames() == self.spec_nb_frames(),
            r.spec_has_b_frames() == self.spec_has_b_frames(),
            r.spec_closed_gop() == self.spec_closed_gop(),
            r.spec_bits_per_raw_sample() == self.spec_bits_per_raw_sample(),
            r.spec_dimensions() == self.spec_dimensions(),
            r.spec_visible_rect() == self.spec_visible_rect(),
            r.spec_sample_aspect_ratio() == self.spec_sample_aspect_ratio(),
            r.spec_pixel_format() == self.spec_pixel_format(),
            r.spec_color() == self.spec_color(),
            r.spec_hdr_static() == self.spec_hdr_static(),
            r.spec_rotation() == self.spec_rotation(),
            r.spec_frame_rate() == self.spec_frame_rate(),
            r.spec_avg_frame_rate() == self.spec_avg_frame_rate(),
            r.spec_field_order() == self.spec_field_order(),
            r.spec_stereo_mode() == self.spec_stereo_mode(),
            r.spec_has_embedded_captions() == self.spec_has_embedded_captions(),
            r.spec_disposition() == self.spec_disposition(),
            r.spec_is_primary() == self.spec_is_primary(),
            r.spec_auto_selected() == self.spec_auto_selected(),
            r.spec_scenes() == self.spec_scenes(),
            r.spec_metadata() == self.spec_metadata(),
            r.spec_index_status() == self.spec_index_status(),
            r.spec_index_errors() == self.spec_index_errors(),
            r.spec_provenance() == self.spec_provenance(),
    {
        proof {
            use_type_invariant(&self);
        }
        let mut s = self;
        s.dovi = v;
        s
    }

    /// In-place mutator for `dovi`.
    pub fn set_dovi(&mut self, v: Option<DolbyVisionConfig>) -> (r: &mut Self)
        ensures
            *final(self) == *final(r),
            r.spec_dovi() == v,
            r.spec_id() == old(self).spec_id(),
            r.spec_video_id() == old(self).spec_video_id(),
            r.spec_stream_index() == old(self).spec_stream_index(),
            r.spec_container_track_id() == old(self).spec_container_track_id(),
            r.spec_start_pts() == old(self).spec_start_pts(),
            r.spec_duration() == old(self).spec_duration(),
            r.spec_codec() == old(self).spec_codec(),
            r.spec_profile() == old(self).spec_profile(),
            r.spec_level() == old(self).spec_level(),
            r.spec_bit_rate() == old(self).spec_bit_rate(),
            r.spec_nb_frames() == old(self).spec_nb_frames(),
            r.spec_has_b_frames() == old(self).spec_has_b_frames(),
            r.spec_closed_gop() == old(self).spec_closed_gop(),
            r.spec_bits_per_raw_sample() == old(self).spec_bits_per_raw_sample(),
            r.spec_dimensions() == old(self).spec_dimensions(),
            r.spec_visible_rect() == old(self).spec_visible_rect(),
            r.spec_sample_aspect_ratio() == old(self).spec_sample_aspect_ratio(),
            r.spec_pixel_format() == old(self).spec_pixel_format(),
            r.spec_color() == old(self).spec_color(),
            r.spec_hdr_static() == old(self).spec_hdr_static(),
            r.spec_rotation() == old(self).spec_rotation(),
            r.spec_frame_rate() == old(self).spec_frame_rate(),
            r.spec_avg_frame_rate() == old(self).spec_avg_frame_rate(),
            r.spec_field_order() == old(self).spec_field_order(),
            r.spec_stereo_mode() == old(self).spec_stereo_mode(),
            r.spec_has_embedded_captions() == old(self).spec_has_embedded_captions(),
            r.spec_disposition() == old(self).spec_disposition(),
            r.spec_is_primary() == old(self).spec_is_primary(),
            r.spec_auto_selected() == old(self).spec_auto_selected(),
            r.spec_scenes() == old(self).spec_scenes(),
            r.spec_metadata() == old(self).spec_metadata(),
            r.spec_index_status() == old(self).spec_index_status(),
            r.spec_index_errors() == old(self).spec_index_errors(),
            r.spec_provenance() == old(self).spec_provenance(),
    {
        proof {
            use_type_invariant(&*self);
        }
        self.dovi = v;
        self
    }

    /// Builder: replace `has_embedded_captions`.
    pub fn with_has_embedded_captions(self, v: bool) -> (r: Self)
        ensures
            r.spec_has_embedded_captions() == v,
            r.spec_id() == self.spec_id(),
            r.spec_video_id() == self.spec_video_id(),
            r.spec_stream_index() == self.spec_stream_index(),
            r.spec_container_track_id() == self.spec_container_track_id(),
            r.spec_start_pts() == self.spec_start_pts(),
            r.spec_duration() == self.spec_duration(),
            r.spec_codec() == self.spec_codec(),
            r.spec_profile() == self.spec_profile(),
            r.spec_level() == self.spec_level(),
            r.spec_bit_rate() == self.spec_bit_rate(),
            r.spec_nb_frames() == self.spec_nb_frames(),
            r.spec_has_b_frames() == self.spec_has_b_frames(),
            r.spec_closed_gop() == self.spec_closed_gop(),
            r.spec_bits_per_raw_sample() == self.spec_bits_per_raw_sample(),
            r.spec_dimensions() == self.spec_dimensions(),
            r.spec_visible_rect() == self.spec_visible_rect(),
            r.spec_sample_aspect_ratio() == self.spec_sample_aspect_ratio(),
            r.spec_pixel_format() == self.spec_pixel_format(),
            r.spec_color() == self.spec_color(),
            r.spec_hdr_static() == self.spec_hdr_static(),
            r.spec_rotation() == self.spec_rotation(),
            r.spec_frame_rate() == self.spec_frame_rate(),
            r.spec_avg_frame_rate() == self.spec_avg_frame_rate(),
            r.spec_field_order() == self.spec_field_order(),
            r.spec_stereo_mode() == self.spec_stereo_mode(),
            r.spec_dovi() == self.spec_dovi(),
            r.spec_disposition() == self.spec_disposition(),
            r.spec_is_primary() == self.spec_is_primary(),
            r.spec_auto_selected() == self.spec_auto_selected(),
            r.spec_scenes() == self.spec_scenes(),
            r.spec_metadata() == self.spec_metadata(),
            r.spec_index_status() == self.spec_index_status(),
            r.spec_index_errors() == self.spec_index_errors(),
            r.spec_provenance() == self.spec_provenance(),
    {
        proof {
            use_type_invariant(&self);
        }
        let mut s = self;
        s.has_embedded_captions = v;
        s
    }

    /// In-place mutator for `has_embedded_captions`.
    pub fn set_has_embedded_captions(&mut self, v: bool) -> (r: &mut Self)
        ensures
            *final(self) == *final(r),
            r.spec_has_embedded_captions() == v,
            r.spec_id() == old(self).spec_id(),
            r.spec_video_id() == old(self).spec_video_id(),
            r.spec_stream_index() == old(self).spec_stream_index(),
            r.spec_container_track_id() == old(self).spec_container_track_id(),
            r.spec_start_pts() == old(self).spec_start_pts(),
            r.spec_duration() == old(self).spec_duration(),
            r.spec_codec() == old(self).spec_codec(),
            r.spec_profile() == old(self).spec_profile(),
            r.spec_level() == old(self).spec_level(),
            r.spec_bit_rate() == old(self).spec_bit_rate(),
            r.spec_nb_frames() == old(self).spec_nb_frames(),
            r.spec_has_b_frames() == old(self).spec_has_b_frames(),
            r.spec_closed_gop() == old(self).spec_closed_gop(),
            r.spec_bits_per_raw_sample() == old(self).spec_bits_per_raw_sample(),
            r.spec_dimensions() == old(self).spec_dimensions(),
            r.spec_visible_rect() == old(self).spec_visible_rect(),
            r.spec_sample_aspect_ratio() == old(self).spec_sample_aspect_ratio(),
            r.spec_pixel_format() == old(self).spec_pixel_format(),
            r.spec_color() == old(self).spec_color(),
            r.spec_hdr_static() == old(self).spec_hdr_static(),
            r.spec_rotation() == old(self).spec_rotation(),
            r.spec_frame_rate() == old(self).spec_frame_rate(),
            r.spec_avg_frame_rate() == old(self).spec_avg_frame_rate(),
            r.spec_field_order() == old(self).spec_field_order(),
            r.spec_stereo_mode() == old(self).spec_stereo_mode(),
            r.spec_dovi() == old(self).spec_dovi(),
            r.spec_disposition() == old(self).spec_disposition(),
            r.spec_is_primary() == old(self).spec_is_primary(),
            r.spec_auto_selected() == old(self).spec_auto_selected(),
            r.spec_scenes() == old(self).spec_scenes(),
            r.spec_metadata() == old(self).spec_metadata(),
            r.spec_index_status() == old(self).spec_index_status(),
            r.spec_index_errors() == old(self).spec_index_errors(),
            r.spec_provenance() == old(self).spec_provenance(),
    {
        proof {
            use_type_invariant(&*self);
        }
        self.has_embedded_captions = v;
        self
    }

    /// Builder: replace `disposition`.
    pub fn with_disposition(self, v: TrackDisposition) -> (r: Self)
        ensures
            r.spec_disposition() == v,
            r.spec_id() == self.spec_id(),
            r.spec_video_id() == self.spec_video_id(),
            r.spec_stream_index() == self.spec_stream_index(),
            r.spec_container_track_id() == self.spec_container_track_id(),
            r.spec_start_pts() == self.spec_start_pts(),
            r.spec_duration() == self.spec_duration(),
            r.spec_codec() == self.spec_codec(),
            r.spec_profile() == self.spec_profile(),
            r.spec_level() == self.spec_level(),
            r.spec_bit_rate() == self.spec_bit_rate(),
            r.spec_nb_frames() == self.spec_nb_frames(),
            r.spec_has_b_frames() == self.spec_has_b_frames(),
            r.spec_closed_gop() == self.spec_closed_gop(),
            r.spec_bits_per_raw_sample() == self.spec_bits_per_raw_sample(),
            r.spec_dimensions() == self.spec_dimensions(),
            r.spec_visible_rect() == self.spec_visible_rect(),
            r.spec_sample_aspect_ratio() == self.spec_sample_aspect_ratio(),
            r.spec_pixel_format() == self.spec_pixel_format(),
            r.spec_color() == self.spec_color(),
            r.spec_hdr_static() == self.spec_hdr_static(),
            r.spec_rotation() == self.spec_rotation(),
            r.spec_frame_rate() == self.spec_frame_rate(),
            r.spec_avg_frame_rate() == self.spec_avg_frame_rate(),
            r.spec_field_order() == self.spec_field_order(),
            r.spec_stereo_mode() == self.spec_stereo_mode(),
            r.spec_dovi() == self.spec_dovi(),
            r.spec_has_embedded_captions() == self.spec_has_embedded_captions(),
            r.spec_is_primary() == self.spec_is_primary(),
            r.spec_auto_selected() == self.spec_auto_selected(),
            r.spec_scenes() == self.spec_scenes(),
            r.spec_metadata() == self.spec_metadata(),
            r.spec_index_status() == self.spec_index_status(),
            r.spec_index_errors() == self.spec_index_errors(),
            r.spec_provenance() == self.spec_provenance(),
    {
        proof {
            use_type_invariant(&self);
        }
        let mut s = self;
        s.disposition = v;
        s
    }

    /// In-place mutator for `disposition`.
    pub fn set_disposition(&mut self, v: TrackDisposition) -> (r: &mut Self)
        ensures
            *final(self) == *final(r),
            r.spec_disposition() == v,
            r.spec_id() == old(self).spec_id(),
            r.spec_video_id() == old(self).spec_video_id(),
            r.spec_stream_index() == old(self).spec_stream_index(),
            r.spec_container_track_id() == old(self).spec_container_track_id(),
            r.spec_start_pts() == old(self).spec_start_pts(),
            r.spec_duration() == old(self).spec_duration(),
            r.spec_codec() == old(self).spec_codec(),
            r.spec_profile() == old(self).spec_profile(),
            r.spec_level() == old(self).spec_level(),
            r.spec_bit_rate() == old(self).spec_bit_rate(),
            r.spec_nb_frames() == old(self).spec_nb_frames(),
            r.spec_has_b_frames() == old(self).spec_has_b_frames(),
            r.spec_closed_gop() == old(self).spec_closed_gop(),
            r.spec_bits_per_raw_sample() == old(self).spec_bits_per_raw_sample(),
            r.spec_dimensions() == old(self).spec_dimensions(),
            r.spec_visible_rect() == old(self).spec_visible_rect(),
            r.spec_sample_aspect_ratio() == old(self).spec_sample_aspect_ratio(),
            r.spec_pixel_format() == old(self).spec_pixel_format(),
            r.spec_color() == old(self).spec_color(),
            r.spec_hdr_static() == old(self).spec_hdr_static(),
            r.spec_rotation() == old(self).spec_rotation(),
            r.spec_frame_rate() == old(self).spec_frame_rate(),
            r.spec_avg_frame_rate() == old(self).spec_avg_frame_rate(),
            r.spec_field_order() == old(self).spec_field_order(),
            r.spec_stereo_mode() == old(self).spec_stereo_mode(),
            r.spec_dovi() == old(self).spec_dovi(),
            r.spec_has_embedded_captions() == old(self).spec_has_embedded_captions(),
            r.spec_is_primary() == old(self).spec_is_primary(),
            r.spec_auto_selected() == old(self).spec_auto_selected(),
            r.spec_scenes() == old(self).spec_scenes(),
            r.spec_metadata() == old(self).spec_metadata(),
            r.spec_index_status() == old(self).spec_index_status(),
            r.spec_index_errors() == old(self).spec_index_errors(),
            r.spec_provenance() == old(self).spec_provenance(),
    {
        proof {
            use_type_invariant(&*self);
        }
        self.disposition = v;
        self
    }

    /// Builder: replace `is_primary`.
    pub fn with_is_primary(self, v: bool) -> (r: Self)
        ensures
            r.spec_is_primary() == v,
            r.spec_id() == self.spec_id(),
            r.spec_video_id() == self.spec_video_id(),
            r.spec_stream_index() == self.spec_stream_index(),
            r.spec_container_track_id() == self.spec_container_track_id(),
            r.spec_start_pts() == self.spec_start_pts(),
            r.spec_duration() == self.spec_duration(),
            r.spec_codec() == self.spec_codec(),
            r.spec_profile() == self.spec_profile(),
            r.spec_level() == self.spec_level(),
            r.spec_bit_rate() == self.spec_bit_rate(),
            r.spec_nb_frames() == self.spec_nb_frames(),
            r.spec_has_b_frames() == self.spec_has_b_frames(),
            r.spec_closed_gop() == self.spec_closed_gop(),
            r.spec_bits_per_raw_sample() == self.spec_bits_per_raw_sample(),
            r.spec_dimensions() == self.spec_dimensions(),
            r.spec_visible_rect() == self.spec_visible_rect(),
            r.spec_sample_aspect_ratio() == self.spec_sample_aspect_ratio(),
            r.spec_pixel_format() == self.spec_pixel_format(),
            r.spec_color() == self.spec_color(),
            r.spec_hdr_static() == self.spec_hdr_static(),
            r.spec_rotation() == self.spec_rotation(),
            r.spec_frame_rate() == self.spec_frame_rate(),
            r.spec_avg_frame_rate() == self.spec_avg_frame_rate(),
            r.spec_field_order() == self.spec_field_order(),
            r.spec_stereo_mode() == self.spec_stereo_mode(),
            r.spec_dovi() == self.spec_dovi(),
            r.spec_has_embedded_captions() == self.spec_has_embedded_captions(),
            r.spec_disposition() == self.spec_disposition(),
            r.spec_auto_selected() == self.spec_auto_selected(),
            r.spec_scenes() == self.spec_scenes(),
            r.spec_metadata() == self.spec_metadata(),
            r.spec_index_status() == self.spec_index_status(),
            r.spec_index_errors() == self.spec_index_errors(),
            r.spec_provenance() == self.spec_provenance(),
    {
        proof {
            use_type_invariant(&self);
        }
        let mut s = self;
        s.is_primary = v;
        s
    }

    /// In-place mutator for `is_primary`.
    pub fn set_is_primary(&mut self, v: bool) -> (r: &mut Self)
        ensures
            *final(self) == *final(r),
            r.spec_is_primary() == v,
            r.spec_id() == old(self).spec_id(),
            r.spec_video_id() == old(self).spec_video_id(),
            r.spec_stream_index() == old(self).spec_stream_index(),
            r.spec_container_track_id() == old(self).spec_container_track_id(),
            r.spec_start_pts() == old(self).spec_start_pts(),
            r.spec_duration() == old(self).spec_duration(),
            r.spec_codec() == old(self).spec_codec(),
            r.spec_profile() == old(self).spec_profile(),
            r.spec_level() == old(self).spec_level(),
            r.spec_bit_rate() == old(self).spec_bit_rate(),
            r.spec_nb_frames() == old(self).spec_nb_frames(),
            r.spec_has_b_frames() == old(self).spec_has_b_frames(),
            r.spec_closed_gop() == old(self).spec_closed_gop(),
            r.spec_bits_per_raw_sample() == old(self).spec_bits_per_raw_sample(),
            r.spec_dimensions() == old(self).spec_dimensions(),
            r.spec_visible_rect() == old(self).spec_visible_rect(),
            r.spec_sample_aspect_ratio() == old(self).spec_sample_aspect_ratio(),
            r.spec_pixel_format() == old(self).spec_pixel_format(),
            r.spec_color() == old(self).spec_color(),
            r.spec_hdr_static() == old(self).spec_hdr_static(),
            r.spec_rotation() == old(self).spec_rotation(),
            r.spec_frame_rate() == old(self).spec_frame_rate(),
            r.spec_avg_frame_rate() == old(self).spec_avg_frame_rate(),
            r.spec_field_order() == old(self).spec_field_order(),
            r.spec_stereo_mode() == old(self).spec_stereo_mode(),
            r.spec_dovi() == old(self).spec_dovi(),
            r.spec_has_embedded_captions() == old(self).spec_has_embedded_captions(),
            r.spec_disposition() == old(self).spec_disposition(),
            r.spec_auto_selected() == old(self).spec_auto_selected(),
            r.spec_scenes() == old(self).spec_scenes(),
            r.spec_metadata() == old(self).spec_metadata(),
            r.spec_index_status() == old(self).spec_index_status(),
            r.spec_index_errors() == old(self).spec_index_errors(),
            r.spec_provenance() == old(self).spec_provenance(),
    {
        proof {
            use_type_invariant(&*self);
        }
        self.is_primary = v;
        self
    }

    /// Builder: replace `auto_selected`.
    pub fn with_auto_selected(self, v: bool) -> (r: Self)
        ensures
            r.spec_auto_selected() == v,
            r.spec_id() == self.spec_id(),
            r.spec_video_id() == self.spec_video_id(),
            r.spec_stream_index() == self.spec_stream_index(),
            r.spec_container_track_id() == self.spec_container_track_id(),
            r.spec_start_pts() == self.spec_start_pts(),
            r.spec_duration() == self.spec_duration(),
            r.spec_codec() == self.spec_codec(),
            r.spec_profile() == self.spec_profile(),
            r.spec_level() == self.spec_level(),
            r.spec_bit_rate() == self.spec_bit_rate(),
            r.spec_nb_frames() == self.spec_nb_frames(),
            r.spec_has_b_frames() == self.spec_has_b_frames(),
            r.spec_closed_gop() == self.spec_closed_gop(),
            r.spec_bits_per_raw_sample() == self.spec_bits_per_raw_sample(),
            r.spec_dimensions() == self.spec_dimensions(),
            r.spec_visible_rect() == self.spec_visible_rect(),
            r.spec_sample_aspect_ratio() == self.spec_sample_aspect_ratio(),
            r.spec_pixel_format() == self.spec_pixel_format(),
            r.spec_color() == self.spec_color(),
            r.spec_hdr_static() == self.spec_hdr_static(),
            r.spec_rotation() == self.spec_rotation(),
            r.spec_frame_rate() == self.spec_frame_rate(),
            r.spec_avg_frame_rate() == self.spec_avg_frame_rate(),
            r.spec_field_order() == self.spec_field_order(),
            r.spec_stereo_mode() == self.spec_stereo_mode(),
            r.spec_dovi() == self.spec_dovi(),
            r.spec_has_embedded_captions() == self.spec_has_embedded_captions(),
            r.spec_disposition() == self.spec_disposition(),
            r.spec_is_primary() == self.spec_is_primary(),
            r.spec_scenes() == self.spec_scenes(),
            r.spec_metadata() == self.spec_metadata(),
            r.spec_index_status() == self.spec_index_status(),
            r.spec_index_errors() == self.spec_index_errors(),
            r.spec_provenance() == self.spec_provenance(),
    {
        proof {
            use_type_invariant(&self);
        }
        let mut s = self;
        s.auto_selected = v;
        s
    }

    /// In-place mutator for `auto_selected`.
    pub fn set_auto_selected(&mut self, v: bool) -> (r: &mut Self)
        ensures
            *final(self) == *final(r),
            r.spec_auto_selected() == v,
            r.spec_id() == old(self).spec_id(),
            r.spec_video_id() == old(self).spec_video_id(),
            r.spec_stream_index() == old(self).spec_stream_index(),
            r.spec_container_track_id() == old(self).spec_container_track_id(),
            r.spec_start_pts() == old(self).spec_start_pts(),
            r.spec_duration() == old(self).spec_duration(),
            r.spec_codec() == old(self).spec_codec(),
            r.spec_profile() == old(self).spec_profile(),
            r.spec_level() == old(self).spec_level(),
            r.spec_bit_rate() == old(self).spec_bit_rate(),
            r.spec_nb_frames() == old(self).spec_nb_frames(),
            r.spec_has_b_frames() == old(self).spec_has_b_frames(),
            r.spec_closed_gop() == old(self).spec_closed_gop(),
            r.spec_bits_per_raw_sample() == old(self).spec_bits_per_raw_sample(),
            r.spec_dimensions() == old(self).spec_dimensions(),
            r.spec_visible_rect() == old(self).spec_visible_rect(),
            r.spec_sample_aspect_ratio() == old(self).spec_sample_aspect_ratio(),
            r.spec_pixel_format() == old(self).spec_pixel_format(),
            r.spec_color() == old(self).spec_color(),
            r.spec_hdr_static() == old(self).spec_hdr_static(),
            r.spec_rotation() == old(self).spec_rotation(),
            r.spec_frame_rate() == old(self).spec_frame_rate(),
            r.spec_avg_frame_rate() == old(self).spec_avg_frame_rate(),
            r.spec_field_order() == old(self).spec_field_order(),
            r.spec_stereo_mode() == old(self).spec_stereo_mode(),
            r.spec_dovi() == old(self).spec_dovi(),
            r.spec_has_embedded_captions() == old(self).spec_has_embedded_captions(),
            r.spec_disposition() == old(self).spec_disposition(),
            r.spec_is_primary() == old(self).spec_is_primary(),
            r.spec_scenes() == old(self).spec_scenes(),
            r.spec_metadata() == old(self).spec_metadata(),
            r.spec_index_status() == old(self).spec_index_status(),
            r.spec_index_errors() == old(self).spec_index_errors(),
            r.spec_provenance() == old(self).spec_provenance(),
    {
        proof {
            use_type_invariant(&*self);
        }
        self.auto_selected = v;
        self
    }

    /// Builder: replace `index_status`.
    pub fn with_index_status(self, v: VideoIndexStatus) -> (r: Self)
        ensures
            r.spec_index_status() == v,
            r.spec_id() == self.spec_id(),
            r.spec_video_id() == self.spec_video_id(),
            r.spec_stream_index() == self.spec_stream_index(),
            r.spec_container_track_id() == self.spec_container_track_id(),
            r.spec_start_pts() == self.spec_start_pts(),
            r.spec_duration() == self.spec_duration(),
            r.spec_codec() == self.spec_codec(),
            r.spec_profile() == self.spec_profile(),
            r.spec_level() == self.spec_level(),
            r.spec_bit_rate() == self.spec_bit_rate(),
            r.spec_nb_frames() == self.spec_nb_frames(),
            r.spec_has_b_frames() == self.spec_has_b_frames(),
            r.spec_closed_gop() == self.spec_closed_gop(),
            r.spec_bits_per_raw_sample() == self.spec_bits_per_raw_sample(),
            r.spec_dimensions() == self.spec_dimensions(),
            r.spec_visible_rect() == self.spec_visible_rect(),
            r.spec_sample_aspect_ratio() == self.spec_sample_aspect_ratio(),
            r.spec_pixel_format() == self.spec_pixel_format(),
            r.spec_color() == self.spec_color(),
            r.spec_hdr_static() == self.spec_hdr_static(),
            r.spec_rotation() == self.spec_rotation(),
            r.spec_frame_rate() == self.spec_frame_rate(),
            r.spec_avg_frame_rate() == self.spec_avg_frame_rate(),
            r.spec_field_order() == self.spec_field_order(),
            r.spec_stereo_mode() == self.spec_stereo_mode(),
            r.spec_dovi() == self.spec_dovi(),
            r.spec_has_embedded_captions() == self.spec_has_embedded_captions(),
            r.spec_disposition() == self.spec_disposition(),
            r.spec_is_primary() == self.spec_is_primary(),
            r.spec_auto_selected() == self.spec_auto_selected(),
            r.spec_scenes() == self.spec_scenes(),
            r.spec_metadata() == self.spec_metadata(),
            r.spec_index_errors() == self.spec_index_errors(),
            r.spec_provenance() == self.spec_provenance(),
    {
        proof {
            use_type_invariant(&self);
        }
        let mut s = self;
        s.index_status = v;
        s
    }

    /// In-place mutator for `index_status`.
    pub fn set_index_status(&mut self, v: VideoIndexStatus) -> (r: &mut Self)
        ensures
            *final(self) == *final(r),
            r.spec_index_status() == v,
            r.spec_id() == old(self).spec_id(),
            r.spec_video_id() == old(self).spec_video_id(),
            r.spec_stream_index() == old(self).spec_stream_index(),
            r.spec_container_track_id() == old(self).spec_container_track_id(),
            r.spec_start_pts() == old(self).spec_start_pts(),
            r.spec_duration() == old(self).spec_duration(),
            r.spec_codec() == old(self).spec_codec(),
            r.spec_profile() == old(self).spec_profile(),
            r.spec_level() == old(self).spec_level(),
            r.spec_bit_rate() == old(self).spec_bit_rate(),
            r.spec_nb_frames() == old(self).spec_nb_frames(),
            r.spec_has_b_frames() == old(self).spec_has_b_frames(),
            r.spec_closed_gop() == old(self).spec_closed_gop(),
            r.spec_bits_per_raw_sample() == old(self).spec_bits_per_raw_sample(),
            r.spec_dimensions() == old(self).spec_dimensions(),
            r.spec_visible_rect() == old(self).spec_visible_rect(),
            r.spec_sample_aspect_ratio() == old(self).spec_sample_aspect_ratio(),
            r.spec_pixel_format() == old(self).spec_pixel_format(),
            r.spec_color() == old(self).spec_color(),
            r.spec_hdr_static() == old(self).spec_hdr_static(),
            r.spec_rotation() == old(self).spec_rotation(),
            r.spec_frame_rate() == old(self).spec_frame_rate(),
            r.spec_avg_frame_rate() == old(self).spec_avg_frame_rate(),
            r.spec_field_order() == old(self).spec_field_order(),
            r.spec_stereo_mode() == old(self).spec_stereo_mode(),
            r.spec_dovi() == old(self).spec_dovi(),
            r.spec_has_embedded_captions() == old(self).spec_has_embedded_captions(),
            r.spec_disposition() == old(self).spec_disposition(),
            r.spec_is_primary() == old(self).spec_is_primary(),
            r.spec_auto_selected() == old(self).spec_auto_selected(),
            r.spec_scenes() == old(self).spec_scenes(),
            r.spec_metadata() == old(self).spec_metadata(),
            r.spec_index_errors() == old(self).spec_index_errors(),
            r.spec_provenance() == old(self).spec_provenance(),
    {
        proof {
            use_type_invariant(&*self);
        }
        self.index_status = v;
        self
    }

    /// Builder: replace `index_errors`.
    pub fn with_index_errors(self, v: Vec<ErrorInfo>) -> (r: Self)
        ensures
            r.spec_index_errors() == v@,
            r.spec_id() == self.spec_id(),
            r.spec_video_id() == self.spec_video_id(),
            r.spec_stream_index() == self.spec_stream_index(),
            r.spec_container_track_id() == self.spec_container_track_id(),
            r.spec_start_pts() == self.spec_start_pts(),
            r.spec_duration() == self.spec_duration(),
            r.spec_codec() == self.spec_codec(),
            r.spec_profile() == self.spec_profile(),
            r.spec_level() == self.spec_level(),
            r.spec_bit_rate() == self.spec_bit_rate(),
            r.spec_nb_frames() == self.spec_nb_frames(),
            r.spec_has_b_frames() == self.spec_has_b_frames(),
            r.spec_closed_gop() == self.spec_closed_gop(),
            r.spec_bits_per_raw_sample() == self.spec_bits_per_raw_sample(),
            r.spec_dimensions() == self.spec_dimensions(),
            r.spec_visible_rect() == self.spec_visible_rect(),
            r.spec_sample_aspect_ratio() == self.spec_sample_aspect_ratio(),
            r.spec_pixel_format() == self.spec_pixel_format(),
            r.spec_color() == self.spec_color(),
            r.spec_hdr_static() == self.spec_hdr_static(),
            r.spec_rotation() == self.spec_rotation(),
            r.spec_frame_rate() == self.spec_frame_rate(),
            r.spec_avg_frame_rate() == self.spec_avg_frame_rate(),
            r.spec_field_order() == self.spec_field_order(),
            r.spec_stereo_mode() == self.spec_stereo_mode(),
            r.spec_dovi() == self.spec_dovi(),
            r.spec_has_embedded_captions() == self.spec_has_embedded_captions(),
            r.spec_disposition() == self.spec_disposition(),
            r.spec_is_primary() == self.spec_is_primary(),
            r.spec_auto_selected() == self.spec_auto_selected(),
            r.spec_scenes() == self.spec_scenes(),
            r.spec_metadata() == self.spec_metadata(),
            r.spec_index_status() == self.spec_index_status(),
            r.spec_provenance() == self.spec_provenance(),
    {
        proof {
            use_type_invariant(&self);
        }
        let mut s = self;
        s.index_errors = v;
        s
    }

    /// In-place mutator for `index_errors`.
    pub fn set_index_errors(&mut self, v: Vec<ErrorInfo>) -> (r: &mut Self)
        ensures
            *final(self) == *final(r),
            r.spec_index_errors() == v@,
            r.spec_id() == old(self).spec_id(),
            r.spec_video_id() == old(self).spec_video_id(),
            r.spec_stream_index() == old(self).spec_stream_index(),
            r.spec_container_track_id() == old(self).spec_container_track_id(),
            r.spec_start_pts() == old(self).spec_start_pts(),
            r.spec_duration() == old(self).spec_duration(),
            r.spec_codec() == old(self).spec_codec(),
            r.spec_profile() == old(self).spec_profile(),
            r.spec_level() == old(self).spec_level(),
            r.spec_bit_rate() == old(self).spec_bit_rate(),
            r.spec_nb_frames() == old(self).spec_nb_frames(),
            r.spec_has_b_frames() == old(self).spec_has_b_frames(),
            r.spec_closed_gop() == old(self).spec_closed_gop(),
            r.spec_bits_per_raw_sample() == old(self).spec_bits_per_raw_sample(),
            r.spec_dimensions() == old(self).spec_dimensions(),
            r.spec_visible_rect() == old(self).spec_visible_rect(),
            r.spec_sample_aspect_ratio() == old(self).spec_sample_aspect_ratio(),
            r.spec_pixel_format() == old(self).spec_pixel_format(),
            r.spec_color() == old(self).spec_color(),
            r.spec_hdr_static() == old(self).spec_hdr_static(),
            r.spec_rotation() == old(self).spec_rotation(),
            r.spec_frame_rate() == old(self).spec_frame_rate(),
            r.spec_avg_frame_rate() == old(self).spec_avg_frame_rate(),
            r.spec_field_order() == old(self).spec_field_order(),
            r.spec_stereo_mode() == old(self).spec_stereo_mode(),
            r.spec_dovi() == old(self).spec_dovi(),
            r.spec_has_embedded_captions() == old(self).spec_has_embedded_captions(),
            r.spec_disposition() == old(self).spec_disposition(),
            r.spec_is_primary() == old(self).spec_is_primary(),
            r.spec_auto_selected() == old(self).spec_auto_selected(),
            r.spec_scenes() == old(self).spec_scenes(),
            r.spec_metadata() == old(self).spec_metadata(),
            r.spec_index_status() == old(self).spec_index_status(),
            r.spec_provenance() == old(self).spec_provenance(),
    {
        proof {
            use_type_invariant(&*self);
        }
        self.index_errors = v;
        self
    }

    /// Builder: replace `provenance`.
    pub fn with_provenance(self, v: Provenance) -> (r: Self)
        ensures
            r.spec_provenance() == v,
            r.spec_id() == self.spec_id(),
            r.spec_video_id() == self.spec_video_id(),
            r.spec_stream_index() == self.spec_stream_index(),
            r.spec_container_track_id() == self.spec_container_track_id(),
            r.spec_start_pts() == self.spec_start_pts(),
            r.spec_duration() == self.spec_duration(),
            r.spec_codec() == self.spec_codec(),
            r.spec_profile() == self.spec_profile(),
            r.spec_level() == self.spec_level(),
            r.spec_bit_rate() == self.spec_bit_rate(),
            r.spec_nb_frames() == self.spec_nb_frames(),
            r.spec_has_b_frames() == self.spec_has_b_frames(),
            r.spec_closed_gop() == self.spec_closed_gop(),
            r.spec_bits_per_raw_sample() == self.spec_bits_per_raw_sample(),
            r.spec_dimensions() == self.spec_dimensions(),
            r.spec_visible_rect() == self.spec_visible_rect(),
            r.spec_sample_aspect_ratio() == self.spec_sample_aspect_ratio(),
            r.spec_pixel_format() == self.spec_pixel_format(),
            r.spec_color() == self.spec_color(),
            r.spec_hdr_static() == self.spec_hdr_static(),
            r.spec_rotation() == self.spec_rotation(),
            r.spec_frame_rate() == self.spec_frame_rate(),
            r.spec_avg_frame_rate() == self.spec_avg_frame_rate(),
            r.spec_field_order() == self.spec_field_order(),
            r.spec_stereo_mode() == self.spec_stereo_mode(),
            r.spec_dovi() == self.spec_dovi(),
            r.spec_has_embedded_captions() == self.spec_has_embedded_captions(),
            r.spec_disposition() == self.spec_disposition(),
            r.spec_is_primary() == self.spec_is_primary(),
            r.spec_auto_selected() == self.spec_auto_selected(),
            r.spec_scenes() == self.spec_scenes(),
            r.spec_metadata() == self.spec_metadata(),
            r.spec_index_status() == self.spec_index_status(),
            r.spec_index_errors() == self.spec_index_errors(),
    {
        proof {
            use_type_invariant(&self);
        }
        let mut s = self;
        s.provenance = v;
        s
    }

    /// In-place mutator for `provenance`.
    pub fn set_provenance(&mut self, v: Provenance) -> (r: &mut Self)
        ensures
            *final(self) == *final(r),
            r.spec_provenance() == v,
            r.spec_id() == old(self).spec_id(),
            r.spec_video_id() == old(self).spec_video_id(),
            r.spec_stream_index() == old(self).spec_stream_index(),
            r.spec_container_track_id() == old(self).spec_container_track_id(),
            r.spec_start_pts() == old(self).spec_start_pts(),
            r.spec_duration() == old(self).spec_duration(),
            r.spec_codec() == old(self).spec_codec(),
            r.spec_profile() == old(self).spec_profile(),
            r.spec_level() == old(self).spec_level(),
            r.spec_bit_rate() == old(self).spec_bit_rate(),
            r.spec_nb_frames() == old(self).spec_nb_frames(),
            r.spec_has_b_frames() == old(self).spec_has_b_frames(),
            r.spec_closed_gop() == old(self).spec_closed_gop(),
            r.spec_bits_per_raw_sample() == old(self).spec_bits_per_raw_sample(),
            r.spec_dimensions() == old(self).spec_dimensions(),
            r.spec_visible_rect() == old(self).spec_visible_rect(),
            r.spec_sample_aspect_ratio() == old(self).spec_sample_aspect_ratio(),
            r.spec_pixel_format() == old(self).spec_pixel_format(),
            r.spec_color() == old(self).spec_color(),
            r.spec_hdr_static() == old(self).spec_hdr_static(),
            r.spec_rotation() == old(self).spec_rotation(),
            r.spec_frame_rate() == old(self).spec_frame_rate(),
            r.spec_avg_frame_rate() == old(self).spec_avg_frame_rate(),
            r.spec_field_order() == old(self).spec_field_order(),
            r.spec_stereo_mode() == old(self).spec_stereo_mode(),
            r.spec_dovi() == old(self).spec_dovi(),
            r.spec_has_embedded_captions() == old(self).spec_has_embedded_captions(),
            r.spec_disposition() == old(self).spec_disposition(),
            r.spec_is_primary() == old(self).spec_is_primary(),
            r.spec_auto_selected() == old(self).spec_auto_selected(),
            r.spec_scenes() == old(self).spec_scenes(),
            r.spec_metadata() == old(self).spec_metadata(),
            r.spec_index_status() == old(self).spec_index_status(),
            r.spec_index_errors() == old(self).spec_index_errors(),
    {
        proof {
            use_type_invariant(&*self);
        }
        self.provenance = v;
        self
    }

    /// Decompose into [`VideoTrackParts`] — exhaustive, by value.
    pub fn into_parts(self) -> (r: VideoTrackParts<Id>)
        ensures
            geometry_ok(r.dimensions, r.visible_rect),
            r.id == self.spec_id(),
            r.video_id == self.spec_video_id(),
            r.stream_index == self.spec_stream_index(),
            r.container_track_id == self.spec_container_track_id(),
            r.start_pts == self.spec_start_pts(),
            r.duration == self.spec_duration(),
            r.codec == self.spec_codec(),
            r.profile == self.spec_profile(),
            r.level == self.spec_level(),
            r.bit_rate == self.spec_bit_rate(),
            r.nb_frames == self.spec_nb_frames(),
            r.has_b_frames == self.spec_has_b_frames(),
            r.closed_gop == self.spec_closed_gop(),
            r.bits_per_raw_sample == self.spec_bits_per_raw_sample(),
            r.dimensions == self.spec_dimensions(),
            r.visible_rect == self.spec_visible_rect(),
            r.sample_aspect_ratio == self.spec_sample_aspect_ratio(),
            r.pixel_format == self.spec_pixel_format(),
            r.color == self.spec_color(),
            r.hdr_static == self.spec_hdr_static(),
            r.rotation == self.spec_rotation(),
            r.frame_rate == self.spec_frame_rate(),
            r.avg_frame_rate == self.spec_avg_frame_rate(),
            r.field_order == self.spec_field_order(),
            r.stereo_mode == self.spec_stereo_mode(),
            r.dovi == self.spec_dovi(),
            r.has_embedded_captions == self.spec_has_embedded_captions(),
            r.disposition == self.spec_disposition(),
            r.is_primary == self.spec_is_primary(),
            r.auto_selected == self.spec_auto_selected(),
            r.scenes@ == self.spec_scenes(),
            r.metadata == self.spec_metadata(),
            r.index_status == self.spec_index_status(),
            r.index_errors@ == self.spec_index_errors(),
            r.provenance == self.spec_provenance(),
    {
        proof {
            use_type_invariant(&self);
        }
        let VideoTrack { id, video_id, stream_index, container_track_id, start_pts, duration, codec, profile, level, bit_rate, nb_frames, has_b_frames, closed_gop, bits_per_raw_sample, dimensions, visible_rect, sample_aspect_ratio, pixel_format, color, hdr_static, rotation, frame_rate, avg_frame_rate, field_order, stereo_mode, dovi, has_embedded_captions, disposition, is_primary, auto_selected, scenes, metadata, index_status, index_errors, provenance } = self;
        VideoTrackParts { id, video_id, stream_index, container_track_id, start_pts, duration, codec, profile, level, bit_rate, nb_frames, has_b_frames, closed_gop, bits_per_raw_sample, dimensions, visible_rect, sample_aspect_ratio, pixel_format, color, hdr_static, rotation, frame_rate, avg_frame_rate, field_order, stereo_mode, dovi, has_embedded_captions, disposition, is_primary, auto_selected, scenes, metadata, index_status, index_errors, provenance }
    }

    /// Rebuild from [`VideoTrackParts`]; the parts must come from an
    /// already-validated value.
    pub fn rehydrate(parts: VideoTrackParts<Id>) -> (r: Self)
        requires
            geometry_ok(parts.dimensions, parts.visible_rect),
        ensures
            r.spec_id() == parts.id,
            r.spec_video_id() == parts.video_id,
            r.spec_stream_index() == parts.stream_index,
            r.spec_container_track_id() == parts.container_track_id,
            r.spec_start_pts() == parts.start_pts,
            r.spec_duration() == parts.duration,
            r.spec_codec() == parts.codec,
            r.spec_profile() == parts.profile,
            r.spec_level() == parts.level,
            r.spec_bit_rate() == parts.bit_rate,
            r.spec_nb_frames() == parts.nb_frames,
            r.spec_has_b_frames() == parts.has_b_frames,
            r.spec_closed_gop() == parts.closed_gop,
            r.spec_bits_per_raw_sample() == parts.bits_per_raw_sample,
            r.spec_dimensions() == parts.dimensions,
            r.spec_visible_rect() == parts.visible_rect,
            r.spec_sample_aspect_ratio() == parts.sample_aspect_ratio,
            r.spec_pixel_format() == parts.pixel_format,
            r.spec_color() == parts.color,
            r.spec_hdr_static() == parts.hdr_static,
            r.spec_rotation() == parts.rotation,
            r.spec_frame_rate() == parts.frame_rate,
            r.spec_avg_frame_rate() == parts.avg_frame_rate,
            r.spec_field_order() == parts.field_order,
            r.spec_stereo_mode() == parts.stereo_mode,
            r.spec_dovi() == parts.dovi,
            r.spec_has_embedded_captions() == parts.has_embedded_captions,
            r.spec_disposition() == parts.disposition,
            r.spec_is_primary() == parts.is_primary,
            r.spec_auto_selected() == parts.auto_selected,
            r.spec_scenes() == parts.scenes@,
            r.spec_metadata() == parts.metadata,
            r.spec_index_status() == parts.index_status,
            r.spec_index_errors() == parts.index_errors@,
            r.spec_provenance() == parts.provenance,
    {
        let VideoTrackParts { id, video_id, stream_index, container_track_id, start_pts, duration, codec, profile, level, bit_rate, nb_frames, has_b_frames, closed_gop, bits_per_raw_sample, dimensions, visible_rect, sample_aspect_ratio, pixel_format, color, hdr_static, rotation, frame_rate, avg_frame_rate, field_order, stereo_mode, dovi, has_embedded_captions, disposition, is_primary, auto_selected, scenes, metadata, index_status, index_errors, provenance } = parts;
        VideoTrack { id, video_id, stream_index, container_track_id, start_pts, duration, codec, profile, level, bit_rate, nb_frames, has_b_frames, closed_gop, bits_per_raw_sample, dimensions, visible_rect, sample_aspect_ratio, pixel_format, color, hdr_static, rotation, frame_rate, avg_frame_rate, field_order, stereo_mode, dovi, has_embedded_captions, disposition, is_primary, auto_selected, scenes, metadata, index_status, index_errors, provenance }
    }
}

/// Exhaustive by-value decomposition of [`VideoTrack`] — every stored
/// field, public.
#[derive(Debug, PartialEq, Eq)]
pub struct VideoTrackParts<Id = Uuid7> {
    pub id: Id,
    pub video_id: Id,
    pub stream_index: Option<u32>,
    pub container_track_id: Option<u64>,
    pub start_pts: Option<MediaTimestamp>,
    pub duration: Option<MediaTimestamp>,
    pub codec: VideoCodec,
    pub profile: Option<String>,
    pub level: Option<u16>,
    pub bit_rate: u64,
    pub nb_frames: Option<u64>,
    pub has_b_frames: bool,
    pub closed_gop: Option<bool>,
    pub bits_per_raw_sample: Option<u8>,
    pub dimensions: Dimensions,
    pub visible_rect: Option<Rect>,
    pub sample_aspect_ratio: SampleAspectRatio,
    pub pixel_format: PixelFormat,
    pub color: ColorInfo,
    pub hdr_static: Option<HdrStaticMetadata>,
    pub rotation: Rotation,
    pub frame_rate: FrameRate,
    pub avg_frame_rate: FrameRate,
    pub field_order: FieldOrder,
    pub stereo_mode: Option<StereoMode>,
    pub dovi: Option<DolbyVisionConfig>,
    pub has_embedded_captions: bool,
    pub disposition: TrackDisposition,
    pub is_primary: bool,
    pub auto_selected: bool,
    pub scenes: Vec<Id>,
    pub metadata: MetadataMap,
    pub index_status: VideoIndexStatus,
    pub index_errors: Vec<ErrorInfo>,
    pub provenance: Provenance,
}

impl<Id: Clone> Clone for VideoTrack<Id> {
    /// A field-by-field copy; the geometry is the same, so the copy keeps the
    /// geometry rule.
    fn clone(&self) -> (r: Self)
        ensures
            cloned::<Id>(self.spec_id(), r.spec_id()),
            cloned::<Id>(self.spec_video_id(), r.spec_video_id()),
            r.spec_stream_index() == self.spec_stream_index(),
            r.spec_container_track_id() == self.spec_container_track_id(),
            r.spec_start_pts() == self.spec_start_pts(),
            r.spec_duration() == self.spec_duration(),
            r.spec_codec() == self.spec_codec(),
            r.spec_profile() == self.spec_profile(),
            r.spec_level() == self.spec_level(),
            r.spec_bit_rate() == self.spec_bit_rate(),
            r.spec_nb_frames() == self.spec_nb_frames(),
            r.spec_has_b_frames() == self.spec_has_b_frames(),
            r.spec_closed_gop() == self.spec_closed_gop(),
            r.spec_bits_per_raw_sample() == self.spec_bits_per_raw_sample(),
            r.spec_dimensions() == self.spec_dimensions(),
            r.spec_visible_rect() == self.spec_visible_rect(),
            r.spec_sample_aspect_ratio() == self.spec_sample_aspect_ratio(),
            r.spec_pixel_format() == self.spec_pixel_format(),
            r.spec_color() == self.spec_color(),
            r.spec_hdr_static() == self.spec_hdr_static(),
            r.spec_rotation() == self.spec_rotation(),
            r.spec_frame_rate() == self.spec_frame_rate(),
            r.spec_avg_frame_rate() == self.spec_avg_frame_rate(),
            r.spec_field_order() == self.spec_field_order(),
            r.spec_stereo_mode() == self.spec_stereo_mode(),
            r.spec_dovi() == self.spec_dovi(),
            r.spec_has_embedded_captions() == self.spec_has_embedded_captions(),
            r.spec_disposition() == self.spec_disposition(),
            r.spec_is_primary() == self.spec_is_primary(),
            r.spec_auto_selected() == self.spec_auto_selected(),
            r.spec_scenes().len() == self.spec_scenes().len(),
            forall|i: int|
                0 <= i < self.spec_scenes().len() ==> cloned::<Id>(
                    #[trigger] self.spec_scenes()[i],
                    r.spec_scenes()[i],
                ),
            r.spec_index_status() == self.spec_index_status(),
            r.spec_index_errors() == self.spec_index_errors(),
            r.spec_provenance() == self.spec_provenance(),
    {
        proof {
            use_type_invariant(self);
        }
        VideoTrack {
            id: self.id.clone(),
            video_id: self.video_id.clone(),
            stream_index: self.stream_index,
            container_track_id: self.container_track_id,
            start_pts: self.start_pts,
            duration: self.duration,
            codec: self.codec.clone(),
            profile: self.profile.clone(),
            level: self.level,
            bit_rate: self.bit_rate,
            nb_frames: self.nb_frames,
            has_b_frames: self.has_b_frames,
            closed_gop: self.closed_gop,
            bits_per_raw_sample: self.bits_per_raw_sample,
            dimensions: self.dimensions,
            visible_rect: self.visible_rect,
            sample_aspect_ratio: self.sample_aspect_ratio,
            pixel_format: self.pixel_format.clone(),
            color: self.color.clone(),
            hdr_static: self.hdr_static,
            rotation: self.rotation.clone(),
            frame_rate: self.frame_rate,
            avg_frame_rate: self.avg_frame_rate,
            field_order: self.field_order.clone(),
            stereo_mode: self.stereo_mode.clone(),
            dovi: self.dovi,
            has_embedded_captions: self.has_embedded_captions,
            disposition: self.disposition,
            is_primary: self.is_primary,
            auto_selected: self.auto_selected,
            scenes: self.scenes.clone(),
            metadata: self.metadata.clone(),
            index_status: self.index_status,
            index_errors: self.index_errors.clone(),
            provenance: self.provenance.clone(),
        }
    }
}

} // verus!
