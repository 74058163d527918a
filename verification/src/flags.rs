//! Indexing bitflags: the per-track `index_status` sets and the `Media`
//! error rollup. The wire keeps a bare integer; these types give it named
//! bits and set operations. Every set is a plain bit set over its declared
//! bits; bits outside the declared ones are kept by `from_bits_retain` and
//! dropped by `from_bits_truncate`.
use vstd::prelude::*;

verus! {
/// Union of every declared bit of [`MediaErrorFlags`].
pub open spec fn media_error_flags_all_bits() -> u16 {
    0x7
}

/// Coarse per-kind error rollup on `Media`: a bit is set iff that kind's
/// `track_progress.failed > 0`. Bits from `0x0008` upward are reserved for future kinds.
#[derive(Debug, Clone, Copy, PartialEq, Eq, Hash, Structural)]
pub struct MediaErrorFlags {
    bits: u16,
}

impl View for MediaErrorFlags {
    type V = u16;

    closed spec fn view(&self) -> u16 {
        self.bits
    }
}

impl MediaErrorFlags {
    /// The `VIDEO_ERROR` bit (`0x1`).
    #[allow(non_snake_case)]
    pub fn VIDEO_ERROR() -> (r: Self)
        ensures
            r@ == 0x1,
    {
        MediaErrorFlags { bits: 0x1 }
    }

    /// The `AUDIO_ERROR` bit (`0x2`).
    #[allow(non_snake_case)]
    pub fn AUDIO_ERROR() -> (r: Self)
        ensures
            r@ == 0x2,
    {
        MediaErrorFlags { bits: 0x2 }
    }

    /// The `SUBTITLE_ERROR` bit (`0x4`).
    #[allow(non_snake_case)]
    pub fn SUBTITLE_ERROR() -> (r: Self)
        ensures
            r@ == 0x4,
    {
        MediaErrorFlags { bits: 0x4 }
    }

    /// The set with no bit.
    pub fn empty() -> (r: Self)
        ensures
            r@ == 0,
    {
        MediaErrorFlags { bits: 0 }
    }

    /// The set of every declared bit.
    pub fn all() -> (r: Self)
        ensures
            r@ == media_error_flags_all_bits(),
    {
        MediaErrorFlags { bits: 0x7 }
    }

    /// The raw bit pattern.
    pub fn bits(&self) -> (r: u16)
        ensures
            r == self@,
    {
        self.bits
    }

    /// Keep exactly the declared bits of `bits`, dropping any other.
    pub fn from_bits_truncate(bits: u16) -> (r: Self)
        ensures
            r@ == bits & media_error_flags_all_bits(),
    {
        MediaErrorFlags { bits: bits & 0x7 }
    }

    /// Keep `bits` verbatim, undeclared bits included.
    pub fn from_bits_retain(bits: u16) -> (r: Self)
        ensures
            r@ == bits,
    {
        MediaErrorFlags { bits }
    }

    /// `Some` iff `bits` holds only declared bits.
    pub fn from_bits(bits: u16) -> (r: Option<Self>)
        ensures
            r is Some <==> bits & !media_error_flags_all_bits() == 0,
            r matches Some(s) ==> s@ == bits,
    {
        if bits & !0x7u16 == 0 {
            Some(MediaErrorFlags { bits })
        } else {
            None
        }
    }

    /// True iff no bit is set.
    pub fn is_empty(&self) -> (r: bool)
        ensures
            r == (self@ == 0),
    {
        self.bits == 0
    }

    /// True iff every declared bit is set.
    pub fn is_all(&self) -> (r: bool)
        ensures
            r == (self@ & media_error_flags_all_bits() == media_error_flags_all_bits()),
    {
        self.bits & 0x7 == 0x7
    }

    /// True iff every bit of `other` is set in `self`.
    pub fn contains(&self, other: Self) -> (r: bool)
        ensures
            r == (self@ & other@ == other@),
    {
        self.bits & other.bits == other.bits
    }

    /// True iff `self` and `other` share at least one bit.
    pub fn intersects(&self, other: Self) -> (r: bool)
        ensures
            r == (self@ & other@ != 0),
    {
        self.bits & other.bits != 0
    }

    /// The bits set in either operand.
    pub fn union(self, other: Self) -> (r: Self)
        ensures
            r@ == self@ | other@,
    {
        MediaErrorFlags { bits: self.bits | other.bits }
    }

    /// The bits set in both operands.
    pub fn intersection(self, other: Self) -> (r: Self)
        ensures
            r@ == self@ & other@,
    {
        MediaErrorFlags { bits: self.bits & other.bits }
    }

    /// The bits of `self` that are not in `other`.
    pub fn difference(self, other: Self) -> (r: Self)
        ensures
            r@ == self@ & !other@,
    {
        MediaErrorFlags { bits: self.bits & !other.bits }
    }

    /// Set every bit of `other`.
    pub fn insert(&mut self, other: Self)
        ensures
            final(self)@ == old(self)@ | other@,
    {
        self.bits = self.bits | other.bits;
    }

    /// Clear every bit of `other`.
    pub fn remove(&mut self, other: Self)
        ensures
            final(self)@ == old(self)@ & !other@,
    {
        self.bits = self.bits & !other.bits;
    }
}

impl Default for MediaErrorFlags {
    /// The empty set.
    fn default() -> (r: Self)
        ensures
            r@ == 0,
    {
        MediaErrorFlags { bits: 0 }
    }
}

impl vstd::std_specs::ops::BitOrSpecImpl for MediaErrorFlags {
    open spec fn obeys_bitor_spec() -> bool {
        true
    }

    open spec fn bitor_req(self, rhs: Self) -> bool {
        true
    }

    closed spec fn bitor_spec(self, rhs: Self) -> Self {
        MediaErrorFlags { bits: self.bits | rhs.bits }
    }
}

impl core::ops::BitOr for MediaErrorFlags {
    type Output = Self;

    /// Union of the two sets.
    fn bitor(self, rhs: Self) -> (r: Self)
    {
        MediaErrorFlags { bits: self.bits | rhs.bits }
    }
}

/// Union of every declared bit of [`VideoIndexStatus`].
pub open spec fn video_index_status_all_bits() -> u32 {
    0xf7
}

/// Per-`VideoTrack` indexing progress. A set bit asserts the stage ran and its
/// output landed. Bit `0x08` is reserved.
#[derive(Debug, Clone, Copy, PartialEq, Eq, Hash, Structural)]
pub struct VideoIndexStatus {
    bits: u32,
}

impl View for VideoIndexStatus {
    type V = u32;

    closed spec fn view(&self) -> u32 {
        self.bits
    }
}

impl VideoIndexStatus {
    /// The `PROBED` bit (`0x1`).
    #[allow(non_snake_case)]
    pub fn PROBED() -> (r: Self)
        ensures
            r@ == 0x1,
    {
        VideoIndexStatus { bits: 0x1 }
    }

    /// The `SCENE_DETECTED` bit (`0x2`).
    #[allow(non_snake_case)]
    pub fn SCENE_DETECTED() -> (r: Self)
        ensures
            r@ == 0x2,
    {
        VideoIndexStatus { bits: 0x2 }
    }

    /// The `KEYFRAME_EXTRACTED` bit (`0x4`).
    #[allow(non_snake_case)]
    pub fn KEYFRAME_EXTRACTED() -> (r: Self)
        ensures
            r@ == 0x4,
    {
        VideoIndexStatus { bits: 0x4 }
    }

    /// The `VLM_ANALYZED` bit (`0x10`).
    #[allow(non_snake_case)]
    pub fn VLM_ANALYZED() -> (r: Self)
        ensures
            r@ == 0x10,
    {
        VideoIndexStatus { bits: 0x10 }
    }

    /// The `APPLE_VISION_ANALYZED` bit (`0x20`).
    #[allow(non_snake_case)]
    pub fn APPLE_VISION_ANALYZED() -> (r: Self)
        ensures
            r@ == 0x20,
    {
        VideoIndexStatus { bits: 0x20 }
    }

    /// The `TEXT_EMBEDDING_FINISHED` bit (`0x40`).
    #[allow(non_snake_case)]
    pub fn TEXT_EMBEDDING_FINISHED() -> (r: Self)
        ensures
            r@ == 0x40,
    {
        VideoIndexStatus { bits: 0x40 }
    }

    /// The `SCENE_EMBEDDING_FINISHED` bit (`0x80`).
    #[allow(non_snake_case)]
    pub fn SCENE_EMBEDDING_FINISHED() -> (r: Self)
        ensures
            r@ == 0x80,
    {
        VideoIndexStatus { bits: 0x80 }
    }

    /// The set with no bit.
    pub fn empty() -> (r: Self)
        ensures
            r@ == 0,
    {
        VideoIndexStatus { bits: 0 }
    }

    /// The set of every declared bit.
    pub fn all() -> (r: Self)
        ensures
            r@ == video_index_status_all_bits(),
    {
        VideoIndexStatus { bits: 0xf7 }
    }

    /// The raw bit pattern.
    pub fn bits(&self) -> (r: u32)
        ensures
            r == self@,
    {
        self.bits
    }

    /// Keep exactly the declared bits of `bits`, dropping any other.
    pub fn from_bits_truncate(bits: u32) -> (r: Self)
        ensures
            r@ == bits & video_index_status_all_bits(),
    {
        VideoIndexStatus { bits: bits & 0xf7 }
    }

    /// Keep `bits` verbatim, undeclared bits included.
    pub fn from_bits_retain(bits: u32) -> (r: Self)
        ensures
            r@ == bits,
    {
        VideoIndexStatus { bits }
    }

    /// `Some` iff `bits` holds only declared bits.
    pub fn from_bits(bits: u32) -> (r: Option<Self>)
        ensures
            r is Some <==> bits & !video_index_status_all_bits() == 0,
            r matches Some(s) ==> s@ == bits,
    {
        if bits & !0xf7u32 == 0 {
            Some(VideoIndexStatus { bits })
        } else {
            None
        }
    }

    /// True iff no bit is set.
    pub fn is_empty(&self) -> (r: bool)
        ensures
            r == (self@ == 0),
    {
        self.bits == 0
    }

    /// True iff every declared bit is set.
    pub fn is_all(&self) -> (r: bool)
        ensures
            r == (self@ & video_index_status_all_bits() == video_index_status_all_bits()),
    {
        self.bits & 0xf7 == 0xf7
    }

    /// True iff every bit of `other` is set in `self`.
    pub fn contains(&self, other: Self) -> (r: bool)
        ensures
            r == (self@ & other@ == other@),
    {
        self.bits & other.bits == other.bits
    }

    /// True iff `self` and `other` share at least one bit.
    pub fn intersects(&self, other: Self) -> (r: bool)
        ensures
            r == (self@ & other@ != 0),
    {
        self.bits & other.bits != 0
    }

    /// The bits set in either operand.
    pub fn union(self, other: Self) -> (r: Self)
        ensures
            r@ == self@ | other@,
    {
        VideoIndexStatus { bits: self.bits | other.bits }
    }

    /// The bits set in both operands.
    pub fn intersection(self, other: Self) -> (r: Self)
        ensures
            r@ == self@ & other@,
    {
        VideoIndexStatus { bits: self.bits & other.bits }
    }

    /// The bits of `self` that are not in `other`.
    pub fn difference(self, other: Self) -> (r: Self)
        ensures
            r@ == self@ & !other@,
    {
        VideoIndexStatus { bits: self.bits & !other.bits }
    }

    /// Set every bit of `other`.
    pub fn insert(&mut self, other: Self)
        ensures
            final(self)@ == old(self)@ | other@,
    {
        self.bits = self.bits | other.bits;
    }

    /// Clear every bit of `other`.
    pub fn remove(&mut self, other: Self)
        ensures
            final(self)@ == old(self)@ & !other@,
    {
        self.bits = self.bits & !other.bits;
    }
}

impl Default for VideoIndexStatus {
    /// The empty set.
    fn default() -> (r: Self)
        ensures
            r@ == 0,
    {
        VideoIndexStatus { bits: 0 }
    }
}

impl vstd::std_specs::ops::BitOrSpecImpl for VideoIndexStatus {
    open spec fn obeys_bitor_spec() -> bool {
        true
    }

    open spec fn bitor_req(self, rhs: Self) -> bool {
        true
    }

    closed spec fn bitor_spec(self, rhs: Self) -> Self {
        VideoIndexStatus { bits: self.bits | rhs.bits }
    }
}

impl core::ops::BitOr for VideoIndexStatus {
    type Output = Self;

    /// Union of the two sets.
    fn bitor(self, rhs: Self) -> (r: Self)
    {
        VideoIndexStatus { bits: self.bits | rhs.bits }
    }
}

/// Union of every declared bit of [`AudioIndexStatus`].
pub open spec fn audio_index_status_all_bits() -> u32 {
    0x7ff
}

/// Per-`AudioTrack` indexing progress: the 11-bit processing stage of the
/// audio pipeline (extraction, classification, VAD, STT, diarization, LLM, text
/// embedding, CED, CLAP, EBU-R128 loudness, fingerprint).
#[derive(Debug, Clone, Copy, PartialEq, Eq, Hash, Structural)]
pub struct AudioIndexStatus {
    bits: u32,
}

impl View for AudioIndexStatus {
    type V = u32;

    closed spec fn view(&self) -> u32 {
        self.bits
    }
}

impl AudioIndexStatus {
    /// The `EXTRACTED` bit (`0x1`).
    #[allow(non_snake_case)]
    pub fn EXTRACTED() -> (r: Self)
        ensures
            r@ == 0x1,
    {
        AudioIndexStatus { bits: 0x1 }
    }

    /// The `CLASSIFIED` bit (`0x2`).
    #[allow(non_snake_case)]
    pub fn CLASSIFIED() -> (r: Self)
        ensures
            r@ == 0x2,
    {
        AudioIndexStatus { bits: 0x2 }
    }

    /// The `VAD_DONE` bit (`0x4`).
    #[allow(non_snake_case)]
    pub fn VAD_DONE() -> (r: Self)
        ensures
            r@ == 0x4,
    {
        AudioIndexStatus { bits: 0x4 }
    }

    /// The `STT_DONE` bit (`0x8`).
    #[allow(non_snake_case)]
    pub fn STT_DONE() -> (r: Self)
        ensures
            r@ == 0x8,
    {
        AudioIndexStatus { bits: 0x8 }
    }

    /// The `SPEAKER_DONE` bit (`0x10`).
    #[allow(non_snake_case)]
    pub fn SPEAKER_DONE() -> (r: Self)
        ensures
            r@ == 0x10,
    {
        AudioIndexStatus { bits: 0x10 }
    }

    /// The `LLM_DONE` bit (`0x20`).
    #[allow(non_snake_case)]
    pub fn LLM_DONE() -> (r: Self)
        ensures
            r@ == 0x20,
    {
        AudioIndexStatus { bits: 0x20 }
    }

    /// The `TEXT_EMBED` bit (`0x40`).
    #[allow(non_snake_case)]
    pub fn TEXT_EMBED() -> (r: Self)
        ensures
            r@ == 0x40,
    {
        AudioIndexStatus { bits: 0x40 }
    }

    /// The `CED_DONE` bit (`0x80`).
    #[allow(non_snake_case)]
    pub fn CED_DONE() -> (r: Self)
        ensures
            r@ == 0x80,
    {
        AudioIndexStatus { bits: 0x80 }
    }

    /// The `CLAP_DONE` bit (`0x100`).
    #[allow(non_snake_case)]
    pub fn CLAP_DONE() -> (r: Self)
        ensures
            r@ == 0x100,
    {
        AudioIndexStatus { bits: 0x100 }
    }

    /// The `EBUR128_DONE` bit (`0x200`).
    #[allow(non_snake_case)]
    pub fn EBUR128_DONE() -> (r: Self)
        ensures
            r@ == 0x200,
    {
        AudioIndexStatus { bits: 0x200 }
    }

    /// The `FPRINT_DONE` bit (`0x400`).
    #[allow(non_snake_case)]
    pub fn FPRINT_DONE() -> (r: Self)
        ensures
            r@ == 0x400,
    {
        AudioIndexStatus { bits: 0x400 }
    }

    /// The set with no bit.
    pub fn empty() -> (r: Self)
        ensures
            r@ == 0,
    {
        AudioIndexStatus { bits: 0 }
    }

    /// The set of every declared bit.
    pub fn all() -> (r: Self)
        ensures
            r@ == audio_index_status_all_bits(),
    {
        AudioIndexStatus { bits: 0x7ff }
    }

    /// The raw bit pattern.
    pub fn bits(&self) -> (r: u32)
        ensures
            r == self@,
    {
        self.bits
    }

    /// Keep exactly the declared bits of `bits`, dropping any other.
    pub fn from_bits_truncate(bits: u32) -> (r: Self)
        ensures
            r@ == bits & audio_index_status_all_bits(),
    {
        AudioIndexStatus { bits: bits & 0x7ff }
    }

    /// Keep `bits` verbatim, undeclared bits included.
    pub fn from_bits_retain(bits: u32) -> (r: Self)
        ensures
            r@ == bits,
    {
        AudioIndexStatus { bits }
    }

    /// `Some` iff `bits` holds only declared bits.
    pub fn from_bits(bits: u32) -> (r: Option<Self>)
        ensures
            r is Some <==> bits & !audio_index_status_all_bits() == 0,
            r matches Some(s) ==> s@ == bits,
    {
        if bits & !0x7ffu32 == 0 {
            Some(AudioIndexStatus { bits })
        } else {
            None
        }
    }

    /// True iff no bit is set.
    pub fn is_empty(&self) -> (r: bool)
        ensures
            r == (self@ == 0),
    {
        self.bits == 0
    }

    /// True iff every declared bit is set.
    pub fn is_all(&self) -> (r: bool)
        ensures
            r == (self@ & audio_index_status_all_bits() == audio_index_status_all_bits()),
    {
        self.bits & 0x7ff == 0x7ff
    }

    /// True iff every bit of `other` is set in `self`.
    pub fn contains(&self, other: Self) -> (r: bool)
        ensures
            r == (self@ & other@ == other@),
    {
        self.bits & other.bits == other.bits
    }

    /// True iff `self` and `other` share at least one bit.
    pub fn intersects(&self, other: Self) -> (r: bool)
        ensures
            r == (self@ & other@ != 0),
    {
        self.bits & other.bits != 0
    }

    /// The bits set in either operand.
    pub fn union(self, other: Self) -> (r: Self)
        ensures
            r@ == self@ | other@,
    {
        AudioIndexStatus { bits: self.bits | other.bits }
    }

    /// The bits set in both operands.
    pub fn intersection(self, other: Self) -> (r: Self)
        ensures
            r@ == self@ & other@,
    {
        AudioIndexStatus { bits: self.bits & other.bits }
    }

    /// The bits of `self` that are not in `other`.
    pub fn difference(self, other: Self) -> (r: Self)
        ensures
            r@ == self@ & !other@,
    {
        AudioIndexStatus { bits: self.bits & !other.bits }
    }

    /// Set every bit of `other`.
    pub fn insert(&mut self, other: Self)
        ensures
            final(self)@ == old(self)@ | other@,
    {
        self.bits = self.bits | other.bits;
    }

    /// Clear every bit of `other`.
    pub fn remove(&mut self, other: Self)
        ensures
            final(self)@ == old(self)@ & !other@,
    {
        self.bits = self.bits & !other.bits;
    }
}

impl Default for AudioIndexStatus {
    /// The empty set.
    fn default() -> (r: Self)
        ensures
            r@ == 0,
    {
        AudioIndexStatus { bits: 0 }
    }
}

impl vstd::std_specs::ops::BitOrSpecImpl for AudioIndexStatus {
    open spec fn obeys_bitor_spec() -> bool {
        true
    }

    open spec fn bitor_req(self, rhs: Self) -> bool {
        true
    }

    closed spec fn bitor_spec(self, rhs: Self) -> Self {
        AudioIndexStatus { bits: self.bits | rhs.bits }
    }
}

impl core::ops::BitOr for AudioIndexStatus {
    type Output = Self;

    /// Union of the two sets.
    fn bitor(self, rhs: Self) -> (r: Self)
    {
        AudioIndexStatus { bits: self.bits | rhs.bits }
    }
}

/// Union of every declared bit of [`DataIndexStatus`].
pub open spec fn data_index_status_all_bits() -> u32 {
    0x1
}

/// Per-`DataTrack` indexing progress (`PROBED` once the stream descriptor
/// landed).
#[derive(Debug, Clone, Copy, PartialEq, Eq, Hash, Structural)]
pub struct DataIndexStatus {
    bits: u32,
}

impl View for DataIndexStatus {
    type V = u32;

    closed spec fn view(&self) -> u32 {
        self.bits
    }
}

impl DataIndexStatus {
    /// The `PROBED` bit (`0x1`).
    #[allow(non_snake_case)]
    pub fn PROBED() -> (r: Self)
        ensures
            r@ == 0x1,
    {
        DataIndexStatus { bits: 0x1 }
    }

    /// The set with no bit.
    pub fn empty() -> (r: Self)
        ensures
            r@ == 0,
    {
        DataIndexStatus { bits: 0 }
    }

    /// The set of every declared bit.
    pub fn all() -> (r: Self)
        ensures
            r@ == data_index_status_all_bits(),
    {
        DataIndexStatus { bits: 0x1 }
    }

    /// The raw bit pattern.
    pub fn bits(&self) -> (r: u32)
        ensures
            r == self@,
    {
        self.bits
    }

    /// Keep exactly the declared bits of `bits`, dropping any other.
    pub fn from_bits_truncate(bits: u32) -> (r: Self)
        ensures
            r@ == bits & data_index_status_all_bits(),
    {
        DataIndexStatus { bits: bits & 0x1 }
    }

    /// Keep `bits` verbatim, undeclared bits included.
    pub fn from_bits_retain(bits: u32) -> (r: Self)
        ensures
            r@ == bits,
    {
        DataIndexStatus { bits }
    }

    /// `Some` iff `bits` holds only declared bits.
    pub fn from_bits(bits: u32) -> (r: Option<Self>)
        ensures
            r is Some <==> bits & !data_index_status_all_bits() == 0,
            r matches Some(s) ==> s@ == bits,
    {
        if bits & !0x1u32 == 0 {
            Some(DataIndexStatus { bits })
        } else {
            None
        }
    }

    /// True iff no bit is set.
    pub fn is_empty(&self) -> (r: bool)
        ensures
            r == (self@ == 0),
    {
        self.bits == 0
    }

    /// True iff every declared bit is set.
    pub fn is_all(&self) -> (r: bool)
        ensures
            r == (self@ & data_index_status_all_bits() == data_index_status_all_bits()),
    {
        self.bits & 0x1 == 0x1
    }

    /// True iff every bit of `other` is set in `self`.
    pub fn contains(&self, other: Self) -> (r: bool)
        ensures
            r == (self@ & other@ == other@),
    {
        self.bits & other.bits == other.bits
    }

    /// True iff `self` and `other` share at least one bit.
    pub fn intersects(&self, other: Self) -> (r: bool)
        ensures
            r == (self@ & other@ != 0),
    {
        self.bits & other.bits != 0
    }

    /// The bits set in either operand.
    pub fn union(self, other: Self) -> (r: Self)
        ensures
            r@ == self@ | other@,
    {
        DataIndexStatus { bits: self.bits | other.bits }
    }

    /// The bits set in both operands.
    pub fn intersection(self, other: Self) -> (r: Self)
        ensures
            r@ == self@ & other@,
    {
        DataIndexStatus { bits: self.bits & other.bits }
    }

    /// The bits of `self` that are not in `other`.
    pub fn difference(self, other: Self) -> (r: Self)
        ensures
            r@ == self@ & !other@,
    {
        DataIndexStatus { bits: self.bits & !other.bits }
    }

    /// Set every bit of `other`.
    pub fn insert(&mut self, other: Self)
        ensures
            final(self)@ == old(self)@ | other@,
    {
        self.bits = self.bits | other.bits;
    }

    /// Clear every bit of `other`.
    pub fn remove(&mut self, other: Self)
        ensures
            final(self)@ == old(self)@ & !other@,
    {
        self.bits = self.bits & !other.bits;
    }
}

impl Default for DataIndexStatus {
    /// The empty set.
    fn default() -> (r: Self)
        ensures
            r@ == 0,
    {
        DataIndexStatus { bits: 0 }
    }
}

impl vstd::std_specs::ops::BitOrSpecImpl for DataIndexStatus {
    open spec fn obeys_bitor_spec() -> bool {
        true
    }

    open spec fn bitor_req(self, rhs: Self) -> bool {
        true
    }

    closed spec fn bitor_spec(self, rhs: Self) -> Self {
        DataIndexStatus { bits: self.bits | rhs.bits }
    }
}

impl core::ops::BitOr for DataIndexStatus {
    type Output = Self;

    /// Union of the two sets.
    fn bitor(self, rhs: Self) -> (r: Self)
    {
        DataIndexStatus { bits: self.bits | rhs.bits }
    }
}

/// Union of every declared bit of [`AttachmentIndexStatus`].
pub open spec fn attachment_index_status_all_bits() -> u32 {
    0x1
}

/// Per-`AttachmentTrack` indexing progress (`PROBED` once the attachment
/// descriptor landed).
#[derive(Debug, Clone, Copy, PartialEq, Eq, Hash, Structural)]
pub struct AttachmentIndexStatus {
    bits: u32,
}

impl View for AttachmentIndexStatus {
    type V = u32;

    closed spec fn view(&self) -> u32 {
        self.bits
    }
}

impl AttachmentIndexStatus {
    /// The `PROBED` bit (`0x1`).
    #[allow(non_snake_case)]
    pub fn PROBED() -> (r: Self)
        ensures
            r@ == 0x1,
    {
        AttachmentIndexStatus { bits: 0x1 }
    }

    /// The set with no bit.
    pub fn empty() -> (r: Self)
        ensures
            r@ == 0,
    {
        AttachmentIndexStatus { bits: 0 }
    }

    /// The set of every declared bit.
    pub fn all() -> (r: Self)
        ensures
            r@ == attachment_index_status_all_bits(),
    {
        AttachmentIndexStatus { bits: 0x1 }
    }

    /// The raw bit pattern.
    pub fn bits(&self) -> (r: u32)
        ensures
            r == self@,
    {
        self.bits
    }

    /// Keep exactly the declared bits of `bits`, dropping any other.
    pub fn from_bits_truncate(bits: u32) -> (r: Self)
        ensures
            r@ == bits & attachment_index_status_all_bits(),
    {
        AttachmentIndexStatus { bits: bits & 0x1 }
    }

    /// Keep `bits` verbatim, undeclared bits included.
    pub fn from_bits_retain(bits: u32) -> (r: Self)
        ensures
            r@ == bits,
    {
        AttachmentIndexStatus { bits }
    }

    /// `Some` iff `bits` holds only declared bits.
    pub fn from_bits(bits: u32) -> (r: Option<Self>)
        ensures
            r is Some <==> bits & !attachment_index_status_all_bits() == 0,
            r matches Some(s) ==> s@ == bits,
    {
        if bits & !0x1u32 == 0 {
            Some(AttachmentIndexStatus { bits })
        } else {
            None
        }
    }

    /// True iff no bit is set.
    pub fn is_empty(&self) -> (r: bool)
        ensures
            r == (self@ == 0),
    {
        self.bits == 0
    }

    /// True iff every declared bit is set.
    pub fn is_all(&self) -> (r: bool)
        ensures
            r == (self@ & attachment_index_status_all_bits() == attachment_index_status_all_bits()),
    {
        self.bits & 0x1 == 0x1
    }

    /// True iff every bit of `other` is set in `self`.
    pub fn contains(&self, other: Self) -> (r: bool)
        ensures
            r == (self@ & other@ == other@),
    {
        self.bits & other.bits == other.bits
    }

    /// True iff `self` and `other` share at least one bit.
    pub fn intersects(&self, other: Self) -> (r: bool)
        ensures
            r == (self@ & other@ != 0),
    {
        self.bits & other.bits != 0
    }

    /// The bits set in either operand.
    pub fn union(self, other: Self) -> (r: Self)
        ensures
            r@ == self@ | other@,
    {
        AttachmentIndexStatus { bits: self.bits | other.bits }
    }

    /// The bits set in both operands.
    pub fn intersection(self, other: Self) -> (r: Self)
        ensures
            r@ == self@ & other@,
    {
        AttachmentIndexStatus { bits: self.bits & other.bits }
    }

    /// The bits of `self` that are not in `other`.
    pub fn difference(self, other: Self) -> (r: Self)
        ensures
            r@ == self@ & !other@,
    {
        AttachmentIndexStatus { bits: self.bits & !other.bits }
    }

    /// Set every bit of `other`.
    pub fn insert(&mut self, other: Self)
        ensures
            final(self)@ == old(self)@ | other@,
    {
        self.bits = self.bits | other.bits;
    }

    /// Clear every bit of `other`.
    pub fn remove(&mut self, other: Self)
        ensures
            final(self)@ == old(self)@ & !other@,
    {
        self.bits = self.bits & !other.bits;
    }
}

impl Default for AttachmentIndexStatus {
    /// The empty set.
    fn default() -> (r: Self)
        ensures
            r@ == 0,
    {
        AttachmentIndexStatus { bits: 0 }
    }
}

impl vstd::std_specs::ops::BitOrSpecImpl for AttachmentIndexStatus {
    open spec fn obeys_bitor_spec() -> bool {
        true
    }

    open spec fn bitor_req(self, rhs: Self) -> bool {
        true
    }

    closed spec fn bitor_spec(self, rhs: Self) -> Self {
        AttachmentIndexStatus { bits: self.bits | rhs.bits }
    }
}

impl core::ops::BitOr for AttachmentIndexStatus {
    type Output = Self;

    /// Union of the two sets.
    fn bitor(self, rhs: Self) -> (r: Self)
    {
        AttachmentIndexStatus { bits: self.bits | rhs.bits }
    }
}

/// Union of every declared bit of [`SubtitleIndexStatus`].
pub open spec fn subtitle_index_status_all_bits() -> u32 {
    0xf
}

/// Per-`SubtitleTrack` indexing progress. `OCR_DONE` only applies to
/// image-based subtitles.
#[derive(Debug, Clone, Copy, PartialEq, Eq, Hash, Structural)]
pub struct SubtitleIndexStatus {
    bits: u32,
}

impl View for SubtitleIndexStatus {
    type V = u32;

    closed spec fn view(&self) -> u32 {
        self.bits
    }
}

impl SubtitleIndexStatus {
    /// The `TRACKS_DISCOVERED` bit (`0x1`).
    #[allow(non_snake_case)]
    pub fn TRACKS_DISCOVERED() -> (r: Self)
        ensures
            r@ == 0x1,
    {
        SubtitleIndexStatus { bits: 0x1 }
    }

    /// The `CUES_EXTRACTED` bit (`0x2`).
    #[allow(non_snake_case)]
    pub fn CUES_EXTRACTED() -> (r: Self)
        ensures
            r@ == 0x2,
    {
        SubtitleIndexStatus { bits: 0x2 }
    }

    /// The `OCR_DONE` bit (`0x4`).
    #[allow(non_snake_case)]
    pub fn OCR_DONE() -> (r: Self)
        ensures
            r@ == 0x4,
    {
        SubtitleIndexStatus { bits: 0x4 }
    }

    /// The `SEARCH_INDEXED` bit (`0x8`).
    #[allow(non_snake_case)]
    pub fn SEARCH_INDEXED() -> (r: Self)
        ensures
            r@ == 0x8,
    {
        SubtitleIndexStatus { bits: 0x8 }
    }

    /// The set with no bit.
    pub fn empty() -> (r: Self)
        ensures
            r@ == 0,
    {
        SubtitleIndexStatus { bits: 0 }
    }

    /// The set of every declared bit.
    pub fn all() -> (r: Self)
        ensures
            r@ == subtitle_index_status_all_bits(),
    {
        SubtitleIndexStatus { bits: 0xf }
    }

    /// The raw bit pattern.
    pub fn bits(&self) -> (r: u32)
        ensures
            r == self@,
    {
        self.bits
    }

    /// Keep exactly the declared bits of `bits`, dropping any other.
    pub fn from_bits_truncate(bits: u32) -> (r: Self)
        ensures
            r@ == bits & subtitle_index_status_all_bits(),
    {
        SubtitleIndexStatus { bits: bits & 0xf }
    }

    /// Keep `bits` verbatim, undeclared bits included.
    pub fn from_bits_retain(bits: u32) -> (r: Self)
        ensures
            r@ == bits,
    {
        SubtitleIndexStatus { bits }
    }

    /// `Some` iff `bits` holds only declared bits.
    pub fn from_bits(bits: u32) -> (r: Option<Self>)
        ensures
            r is Some <==> bits & !subtitle_index_status_all_bits() == 0,
            r matches Some(s) ==> s@ == bits,
    {
        if bits & !0xfu32 == 0 {
            Some(SubtitleIndexStatus { bits })
        } else {
            None
        }
    }

    /// True iff no bit is set.
    pub fn is_empty(&self) -> (r: bool)
        ensures
            r == (self@ == 0),
    {
        self.bits == 0
    }

    /// True iff every declared bit is set.
    pub fn is_all(&self) -> (r: bool)
        ensures
            r == (self@ & subtitle_index_status_all_bits() == subtitle_index_status_all_bits()),
    {
        self.bits & 0xf == 0xf
    }

    /// True iff every bit of `other` is set in `self`.
    pub fn contains(&self, other: Self) -> (r: bool)
        ensures
            r == (self@ & other@ == other@),
    {
        self.bits & other.bits == other.bits
    }

    /// True iff `self` and `other` share at least one bit.
    pub fn intersects(&self, other: Self) -> (r: bool)
        ensures
            r == (self@ & other@ != 0),
    {
        self.bits & other.bits != 0
    }

    /// The bits set in either operand.
    pub fn union(self, other: Self) -> (r: Self)
        ensures
            r@ == self@ | other@,
    {
        SubtitleIndexStatus { bits: self.bits | other.bits }
    }

    /// The bits set in both operands.
    pub fn intersection(self, other: Self) -> (r: Self)
        ensures
            r@ == self@ & other@,
    {
        SubtitleIndexStatus { bits: self.bits & other.bits }
    }

    /// The bits of `self` that are not in `other`.
    pub fn difference(self, other: Self) -> (r: Self)
        ensures
            r@ == self@ & !other@,
    {
        SubtitleIndexStatus { bits: self.bits & !other.bits }
    }

    /// Set every bit of `other`.
    pub fn insert(&mut self, other: Self)
        ensures
            final(self)@ == old(self)@ | other@,
    {
        self.bits = self.bits | other.bits;
    }

    /// Clear every bit of `other`.
    pub fn remove(&mut self, other: Self)
        ensures
            final(self)@ == old(self)@ & !other@,
    {
        self.bits = self.bits & !other.bits;
    }
}

impl Default for SubtitleIndexStatus {
    /// The empty set.
    fn default() -> (r: Self)
        ensures
            r@ == 0,
    {
        SubtitleIndexStatus { bits: 0 }
    }
}

impl vstd::std_specs::ops::BitOrSpecImpl for SubtitleIndexStatus {
    open spec fn obeys_bitor_spec() -> bool {
        true
    }

    open spec fn bitor_req(self, rhs: Self) -> bool {
        true
    }

    closed spec fn bitor_spec(self, rhs: Self) -> Self {
        SubtitleIndexStatus { bits: self.bits | rhs.bits }
    }
}

impl core::ops::BitOr for SubtitleIndexStatus {
    type Output = Self;

    /// Union of the two sets.
    fn bitor(self, rhs: Self) -> (r: Self)
    {
        SubtitleIndexStatus { bits: self.bits | rhs.bits }
    }
}

/// The "fully indexed" pattern of [`VideoIndexStatus`]: every stage bit set.
pub open spec fn video_full_mask() -> u32 {
    0xf7
}

impl VideoIndexStatus {
    /// The "fully indexed" mask — every stage bit set.
    pub fn fully_indexed_mask() -> (r: Self)
        ensures
            r@ == video_full_mask(),
    {
        let b: u32 = Self::PROBED().bits()
            | Self::SCENE_DETECTED().bits()
            | Self::KEYFRAME_EXTRACTED().bits()
            | Self::VLM_ANALYZED().bits()
            | Self::APPLE_VISION_ANALYZED().bits()
            | Self::TEXT_EMBEDDING_FINISHED().bits()
            | Self::SCENE_EMBEDDING_FINISHED().bits();
        assert(b == 0xf7 && b & 0xf7 == 0xf7) by (bit_vector)
            requires
                b == 0x1u32 | 0x2u32 | 0x4u32 | 0x10u32 | 0x20u32 | 0x40u32 | 0x80u32,
        ;
        Self::from_bits_truncate(b)
    }

    /// True iff every stage bit is set.
    pub fn is_fully_indexed(&self) -> (r: bool)
        ensures
            r == (self@ & video_full_mask() == video_full_mask()),
    {
        self.contains(Self::fully_indexed_mask())
    }
}

/// The "fully indexed" pattern of [`AudioIndexStatus`]: every stage bit set.
pub open spec fn audio_full_mask() -> u32 {
    0x7ff
}

impl AudioIndexStatus {
    /// The "fully indexed" mask — every stage bit set.
    pub fn fully_indexed_mask() -> (r: Self)
        ensures
            r@ == audio_full_mask(),
    {
        let b: u32 = Self::EXTRACTED().bits()
            | Self::CLASSIFIED().bits()
            | Self::VAD_DONE().bits()
            | Self::STT_DONE().bits()
            | Self::SPEAKER_DONE().bits()
            | Self::LLM_DONE().bits()
            | Self::TEXT_EMBED().bits()
            | Self::CED_DONE().bits()
            | Self::CLAP_DONE().bits()
            | Self::EBUR128_DONE().bits()
            | Self::FPRINT_DONE().bits();
        assert(b == 0x7ff && b & 0x7ff == 0x7ff) by (bit_vector)
            requires
                b == 0x1u32 | 0x2u32 | 0x4u32 | 0x8u32 | 0x10u32 | 0x20u32 | 0x40u32 | 0x80u32 | 0x100u32 | 0x200u32 | 0x400u32,
        ;
        Self::from_bits_truncate(b)
    }

    /// True iff every stage bit is set.
    pub fn is_fully_indexed(&self) -> (r: bool)
        ensures
            r == (self@ & audio_full_mask() == audio_full_mask()),
    {
        self.contains(Self::fully_indexed_mask())
    }
}

/// The "fully indexed" pattern of [`SubtitleIndexStatus`]: every stage bit set.
pub open spec fn subtitle_full_mask() -> u32 {
    0xf
}

impl SubtitleIndexStatus {
    /// The "fully indexed" mask — every stage bit set.
    pub fn fully_indexed_mask() -> (r: Self)
        ensures
            r@ == subtitle_full_mask(),
    {
        let b: u32 = Self::TRACKS_DISCOVERED().bits()
            | Self::CUES_EXTRACTED().bits()
            | Self::OCR_DONE().bits()
            | Self::SEARCH_INDEXED().bits();
        assert(b == 0xf && b & 0xf == 0xf) by (bit_vector)
            requires
                b == 0x1u32 | 0x2u32 | 0x4u32 | 0x8u32,
        ;
        Self::from_bits_truncate(b)
    }

    /// True iff every stage bit is set.
    pub fn is_fully_indexed(&self) -> (r: bool)
        ensures
            r == (self@ & subtitle_full_mask() == subtitle_full_mask()),
    {
        self.contains(Self::fully_indexed_mask())
    }
}

} // verus!
