//! `Speaker` — one diarized voice of an audio track.
use vstd::prelude::*;

use crate::primitives::{is_nil_bytes, Uuid7};
use crate::time::{is_negative_duration, spec_is_negative_duration, MediaTimestamp};

verus! {

/// Error returned by a [`Speaker`] constructor or fallible mutator.
#[derive(Debug, Clone, Copy, PartialEq, Eq, Hash, Structural)]
#[non_exhaustive]
pub enum SpeakerError {
    /// `id` was the nil sentinel.
    NilId,
    /// `parent` was the nil sentinel.
    NilParent,
    /// a `speech_duration` was negative.
    NegativeSpeechDuration,
}

/// The message of each [`SpeakerError`].
pub open spec fn speaker_error_message(e: SpeakerError) -> Seq<char> {
    match e {
        SpeakerError::NilId => "Speaker id must not be the nil UUID"@,
        SpeakerError::NilParent => "Speaker parent (AudioTrack) must not be the nil UUID"@,
        SpeakerError::NegativeSpeechDuration => "Speaker speech_duration must not be negative"@,
    }
}

impl SpeakerError {
    /// True iff this is `SpeakerError::NilId`.
    pub fn is_nil_id(&self) -> (r: bool)
        ensures
            r == (*self is NilId),
    {
        match self {
            SpeakerError::NilId => true,
            #[allow(unreachable_patterns)]
            _ => false,
        }
    }

    /// True iff this is `SpeakerError::NilParent`.
    pub fn is_nil_parent(&self) -> (r: bool)
        ensures
            r == (*self is NilParent),
    {
        match self {
            SpeakerError::NilParent => true,
            #[allow(unreachable_patterns)]
            _ => false,
        }
    }

    /// True iff this is `SpeakerError::NegativeSpeechDuration`.
    pub fn is_negative_speech_duration(&self) -> (r: bool)
        ensures
            r == (*self is NegativeSpeechDuration),
    {
        match self {
            SpeakerError::NegativeSpeechDuration => true,
            #[allow(unreachable_patterns)]
            _ => false,
        }
    }

    /// Human-readable description.
    pub fn message(&self) -> (r: String)
        ensures
            r@ == speaker_error_message(*self),
    {
        match self {
            SpeakerError::NilId => {
                proof {
                    reveal_strlit("Speaker id must not be the nil UUID");
                }
                "Speaker id must not be the nil UUID".to_owned()
            },
            SpeakerError::NilParent => {
                proof {
                    reveal_strlit("Speaker parent (AudioTrack) must not be the nil UUID");
                }
                "Speaker parent (AudioTrack) must not be the nil UUID".to_owned()
            },
            SpeakerError::NegativeSpeechDuration => {
                proof {
                    reveal_strlit("Speaker speech_duration must not be negative");
                }
                "Speaker speech_duration must not be negative".to_owned()
            },
        }
    }
}

/// A diarized voice within one audio track (`parent` → `AudioTrack`).
#[derive(Debug, Clone, PartialEq)]
pub struct Speaker<Id = Uuid7> {
    id: Id,
    /// FK → `AudioTrack.id`.
    parent: Id,
    /// Diarization cluster number.
    cluster_id: u32,
    /// Display name (`""` = anonymous).
    name: String,
    /// Total speech time (never negative).
    speech_duration: Option<MediaTimestamp>,
}

impl<Id> Speaker<Id> {
    /// Stored `id`.
    pub closed spec fn spec_id(self) -> Id {
        self.id
    }

    /// Stored `parent`.
    pub closed spec fn spec_parent(self) -> Id {
        self.parent
    }

    /// Stored `cluster_id`.
    pub closed spec fn spec_cluster_id(self) -> u32 {
        self.cluster_id
    }

    /// Stored `name`.
    pub closed spec fn spec_name(self) -> Seq<char> {
        self.name@
    }

    /// Stored `speech_duration`.
    pub closed spec fn spec_speech_duration(self) -> Option<MediaTimestamp> {
        self.speech_duration
    }

}

impl Speaker<Uuid7> {
    /// Validating constructor: rejects a nil `id` (checked first) and a nil
    /// `parent`; the speech duration starts unknown.
    pub fn try_new(id: Uuid7, parent: Uuid7, cluster_id: u32, name: &str) -> (r: Result<Self, SpeakerError>)
        ensures
            (is_nil_bytes(id@)) <==> r == Err::<Self, SpeakerError>(SpeakerError::NilId),
            (!is_nil_bytes(id@) && is_nil_bytes(parent@)) <==> r == Err::<Self, SpeakerError>(SpeakerError::NilParent),
            r is Ok <==> (!is_nil_bytes(id@) && !is_nil_bytes(parent@)),
            r matches Ok(x) ==> x.spec_id() == id,
            r matches Ok(x) ==> x.spec_parent() == parent,
            r matches Ok(x) ==> x.spec_cluster_id() == cluster_id,
            r matches Ok(x) ==> x.spec_name() == name@,
            r matches Ok(x) ==> x.spec_speech_duration() == None::<MediaTimestamp>,
    {
        if id.is_nil() {
            return Err(SpeakerError::NilId);
        }
        if parent.is_nil() {
            return Err(SpeakerError::NilParent);
        }
        Ok(Speaker {
            id: id,
            parent: parent,
            cluster_id: cluster_id,
            name: name.to_owned(),
            speech_duration: None,
        })
    }
}

impl<Id> Speaker<Id> {
    /// Canonical identity.
    pub fn id_ref(&self) -> (r: &Id)
        ensures
            *r == self.spec_id(),
    {
        &self.id
    }

    /// FK → `AudioTrack.id`.
    pub fn parent_ref(&self) -> (r: &Id)
        ensures
            *r == self.spec_parent(),
    {
        &self.parent
    }

    /// Diarization cluster number.
    pub fn cluster_id(&self) -> (r: u32)
        ensures
            r == self.spec_cluster_id(),
    {
        self.cluster_id
    }

    /// Display name.
    pub fn name(&self) -> (r: &str)
        ensures
            r@ == self.spec_name(),
    {
        self.name.as_str()
    }

    /// Total speech time, if known.
    pub fn speech_duration_ref(&self) -> (r: Option<&MediaTimestamp>)
        ensures
            r is Some <==> self.spec_speech_duration() is Some,
            r matches Some(v) ==> self.spec_speech_duration() == Some(*v),
    {
        match &self.speech_duration {
            Some(v) => Some(v),
            None => None,
        }
    }

    /// Builder: replace `name`.
    pub fn with_name(self, v: &str) -> (r: Self)
        ensures
            r.spec_name() == v@,
            r.spec_id() == self.spec_id(),
            r.spec_parent() == self.spec_parent(),
            r.spec_cluster_id() == self.spec_cluster_id(),
            r.spec_speech_duration() == self.spec_speech_duration(),
    {
        let mut s = self;
        s.name = v.to_owned();
        s
    }

    /// Fallible builder: a negative duration is rejected.
    pub fn try_with_speech_duration(self, d: Option<MediaTimestamp>) -> (r: Result<Self, SpeakerError>)
        ensures
            r is Err <==> spec_is_negative_duration(d),
            spec_is_negative_duration(d) <==> r == Err::<Self, SpeakerError>(
                SpeakerError::NegativeSpeechDuration,
            ),
            r matches Ok(x) ==> x.spec_speech_duration() == d
                && x.spec_id() == self.spec_id()
                && x.spec_parent() == self.spec_parent()
                && x.spec_cluster_id() == self.spec_cluster_id()
                && x.spec_name() == self.spec_name()
                ,
    {
        if is_negative_duration(d) {
            return Err(SpeakerError::NegativeSpeechDuration);
        }
        let mut s = self;
        s.speech_duration = d;
        Ok(s)
    }

    /// Fallible in-place mutator: a negative duration is rejected and the
    /// speaker is left unchanged.
    pub fn try_set_speech_duration(&mut self, d: Option<MediaTimestamp>) -> (r: Result<&mut Self, SpeakerError>)
        ensures
            spec_is_negative_duration(d) <==> r is Err,
            r matches Err(e) ==> e == SpeakerError::NegativeSpeechDuration && *final(self) == *old(
                self,
            ),
            r matches Ok(x) ==> *final(self) == *final(x) && x.spec_speech_duration() == d
                && x.spec_id() == old(self).spec_id()
                && x.spec_parent() == old(self).spec_parent()
                && x.spec_cluster_id() == old(self).spec_cluster_id()
                && x.spec_name() == old(self).spec_name()
                ,
    {
        if is_negative_duration(d) {
            return Err(SpeakerError::NegativeSpeechDuration);
        }
        self.speech_duration = d;
        Ok(self)
    }

    /// Builder: replace `cluster_id`.
    pub fn with_cluster_id(self, v: u32) -> (r: Self)
        ensures
            r.spec_cluster_id() == v,
            r.spec_id() == self.spec_id(),
            r.spec_parent() == self.spec_parent(),
            r.spec_name() == self.spec_name(),
            r.spec_speech_duration() == self.spec_speech_duration(),
    {
        let mut s = self;
        s.cluster_id = v;
        s
    }

    /// In-place mutator for `name`.
    pub fn set_name(&mut self, v: &str) -> (r: &mut Self)
        ensures
            *final(self) == *final(r),
            r.spec_name() == v@,
            r.spec_id() == old(self).spec_id(),
            r.spec_parent() == old(self).spec_parent(),
            r.spec_cluster_id() == old(self).spec_cluster_id(),
            r.spec_speech_duration() == old(self).spec_speech_duration(),
    {
        self.name = v.to_owned();
        self
    }

    /// In-place mutator for `cluster_id`.
    pub fn set_cluster_id(&mut self, v: u32) -> (r: &mut Self)
        ensures
            *final(self) == *final(r),
            r.spec_cluster_id() == v,
            r.spec_id() == old(self).spec_id(),
            r.spec_parent() == old(self).spec_parent(),
            r.spec_name() == old(self).spec_name(),
            r.spec_speech_duration() == old(self).spec_speech_duration(),
    {
        self.cluster_id = v;
        self
    }
}

} // verus!
