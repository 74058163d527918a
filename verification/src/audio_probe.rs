//! `AudioProbe` — the probed stream descriptor of an audio track together
//! with its indexing status and duration, kept consistent by every change:
//! the status always passes the topology check, a status that claims
//! extraction always sits on a real descriptor (`sample_rate > 0`,
//! `channels > 0`), and a present duration is never negative.
use vstd::prelude::*;

use crate::audio_rules::{
    check_channels, check_index_status, check_sample_rate, descriptor_verdict, index_status_verdict,
};
use crate::flags::AudioIndexStatus;
use crate::stages::AudioTrackError;
use crate::time::{is_negative_duration, spec_is_negative_duration, MediaTimestamp};

verus! {

/// The descriptor / status / duration of one audio stream.
#[derive(Debug, Clone, Copy, PartialEq, Eq)]
pub struct AudioProbe {
    sample_rate: u32,
    channels: u16,
    index_status: AudioIndexStatus,
    duration: Option<MediaTimestamp>,
}

/// The rule an [`AudioProbe`] keeps: its status passes the topology check
/// and, when it claims extraction, the descriptor is real; its duration is
/// not negative.
pub open spec fn probe_consistent(
    sample_rate: u32,
    channels: u16,
    status: u32,
    duration: Option<MediaTimestamp>,
) -> bool {
    &&& index_status_verdict(status, sample_rate, channels) is Ok
    &&& !spec_is_negative_duration(duration)
}

impl AudioProbe {
    /// Sample rate in Hz (`0` = unknown).
    pub closed spec fn spec_sample_rate(self) -> u32 {
        self.sample_rate
    }

    /// Channel count (`0` = unknown).
    pub closed spec fn spec_channels(self) -> u16 {
        self.channels
    }

    /// The indexing status.
    pub closed spec fn spec_index_status(self) -> AudioIndexStatus {
        self.index_status
    }

    /// The track duration.
    pub closed spec fn spec_duration(self) -> Option<MediaTimestamp> {
        self.duration
    }

    #[verifier::type_invariant]
    spec fn consistent(self) -> bool {
        probe_consistent(self.sample_rate, self.channels, self.index_status@, self.duration)
    }

    /// An unprobed stream: no descriptor, empty status, no duration.
    pub fn new() -> (r: Self)
        ensures
            r.spec_sample_rate() == 0,
            r.spec_channels() == 0,
            r.spec_index_status()@ == 0,
            r.spec_duration() is None,
    {
        let index_status = AudioIndexStatus::empty();
        assert(0u32 & !0x7ffu32 == 0) by (bit_vector);
        AudioProbe {
            sample_rate: 0,
            channels: 0,
            index_status,
            duration: None,
        }
    }

    /// Sample rate in Hz (`0` = unknown).
    pub fn sample_rate(&self) -> (r: u32)
        ensures
            r == self.spec_sample_rate(),
    {
        self.sample_rate
    }

    /// Channel count (`0` = unknown).
    pub fn channels(&self) -> (r: u16)
        ensures
            r == self.spec_channels(),
    {
        self.channels
    }

    /// The indexing status. Whatever the history of the probe, the status
    /// passes the topology check against the current descriptor: a status
    /// that claims extraction comes with `sample_rate > 0` and
    /// `channels > 0`.
    pub fn index_status(&self) -> (r: AudioIndexStatus)
        ensures
            r == self.spec_index_status(),
            index_status_verdict(r@, self.spec_sample_rate(), self.spec_channels()) is Ok,
    {
        proof {
            use_type_invariant(self);
        }
        self.index_status
    }

    /// The track duration; never negative when present.
    pub fn duration(&self) -> (r: Option<MediaTimestamp>)
        ensures
            r == self.spec_duration(),
            !spec_is_negative_duration(r),
    {
        proof {
            use_type_invariant(self);
        }
        self.duration
    }

    /// A borrow of the track duration; never negative when present.
    pub fn duration_ref(&self) -> (r: Option<&MediaTimestamp>)
        ensures
            r is None <==> self.spec_duration() is None,
            r matches Some(d) ==> self.spec_duration() == Some(*d),
            !spec_is_negative_duration(self.spec_duration()),
    {
        proof {
            use_type_invariant(self);
        }
        match &self.duration {
            Some(d) => Some(d),
            None => None,
        }
    }

    /// Replace the sample rate. Clearing it to `0` once the status claims
    /// extraction is refused and leaves the probe unchanged.
    pub fn try_set_sample_rate(&mut self, hz: u32) -> (r: Result<(), AudioTrackError>)
        ensures
            r == descriptor_verdict(hz as nat, old(self).spec_index_status()@),
            r is Ok ==> final(self).spec_sample_rate() == hz && final(self).spec_channels()
                == old(self).spec_channels() && final(self).spec_index_status() == old(
                self,
            ).spec_index_status() && final(self).spec_duration() == old(self).spec_duration(),
            r is Err ==> *final(self) == *old(self),
    {
        proof {
            use_type_invariant(&*self);
        }
        match check_sample_rate(hz, self.index_status) {
            Err(e) => Err(e),
            Ok(()) => {
                self.sample_rate = hz;
                Ok(())
            },
        }
    }

    /// Replace the channel count. Clearing it to `0` once the status claims
    /// extraction is refused and leaves the probe unchanged.
    pub fn try_set_channels(&mut self, channels: u16) -> (r: Result<(), AudioTrackError>)
        ensures
            r == descriptor_verdict(channels as nat, old(self).spec_index_status()@),
            r is Ok ==> final(self).spec_channels() == channels && final(self).spec_sample_rate()
                == old(self).spec_sample_rate() && final(self).spec_index_status() == old(
                self,
            ).spec_index_status() && final(self).spec_duration() == old(self).spec_duration(),
            r is Err ==> *final(self) == *old(self),
    {
        proof {
            use_type_invariant(&*self);
        }
        match check_channels(channels, self.index_status) {
            Err(e) => Err(e),
            Ok(()) => {
                self.channels = channels;
                Ok(())
            },
        }
    }

    /// Replace the indexing status. A mask out of topological order, with
    /// unknown bits, or claiming extraction without a real descriptor is
    /// refused and leaves the probe unchanged.
    pub fn try_set_index_status(&mut self, status: AudioIndexStatus) -> (r: Result<
        (),
        AudioTrackError,
    >)
        ensures
            r == index_status_verdict(status@, old(self).spec_sample_rate(), old(self).spec_channels()),
            r is Ok ==> final(self).spec_index_status() == status && final(self).spec_sample_rate()
                == old(self).spec_sample_rate() && final(self).spec_channels() == old(
                self,
            ).spec_channels() && final(self).spec_duration() == old(self).spec_duration(),
            r is Err ==> *final(self) == *old(self),
    {
        proof {
            use_type_invariant(&*self);
        }
        match check_index_status(status, self.sample_rate, self.channels) {
            Err(e) => Err(e),
            Ok(()) => {
                self.index_status = status;
                Ok(())
            },
        }
    }

    /// Replace the duration. A present negative duration is refused with
    /// `NegativeDuration` and leaves the probe unchanged.
    pub fn try_set_duration(&mut self, duration: Option<MediaTimestamp>) -> (r: Result<
        (),
        AudioTrackError,
    >)
        ensures
            r is Err <==> spec_is_negative_duration(duration),
            r matches Err(e) ==> e == AudioTrackError::NegativeDuration && *final(self) == *old(self),
            r is Ok ==> final(self).spec_duration() == duration && final(self).spec_sample_rate()
                == old(self).spec_sample_rate() && final(self).spec_channels() == old(
                self,
            ).spec_channels() && final(self).spec_index_status() == old(self).spec_index_status(),
    {
        proof {
            use_type_invariant(&*self);
        }
        if is_negative_duration(duration) {
            Err(AudioTrackError::NegativeDuration)
        } else {
            self.duration = duration;
            Ok(())
        }
    }
}

impl Default for AudioProbe {
    /// The unprobed stream.
    fn default() -> (r: Self)
        ensures
            r.spec_sample_rate() == 0,
            r.spec_channels() == 0,
            r.spec_index_status()@ == 0,
            r.spec_duration() is None,
    {
        AudioProbe::new()
    }
}

} // verus!
