//! The decisions behind an audio track's fallible mutators: which index
//! status may be stored given the probed descriptor, when the descriptor
//! may be cleared, and when the declared and detected languages disagree.
use vstd::prelude::*;

use crate::flags::AudioIndexStatus;
use crate::primitives::{is_nil_bytes, Uuid7};
use crate::stages::{audio_topology, validate_status_topology, AudioTrackError};

verus! {

/// Why an audio track with these ids cannot be built, if it cannot.
pub open spec fn audio_track_error(id: Uuid7, audio_id: Uuid7) -> Option<AudioTrackError> {
    if is_nil_bytes(id@) {
        Some(AudioTrackError::NilId)
    } else if is_nil_bytes(audio_id@) {
        Some(AudioTrackError::NilAudioId)
    } else {
        None
    }
}

/// Check an audio track's constructor invariants: a real `id` and a real
/// `audio_id`.
pub fn check_audio_track(id: Uuid7, audio_id: Uuid7) -> (r: Result<(), AudioTrackError>)
    ensures
        r is Err <==> audio_track_error(id, audio_id) is Some,
        r matches Err(e) ==> audio_track_error(id, audio_id) == Some(e),
{
    if id.is_nil() {
        return Err(AudioTrackError::NilId);
    }
    if audio_id.is_nil() {
        return Err(AudioTrackError::NilAudioId);
    }
    Ok(())
}

/// A non-empty status claims the track was probed (`EXTRACTED` is the lowest
/// bit), which requires a real descriptor.
pub open spec fn asserts_descriptor(s: u32) -> bool {
    s != 0
}

/// Whether `status` may be stored on a track with this descriptor: it must
/// pass the topology check, and a status claiming extraction needs
/// `sample_rate > 0` and `channels > 0`.
pub open spec fn index_status_verdict(status: u32, sample_rate: u32, channels: u16) -> Result<(), AudioTrackError> {
    match audio_topology(status) {
        Err(e) => Err(e),
        Ok(()) => if asserts_descriptor(status) && (sample_rate == 0 || channels == 0) {
            Err(AudioTrackError::ExtractedWithoutDescriptor)
        } else {
            Ok(())
        },
    }
}

/// Whether a descriptor value (`sample_rate` or `channels`) may be set on a
/// track with this status: clearing it to `0` is refused once the status
/// claims extraction.
pub open spec fn descriptor_verdict(value: nat, status: u32) -> Result<(), AudioTrackError> {
    if value == 0 && asserts_descriptor(status) {
        Err(AudioTrackError::ProbedDescriptorCleared)
    } else {
        Ok(())
    }
}

/// True iff the status claims the track was probed.
pub fn status_asserts_descriptor(s: AudioIndexStatus) -> (r: bool)
    ensures
        r == asserts_descriptor(s@),
{
    !s.is_empty()
}

/// Decide whether `status` may replace the index status of a track whose
/// descriptor is `sample_rate` / `channels`.
pub fn check_index_status(status: AudioIndexStatus, sample_rate: u32, channels: u16) -> (r: Result<
    (),
    AudioTrackError,
>)
    ensures
        r == index_status_verdict(status@, sample_rate, channels),
{
    match validate_status_topology(status) {
        Err(e) => Err(e),
        Ok(()) => {
            if status_asserts_descriptor(status) && (sample_rate == 0 || channels == 0) {
                Err(AudioTrackError::ExtractedWithoutDescriptor)
            } else {
                Ok(())
            }
        },
    }
}

/// Decide whether `hz` may replace the sample rate of a track with this
/// status.
pub fn check_sample_rate(hz: u32, status: AudioIndexStatus) -> (r: Result<(), AudioTrackError>)
    ensures
        r == descriptor_verdict(hz as nat, status@),
{
    if hz == 0 && status_asserts_descriptor(status) {
        Err(AudioTrackError::ProbedDescriptorCleared)
    } else {
        Ok(())
    }
}

/// Decide whether `channels` may replace the channel count of a track with
/// this status.
pub fn check_channels(channels: u16, status: AudioIndexStatus) -> (r: Result<(), AudioTrackError>)
    ensures
        r == descriptor_verdict(channels as nat, status@),
{
    if channels == 0 && status_asserts_descriptor(status) {
        Err(AudioTrackError::ProbedDescriptorCleared)
    } else {
        Ok(())
    }
}

/// A track whose stored status passed [`check_index_status`] keeps a real
/// descriptor under every later change that [`check_sample_rate`] and
/// [`check_channels`] accept: the probed-descriptor rule is preserved.
pub proof fn lemma_descriptor_rule_preserved(status: u32, sample_rate: u32, channels: u16, new_rate: u32, new_channels: u16)
    requires
        index_status_verdict(status, sample_rate, channels) is Ok,
        descriptor_verdict(new_rate as nat, status) is Ok,
        descriptor_verdict(new_channels as nat, status) is Ok,
    ensures
        index_status_verdict(status, new_rate, new_channels) is Ok,
{
}

#[verifier::external_type_specification]
#[verifier::external_body]
pub struct ExLanguage(mediaframe::lang::Language);

/// `Language`'s derived `==`: the two subtags are the same value.
#[verifier::external_body]
fn language_eq(a: &mediaframe::lang::Language, b: &mediaframe::lang::Language) -> (r: bool)
    ensures
        r == (*a == *b),
{
    a == b
}

/// The declared and detected languages disagree: both are known and they
/// differ.
pub open spec fn languages_disagree(
    declared: Option<mediaframe::lang::Language>,
    detected: Option<mediaframe::lang::Language>,
) -> bool {
    &&& declared is Some
    &&& detected is Some
    &&& declared->0 != detected->0
}

/// True iff both languages are known and differ; with either unknown there
/// is no known mismatch.
pub fn language_mismatch(
    declared: Option<mediaframe::lang::Language>,
    detected: Option<mediaframe::lang::Language>,
) -> (r: bool)
    ensures
        r == languages_disagree(declared, detected),
{
    match (&declared, &detected) {
        (Some(a), Some(b)) => !language_eq(a, b),
        _ => false,
    }
}

} // verus!
