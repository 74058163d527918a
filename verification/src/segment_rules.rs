//! The span and identity rules of the audio segment aggregates (segments
//! with their words, sound events, speech segments), compared in semantic
//! time so that spans in different timebases order correctly.
use vstd::prelude::*;

use crate::primitives::{is_nil_bytes, Uuid7};
use crate::time::{lemma_cross_bound, MediaTimestamp, TimeRange};

verus! {

/// `a.pts * a.num * b.den`: `a`'s tick count scaled so that it can be
/// compared with `b`'s across their timebases.
pub open spec fn cross_scaled(a: MediaTimestamp, b: MediaTimestamp) -> int {
    a.spec_pts() * a.spec_timebase().spec_num() * b.spec_timebase().spec_den()
}

/// `a` is strictly earlier than `b` in semantic (timebase-correct) time:
/// `a.pts * a.num / a.den < b.pts * b.num / b.den`, cross-multiplied.
pub open spec fn semantic_lt(a: MediaTimestamp, b: MediaTimestamp) -> bool {
    cross_scaled(a, b) < cross_scaled(b, a)
}

/// `a.pts * a.num * b.den` in exact (`i128`) arithmetic.
fn cross_scaled_exec(a: MediaTimestamp, b: MediaTimestamp) -> (r: i128)
    ensures
        r == cross_scaled(a, b),
{
    let p: i128 = a.pts() as i128;
    let n: i128 = a.timebase().num() as i128;
    let d: i128 = b.timebase().den() as i128;
    proof {
        lemma_cross_bound(p as int, n as int, d as int);
    }
    let pn: i128 = p * n;
    pn * d
}

/// True iff `a` is strictly earlier than `b` in semantic time, whatever
/// their timebases (the comparison `Timestamp::cmp_semantic` makes).
pub fn semantically_before(a: MediaTimestamp, b: MediaTimestamp) -> (r: bool)
    ensures
        r == semantic_lt(a, b),
{
    cross_scaled_exec(a, b) < cross_scaled_exec(b, a)
}

/// The span's start lies semantically after its end.
pub open spec fn span_inverted(span: TimeRange) -> bool {
    semantic_lt(span.spec_end_ts(), span.spec_start_ts())
}

/// Scaling both ends of an ordered pair by the same non-negative factor
/// keeps them ordered.
proof fn lemma_scale_monotone(s: int, e: int, n: int, d: int)
    by (nonlinear_arith)
    requires
        s <= e,
        n >= 0,
        d > 0,
    ensures
        s * n * d <= e * n * d,
{
}

/// True iff the span's start lies semantically after its end — never the
/// case, since a range's start tick is at most its end tick in one timebase
/// whose numerator is non-negative and denominator positive.
pub fn is_inverted(span: TimeRange) -> (r: bool)
    ensures
        r == span_inverted(span),
        !r,
{
    let start = span.start();
    let end = span.end();
    let tb = span.timebase();
    let s = span.start_pts();
    let n = tb.num();
    let d = tb.den();
    proof {
        lemma_scale_monotone(s as int, span.spec_end() as int, n as int, d as int);
    }
    semantically_before(end, start)
}

/// Error returned by an `AudioSegment` constructor or word-list / speaker
/// mutator when an invariant cannot be upheld.
#[derive(Debug, Clone, Copy, PartialEq, Eq, Hash, Structural)]
#[non_exhaustive]
pub enum AudioSegmentError {
    /// `id` was the nil sentinel.
    NilId,
    /// `parent` was the nil sentinel (orphan segment).
    NilParent,
    /// the span's start lies after its end.
    InvertedSpan,
    /// a word's span is not contained in the segment's span.
    WordSpanOutOfSegment,
    /// a word's span is inverted.
    InvertedWordSpan,
    /// `no_speech_prob` was non-finite or outside `[0, 1]`.
    NoSpeechProbOutOfRange,
    /// the speaker reference was `Some(nil)`.
    NilSpeaker,
}

/// The message of each [`AudioSegmentError`].
pub open spec fn audio_segment_error_message(e: AudioSegmentError) -> Seq<char> {
    match e {
        AudioSegmentError::NilId => "AudioSegment id must not be the nil UUID"@,
        AudioSegmentError::NilParent => "AudioSegment parent (AudioTrack) must not be the nil UUID"@,
        AudioSegmentError::InvertedSpan => "AudioSegment span.start must be <= span.end"@,
        AudioSegmentError::WordSpanOutOfSegment => "AudioSegment word span must be contained in the segment span"@,
        AudioSegmentError::InvertedWordSpan => "AudioSegment word span.start must be <= span.end"@,
        AudioSegmentError::NoSpeechProbOutOfRange => "AudioSegment no_speech_prob must be finite and within [0, 1]"@,
        AudioSegmentError::NilSpeaker => "AudioSegment speaker FK must not be Some(nil UUID)"@,
    }
}

impl AudioSegmentError {
    /// True iff this is `AudioSegmentError::NilId`.
    pub fn is_nil_id(&self) -> (r: bool)
        ensures
            r == (*self is NilId),
    {
        match self {
            AudioSegmentError::NilId => true,
            #[allow(unreachable_patterns)]
            _ => false,
        }
    }

    /// True iff this is `AudioSegmentError::NilParent`.
    pub fn is_nil_parent(&self) -> (r: bool)
        ensures
            r == (*self is NilParent),
    {
        match self {
            AudioSegmentError::NilParent => true,
            #[allow(unreachable_patterns)]
            _ => false,
        }
    }

    /// True iff this is `AudioSegmentError::InvertedSpan`.
    pub fn is_inverted_span(&self) -> (r: bool)
        ensures
            r == (*self is InvertedSpan),
    {
        match self {
            AudioSegmentError::InvertedSpan => true,
            #[allow(unreachable_patterns)]
            _ => false,
        }
    }

    /// True iff this is `AudioSegmentError::WordSpanOutOfSegment`.
    pub fn is_word_span_out_of_segment(&self) -> (r: bool)
        ensures
            r == (*self is WordSpanOutOfSegment),
    {
        match self {
            AudioSegmentError::WordSpanOutOfSegment => true,
            #[allow(unreachable_patterns)]
            _ => false,
        }
    }

    /// True iff this is `AudioSegmentError::InvertedWordSpan`.
    pub fn is_inverted_word_span(&self) -> (r: bool)
        ensures
            r == (*self is InvertedWordSpan),
    {
        match self {
            AudioSegmentError::InvertedWordSpan => true,
            #[allow(unreachable_patterns)]
            _ => false,
        }
    }

    /// True iff this is `AudioSegmentError::NoSpeechProbOutOfRange`.
    pub fn is_no_speech_prob_out_of_range(&self) -> (r: bool)
        ensures
            r == (*self is NoSpeechProbOutOfRange),
    {
        match self {
            AudioSegmentError::NoSpeechProbOutOfRange => true,
            #[allow(unreachable_patterns)]
            _ => false,
        }
    }

    /// True iff this is `AudioSegmentError::NilSpeaker`.
    pub fn is_nil_speaker(&self) -> (r: bool)
        ensures
            r == (*self is NilSpeaker),
    {
        match self {
            AudioSegmentError::NilSpeaker => true,
            #[allow(unreachable_patterns)]
            _ => false,
        }
    }

    /// Human-readable description.
    pub fn message(&self) -> (r: String)
        ensures
            r@ == audio_segment_error_message(*self),
    {
        match self {
            AudioSegmentError::NilId => {
                proof {
                    reveal_strlit("AudioSegment id must not be the nil UUID");
                }
                "AudioSegment id must not be the nil UUID".to_owned()
            },
            AudioSegmentError::NilParent => {
                proof {
                    reveal_strlit("AudioSegment parent (AudioTrack) must not be the nil UUID");
                }
                "AudioSegment parent (AudioTrack) must not be the nil UUID".to_owned()
            },
            AudioSegmentError::InvertedSpan => {
                proof {
                    reveal_strlit("AudioSegment span.start must be <= span.end");
                }
                "AudioSegment span.start must be <= span.end".to_owned()
            },
            AudioSegmentError::WordSpanOutOfSegment => {
                proof {
                    reveal_strlit("AudioSegment word span must be contained in the segment span");
                }
                "AudioSegment word span must be contained in the segment span".to_owned()
            },
            AudioSegmentError::InvertedWordSpan => {
                proof {
                    reveal_strlit("AudioSegment word span.start must be <= span.end");
                }
                "AudioSegment word span.start must be <= span.end".to_owned()
            },
            AudioSegmentError::NoSpeechProbOutOfRange => {
                proof {
                    reveal_strlit("AudioSegment no_speech_prob must be finite and within [0, 1]");
                }
                "AudioSegment no_speech_prob must be finite and within [0, 1]".to_owned()
            },
            AudioSegmentError::NilSpeaker => {
                proof {
                    reveal_strlit("AudioSegment speaker FK must not be Some(nil UUID)");
                }
                "AudioSegment speaker FK must not be Some(nil UUID)".to_owned()
            },
        }
    }
}

/// Error returned by a `Word` constructor or score mutator.
#[derive(Debug, Clone, Copy, PartialEq, Eq, Hash, Structural)]
#[non_exhaustive]
pub enum WordError {
    /// the score was non-finite or outside `[0, 1]`.
    ScoreOutOfRange,
}

/// The message of each [`WordError`].
pub open spec fn word_error_message(e: WordError) -> Seq<char> {
    match e {
        WordError::ScoreOutOfRange => "Word score must be finite and within [0, 1]"@,
    }
}

impl WordError {
    /// True iff this is `WordError::ScoreOutOfRange`.
    pub fn is_score_out_of_range(&self) -> (r: bool)
        ensures
            r == (*self is ScoreOutOfRange),
    {
        match self {
            WordError::ScoreOutOfRange => true,
            #[allow(unreachable_patterns)]
            _ => false,
        }
    }

    /// Human-readable description.
    pub fn message(&self) -> (r: String)
        ensures
            r@ == word_error_message(*self),
    {
        match self {
            WordError::ScoreOutOfRange => {
                proof {
                    reveal_strlit("Word score must be finite and within [0, 1]");
                }
                "Word score must be finite and within [0, 1]".to_owned()
            },
        }
    }
}

/// Error returned by a `SoundEvent` constructor or fallible mutator.
#[derive(Debug, Clone, Copy, PartialEq, Eq, Hash, Structural)]
#[non_exhaustive]
pub enum SoundEventError {
    /// `id` was the nil sentinel.
    NilId,
    /// `audio_track_id` was the nil sentinel.
    NilAudioTrackId,
    /// the span's start lies after its end.
    InvertedSpan,
    /// the score was non-finite or outside `[0, 1]`.
    ScoreOutOfRange,
}

/// The message of each [`SoundEventError`].
pub open spec fn sound_event_error_message(e: SoundEventError) -> Seq<char> {
    match e {
        SoundEventError::NilId => "SoundEvent id must not be the nil UUID"@,
        SoundEventError::NilAudioTrackId => "SoundEvent `audio_track_id` (FK → AudioTrack) must not be the nil UUID"@,
        SoundEventError::InvertedSpan => "SoundEvent span.start must be <= span.end"@,
        SoundEventError::ScoreOutOfRange => "SoundEvent score must be finite and within [0, 1]"@,
    }
}

impl SoundEventError {
    /// True iff this is `SoundEventError::NilId`.
    pub fn is_nil_id(&self) -> (r: bool)
        ensures
            r == (*self is NilId),
    {
        match self {
            SoundEventError::NilId => true,
            #[allow(unreachable_patterns)]
            _ => false,
        }
    }

    /// True iff this is `SoundEventError::NilAudioTrackId`.
    pub fn is_nil_audio_track_id(&self) -> (r: bool)
        ensures
            r == (*self is NilAudioTrackId),
    {
        match self {
            SoundEventError::NilAudioTrackId => true,
            #[allow(unreachable_patterns)]
            _ => false,
        }
    }

    /// True iff this is `SoundEventError::InvertedSpan`.
    pub fn is_inverted_span(&self) -> (r: bool)
        ensures
            r == (*self is InvertedSpan),
    {
        match self {
            SoundEventError::InvertedSpan => true,
            #[allow(unreachable_patterns)]
            _ => false,
        }
    }

    /// True iff this is `SoundEventError::ScoreOutOfRange`.
    pub fn is_score_out_of_range(&self) -> (r: bool)
        ensures
            r == (*self is ScoreOutOfRange),
    {
        match self {
            SoundEventError::ScoreOutOfRange => true,
            #[allow(unreachable_patterns)]
            _ => false,
        }
    }

    /// Human-readable description.
    pub fn message(&self) -> (r: String)
        ensures
            r@ == sound_event_error_message(*self),
    {
        match self {
            SoundEventError::NilId => {
                proof {
                    reveal_strlit("SoundEvent id must not be the nil UUID");
                }
                "SoundEvent id must not be the nil UUID".to_owned()
            },
            SoundEventError::NilAudioTrackId => {
                proof {
                    reveal_strlit("SoundEvent `audio_track_id` (FK → AudioTrack) must not be the nil UUID");
                }
                "SoundEvent `audio_track_id` (FK → AudioTrack) must not be the nil UUID".to_owned()
            },
            SoundEventError::InvertedSpan => {
                proof {
                    reveal_strlit("SoundEvent span.start must be <= span.end");
                }
                "SoundEvent span.start must be <= span.end".to_owned()
            },
            SoundEventError::ScoreOutOfRange => {
                proof {
                    reveal_strlit("SoundEvent score must be finite and within [0, 1]");
                }
                "SoundEvent score must be finite and within [0, 1]".to_owned()
            },
        }
    }
}

/// Error returned by the `SpeechSegment` constructor.
#[derive(Debug, Clone, Copy, PartialEq, Eq, Hash, Structural)]
#[non_exhaustive]
pub enum SpeechSegmentError {
    /// `id` was the nil sentinel.
    NilId,
    /// `audio_track_id` was the nil sentinel.
    NilAudioTrackId,
    /// the span's start lies after its end.
    InvertedSpan,
    /// the confidence was non-finite or outside `[0, 1]`.
    ConfidenceOutOfRange,
}

/// The message of each [`SpeechSegmentError`].
pub open spec fn speech_segment_error_message(e: SpeechSegmentError) -> Seq<char> {
    match e {
        SpeechSegmentError::NilId => "SpeechSegment id must not be the nil UUID"@,
        SpeechSegmentError::NilAudioTrackId => "SpeechSegment `audio_track_id` (FK → AudioTrack) must not be the nil UUID"@,
        SpeechSegmentError::InvertedSpan => "SpeechSegment span.start must be <= span.end"@,
        SpeechSegmentError::ConfidenceOutOfRange => "SpeechSegment confidence must be finite and within [0, 1]"@,
    }
}

impl SpeechSegmentError {
    /// True iff this is `SpeechSegmentError::NilId`.
    pub fn is_nil_id(&self) -> (r: bool)
        ensures
            r == (*self is NilId),
    {
        match self {
            SpeechSegmentError::NilId => true,
            #[allow(unreachable_patterns)]
            _ => false,
        }
    }

    /// True iff this is `SpeechSegmentError::NilAudioTrackId`.
    pub fn is_nil_audio_track_id(&self) -> (r: bool)
        ensures
            r == (*self is NilAudioTrackId),
    {
        match self {
            SpeechSegmentError::NilAudioTrackId => true,
            #[allow(unreachable_patterns)]
            _ => false,
        }
    }

    /// True iff this is `SpeechSegmentError::InvertedSpan`.
    pub fn is_inverted_span(&self) -> (r: bool)
        ensures
            r == (*self is InvertedSpan),
    {
        match self {
            SpeechSegmentError::InvertedSpan => true,
            #[allow(unreachable_patterns)]
            _ => false,
        }
    }

    /// True iff this is `SpeechSegmentError::ConfidenceOutOfRange`.
    pub fn is_confidence_out_of_range(&self) -> (r: bool)
        ensures
            r == (*self is ConfidenceOutOfRange),
    {
        match self {
            SpeechSegmentError::ConfidenceOutOfRange => true,
            #[allow(unreachable_patterns)]
            _ => false,
        }
    }

    /// Human-readable description.
    pub fn message(&self) -> (r: String)
        ensures
            r@ == speech_segment_error_message(*self),
    {
        match self {
            SpeechSegmentError::NilId => {
                proof {
                    reveal_strlit("SpeechSegment id must not be the nil UUID");
                }
                "SpeechSegment id must not be the nil UUID".to_owned()
            },
            SpeechSegmentError::NilAudioTrackId => {
                proof {
                    reveal_strlit("SpeechSegment `audio_track_id` (FK → AudioTrack) must not be the nil UUID");
                }
                "SpeechSegment `audio_track_id` (FK → AudioTrack) must not be the nil UUID".to_owned()
            },
            SpeechSegmentError::InvertedSpan => {
                proof {
                    reveal_strlit("SpeechSegment span.start must be <= span.end");
                }
                "SpeechSegment span.start must be <= span.end".to_owned()
            },
            SpeechSegmentError::ConfidenceOutOfRange => {
                proof {
                    reveal_strlit("SpeechSegment confidence must be finite and within [0, 1]");
                }
                "SpeechSegment confidence must be finite and within [0, 1]".to_owned()
            },
        }
    }
}

/// Why a word span cannot sit in a segment span, if it cannot: an inverted
/// word span first, then one that starts before the segment or ends after it
/// (semantic time).
pub open spec fn word_span_error(segment: TimeRange, word: TimeRange) -> Option<AudioSegmentError> {
    if span_inverted(word) {
        Some(AudioSegmentError::InvertedWordSpan)
    } else if semantic_lt(word.spec_start_ts(), segment.spec_start_ts()) || semantic_lt(
        segment.spec_end_ts(),
        word.spec_end_ts(),
    ) {
        Some(AudioSegmentError::WordSpanOutOfSegment)
    } else {
        None
    }
}

/// The error of the first word span that cannot sit in the segment, if any.
pub open spec fn words_error(segment: TimeRange, words: Seq<TimeRange>) -> Option<AudioSegmentError>
    decreases words.len(),
{
    if words.len() == 0 {
        None
    } else {
        match word_span_error(segment, words[0]) {
            Some(e) => Some(e),
            None => words_error(segment, words.drop_first()),
        }
    }
}

/// Check that every word span is well-formed and contained in the segment
/// span, in order; the first offending word decides the error.
pub fn check_words(segment: TimeRange, words: &[TimeRange]) -> (r: Result<(), AudioSegmentError>)
    ensures
        r is Err <==> words_error(segment, words@) is Some,
        r matches Err(e) ==> words_error(segment, words@) == Some(e),
{
    let mut i: usize = 0;
    assert(words@.subrange(0, words@.len() as int) =~= words@);
    while i < words.len()
        invariant
            0 <= i <= words@.len(),
            words_error(segment, words@) == words_error(segment, words@.subrange(i as int, words@.len() as int)),
        decreases words@.len() - i,
    {
        let w = words[i];
        assert(words@.subrange(i as int, words@.len() as int).drop_first() =~= words@.subrange(
            i + 1,
            words@.len() as int,
        ));
        if is_inverted(w) {
            return Err(AudioSegmentError::InvertedWordSpan);
        }
        if semantically_before(w.start(), segment.start()) || semantically_before(segment.end(), w.end()) {
            return Err(AudioSegmentError::WordSpanOutOfSegment);
        }
        i = i + 1;
    }
    assert(words@.subrange(i as int, words@.len() as int).len() == 0);
    Ok(())
}

/// Why a segment with these ids and span cannot be built, if it cannot.
pub open spec fn segment_error(id: Uuid7, parent: Uuid7, span: TimeRange) -> Option<AudioSegmentError> {
    if is_nil_bytes(id@) {
        Some(AudioSegmentError::NilId)
    } else if is_nil_bytes(parent@) {
        Some(AudioSegmentError::NilParent)
    } else if span_inverted(span) {
        Some(AudioSegmentError::InvertedSpan)
    } else {
        None
    }
}

/// Check an audio segment's constructor invariants: real ids and a
/// non-inverted span.
pub fn check_segment(id: Uuid7, parent: Uuid7, span: TimeRange) -> (r: Result<(), AudioSegmentError>)
    ensures
        r is Err <==> segment_error(id, parent, span) is Some,
        r matches Err(e) ==> segment_error(id, parent, span) == Some(e),
{
    if id.is_nil() {
        return Err(AudioSegmentError::NilId);
    }
    if parent.is_nil() {
        return Err(AudioSegmentError::NilParent);
    }
    if is_inverted(span) {
        return Err(AudioSegmentError::InvertedSpan);
    }
    Ok(())
}

/// Check a segment's speaker reference: `None` (not diarized) or a real id.
pub fn check_speaker(speaker: Option<Uuid7>) -> (r: Result<(), AudioSegmentError>)
    ensures
        r is Err <==> (speaker matches Some(s) && is_nil_bytes(s@)),
        r matches Err(e) ==> e == AudioSegmentError::NilSpeaker,
{
    match speaker {
        Some(s) => if s.is_nil() {
            Err(AudioSegmentError::NilSpeaker)
        } else {
            Ok(())
        },
        None => Ok(()),
    }
}

/// Why a sound event with these ids and span cannot be built, before its
/// score is looked at, if it cannot.
pub open spec fn sound_event_error(id: Uuid7, audio_track_id: Uuid7, span: TimeRange) -> Option<SoundEventError> {
    if is_nil_bytes(id@) {
        Some(SoundEventError::NilId)
    } else if is_nil_bytes(audio_track_id@) {
        Some(SoundEventError::NilAudioTrackId)
    } else if span_inverted(span) {
        Some(SoundEventError::InvertedSpan)
    } else {
        None
    }
}

/// Check a sound event's id and span invariants (the score is checked
/// apart).
pub fn check_sound_event(id: Uuid7, audio_track_id: Uuid7, span: TimeRange) -> (r: Result<(), SoundEventError>)
    ensures
        r is Err <==> sound_event_error(id, audio_track_id, span) is Some,
        r matches Err(e) ==> sound_event_error(id, audio_track_id, span) == Some(e),
{
    if id.is_nil() {
        return Err(SoundEventError::NilId);
    }
    if audio_track_id.is_nil() {
        return Err(SoundEventError::NilAudioTrackId);
    }
    if is_inverted(span) {
        return Err(SoundEventError::InvertedSpan);
    }
    Ok(())
}

/// Check a new span for a sound event: it must not be inverted.
pub fn check_sound_event_span(span: TimeRange) -> (r: Result<(), SoundEventError>)
    ensures
        r is Err <==> span_inverted(span),
        r matches Err(e) ==> e == SoundEventError::InvertedSpan,
{
    if is_inverted(span) {
        Err(SoundEventError::InvertedSpan)
    } else {
        Ok(())
    }
}

/// Why a speech segment with these ids and span cannot be built, before its
/// confidence is looked at, if it cannot.
pub open spec fn speech_segment_error(id: Uuid7, audio_track_id: Uuid7, span: TimeRange) -> Option<
    SpeechSegmentError,
> {
    if is_nil_bytes(id@) {
        Some(SpeechSegmentError::NilId)
    } else if is_nil_bytes(audio_track_id@) {
        Some(SpeechSegmentError::NilAudioTrackId)
    } else if span_inverted(span) {
        Some(SpeechSegmentError::InvertedSpan)
    } else {
        None
    }
}

/// Check a speech segment's id and span invariants (the confidence is
/// checked apart).
pub fn check_speech_segment(id: Uuid7, audio_track_id: Uuid7, span: TimeRange) -> (r: Result<
    (),
    SpeechSegmentError,
>)
    ensures
        r is Err <==> speech_segment_error(id, audio_track_id, span) is Some,
        r matches Err(e) ==> speech_segment_error(id, audio_track_id, span) == Some(e),
{
    if id.is_nil() {
        return Err(SpeechSegmentError::NilId);
    }
    if audio_track_id.is_nil() {
        return Err(SpeechSegmentError::NilAudioTrackId);
    }
    if is_inverted(span) {
        return Err(SpeechSegmentError::InvertedSpan);
    }
    Ok(())
}

} // verus!
