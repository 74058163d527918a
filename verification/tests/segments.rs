use mediaschema::primitives::Uuid7;
use mediaschema::segment_rules::{
    check_segment, check_sound_event, check_speaker, check_speech_segment, check_words, is_inverted,
    semantically_before, AudioSegmentError, SoundEventError, SpeechSegmentError, WordError,
};
use mediaschema::time::{MediaTimestamp, TimeRange, Timebase};

fn tb() -> Timebase {
    Timebase::new(1, 1000)
}

fn mpeg_tb() -> Timebase {
    Timebase::new(1, 90_000)
}

fn span(start: i64, end: i64) -> TimeRange {
    TimeRange::new(start, end, tb())
}

#[test]
fn inverted_span_variant_is_constructible_and_reports_predicate() {
    let e = AudioSegmentError::InvertedSpan;
    assert!(e.is_inverted_span());
    assert_eq!(e.message(), "AudioSegment span.start must be <= span.end");
}

#[test]
fn segment_rules_reject_nil_ids_in_order() {
    assert_eq!(check_segment(Uuid7::nil(), Uuid7::nil(), span(0, 1500)), Err(AudioSegmentError::NilId));
    assert_eq!(check_segment(Uuid7::new(), Uuid7::nil(), span(0, 1500)), Err(AudioSegmentError::NilParent));
    assert_eq!(check_segment(Uuid7::new(), Uuid7::new(), span(0, 1500)), Ok(()));
    assert!(AudioSegmentError::NilParent.is_nil_parent());
}

#[test]
fn segment_rules_accept_zero_length_span() {
    assert_eq!(check_segment(Uuid7::new(), Uuid7::new(), span(500, 500)), Ok(()));
    assert!(!is_inverted(span(500, 500)));
}

#[test]
fn words_outside_the_segment_are_rejected() {
    let seg = span(100, 400);
    assert_eq!(check_words(seg, &[span(0, 200)]), Err(AudioSegmentError::WordSpanOutOfSegment));
    assert_eq!(check_words(seg, &[span(300, 500)]), Err(AudioSegmentError::WordSpanOutOfSegment));
    assert!(AudioSegmentError::WordSpanOutOfSegment.is_word_span_out_of_segment());
    assert_eq!(check_words(seg, &[span(150, 300)]), Ok(()));
    assert_eq!(check_words(seg, &[span(100, 400), span(150, 300)]), Ok(()));
    assert_eq!(check_words(seg, &[]), Ok(()));
    assert_eq!(check_words(seg, &[span(150, 300), span(0, 50)]), Err(AudioSegmentError::WordSpanOutOfSegment));
}

#[test]
fn words_are_compared_in_semantic_time_across_timebases() {
    let seg = span(0, 1000);
    // 0..1.5 s in the 1/90000 timebase: raw end 135000 but semantically late.
    let late = TimeRange::new(0, 135_000, mpeg_tb());
    assert_eq!(check_words(seg, &[late]), Err(AudioSegmentError::WordSpanOutOfSegment));
    // 0.25..0.75 s in the fine timebase sits inside 0..1 s.
    let inside = TimeRange::new(22_500, 67_500, mpeg_tb());
    assert_eq!(check_words(seg, &[inside]), Ok(()));
}

#[test]
fn semantic_comparison_orders_instants_across_timebases() {
    let one_second_ms = MediaTimestamp::new(1000, tb());
    let one_second_mpg = MediaTimestamp::new(90_000, mpeg_tb());
    let half_second_ms = MediaTimestamp::new(500, tb());
    let two_seconds_mpg = MediaTimestamp::new(180_000, mpeg_tb());
    assert!(semantically_before(half_second_ms, one_second_mpg));
    assert!(!semantically_before(one_second_mpg, half_second_ms));
    assert!(semantically_before(one_second_ms, two_seconds_mpg));
    assert!(!semantically_before(one_second_ms, one_second_mpg));
    assert!(!semantically_before(one_second_mpg, one_second_ms));
    let extreme = MediaTimestamp::new(i64::MAX, Timebase::new(i32::MAX, 1));
    let tiny = MediaTimestamp::new(i64::MIN, Timebase::new(i32::MAX, 1));
    assert!(semantically_before(tiny, extreme));
}

#[test]
fn speaker_reference_must_not_be_nil() {
    assert_eq!(check_speaker(Some(Uuid7::nil())), Err(AudioSegmentError::NilSpeaker));
    assert_eq!(check_speaker(None), Ok(()));
    assert_eq!(check_speaker(Some(Uuid7::new())), Ok(()));
    assert!(AudioSegmentError::NilSpeaker.is_nil_speaker());
}

#[test]
fn sound_event_and_speech_segment_rules() {
    assert_eq!(check_sound_event(Uuid7::nil(), Uuid7::new(), span(0, 10)), Err(SoundEventError::NilId));
    assert_eq!(
        check_sound_event(Uuid7::new(), Uuid7::nil(), span(0, 10)),
        Err(SoundEventError::NilAudioTrackId)
    );
    assert_eq!(check_sound_event(Uuid7::new(), Uuid7::new(), span(0, 10)), Ok(()));
    assert_eq!(check_speech_segment(Uuid7::nil(), Uuid7::new(), span(0, 10)), Err(SpeechSegmentError::NilId));
    assert_eq!(
        check_speech_segment(Uuid7::new(), Uuid7::nil(), span(0, 10)),
        Err(SpeechSegmentError::NilAudioTrackId)
    );
    assert_eq!(check_speech_segment(Uuid7::new(), Uuid7::new(), span(5, 5)), Ok(()));
    assert_eq!(SoundEventError::InvertedSpan.message(), "SoundEvent span.start must be <= span.end");
    assert_eq!(WordError::ScoreOutOfRange.message(), "Word score must be finite and within [0, 1]");
    assert!(SpeechSegmentError::ConfidenceOutOfRange.is_confidence_out_of_range());
}
