use mediaschema::facets::{
    Attachment, AttachmentError, Audio, AudioError, Data, DataError, Subtitle, SubtitleError, Video, VideoError,
};
use mediaschema::primitives::Uuid7;
use mediaschema::progress::{IndexProgress, IndexProgressError};

// ---- Video ---------------------------------------------------------------

#[test]
fn facet_try_new_happy_path() {
    let id = Uuid7::new();
    let media_id = Uuid7::new();
    let v = Video::try_new(id, media_id).unwrap();
    assert_eq!(v.id_ref(), &id);
    assert_eq!(v.media_id_ref(), &media_id);
    assert_eq!(v.total_scenes(), 0);
    assert!(v.tracks_slice().is_empty());
    assert_eq!(v.track_progress_ref(), &IndexProgress::new());
}

#[test]
fn facet_try_new_rejects_nil_id() {
    let r = Video::try_new(Uuid7::nil(), Uuid7::new());
    assert_eq!(r.err(), Some(VideoError::NilId));
    assert!(VideoError::NilId.is_nil_id());
}

#[test]
fn facet_try_new_rejects_nil_media_id() {
    let r = Video::try_new(Uuid7::new(), Uuid7::nil());
    assert_eq!(r.err(), Some(VideoError::NilMediaId));
    assert!(VideoError::NilMediaId.is_nil_media_id());
}

#[test]
fn facet_media_id_ref_returns_constructed_media_id() {
    let media_id = Uuid7::new();
    let v = Video::try_new(Uuid7::new(), media_id).unwrap();
    assert_eq!(v.media_id_ref(), &media_id);
}

#[test]
fn facet_builders_and_setters_chain() {
    let t1 = Uuid7::new();
    let t2 = Uuid7::new();
    let p = IndexProgress::try_new(2, 1, 0).unwrap();
    let v = Video::try_new(Uuid7::new(), Uuid7::new())
        .unwrap()
        .with_tracks(vec![t1, t2])
        .with_total_scenes(7)
        .with_track_progress(p);
    assert_eq!(v.total_scenes(), 7);
    assert_eq!(v.tracks_slice().len(), 2);
    assert!(v.tracks_slice().contains(&t1));
    assert_eq!(v.track_progress_ref(), &p);

    let mut v = v;
    v.set_total_scenes(0);
    v.set_tracks(Vec::<Uuid7>::new());
    v.set_track_progress(IndexProgress::new());
    assert_eq!(v.total_scenes(), 0);
    assert!(v.tracks_slice().is_empty());
    assert_eq!(v.track_progress_ref(), &IndexProgress::new());
}

#[test]
fn facet_fields_are_independent_across_mutators() {
    let mut v = Video::try_new(Uuid7::new(), Uuid7::new())
        .unwrap()
        .with_tracks(vec![Uuid7::new(), Uuid7::new()])
        .with_total_scenes(7)
        .with_track_progress(IndexProgress::try_new(2, 1, 1).unwrap());
    v.set_tracks(vec![Uuid7::new()]);
    assert_eq!(v.tracks_slice().len(), 1);
    assert_eq!(v.total_scenes(), 7);
    assert_eq!(v.track_progress_ref(), &IndexProgress::try_new(2, 1, 1).unwrap());

    let v2 = Video::try_new(Uuid7::new(), Uuid7::new()).unwrap().with_total_scenes(3);
    assert_eq!(v2.total_scenes(), 3);
    assert!(v2.tracks_slice().is_empty());
}

#[test]
fn facet_index_progress_invariant_rejects_overcount() {
    let r = IndexProgress::try_new(2, 2, 1);
    assert_eq!(r.err(), Some(IndexProgressError::SumExceedsTotal));
    assert!(IndexProgressError::SumExceedsTotal.is_sum_exceeds_total());
}

#[test]
fn facet_index_progress_invariant_rejects_overflow() {
    let r = IndexProgress::try_new(u32::MAX, u32::MAX, 1);
    assert_eq!(r.err(), Some(IndexProgressError::SumOverflows));
    assert!(IndexProgressError::SumOverflows.is_sum_overflows());
}

#[test]
fn facet_index_progress_has_failures() {
    let none = IndexProgress::try_new(5, 5, 0).unwrap();
    let some = IndexProgress::try_new(5, 3, 2).unwrap();
    assert!(!none.has_failures());
    assert!(some.has_failures());
}

#[test]
fn index_progress_try_new_accepts_exact_total() {
    let p = IndexProgress::try_new(5, 3, 2).unwrap();
    assert_eq!((p.total(), p.indexed(), p.failed()), (5, 3, 2));
    assert_eq!(IndexProgress::try_new(0, 0, 0).unwrap(), IndexProgress::new());
    assert_eq!(IndexProgress::try_new(u32::MAX, u32::MAX, 0).unwrap().indexed(), u32::MAX);
}

// ---- Audio ---------------------------------------------------------------

#[test]
fn audio_facet_try_new_happy_path() {
    let id = Uuid7::new();
    let media_id = Uuid7::new();
    let a = Audio::try_new(id, media_id).expect("valid construction must succeed");
    assert_eq!(a.id_ref(), &id);
    assert_eq!(a.media_id_ref(), &media_id);
    assert!(a.tracks_slice().is_empty());
    assert_eq!(a.total_segments(), 0);
    assert_eq!(a.total_sound_events(), 0);
    assert_eq!(a.track_progress_ref(), &IndexProgress::new());
}

#[test]
fn audio_facet_try_new_rejects_nil_id() {
    let r = Audio::try_new(Uuid7::nil(), Uuid7::new());
    assert_eq!(r.err(), Some(AudioError::NilId));
    assert!(AudioError::NilId.is_nil_id());
}

#[test]
fn audio_facet_try_new_rejects_nil_media_id() {
    let r = Audio::try_new(Uuid7::new(), Uuid7::nil());
    assert_eq!(r.err(), Some(AudioError::NilMediaId));
    assert!(AudioError::NilMediaId.is_nil_media_id());
}

#[test]
fn audio_facet_media_id_ref_returns_constructed_media_id() {
    let media_id = Uuid7::new();
    let a = Audio::try_new(Uuid7::new(), media_id).unwrap();
    assert_eq!(a.media_id_ref(), &media_id);
}

#[test]
fn facet_builders_chain_tracks_and_rollup() {
    let t1 = Uuid7::new();
    let t2 = Uuid7::new();
    let p = IndexProgress::try_new(2, 1, 0).unwrap();
    let a = Audio::try_new(Uuid7::new(), Uuid7::new())
        .unwrap()
        .with_tracks(vec![t1, t2])
        .with_total_segments(42)
        .with_total_sound_events(13)
        .with_track_progress(p);
    assert_eq!(a.tracks_slice().len(), 2);
    assert!(a.tracks_slice().contains(&t1));
    assert_eq!(a.total_segments(), 42);
    assert_eq!(a.total_sound_events(), 13);
    assert_eq!(a.track_progress_ref(), &p);
}

#[test]
fn facet_setters_mutate_in_place() {
    let mut a = Audio::try_new(Uuid7::new(), Uuid7::new()).unwrap();
    a.set_tracks(vec![Uuid7::new()]);
    a.set_total_segments(7);
    a.set_total_sound_events(3);
    a.set_track_progress(IndexProgress::try_new(1, 1, 0).unwrap());
    assert_eq!(a.tracks_slice().len(), 1);
    assert_eq!(a.total_segments(), 7);
    assert_eq!(a.total_sound_events(), 3);
    assert_eq!(a.track_progress_ref().total(), 1);
    assert!(!a.track_progress_ref().has_failures());
}

#[test]
fn audio_facet_fields_are_independent_across_mutators() {
    let mut a = Audio::try_new(Uuid7::new(), Uuid7::new())
        .unwrap()
        .with_tracks(vec![Uuid7::new(), Uuid7::new()])
        .with_total_segments(17)
        .with_total_sound_events(9)
        .with_track_progress(IndexProgress::try_new(2, 1, 1).unwrap());
    a.set_tracks(vec![Uuid7::new()]);
    assert_eq!(a.tracks_slice().len(), 1);
    assert_eq!(a.total_segments(), 17);
    assert_eq!(a.total_sound_events(), 9);
    assert_eq!(a.track_progress_ref(), &IndexProgress::try_new(2, 1, 1).unwrap());
}

// ---- Subtitle ------------------------------------------------------------

#[test]
fn subtitle_facet_try_new_happy_path() {
    let media_id = Uuid7::new();
    let s = Subtitle::try_new(Uuid7::new(), media_id).expect("valid construction must succeed");
    assert_eq!(s.media_id_ref(), &media_id);
    assert!(s.tracks_slice().is_empty());
    assert_eq!(s.track_progress_ref(), &IndexProgress::new());
}

#[test]
fn subtitle_facet_try_new_rejects_nil_id() {
    let r = Subtitle::try_new(Uuid7::nil(), Uuid7::new());
    assert_eq!(r.err(), Some(SubtitleError::NilId));
    assert!(SubtitleError::NilId.is_nil_id());
}

#[test]
fn subtitle_facet_try_new_rejects_nil_media_id() {
    let r = Subtitle::try_new(Uuid7::new(), Uuid7::nil());
    assert_eq!(r.err(), Some(SubtitleError::NilMediaId));
    assert!(SubtitleError::NilMediaId.is_nil_media_id());
}

#[test]
fn subtitle_facet_builders_and_setters_chain() {
    let t1 = Uuid7::new();
    let t2 = Uuid7::new();
    let s = Subtitle::try_new(Uuid7::new(), Uuid7::new())
        .unwrap()
        .with_tracks(vec![t1, t2])
        .with_track_progress(IndexProgress::from_parts(2, 1, 0));
    assert_eq!(s.tracks_slice().len(), 2);
    assert!(s.tracks_slice().contains(&t1));
    assert!(s.tracks_slice().contains(&t2));
    assert_eq!(s.track_progress_ref().total(), 2);
    assert_eq!(s.track_progress_ref().indexed(), 1);
    assert_eq!(s.track_progress_ref().failed(), 0);
}

#[test]
fn subtitle_facet_setters_mutate_in_place() {
    let mut s = Subtitle::try_new(Uuid7::new(), Uuid7::new()).unwrap();
    s.set_tracks(vec![Uuid7::new()]);
    s.set_track_progress(IndexProgress::from_parts(1, 0, 1));
    assert_eq!(s.tracks_slice().len(), 1);
    assert_eq!(s.track_progress_ref().failed(), 1);
}

#[test]
fn index_progress_builders_and_setters() {
    let p = IndexProgress::new().with_total(5).with_indexed(3).with_failed(1);
    assert_eq!(p.total(), 5);
    assert_eq!(p.indexed(), 3);
    assert_eq!(p.failed(), 1);

    let mut p = p;
    p.set_total(10);
    p.set_indexed(7);
    p.set_failed(2);
    assert_eq!(p.total(), 10);
    assert_eq!(p.indexed(), 7);
    assert_eq!(p.failed(), 2);
}

// ---- Data ----------------------------------------------------------------

#[test]
fn data_facet_try_new_happy_path() {
    let id = Uuid7::new();
    let media_id = Uuid7::new();
    let d = Data::try_new(id, media_id).expect("valid construction must succeed");
    assert_eq!(d.id_ref(), &id);
    assert_eq!(d.media_id_ref(), &media_id);
    assert!(d.tracks_slice().is_empty());
    assert_eq!(d.track_progress_ref(), &IndexProgress::new());
}

#[test]
fn data_facet_try_new_rejects_nil_id() {
    let r = Data::try_new(Uuid7::nil(), Uuid7::new());
    assert_eq!(r.err(), Some(DataError::NilId));
    assert!(DataError::NilId.is_nil_id());
}

#[test]
fn data_facet_try_new_rejects_nil_media_id() {
    let r = Data::try_new(Uuid7::new(), Uuid7::nil());
    assert_eq!(r.err(), Some(DataError::NilMediaId));
    assert!(DataError::NilMediaId.is_nil_media_id());
}

#[test]
fn data_facet_builders_chain_tracks_and_rollup() {
    let t1 = Uuid7::new();
    let p = IndexProgress::try_new(1, 1, 0).unwrap();
    let d = Data::try_new(Uuid7::new(), Uuid7::new())
        .unwrap()
        .with_tracks(vec![t1])
        .with_track_progress(p);
    assert_eq!(d.tracks_slice(), &[t1]);
    assert_eq!(d.track_progress_ref(), &p);
}

#[test]
fn facet_into_parts_and_rehydrate_round_trip() {
    let d = Data::try_new(Uuid7::new(), Uuid7::new()).unwrap().with_tracks(vec![Uuid7::new()]);
    let parts = d.clone().into_parts();
    let d2 = Data::rehydrate(parts);
    assert_eq!(d, d2);
}

// ---- Attachment ----------------------------------------------------------

#[test]
fn attachment_facet_try_new_happy_path() {
    let id = Uuid7::new();
    let media_id = Uuid7::new();
    let a = Attachment::try_new(id, media_id).expect("valid construction must succeed");
    assert_eq!(a.id_ref(), &id);
    assert_eq!(a.media_id_ref(), &media_id);
    assert!(a.tracks_slice().is_empty());
    assert_eq!(a.track_progress_ref(), &IndexProgress::new());
}

#[test]
fn attachment_facet_try_new_rejects_nil_id() {
    let r = Attachment::try_new(Uuid7::nil(), Uuid7::new());
    assert_eq!(r.err(), Some(AttachmentError::NilId));
    assert!(AttachmentError::NilId.is_nil_id());
}

#[test]
fn attachment_facet_try_new_rejects_nil_media_id() {
    let r = Attachment::try_new(Uuid7::new(), Uuid7::nil());
    assert_eq!(r.err(), Some(AttachmentError::NilMediaId));
    assert!(AttachmentError::NilMediaId.is_nil_media_id());
}

#[test]
fn attachment_facet_into_parts_and_rehydrate_round_trip() {
    let a = Attachment::try_new(Uuid7::new(), Uuid7::new())
        .unwrap()
        .with_tracks(vec![Uuid7::new()])
        .with_track_progress(IndexProgress::try_new(1, 1, 0).unwrap());
    let parts = a.clone().into_parts();
    let a2 = Attachment::rehydrate(parts);
    assert_eq!(a, a2);
}

#[test]
fn facet_error_messages() {
    assert_eq!(VideoError::NilId.message(), "Video facet id must not be the nil UUID");
    assert_eq!(VideoError::NilMediaId.message(), "Video `media_id` (FK → Media) must not be the nil UUID");
    assert!(!AudioError::NilId.message().is_empty());
}
