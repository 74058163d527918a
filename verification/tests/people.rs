use jiff::Timestamp;
use mediaschema::curation::{NilIdError, SceneAnnotation, SceneAnnotationError, UserTag};
use mediaschema::errors::{ErrorCode, ErrorInfo};
use mediaschema::primitives::{Rgba, Uuid7};
use mediaschema::speaker::{Speaker, SpeakerError};
use mediaschema::time::{MediaTimestamp, Timebase};
use mediaschema::watched_location::{WatchedLocation, WatchedLocationError};

// ---- Curation ------------------------------------------------------------

#[test]
fn user_tag_try_new_happy_path() {
    let t = UserTag::try_new(Uuid7::new(), "Vacation", Timestamp::default()).unwrap();
    assert_eq!(t.name(), "Vacation");
    assert!(t.color().is_none());
}

#[test]
fn user_tag_try_new_rejects_nil_id() {
    let err = UserTag::try_new(Uuid7::nil(), "x", Timestamp::default()).unwrap_err();
    assert_eq!(err, NilIdError::Nil);
    assert!(err.is_nil());
}

#[test]
fn user_tag_colour_via_builder_and_setter() {
    let t = UserTag::try_new(Uuid7::new(), "Vacation", Timestamp::default())
        .unwrap()
        .with_color(Some(Rgba::new(0xff, 0x88, 0x00, 0xff)));
    let c = t.color().expect("colour");
    assert_eq!(c.r(), 0xff);
    assert_eq!(c.g(), 0x88);
    let mut t = t;
    t.set_color(None);
    assert!(t.color().is_none());
}

#[test]
fn scene_annotation_try_new_is_pristine() {
    let a = SceneAnnotation::try_new(Uuid7::new(), Uuid7::new(), Timestamp::default()).unwrap();
    assert!(!a.is_favorite());
    assert!(a.user_tags_slice().is_empty());
    assert!(a.rating().is_none());
    assert!(a.note().is_empty());
}

#[test]
fn scene_annotation_try_new_rejects_nil_id_or_scene_id() {
    assert_eq!(
        SceneAnnotation::try_new(Uuid7::nil(), Uuid7::new(), Timestamp::default()).err(),
        Some(SceneAnnotationError::NilId)
    );
    assert_eq!(
        SceneAnnotation::try_new(Uuid7::new(), Uuid7::nil(), Timestamp::default()).err(),
        Some(SceneAnnotationError::NilSceneId)
    );
    assert!(SceneAnnotationError::NilId.is_nil_id());
    assert!(SceneAnnotationError::NilSceneId.is_nil_scene_id());
}

#[test]
fn scene_annotation_tags_are_id_refs_not_strings() {
    let scene_id = Uuid7::new();
    let t1 = Uuid7::new();
    let t2 = Uuid7::new();
    let a = SceneAnnotation::try_new(Uuid7::new(), scene_id, Timestamp::default())
        .unwrap()
        .with_favorite(true)
        .with_user_tags(vec![t1, t2])
        .with_rating(Some(4))
        .with_note("great driving scene");
    assert_eq!(a.scene_id_ref(), &scene_id);
    assert!(a.is_favorite());
    assert_eq!(a.rating(), Some(4));
    assert_eq!(a.user_tags_slice().len(), 2);
    assert!(a.user_tags_slice().contains(&t1));
    assert!(a.user_tags_slice().contains(&t2));
    assert_eq!(a.note(), "great driving scene");
}

// ---- WatchedLocation -----------------------------------------------------

#[test]
fn watched_location_try_new_happy_path() {
    let id = Uuid7::new();
    let vol = Uuid7::new();
    let w = WatchedLocation::try_new(id, vol, Timestamp::default()).expect("valid construction must succeed");
    assert_eq!(w.id(), &id);
    assert_eq!(w.volume(), &vol);
    assert!(!w.is_enabled(), "monitor starts paused");
    assert!(!w.is_recursive());
    assert!(!w.is_ejectable());
}

#[test]
fn watched_location_try_new_rejects_nil_id() {
    let r = WatchedLocation::try_new(Uuid7::nil(), Uuid7::new(), Timestamp::default());
    assert_eq!(r.err(), Some(WatchedLocationError::NilId));
    assert!(WatchedLocationError::NilId.is_nil_id());
}

#[test]
fn try_new_rejects_nil_volume() {
    let r = WatchedLocation::try_new(Uuid7::new(), Uuid7::nil(), Timestamp::default());
    assert_eq!(r.err(), Some(WatchedLocationError::NilVolume));
    assert!(WatchedLocationError::NilVolume.is_nil_volume());
}

#[test]
fn enabling_a_removable_drive_watch() {
    let vol = Uuid7::new();
    let w = WatchedLocation::try_new(Uuid7::new(), vol, Timestamp::default())
        .unwrap()
        .with_recursive(true)
        .with_enabled(true)
        .with_ejectable(true);
    assert!(w.is_ejectable() && w.is_recursive() && w.is_enabled());
}

#[test]
fn non_ejectable_records_volume_unavailable_error() {
    let w = WatchedLocation::try_new(Uuid7::new(), Uuid7::new(), Timestamp::default())
        .unwrap()
        .with_last_error(Some(ErrorInfo::new(ErrorCode::VolumeNotAvailable, "drive offline")));
    assert_eq!(w.last_error().map(|e| e.code()), Some(ErrorCode::VolumeNotAvailable));
}

#[test]
fn watched_location_setters_mutate_in_place() {
    let mut w = WatchedLocation::try_new(Uuid7::new(), Uuid7::new(), Timestamp::default()).unwrap();
    w.set_enabled(true);
    w.set_recursive(true);
    w.set_ejectable(true);
    assert!(w.is_enabled() && w.is_recursive() && w.is_ejectable());
}

// ---- Speaker -------------------------------------------------------------

fn tb() -> Timebase {
    Timebase::new(1, 1000)
}

#[test]
fn speaker_try_new_happy_path() {
    let parent = Uuid7::new();
    let s = Speaker::try_new(Uuid7::new(), parent, 2, "Jane").expect("valid construction must succeed");
    assert_eq!(s.parent_ref(), &parent);
    assert_eq!(s.cluster_id(), 2);
    assert_eq!(s.name(), "Jane");
    assert!(s.speech_duration_ref().is_none());
}

#[test]
fn try_new_anonymous_diarization_uses_empty_name() {
    let s = Speaker::try_new(Uuid7::new(), Uuid7::new(), 0, "").unwrap();
    assert!(s.name().is_empty());
    assert_eq!(s.cluster_id(), 0);
}

#[test]
fn speaker_try_new_rejects_nil_id() {
    let r = Speaker::try_new(Uuid7::nil(), Uuid7::new(), 0, "");
    assert_eq!(r.err(), Some(SpeakerError::NilId));
    assert!(SpeakerError::NilId.is_nil_id());
}

#[test]
fn speaker_try_new_rejects_nil_parent() {
    let r = Speaker::try_new(Uuid7::new(), Uuid7::nil(), 0, "");
    assert_eq!(r.err(), Some(SpeakerError::NilParent));
    assert!(SpeakerError::NilParent.is_nil_parent());
}

#[test]
fn speaker_builders_and_setters_chain() {
    let s = Speaker::try_new(Uuid7::new(), Uuid7::new(), 0, "").unwrap().with_name("Jane").with_cluster_id(3);
    assert_eq!(s.name(), "Jane");
    assert_eq!(s.cluster_id(), 3);
    let mut s = s;
    s.set_name("");
    s.set_cluster_id(0);
    assert!(s.name().is_empty());
    assert_eq!(s.cluster_id(), 0);
}

#[test]
fn try_with_speech_duration_rejects_negative() {
    let s = Speaker::try_new(Uuid7::new(), Uuid7::new(), 0, "Jane").unwrap();
    let neg = MediaTimestamp::new(-1, tb());
    assert_eq!(s.clone().try_with_speech_duration(Some(neg)).err(), Some(SpeakerError::NegativeSpeechDuration));
    assert!(SpeakerError::NegativeSpeechDuration.is_negative_speech_duration());
}

#[test]
fn try_with_speech_duration_accepts_zero_positive_and_none() {
    let s = Speaker::try_new(Uuid7::new(), Uuid7::new(), 0, "Jane").unwrap();
    let z = s
        .clone()
        .try_with_speech_duration(Some(MediaTimestamp::new(0, tb())))
        .expect("zero duration accepted");
    assert_eq!(z.speech_duration_ref().unwrap().pts(), 0);
    let p = s
        .clone()
        .try_with_speech_duration(Some(MediaTimestamp::new(5000, tb())))
        .expect("positive duration accepted");
    assert_eq!(p.speech_duration_ref().unwrap().pts(), 5000);
    let n = s.try_with_speech_duration(None).expect("None accepted");
    assert!(n.speech_duration_ref().is_none());
}

#[test]
fn try_set_speech_duration_rejects_and_leaves_value_unchanged() {
    let mut s = Speaker::try_new(Uuid7::new(), Uuid7::new(), 0, "Jane").unwrap();
    s.try_set_speech_duration(Some(MediaTimestamp::new(3000, tb()))).unwrap();
    assert_eq!(
        s.try_set_speech_duration(Some(MediaTimestamp::new(-10, tb()))).err(),
        Some(SpeakerError::NegativeSpeechDuration)
    );
    assert_eq!(s.speech_duration_ref().unwrap().pts(), 3000);
    s.try_set_speech_duration(Some(MediaTimestamp::new(0, tb()))).unwrap();
    assert_eq!(s.speech_duration_ref().unwrap().pts(), 0);
}
