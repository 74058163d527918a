use mediaschema::person::{Person, PersonConfidence, PersonError};
use mediaschema::primitives::Uuid7;

/// A stand-in voice fingerprint payload.
#[derive(Debug, Clone, PartialEq)]
struct Print {
    dim: u32,
    model: String,
}

fn vfp() -> Print {
    Print { dim: 192, model: String::from("ecapa-tdnn") }
}

fn ts() -> jiff::Timestamp {
    jiff::Timestamp::from_millisecond(1_700_000_000_000).expect("valid timestamp")
}

#[test]
fn person_confidence_slug_roundtrip() {
    for v in [PersonConfidence::AutoMatched, PersonConfidence::UserConfirmed] {
        assert_eq!(PersonConfidence::from_str(v.as_str()), Some(v), "{v:?}");
    }
    assert_eq!(PersonConfidence::from_str("not_a_slug"), None);
}

#[test]
fn person_try_new_happy_path() {
    let id = Uuid7::new();
    let p: Person = Person::try_new(id, "", ts(), ts()).expect("valid construction must succeed");
    assert_eq!(p.id_ref(), &id);
    assert!(p.name().is_empty());
    assert!(p.voiceprint_ref().is_none());
    assert_eq!(p.confidence(), PersonConfidence::AutoMatched);
    assert_eq!(p.created_at(), ts());
    assert_eq!(p.updated_at(), ts());
}

#[test]
fn try_new_accepts_named_person() {
    let p: Person = Person::try_new(Uuid7::new(), "Jane Doe", ts(), ts()).unwrap();
    assert_eq!(p.name(), "Jane Doe");
}

#[test]
fn person_try_new_rejects_nil_id() {
    let r: Result<Person, PersonError> = Person::try_new(Uuid7::nil(), "", ts(), ts());
    assert_eq!(r.err(), Some(PersonError::NilId));
    assert!(PersonError::NilId.is_nil_id());
}

#[test]
fn person_confidence_default_is_auto_matched() {
    assert_eq!(PersonConfidence::default(), PersonConfidence::AutoMatched);
    assert!(PersonConfidence::AutoMatched.is_auto_matched());
    assert!(PersonConfidence::UserConfirmed.is_user_confirmed());
}

#[test]
fn person_from_parts_round_trips_a_validated_instance() {
    let v = vfp();
    let original = Person::try_new(Uuid7::new(), "Jane", ts(), ts())
        .unwrap()
        .with_voiceprint(v.clone())
        .with_confidence(PersonConfidence::UserConfirmed);
    let rebuilt: Person<Uuid7, Print> = Person::from_parts(
        *original.id_ref(),
        String::from(original.name()),
        original.voiceprint_ref().cloned(),
        original.confidence(),
        original.created_at(),
        original.updated_at(),
    );
    assert_eq!(rebuilt, original);
}

#[test]
fn voiceprint_full_option_mutator_vocabulary() {
    let v = vfp();
    // with_/set_ = present
    let p = Person::try_new(Uuid7::new(), "", ts(), ts()).unwrap().with_voiceprint(v.clone());
    assert!(p.voiceprint_ref().is_some());
    // maybe_ = raw wrapper (consuming)
    let p = p.maybe_voiceprint(None);
    assert!(p.voiceprint_ref().is_none());
    let p = p.maybe_voiceprint(Some(v.clone()));
    assert_eq!(p.voiceprint_ref(), Some(&v));
    // in-place setters
    let mut p = p;
    p.clear_voiceprint();
    assert!(p.voiceprint_ref().is_none());
    p.set_voiceprint(v.clone());
    assert_eq!(p.voiceprint_ref(), Some(&v));
    p.update_voiceprint(None);
    assert!(p.voiceprint_ref().is_none());
    p.update_voiceprint(Some(v.clone()));
    assert_eq!(p.voiceprint_ref(), Some(&v));
    assert_eq!(p.voiceprint_ref().map(|x| x.dim), Some(192));
    assert_eq!(p.voiceprint_ref().map(|x| x.model.as_str()), Some("ecapa-tdnn"));
}

#[test]
fn confidence_builder_and_setter() {
    let p: Person = Person::try_new(Uuid7::new(), "", ts(), ts())
        .unwrap()
        .with_confidence(PersonConfidence::UserConfirmed);
    assert_eq!(p.confidence(), PersonConfidence::UserConfirmed);
    let mut p = p;
    p.set_confidence(PersonConfidence::AutoMatched);
    assert_eq!(p.confidence(), PersonConfidence::AutoMatched);
}

#[test]
fn timestamp_builders_and_setters() {
    let later = jiff::Timestamp::from_millisecond(1_800_000_000_000).expect("valid timestamp");
    let p: Person = Person::try_new(Uuid7::new(), "", ts(), ts())
        .unwrap()
        .with_created_at(later)
        .with_updated_at(later);
    assert_eq!(p.created_at(), later);
    assert_eq!(p.updated_at(), later);
    let mut p = p;
    p.set_created_at(ts());
    p.set_updated_at(ts());
    assert_eq!(p.created_at(), ts());
    assert_eq!(p.updated_at(), ts());
}

#[test]
fn name_builder_and_setter() {
    let p: Person = Person::try_new(Uuid7::new(), "old", ts(), ts()).unwrap().with_name("new");
    assert_eq!(p.name(), "new");
    let mut p = p;
    p.set_name("");
    assert!(p.name().is_empty());
}

#[test]
fn person_confidence_slugs_and_rendering() {
    assert_eq!(PersonConfidence::AutoMatched.as_str(), "auto_matched");
    assert_eq!(PersonConfidence::UserConfirmed.as_str(), "user_confirmed");
    assert_eq!(PersonConfidence::UserConfirmed.to_string(), "user_confirmed");
    assert_eq!(PersonConfidence::from_str("Auto_Matched"), None);
    assert_eq!(PersonError::NilId.message(), "Person id must not be the nil UUID");
}
