//! `Person` — the cross-track identity anchor above the per-track diarized
//! `Speaker`s — and its `PersonConfidence`.
use vstd::prelude::*;

use crate::primitives::{is_nil_bytes, Uuid7};
use crate::text::str_eq;

verus! {

/// Error returned by [`Person::try_new`] when an invariant cannot be upheld.
#[derive(Debug, Clone, Copy, PartialEq, Eq, Hash, Structural)]
#[non_exhaustive]
pub enum PersonError {
    /// `id` was the nil sentinel.
    NilId,
}

/// The message of each [`PersonError`].
pub open spec fn person_error_message(e: PersonError) -> Seq<char> {
    match e {
        PersonError::NilId => "Person id must not be the nil UUID"@,
    }
}

impl PersonError {
    /// True iff this is `PersonError::NilId`.
    pub fn is_nil_id(&self) -> (r: bool)
        ensures
            r == (*self is NilId),
    {
        match self {
            PersonError::NilId => true,
            #[allow(unreachable_patterns)]
            _ => false,
        }
    }

    /// Human-readable description.
    pub fn message(&self) -> (r: String)
        ensures
            r@ == person_error_message(*self),
    {
        match self {
            PersonError::NilId => {
                proof {
                    reveal_strlit("Person id must not be the nil UUID");
                }
                "Person id must not be the nil UUID".to_owned()
            },
        }
    }
}

/// Whether a [`Person`]'s identification is user-confirmed or auto-matched.
#[derive(Debug, Clone, Copy, PartialEq, Eq, Hash, Structural)]
pub enum PersonConfidence {
    /// Auto-clustered by similarity, not yet reviewed.
    AutoMatched,
    /// User confirmed (or manually created / edited).
    UserConfirmed,
}

/// The stable snake_case slug of each [`PersonConfidence`].
pub open spec fn confidence_slug(c: PersonConfidence) -> Seq<char> {
    match c {
        PersonConfidence::AutoMatched => "auto_matched"@,
        PersonConfidence::UserConfirmed => "user_confirmed"@,
    }
}

impl PersonConfidence {
    /// Stable snake_case slug — the canonical string form of every variant.
    pub fn as_str(&self) -> (r: &'static str)
        ensures
            r@ == confidence_slug(*self),
    {
        match self {
            PersonConfidence::AutoMatched => {
                proof {
                    reveal_strlit("auto_matched");
                }
                "auto_matched"
            },
            PersonConfidence::UserConfirmed => {
                proof {
                    reveal_strlit("user_confirmed");
                }
                "user_confirmed"
            },
        }
    }

    /// Inverse of [`PersonConfidence::as_str`]: `None` for any input that
    /// is not exactly one of the slugs.
    pub fn from_str(s: &str) -> (r: Option<Self>)
        ensures
            r matches Some(c) ==> confidence_slug(c) == s@,
            r is None ==> forall|c: PersonConfidence| confidence_slug(c) != s@,
    {
        if str_eq(s, "auto_matched") {
            Some(PersonConfidence::AutoMatched)
        } else if str_eq(s, "user_confirmed") {
            Some(PersonConfidence::UserConfirmed)
        } else {
            proof {
                assert forall|c: PersonConfidence| confidence_slug(c) != s@ by {
                    match c {
                        PersonConfidence::AutoMatched => {},
                        PersonConfidence::UserConfirmed => {},
                    }
                }
            }
            None
        }
    }

    /// True iff this is `AutoMatched`.
    pub fn is_auto_matched(&self) -> (r: bool)
        ensures
            r == (*self is AutoMatched),
    {
        match self {
            PersonConfidence::AutoMatched => true,
            _ => false,
        }
    }

    /// True iff this is `UserConfirmed`.
    pub fn is_user_confirmed(&self) -> (r: bool)
        ensures
            r == (*self is UserConfirmed),
    {
        match self {
            PersonConfidence::UserConfirmed => true,
            _ => false,
        }
    }

    /// The slug as an owned string (the `Display` form).
    pub fn to_string(&self) -> (r: String)
        ensures
            r@ == confidence_slug(*self),
    {
        self.as_str().to_owned()
    }
}

impl Default for PersonConfidence {
    /// `AutoMatched` — a freshly clustered identity has not been reviewed.
    fn default() -> (r: Self)
        ensures
            r == PersonConfidence::AutoMatched,
    {
        PersonConfidence::AutoMatched
    }
}

/// Slugs round-trip: `from_str(as_str(c)) == Some(c)`, and the two slugs
/// are distinct.
pub proof fn lemma_confidence_slug_injective(a: PersonConfidence, b: PersonConfidence)
    ensures
        confidence_slug(a) == confidence_slug(b) ==> a == b,
{
    reveal_strlit("auto_matched");
    reveal_strlit("user_confirmed");
    if confidence_slug(a) == confidence_slug(b) && a != b {
        assert(confidence_slug(PersonConfidence::AutoMatched).len() != confidence_slug(
            PersonConfidence::UserConfirmed,
        ).len());
    }
}

/// Cross-track / cross-modality identity anchor: one `Person` links the
/// per-track `Speaker`s of the same human.
///
/// `Vp` is the aggregated voiceprint payload (the voice fingerprint that
/// the voice pipeline computes as the centroid of the linked speakers'
/// voiceprints); the person only stores it and hands it back.
#[derive(Debug, Clone, PartialEq)]
pub struct Person<Id = Uuid7, Vp = ()> {
    id: Id,
    /// Human name (`""` = unnamed).
    name: String,
    /// Aggregated canonical voiceprint (`None` until aggregation runs).
    voiceprint: Option<Vp>,
    /// User-confirmed vs auto-matched.
    confidence: PersonConfidence,
    /// Record creation time.
    created_at: jiff::Timestamp,
    /// Record last-updated time.
    updated_at: jiff::Timestamp,
}

impl<Id, Vp> Person<Id, Vp> {
    /// Stored `id`.
    pub closed spec fn spec_id(self) -> Id {
        self.id
    }

    /// Stored `name`.
    pub closed spec fn spec_name(self) -> Seq<char> {
        self.name@
    }

    /// Stored `voiceprint`.
    pub closed spec fn spec_voiceprint(self) -> Option<Vp> {
        self.voiceprint
    }

    /// Stored `confidence`.
    pub closed spec fn spec_confidence(self) -> PersonConfidence {
        self.confidence
    }

    /// Stored `created_at`.
    pub closed spec fn spec_created_at(self) -> jiff::Timestamp {
        self.created_at
    }

    /// Stored `updated_at`.
    pub closed spec fn spec_updated_at(self) -> jiff::Timestamp {
        self.updated_at
    }

}

impl<Vp> Person<Uuid7, Vp> {
    /// Validating constructor: rejects a nil `id`; the person starts
    /// `AutoMatched`, with no voiceprint.
    pub fn try_new(id: Uuid7, name: &str, created_at: jiff::Timestamp, updated_at: jiff::Timestamp) -> (r: Result<Self, PersonError>)
        ensures
            (is_nil_bytes(id@)) <==> r == Err::<Self, PersonError>(PersonError::NilId),
            r is Ok <==> (!is_nil_bytes(id@)),
            r matches Ok(x) ==> x.spec_id() == id,
            r matches Ok(x) ==> x.spec_name() == name@,
            r matches Ok(x) ==> x.spec_voiceprint() == None::<Vp>,
            r matches Ok(x) ==> x.spec_confidence() == PersonConfidence::AutoMatched,
            r matches Ok(x) ==> x.spec_created_at() == created_at,
            r matches Ok(x) ==> x.spec_updated_at() == updated_at,
    {
        if id.is_nil() {
            return Err(PersonError::NilId);
        }
        Ok(Person {
            id: id,
            name: name.to_owned(),
            voiceprint: None,
            confidence: PersonConfidence::AutoMatched,
            created_at: created_at,
            updated_at: updated_at,
        })
    }
}

impl<Id, Vp> Person<Id, Vp> {
    /// Raw constructor for rebuilding a persisted row; no validation.
    pub fn from_parts(
        id: Id,
        name: String,
        voiceprint: Option<Vp>,
        confidence: PersonConfidence,
        created_at: jiff::Timestamp,
        updated_at: jiff::Timestamp,
    ) -> (r: Self)
        ensures
            r.spec_id() == id,
            r.spec_name() == name@,
            r.spec_voiceprint() == voiceprint,
            r.spec_confidence() == confidence,
            r.spec_created_at() == created_at,
            r.spec_updated_at() == updated_at,
    {
        Person { id, name, voiceprint, confidence, created_at, updated_at }
    }

    /// Canonical identity.
    pub fn id_ref(&self) -> (r: &Id)
        ensures
            *r == self.spec_id(),
    {
        &self.id
    }

    /// Human name (`""` = unnamed).
    pub fn name(&self) -> (r: &str)
        ensures
            r@ == self.spec_name(),
    {
        self.name.as_str()
    }

    /// User-confirmed vs auto-matched identification.
    pub fn confidence(&self) -> (r: PersonConfidence)
        ensures
            r == self.spec_confidence(),
    {
        self.confidence
    }

    /// Record creation timestamp.
    pub fn created_at(&self) -> (r: jiff::Timestamp)
        ensures
            r == self.spec_created_at(),
    {
        self.created_at
    }

    /// Record last-updated timestamp.
    pub fn updated_at(&self) -> (r: jiff::Timestamp)
        ensures
            r == self.spec_updated_at(),
    {
        self.updated_at
    }

    /// Aggregated canonical voiceprint (`None` until aggregation runs).
    pub fn voiceprint_ref(&self) -> (r: Option<&Vp>)
        ensures
            r is None <==> self.spec_voiceprint() is None,
            r matches Some(v) ==> self.spec_voiceprint() == Some(*v),
    {
        match &self.voiceprint {
            Some(v) => Some(v),
            None => None,
        }
    }

    /// Builder: make the voiceprint present.
    pub fn with_voiceprint(self, voiceprint: Vp) -> (r: Self)
        ensures
            r.spec_voiceprint() == Some(voiceprint),
            r.spec_id() == self.spec_id(),
            r.spec_name() == self.spec_name(),
            r.spec_confidence() == self.spec_confidence(),
            r.spec_created_at() == self.spec_created_at(),
            r.spec_updated_at() == self.spec_updated_at(),
    {
        let mut s = self;
        s.voiceprint = Some(voiceprint);
        s
    }

    /// Builder: assign the voiceprint as given, present or absent.
    pub fn maybe_voiceprint(self, voiceprint: Option<Vp>) -> (r: Self)
        ensures
            r.spec_voiceprint() == voiceprint,
            r.spec_id() == self.spec_id(),
            r.spec_name() == self.spec_name(),
            r.spec_confidence() == self.spec_confidence(),
            r.spec_created_at() == self.spec_created_at(),
            r.spec_updated_at() == self.spec_updated_at(),
    {
        let mut s = self;
        s.voiceprint = voiceprint;
        s
    }

    /// In-place mutator: make the voiceprint present.
    pub fn set_voiceprint(&mut self, voiceprint: Vp) -> (r: &mut Self)
        ensures
            *final(self) == *final(r),
            r.spec_voiceprint() == Some(voiceprint),
            r.spec_id() == old(self).spec_id(),
            r.spec_name() == old(self).spec_name(),
            r.spec_confidence() == old(self).spec_confidence(),
            r.spec_created_at() == old(self).spec_created_at(),
            r.spec_updated_at() == old(self).spec_updated_at(),
    {
        self.voiceprint = Some(voiceprint);
        self
    }

    /// In-place mutator: assign the voiceprint as given, present or absent.
    pub fn update_voiceprint(&mut self, voiceprint: Option<Vp>) -> (r: &mut Self)
        ensures
            *final(self) == *final(r),
            r.spec_voiceprint() == voiceprint,
            r.spec_id() == old(self).spec_id(),
            r.spec_name() == old(self).spec_name(),
            r.spec_confidence() == old(self).spec_confidence(),
            r.spec_created_at() == old(self).spec_created_at(),
            r.spec_updated_at() == old(self).spec_updated_at(),
    {
        self.voiceprint = voiceprint;
        self
    }

    /// In-place mutator: clear the voiceprint.
    pub fn clear_voiceprint(&mut self) -> (r: &mut Self)
        ensures
            *final(self) == *final(r),
            r.spec_voiceprint() == None::<Vp>,
            r.spec_id() == old(self).spec_id(),
            r.spec_name() == old(self).spec_name(),
            r.spec_confidence() == old(self).spec_confidence(),
            r.spec_created_at() == old(self).spec_created_at(),
            r.spec_updated_at() == old(self).spec_updated_at(),
    {
        self.voiceprint = None;
        self
    }

    /// Builder: replace `name`.
    pub fn with_name(self, v: &str) -> (r: Self)
        ensures
            r.spec_name() == v@,
            r.spec_id() == self.spec_id(),
            r.spec_voiceprint() == self.spec_voiceprint(),
            r.spec_confidence() == self.spec_confidence(),
            r.spec_created_at() == self.spec_created_at(),
            r.spec_updated_at() == self.spec_updated_at(),
    {
        let mut s = self;
        s.name = v.to_owned();
        s
    }

    /// Builder: replace `confidence`.
    pub fn with_confidence(self, v: PersonConfidence) -> (r: Self)
        ensures
            r.spec_confidence() == v,
            r.spec_id() == self.spec_id(),
            r.spec_voiceprint() == self.spec_voiceprint(),
            r.spec_name() == self.spec_name(),
            r.spec_created_at() == self.spec_created_at(),
            r.spec_updated_at() == self.spec_updated_at(),
    {
        let mut s = self;
        s.confidence = v;
        s
    }

    /// Builder: replace `created_at`.
    pub fn with_created_at(self, v: jiff::Timestamp) -> (r: Self)
        ensures
            r.spec_created_at() == v,
            r.spec_id() == self.spec_id(),
            r.spec_voiceprint() == self.spec_voiceprint(),
            r.spec_name() == self.spec_name(),
            r.spec_confidence() == self.spec_confidence(),
            r.spec_updated_at() == self.spec_updated_at(),
    {
        let mut s = self;
        s.created_at = v;
        s
    }

    /// Builder: replace `updated_at`.
    pub fn with_updated_at(self, v: jiff::Timestamp) -> (r: Self)
        ensures
            r.spec_updated_at() == v,
            r.spec_id() == self.spec_id(),
            r.spec_voiceprint() == self.spec_voiceprint(),
            r.spec_name() == self.spec_name(),
            r.spec_confidence() == self.spec_confidence(),
            r.spec_created_at() == self.spec_created_at(),
    {
        let mut s = self;
        s.updated_at = v;
        s
    }

    /// In-place mutator for `name`.
    pub fn set_name(&mut self, v: &str) -> (r: &mut Self)
        ensures
            *final(self) == *final(r),
            r.spec_name() == v@,
            r.spec_id() == old(self).spec_id(),
            r.spec_voiceprint() == old(self).spec_voiceprint(),
            r.spec_confidence() == old(self).spec_confidence(),
            r.spec_created_at() == old(self).spec_created_at(),
            r.spec_updated_at() == old(self).spec_updated_at(),
    {
        self.name = v.to_owned();
        self
    }

    /// In-place mutator for `confidence`.
    pub fn set_confidence(&mut self, v: PersonConfidence) -> (r: &mut Self)
        ensures
            *final(self) == *final(r),
            r.spec_confidence() == v,
            r.spec_id() == old(self).spec_id(),
            r.spec_voiceprint() == old(self).spec_voiceprint(),
            r.spec_name() == old(self).spec_name(),
            r.spec_created_at() == old(self).spec_created_at(),
            r.spec_updated_at() == old(self).spec_updated_at(),
    {
        self.confidence = v;
        self
    }

    /// In-place mutator for `created_at`.
    pub fn set_created_at(&mut self, v: jiff::Timestamp) -> (r: &mut Self)
        ensures
            *final(self) == *final(r),
            r.spec_created_at() == v,
            r.spec_id() == old(self).spec_id(),
            r.spec_voiceprint() == old(self).spec_voiceprint(),
            r.spec_name() == old(self).spec_name(),
            r.spec_confidence() == old(self).spec_confidence(),
            r.spec_updated_at() == old(self).spec_updated_at(),
    {
        self.created_at = v;
        self
    }

    /// In-place mutator for `updated_at`.
    pub fn set_updated_at(&mut self, v: jiff::Timestamp) -> (r: &mut Self)
        ensures
            *final(self) == *final(r),
            r.spec_updated_at() == v,
            r.spec_id() == old(self).spec_id(),
            r.spec_voiceprint() == old(self).spec_voiceprint(),
            r.spec_name() == old(self).spec_name(),
            r.spec_confidence() == old(self).spec_confidence(),
            r.spec_created_at() == old(self).spec_created_at(),
    {
        self.updated_at = v;
        self
    }
}

} // verus!
