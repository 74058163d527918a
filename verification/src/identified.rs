//! [`Identified<Id, D>`] — a payload paired with a stable identifier.
//!
//! A transport-level envelope: an engine assigns an `Id`, wraps the value as
//! `Identified<Id, D>` and hands it to the storage layer, which splits it back
//! with [`Identified::into_components`]. There are no intrinsic invariants, so
//! construction is infallible.
use vstd::prelude::*;

verus! {

/// A payload paired with a stable identifier.
#[derive(Debug, Clone, Copy, PartialEq, Eq, Hash)]
pub struct Identified<Id, D> {
    id: Id,
    data: D,
}

impl<Id, D> Identified<Id, D> {
    /// The identifier held by this envelope.
    pub closed spec fn spec_id(&self) -> Id {
        self.id
    }

    /// The payload held by this envelope.
    pub closed spec fn spec_data(&self) -> D {
        self.data
    }

    /// Pair `id` with `data`.
    pub fn new(id: Id, data: D) -> (r: Self)
        ensures
            r.spec_id() == id,
            r.spec_data() == data,
    {
        Identified { id, data }
    }

    /// Borrow the identifier.
    pub fn id_ref(&self) -> (r: &Id)
        ensures
            *r == self.spec_id(),
    {
        &self.id
    }

    /// Borrow the payload.
    pub fn data_ref(&self) -> (r: &D)
        ensures
            *r == self.spec_data(),
    {
        &self.data
    }

    /// Decompose into the `(id, data)` pair.
    pub fn into_components(self) -> (r: (Id, D))
        ensures
            r.0 == self.spec_id(),
            r.1 == self.spec_data(),
    {
        (self.id, self.data)
    }
}

/// An envelope is nothing but its two parts: two envelopes are the same
/// value exactly when their identifiers and their payloads are.
pub proof fn lemma_envelope_is_its_parts<Id, D>(a: Identified<Id, D>, b: Identified<Id, D>)
    ensures
        a == b <==> (a.spec_id() == b.spec_id() && a.spec_data() == b.spec_data()),
{
}

} // verus!
