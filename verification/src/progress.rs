//! [`IndexProgress`] — the `{ total, indexed, failed }` roll-up that every
//! media facet keeps over its tracks.
use vstd::prelude::*;


verus! {

/// Error returned by [`IndexProgress::try_new`] when the counters are
/// inconsistent.
#[derive(Debug, Clone, Copy, PartialEq, Eq, Hash, Structural)]
#[non_exhaustive]
pub enum IndexProgressError {
    /// `indexed + failed` exceeds `total`.
    SumExceedsTotal,
    /// `indexed + failed` does not fit in a `u32`.
    SumOverflows,
}

impl IndexProgressError {
    /// True iff this is `IndexProgressError::SumExceedsTotal`.
    pub fn is_sum_exceeds_total(&self) -> (r: bool)
        ensures
            r == (*self is SumExceedsTotal),
    {
        match self {
            IndexProgressError::SumExceedsTotal => true,
            _ => false,
        }
    }

    /// True iff this is `IndexProgressError::SumOverflows`.
    pub fn is_sum_overflows(&self) -> (r: bool)
        ensures
            r == (*self is SumOverflows),
    {
        match self {
            IndexProgressError::SumOverflows => true,
            _ => false,
        }
    }
}

/// Indexing roll-up of a facet's tracks: how many tracks exist, how many
/// have been fully indexed and how many failed.
#[derive(Debug, Clone, Copy, PartialEq, Eq, Hash, Structural)]
pub struct IndexProgress {
    /// Number of tracks.
    total: u32,
    /// Tracks that reached `Done`.
    indexed: u32,
    /// Tracks that reached `Failed`.
    failed: u32,
}

impl IndexProgress {
    /// Stored `total`.
    pub closed spec fn spec_total(self) -> u32 {
        self.total
    }

    /// Stored `indexed`.
    pub closed spec fn spec_indexed(self) -> u32 {
        self.indexed
    }

    /// Stored `failed`.
    pub closed spec fn spec_failed(self) -> u32 {
        self.failed
    }

}

impl IndexProgress {
    /// All three counters are zero.
    pub open spec fn is_zero(self) -> bool {
        self.spec_total() == 0 && self.spec_indexed() == 0 && self.spec_failed() == 0
    }

    /// All counters at zero.
    pub fn new() -> (r: Self)
        ensures
            r.spec_total() == 0,
            r.spec_indexed() == 0,
            r.spec_failed() == 0,
    {
        IndexProgress { total: 0, indexed: 0, failed: 0 }
    }

    /// Validating constructor: the settled tracks (`indexed + failed`) must
    /// fit in a `u32` and must not exceed `total`.
    pub fn try_new(total: u32, indexed: u32, failed: u32) -> (r: Result<Self, IndexProgressError>)
        ensures
            indexed + failed > u32::MAX <==> r == Err::<Self, IndexProgressError>(
                IndexProgressError::SumOverflows,
            ),
            indexed + failed <= u32::MAX && indexed + failed > total <==> r == Err::<Self, IndexProgressError>(
                IndexProgressError::SumExceedsTotal,
            ),
            r matches Ok(p) ==> p.spec_total() == total && p.spec_indexed() == indexed && p.spec_failed()
                == failed,
    {
        match indexed.checked_add(failed) {
            None => Err(IndexProgressError::SumOverflows),
            Some(settled) => {
                if settled > total {
                    Err(IndexProgressError::SumExceedsTotal)
                } else {
                    Ok(IndexProgress { total, indexed, failed })
                }
            },
        }
    }

    /// True iff at least one track failed.
    pub fn has_failures(&self) -> (r: bool)
        ensures
            r == (self.spec_failed() > 0),
    {
        self.failed > 0
    }

    /// Build from the three counters.
    pub fn from_parts(total: u32, indexed: u32, failed: u32) -> (r: Self)
        ensures
            r.spec_total() == total,
            r.spec_indexed() == indexed,
            r.spec_failed() == failed,
    {
        IndexProgress { total, indexed, failed }
    }

    /// Number of tracks.
    pub fn total(&self) -> (r: u32)
        ensures
            r == self.spec_total(),
    {
        self.total
    }

    /// Tracks that reached `Done`.
    pub fn indexed(&self) -> (r: u32)
        ensures
            r == self.spec_indexed(),
    {
        self.indexed
    }

    /// Tracks that reached `Failed`.
    pub fn failed(&self) -> (r: u32)
        ensures
            r == self.spec_failed(),
    {
        self.failed
    }

    /// Builder: replace `total`.
    pub fn with_total(self, v: u32) -> (r: Self)
        ensures
            r.spec_total() == v,
            r.spec_indexed() == self.spec_indexed(),
            r.spec_failed() == self.spec_failed(),
    {
        let mut s = self;
        s.total = v;
        s
    }

    /// Builder: replace `indexed`.
    pub fn with_indexed(self, v: u32) -> (r: Self)
        ensures
            r.spec_indexed() == v,
            r.spec_total() == self.spec_total(),
            r.spec_failed() == self.spec_failed(),
    {
        let mut s = self;
        s.indexed = v;
        s
    }

    /// Builder: replace `failed`.
    pub fn with_failed(self, v: u32) -> (r: Self)
        ensures
            r.spec_failed() == v,
            r.spec_total() == self.spec_total(),
            r.spec_indexed() == self.spec_indexed(),
    {
        let mut s = self;
        s.failed = v;
        s
    }

    /// In-place mutator for `total`.
    pub fn set_total(&mut self, v: u32) -> (r: &mut Self)
        ensures
            *final(self) == *final(r),
            r.spec_total() == v,
            r.spec_indexed() == old(self).spec_indexed(),
            r.spec_failed() == old(self).spec_failed(),
    {
        self.total = v;
        self
    }

    /// In-place mutator for `indexed`.
    pub fn set_indexed(&mut self, v: u32) -> (r: &mut Self)
        ensures
            *final(self) == *final(r),
            r.spec_indexed() == v,
            r.spec_total() == old(self).spec_total(),
            r.spec_failed() == old(self).spec_failed(),
    {
        self.indexed = v;
        self
    }

    /// In-place mutator for `failed`.
    pub fn set_failed(&mut self, v: u32) -> (r: &mut Self)
        ensures
            *final(self) == *final(r),
            r.spec_failed() == v,
            r.spec_total() == old(self).spec_total(),
            r.spec_indexed() == old(self).spec_indexed(),
    {
        self.failed = v;
        self
    }
}

impl Default for IndexProgress {
    /// All counters at zero.
    fn default() -> (r: Self)
        ensures
            r.spec_total() == 0,
            r.spec_indexed() == 0,
            r.spec_failed() == 0,
    {
        IndexProgress::new()
    }
}

} // verus!
