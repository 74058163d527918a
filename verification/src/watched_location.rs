//! `WatchedLocation` — a monitored volume root and its reconcile state.
use vstd::prelude::*;

use crate::enums::ScanStatus;
use crate::errors::ErrorInfo;
use crate::primitives::{is_nil_bytes, Uuid7};

verus! {

/// Error returned by [`WatchedLocation::try_new`].
#[derive(Debug, Clone, Copy, PartialEq, Eq, Hash, Structural)]
#[non_exhaustive]
pub enum WatchedLocationError {
    /// `id` was the nil sentinel.
    NilId,
    /// `volume` was the nil sentinel.
    NilVolume,
}

/// The message of each [`WatchedLocationError`].
pub open spec fn watched_location_error_message(e: WatchedLocationError) -> Seq<char> {
    match e {
        WatchedLocationError::NilId => "WatchedLocation id must not be the nil UUID"@,
        WatchedLocationError::NilVolume => "WatchedLocation volume must not be the nil UUID"@,
    }
}

impl WatchedLocationError {
    /// True iff this is `WatchedLocationError::NilId`.
    pub fn is_nil_id(&self) -> (r: bool)
        ensures
            r == (*self is NilId),
    {
        match self {
            WatchedLocationError::NilId => true,
            #[allow(unreachable_patterns)]
            _ => false,
        }
    }

    /// True iff this is `WatchedLocationError::NilVolume`.
    pub fn is_nil_volume(&self) -> (r: bool)
        ensures
            r == (*self is NilVolume),
    {
        match self {
            WatchedLocationError::NilVolume => true,
            #[allow(unreachable_patterns)]
            _ => false,
        }
    }

    /// Human-readable description.
    pub fn message(&self) -> (r: String)
        ensures
            r@ == watched_location_error_message(*self),
    {
        match self {
            WatchedLocationError::NilId => {
                proof {
                    reveal_strlit("WatchedLocation id must not be the nil UUID");
                }
                "WatchedLocation id must not be the nil UUID".to_owned()
            },
            WatchedLocationError::NilVolume => {
                proof {
                    reveal_strlit("WatchedLocation volume must not be the nil UUID");
                }
                "WatchedLocation volume must not be the nil UUID".to_owned()
            },
        }
    }
}

/// A watched volume root monitored for file-system events, with the state of
/// its last reconcile sweep.
#[derive(Debug, Clone, PartialEq)]
pub struct WatchedLocation<Id = Uuid7> {
    id: Id,
    /// Stable identity of the watched volume.
    volume: Id,
    /// Watch sub-directories too.
    recursive: bool,
    /// Watching is switched on.
    enabled: bool,
    /// The volume is removable.
    is_ejectable: bool,
    /// When the watch was added.
    added_at: jiff::Timestamp,
    /// End of the last reconcile sweep.
    last_reconciled_at: Option<jiff::Timestamp>,
    /// Outcome of the last reconcile sweep.
    last_reconcile_status: Option<ScanStatus>,
    /// Last error seen by the watch.
    last_error: Option<ErrorInfo>,
}

impl<Id> WatchedLocation<Id> {
    /// Stored `id`.
    pub closed spec fn spec_id(self) -> Id {
        self.id
    }

    /// Stored `volume`.
    pub closed spec fn spec_volume(self) -> Id {
        self.volume
    }

    /// Stored `recursive`.
    pub closed spec fn spec_recursive(self) -> bool {
        self.recursive
    }

    /// Stored `enabled`.
    pub closed spec fn spec_enabled(self) -> bool {
        self.enabled
    }

    /// Stored `is_ejectable`.
    pub closed spec fn spec_is_ejectable(self) -> bool {
        self.is_ejectable
    }

    /// Stored `added_at`.
    pub closed spec fn spec_added_at(self) -> jiff::Timestamp {
        self.added_at
    }

    /// Stored `last_reconciled_at`.
    pub closed spec fn spec_last_reconciled_at(self) -> Option<jiff::Timestamp> {
        self.last_reconciled_at
    }

    /// Stored `last_reconcile_status`.
    pub closed spec fn spec_last_reconcile_status(self) -> Option<ScanStatus> {
        self.last_reconcile_status
    }

    /// Stored `last_error`.
    pub closed spec fn spec_last_error(self) -> Option<ErrorInfo> {
        self.last_error
    }

}

impl WatchedLocation<Uuid7> {
    /// Validating constructor: rejects a nil `id` (checked first) and a nil
    /// `volume`; the watch starts disabled, non-recursive, non-ejectable and
    /// never reconciled.
    pub fn try_new(id: Uuid7, volume: Uuid7, added_at: jiff::Timestamp) -> (r: Result<Self, WatchedLocationError>)
        ensures
            (is_nil_bytes(id@)) <==> r == Err::<Self, WatchedLocationError>(WatchedLocationError::NilId),
            (!is_nil_bytes(id@) && is_nil_bytes(volume@)) <==> r == Err::<Self, WatchedLocationError>(WatchedLocationError::NilVolume),
            r is Ok <==> (!is_nil_bytes(id@) && !is_nil_bytes(volume@)),
            r matches Ok(x) ==> x.spec_id() == id,
            r matches Ok(x) ==> x.spec_volume() == volume,
            r matches Ok(x) ==> x.spec_recursive() == false,
            r matches Ok(x) ==> x.spec_enabled() == false,
            r matches Ok(x) ==> x.spec_is_ejectable() == false,
            r matches Ok(x) ==> x.spec_added_at() == added_at,
            r matches Ok(x) ==> x.spec_last_reconciled_at() == None::<jiff::Timestamp>,
            r matches Ok(x) ==> x.spec_last_reconcile_status() == None::<ScanStatus>,
            r matches Ok(x) ==> x.spec_last_error() == None::<ErrorInfo>,
    {
        if id.is_nil() {
            return Err(WatchedLocationError::NilId);
        }
        if volume.is_nil() {
            return Err(WatchedLocationError::NilVolume);
        }
        Ok(WatchedLocation {
            id: id,
            volume: volume,
            recursive: false,
            enabled: false,
            is_ejectable: false,
            added_at: added_at,
            last_reconciled_at: None,
            last_reconcile_status: None,
            last_error: None,
        })
    }
}

impl<Id> WatchedLocation<Id> {
    /// Canonical identity.
    pub fn id(&self) -> (r: &Id)
        ensures
            *r == self.spec_id(),
    {
        &self.id
    }

    /// Stable identity of the watched volume.
    pub fn volume(&self) -> (r: &Id)
        ensures
            *r == self.spec_volume(),
    {
        &self.volume
    }

    /// Watch sub-directories too.
    pub fn is_recursive(&self) -> (r: bool)
        ensures
            r == self.spec_recursive(),
    {
        self.recursive
    }

    /// Watching is switched on.
    pub fn is_enabled(&self) -> (r: bool)
        ensures
            r == self.spec_enabled(),
    {
        self.enabled
    }

    /// The volume is removable.
    pub fn is_ejectable(&self) -> (r: bool)
        ensures
            r == self.spec_is_ejectable(),
    {
        self.is_ejectable
    }

    /// When the watch was added.
    pub fn added_at(&self) -> (r: &jiff::Timestamp)
        ensures
            *r == self.spec_added_at(),
    {
        &self.added_at
    }

    /// End of the last reconcile sweep.
    pub fn last_reconciled_at(&self) -> (r: Option<&jiff::Timestamp>)
        ensures
            r is Some <==> self.spec_last_reconciled_at() is Some,
            r matches Some(v) ==> self.spec_last_reconciled_at() == Some(*v),
    {
        match &self.last_reconciled_at {
            Some(v) => Some(v),
            None => None,
        }
    }

    /// Outcome of the last reconcile sweep.
    pub fn last_reconcile_status(&self) -> (r: Option<&ScanStatus>)
        ensures
            r is Some <==> self.spec_last_reconcile_status() is Some,
            r matches Some(v) ==> self.spec_last_reconcile_status() == Some(*v),
    {
        match &self.last_reconcile_status {
            Some(v) => Some(v),
            None => None,
        }
    }

    /// Last error seen by the watch.
    pub fn last_error(&self) -> (r: Option<&ErrorInfo>)
        ensures
            r is Some <==> self.spec_last_error() is Some,
            r matches Some(v) ==> self.spec_last_error() == Some(*v),
    {
        match &self.last_error {
            Some(v) => Some(v),
            None => None,
        }
    }

    /// Builder: replace `recursive`.
    pub fn with_recursive(self, v: bool) -> (r: Self)
        ensures
            r.spec_recursive() == v,
            r.spec_id() == self.spec_id(),
            r.spec_volume() == self.spec_volume(),
            r.spec_enabled() == self.spec_enabled(),
            r.spec_is_ejectable() == self.spec_is_ejectable(),
            r.spec_added_at() == self.spec_added_at(),
            r.spec_last_reconciled_at() == self.spec_last_reconciled_at(),
            r.spec_last_reconcile_status() == self.spec_last_reconcile_status(),
            r.spec_last_error() == self.spec_last_error(),
    {
        let mut s = self;
        s.recursive = v;
        s
    }

    /// Builder: replace `enabled`.
    pub fn with_enabled(self, v: bool) -> (r: Self)
        ensures
            r.spec_enabled() == v,
            r.spec_id() == self.spec_id(),
            r.spec_volume() == self.spec_volume(),
            r.spec_recursive() == self.spec_recursive(),
            r.spec_is_ejectable() == self.spec_is_ejectable(),
            r.spec_added_at() == self.spec_added_at(),
            r.spec_last_reconciled_at() == self.spec_last_reconciled_at(),
            r.spec_last_reconcile_status() == self.spec_last_reconcile_status(),
            r.spec_last_error() == self.spec_last_error(),
    {
        let mut s = self;
        s.enabled = v;
        s
    }

    /// Builder: replace `is_ejectable`.
    pub fn with_ejectable(self, v: bool) -> (r: Self)
        ensures
            r.spec_is_ejectable() == v,
            r.spec_id() == self.spec_id(),
            r.spec_volume() == self.spec_volume(),
            r.spec_recursive() == self.spec_recursive(),
            r.spec_enabled() == self.spec_enabled(),
            r.spec_added_at() == self.spec_added_at(),
            r.spec_last_reconciled_at() == self.spec_last_reconciled_at(),
            r.spec_last_reconcile_status() == self.spec_last_reconcile_status(),
            r.spec_last_error() == self.spec_last_error(),
    {
        let mut s = self;
        s.is_ejectable = v;
        s
    }

    /// Builder: replace `last_reconciled_at`.
    pub fn with_last_reconciled_at(self, v: Option<jiff::Timestamp>) -> (r: Self)
        ensures
            r.spec_last_reconciled_at() == v,
            r.spec_id() == self.spec_id(),
            r.spec_volume() == self.spec_volume(),
            r.spec_recursive() == self.spec_recursive(),
            r.spec_enabled() == self.spec_enabled(),
            r.spec_is_ejectable() == self.spec_is_ejectable(),
            r.spec_added_at() == self.spec_added_at(),
            r.spec_last_reconcile_status() == self.spec_last_reconcile_status(),
            r.spec_last_error() == self.spec_last_error(),
    {
        let mut s = self;
        s.last_reconciled_at = v;
        s
    }

    /// Builder: replace `last_reconcile_status`.
    pub fn with_last_reconcile_status(self, v: Option<ScanStatus>) -> (r: Self)
        ensures
            r.spec_last_reconcile_status() == v,
            r.spec_id() == self.spec_id(),
            r.spec_volume() == self.spec_volume(),
            r.spec_recursive() == self.spec_recursive(),
            r.spec_enabled() == self.spec_enabled(),
            r.spec_is_ejectable() == self.spec_is_ejectable(),
            r.spec_added_at() == self.spec_added_at(),
            r.spec_last_reconciled_at() == self.spec_last_reconciled_at(),
            r.spec_last_error() == self.spec_last_error(),
    {
        let mut s = self;
        s.last_reconcile_status = v;
        s
    }

    /// Builder: replace `last_error`.
    pub fn with_last_error(self, v: Option<ErrorInfo>) -> (r: Self)
        ensures
            r.spec_last_error() == v,
            r.spec_id() == self.spec_id(),
            r.spec_volume() == self.spec_volume(),
            r.spec_recursive() == self.spec_recursive(),
            r.spec_enabled() == self.spec_enabled(),
            r.spec_is_ejectable() == self.spec_is_ejectable(),
            r.spec_added_at() == self.spec_added_at(),
            r.spec_last_reconciled_at() == self.spec_last_reconciled_at(),
            r.spec_last_reconcile_status() == self.spec_last_reconcile_status(),
    {
        let mut s = self;
        s.last_error = v;
        s
    }

    /// In-place mutator for `recursive`.
    pub fn set_recursive(&mut self, v: bool) -> (r: &mut Self)
        ensures
            *final(self) == *final(r),
            r.spec_recursive() == v,
            r.spec_id() == old(self).spec_id(),
            r.spec_volume() == old(self).spec_volume(),
            r.spec_enabled() == old(self).spec_enabled(),
            r.spec_is_ejectable() == old(self).spec_is_ejectable(),
            r.spec_added_at() == old(self).spec_added_at(),
            r.spec_last_reconciled_at() == old(self).spec_last_reconciled_at(),
            r.spec_last_reconcile_status() == old(self).spec_last_reconcile_status(),
            r.spec_last_error() == old(self).spec_last_error(),
    {
        self.recursive = v;
        self
    }

    /// In-place mutator for `enabled`.
    pub fn set_enabled(&mut self, v: bool) -> (r: &mut Self)
        ensures
            *final(self) == *final(r),
            r.spec_enabled() == v,
            r.spec_id() == old(self).spec_id(),
            r.spec_volume() == old(self).spec_volume(),
            r.spec_recursive() == old(self).spec_recursive(),
            r.spec_is_ejectable() == old(self).spec_is_ejectable(),
            r.spec_added_at() == old(self).spec_added_at(),
            r.spec_last_reconciled_at() == old(self).spec_last_reconciled_at(),
            r.spec_last_reconcile_status() == old(self).spec_last_reconcile_status(),
            r.spec_last_error() == old(self).spec_last_error(),
    {
        self.enabled = v;
        self
    }

    /// In-place mutator for `is_ejectable`.
    pub fn set_ejectable(&mut self, v: bool) -> (r: &mut Self)
        ensures
            *final(self) == *final(r),
            r.spec_is_ejectable() == v,
            r.spec_id() == old(self).spec_id(),
            r.spec_volume() == old(self).spec_volume(),
            r.spec_recursive() == old(self).spec_recursive(),
            r.spec_enabled() == old(self).spec_enabled(),
            r.spec_added_at() == old(self).spec_added_at(),
            r.spec_last_reconciled_at() == old(self).spec_last_reconciled_at(),
            r.spec_last_reconcile_status() == old(self).spec_last_reconcile_status(),
            r.spec_last_error() == old(self).spec_last_error(),
    {
        self.is_ejectable = v;
        self
    }

    /// In-place mutator for `last_reconciled_at`.
    pub fn set_last_reconciled_at(&mut self, v: Option<jiff::Timestamp>) -> (r: &mut Self)
        ensures
            *final(self) == *final(r),
            r.spec_last_reconciled_at() == v,
            r.spec_id() == old(self).spec_id(),
            r.spec_volume() == old(self).spec_volume(),
            r.spec_recursive() == old(self).spec_recursive(),
            r.spec_enabled() == old(self).spec_enabled(),
            r.spec_is_ejectable() == old(self).spec_is_ejectable(),
            r.spec_added_at() == old(self).spec_added_at(),
            r.spec_last_reconcile_status() == old(self).spec_last_reconcile_status(),
            r.spec_last_error() == old(self).spec_last_error(),
    {
        self.last_reconciled_at = v;
        self
    }

    /// In-place mutator for `last_reconcile_status`.
    pub fn set_last_reconcile_status(&mut self, v: Option<ScanStatus>) -> (r: &mut Self)
        ensures
            *final(self) == *final(r),
            r.spec_last_reconcile_status() == v,
            r.spec_id() == old(self).spec_id(),
            r.spec_volume() == old(self).spec_volume(),
            r.spec_recursive() == old(self).spec_recursive(),
            r.spec_enabled() == old(self).spec_enabled(),
            r.spec_is_ejectable() == old(self).spec_is_ejectable(),
            r.spec_added_at() == old(self).spec_added_at(),
            r.spec_last_reconciled_at() == old(self).spec_last_reconciled_at(),
            r.spec_last_error() == old(self).spec_last_error(),
    {
        self.last_reconcile_status = v;
        self
    }

    /// In-place mutator for `last_error`.
    pub fn set_last_error(&mut self, v: Option<ErrorInfo>) -> (r: &mut Self)
        ensures
            *final(self) == *final(r),
            r.spec_last_error() == v,
            r.spec_id() == old(self).spec_id(),
            r.spec_volume() == old(self).spec_volume(),
            r.spec_recursive() == old(self).spec_recursive(),
            r.spec_enabled() == old(self).spec_enabled(),
            r.spec_is_ejectable() == old(self).spec_is_ejectable(),
            r.spec_added_at() == old(self).spec_added_at(),
            r.spec_last_reconciled_at() == old(self).spec_last_reconciled_at(),
            r.spec_last_reconcile_status() == old(self).spec_last_reconcile_status(),
    {
        self.last_error = v;
        self
    }
}

} // verus!
