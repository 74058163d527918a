//! [`Location`] — a structured file location: a stable volume identity plus
//! platform-agnostic path components (not an opaque path string), so a
//! removable drive keeps one identity across eject/replug and remounts.
use vstd::prelude::*;

use crate::primitives::{is_nil_bytes, Uuid7};

verus! {

/// The character sequences of a list of owned strings.
pub open spec fn strings_view(s: Seq<String>) -> Seq<Seq<char>> {
    s.map_values(|x: String| x@)
}

/// The character sequences of a list of string slices.
pub open spec fn strs_view(s: Seq<&str>) -> Seq<Seq<char>> {
    s.map_values(|x: &str| x@)
}

/// Copy a list of string slices into owned strings.
pub fn to_owned_strings(parts: &[&str]) -> (r: Vec<String>)
    ensures
        strings_view(r@) == strs_view(parts@),
{
    let mut out: Vec<String> = Vec::new();
    let mut i: usize = 0;
    while i < parts.len()
        invariant
            0 <= i <= parts@.len(),
            out@.len() == i,
            strings_view(out@) =~= strs_view(parts@.take(i as int)),
        decreases parts@.len() - i,
    {
        let ghost prev = out@;
        let part = parts[i].to_owned();
        out.push(part);
        proof {
            assert(prev.len() == i);
            assert forall|k: int| 0 <= k < i + 1 implies #[trigger] out@[k]@ == parts@[k]@ by {
                if k < i {
                    assert(out@[k] == prev[k]);
                    assert(strings_view(prev)[k] == strs_view(parts@.take(i as int))[k]);
                }
            }
        }
        i = i + 1;
        assert(strings_view(out@) =~= strs_view(parts@.take(i as int)));
    }
    assert(parts@.take(parts@.len() as int) =~= parts@);
    out
}

/// Error returned when a [`Location`] cannot be constructed.
#[derive(Debug, Clone, Copy, PartialEq, Eq, Structural)]
#[non_exhaustive]
pub enum LocationError {
    /// The path-components list was empty.
    EmptyPath,
    /// The volume id was the nil sentinel.
    NilVolume,
}

impl LocationError {
    /// Human-readable description.
    pub fn message(&self) -> (r: String)
        ensures
            r@ == location_error_message(*self),
    {
        match self {
            LocationError::EmptyPath => "Location::Local requires a non-empty path".to_owned(),
            LocationError::NilVolume => "Location::Local requires a non-nil volume id".to_owned(),
        }
    }
}

/// The message of each [`LocationError`].
pub open spec fn location_error_message(e: LocationError) -> Seq<char> {
    match e {
        LocationError::EmptyPath => "Location::Local requires a non-empty path"@,
        LocationError::NilVolume => "Location::Local requires a non-nil volume id"@,
    }
}

/// File location — a structured oneof. The only arm today is a local volume
/// path.
#[derive(Debug, Clone, PartialEq, Eq, Hash)]
#[non_exhaustive]
pub enum Location<Id = Uuid7> {
    /// A local volume path: stable `volume` identity plus path components.
    #[non_exhaustive]
    Local { volume: Id, components: Vec<String> },
}

impl<Id> Location<Id> {
    /// The volume identity of the location.
    pub open spec fn spec_volume(&self) -> Id {
        match self {
            Location::Local { volume, .. } => *volume,
        }
    }

    /// The path components of the location.
    pub open spec fn spec_components(&self) -> Seq<Seq<char>> {
        match self {
            Location::Local { components, .. } => strings_view(components@),
        }
    }

    /// Borrow the volume identity.
    pub fn volume_ref(&self) -> (r: &Id)
        ensures
            *r == self.spec_volume(),
    {
        match self {
            Location::Local { volume, .. } => volume,
        }
    }

    /// Borrow the path components.
    pub fn components(&self) -> (r: &[String])
        ensures
            strings_view(r@) == self.spec_components(),
    {
        match self {
            Location::Local { components, .. } => components.as_slice(),
        }
    }

    /// The last path component (the file name); `""` when there is none.
    pub fn file_name(&self) -> (r: &str)
        ensures
            self.spec_components().len() == 0 ==> r@ == Seq::<char>::empty(),
            self.spec_components().len() > 0 ==> r@ == self.spec_components().last(),
    {
        match self {
            Location::Local { components, .. } => {
                if components.len() == 0 {
                    proof {
                        reveal_strlit("");
                    }
                    ""
                } else {
                    components[components.len() - 1].as_str()
                }
            },
        }
    }

    /// Builder without validation, for round-tripping a location that was
    /// validated when first written.
    pub fn local_unchecked(volume: Id, components: &[&str]) -> (r: Self)
        ensures
            r.spec_volume() == volume,
            r.spec_components() == strs_view(components@),
    {
        Location::Local { volume, components: to_owned_strings(components) }
    }

    /// Validating builder: requires a non-empty path.
    pub fn try_local(volume: Id, components: &[&str]) -> (r: Result<Self, LocationError>)
        ensures
            r is Err <==> components@.len() == 0,
            components@.len() == 0 <==> r == Err::<Self, LocationError>(LocationError::EmptyPath),
            r matches Ok(l) ==> l.spec_volume() == volume && l.spec_components() == strs_view(
                components@,
            ),
    {
        if components.len() == 0 {
            return Err(LocationError::EmptyPath);
        }
        Ok(Location::Local { volume, components: to_owned_strings(components) })
    }
}

impl Location<Uuid7> {
    /// `Uuid7` builder: also rejects a nil volume id (checked before the
    /// path).
    pub fn try_local_uuid7(volume: Uuid7, components: &[&str]) -> (r: Result<
        Self,
        LocationError,
    >)
        ensures
            is_nil_bytes(volume@) <==> r == Err::<Self, LocationError>(LocationError::NilVolume),
            !is_nil_bytes(volume@) ==> (components@.len() == 0 <==> r == Err::<
                Self,
                LocationError,
            >(LocationError::EmptyPath)),
            r matches Ok(l) ==> l.spec_volume() == volume && l.spec_components() == strs_view(
                components@,
            ),
    {
        if volume.is_nil() {
            return Err(LocationError::NilVolume);
        }
        if components.len() == 0 {
            return Err(LocationError::EmptyPath);
        }
        Ok(Location::Local { volume, components: to_owned_strings(components) })
    }
}

} // verus!
