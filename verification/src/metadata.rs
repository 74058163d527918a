//! Container metadata carried by chapters and tracks: the insertion-ordered
//! `AVDictionary` bag (`indexmap`) and the `AV_DISPOSITION_*` flag set
//! (`mediaframe`).
use vstd::prelude::*;

verus! {

#[verifier::external_type_specification]
#[verifier::external_body]
#[verifier::reject_recursive_types(K)]
#[verifier::reject_recursive_types(V)]
#[verifier::reject_recursive_types(S)]
pub struct ExIndexMap<K, V, S>(indexmap::IndexMap<K, V, S>);

/// A container metadata bag: string keys to string values, in insertion
/// order.
pub type MetadataMap = indexmap::IndexMap<String, String>;

/// The entries of a metadata bag, in insertion order, each as
/// `(key, value)`.
pub uninterp spec fn metadata_entries(m: indexmap::IndexMap<String, String>) -> Seq<(Seq<char>, Seq<char>)>;

/// `indexmap`'s `Clone` for `IndexMap`; nothing is stated of the copy.
pub assume_specification<K: Clone, V: Clone, S: Clone>[ <indexmap::IndexMap<K, V, S> as Clone>::clone ](m: &indexmap::IndexMap<K, V, S>) -> indexmap::IndexMap<K, V, S>;

/// An empty bag: `IndexMap::new` creates a map with no entry.
#[verifier::external_body]
pub(crate) fn metadata_new() -> (m: MetadataMap)
    ensures
        metadata_entries(m) == Seq::<(Seq<char>, Seq<char>)>::empty(),
{
    indexmap::IndexMap::new()
}

/// The number of entries: `IndexMap::len` counts the key-value pairs.
#[verifier::external_body]
pub(crate) fn metadata_len(m: &MetadataMap) -> (n: usize)
    ensures
        n == metadata_entries(*m).len(),
{
    m.len()
}

#[verifier::external_type_specification]
#[verifier::external_body]
pub struct ExTrackDisposition(mediaframe::disposition::TrackDisposition);

/// The raw `u32` bits of a disposition set (`TrackDisposition::to_u32`).
pub uninterp spec fn disposition_bits(d: mediaframe::disposition::TrackDisposition) -> u32;

/// `TrackDisposition` derives `Clone` beside `Copy`, so a clone is the same
/// value.
pub assume_specification[ <mediaframe::disposition::TrackDisposition as Clone>::clone ](d: &mediaframe::disposition::TrackDisposition) -> (r: mediaframe::disposition::TrackDisposition)
    ensures
        r == *d,
;

/// The empty disposition set: `TrackDisposition::new` is the bitflags
/// `empty()`, whose bits are zero.
#[verifier::external_body]
pub(crate) fn disposition_none() -> (d: mediaframe::disposition::TrackDisposition)
    ensures
        disposition_bits(d) == 0,
{
    mediaframe::disposition::TrackDisposition::new()
}

} // verus!
