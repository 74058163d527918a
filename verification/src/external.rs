//! Outside types carried through the domain values unchanged: wall-clock
//! timestamps (`jiff`) and capture / container descriptors (`mediaframe`).
//! The domain logic never reads inside them.
use vstd::prelude::*;


verus! {

#[verifier::external_type_specification]
#[verifier::external_body]
pub struct ExJiffTimestamp(jiff::Timestamp);

/// `jiff::Timestamp` derives `Clone` beside `Copy`, so a clone is the same
/// value.
pub assume_specification[ <jiff::Timestamp as Clone>::clone ](t: &jiff::Timestamp) -> (r: jiff::Timestamp)
    ensures
        r == *t,
;

#[verifier::external_type_specification]
#[verifier::external_body]
pub struct ExContainerFormat(mediaframe::container::Format);

#[verifier::external_type_specification]
#[verifier::external_body]
pub struct ExDevice(mediaframe::capture::Device);

/// `mediaframe`'s derived `Clone` for `Device`; nothing is stated of the copy.
pub assume_specification[ <mediaframe::capture::Device as Clone>::clone ](d: &mediaframe::capture::Device) -> mediaframe::capture::Device;

/// `mediaframe`'s derived `Clone` for the container `Format`; nothing is
/// stated of the copy.
pub assume_specification[ <mediaframe::container::Format as Clone>::clone ](f: &mediaframe::container::Format) -> mediaframe::container::Format;

#[verifier::external_type_specification]
#[verifier::external_body]
pub struct ExGeoLocation(mediaframe::capture::GeoLocation);

} // verus!
