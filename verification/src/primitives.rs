//! Foundational newtypes: the `Uuid7` identity, the `FileChecksum` content
//! hash, the packed `Rgba` colour, the `Location` oneof and the structured
//! error vocabulary (`ErrorCode` / `ErrorInfo`).
use vstd::prelude::*;

use crate::text::{hex_byte, hex_of, is_lower_hex_char, lemma_hex_of_push, lemma_hex_of_shape, push_char, push_hex_byte};

verus! {

// ---------------------------------------------------------------------------
// Uuid7
// ---------------------------------------------------------------------------

#[verifier::external_type_specification]
#[verifier::external_body]
pub struct ExUuidError(uuid::Error);

#[verifier::external_type_specification]
#[verifier::external_body]
pub struct ExUuid(uuid::Uuid);

/// `uuid::Error`'s derived `Clone`; nothing is stated of the copy.
pub assume_specification[ <uuid::Error as Clone>::clone ](e: &uuid::Error) -> uuid::Error;

/// True iff every byte is zero (the nil UUID).
pub open spec fn is_nil_bytes(b: Seq<u8>) -> bool {
    forall|i: int| 0 <= i < b.len() ==> b[i] == 0
}

/// The 4-bit version field of a UUID: the high nibble of byte 6.
pub open spec fn version_of(b: Seq<u8>) -> u8 {
    (b[6] / 16) as u8
}

/// The `Uuid7` invariant: a non-nil UUID whose version field is `7`.
pub open spec fn is_valid_uuid7(b: Seq<u8>) -> bool {
    &&& b.len() == 16
    &&& !is_nil_bytes(b)
    &&& version_of(b) == 7
}

/// Canonical lower-case hyphenated form `8-4-4-4-12` of 16 bytes.
pub open spec fn hyphenated(b: Seq<u8>) -> Seq<char> {
    hex_of(b.subrange(0, 4)) + seq![45u8 as char] + hex_of(b.subrange(4, 6)) + seq![45u8 as char] + hex_of(
        b.subrange(6, 8),
    ) + seq![45u8 as char] + hex_of(b.subrange(8, 10)) + seq![45u8 as char] + hex_of(b.subrange(10, 16))
}

/// What `uuid::Uuid::parse_str` makes of a string: `Some(bytes)` when it
/// accepts the string, `None` when it refuses it.
pub uninterp spec fn uuid_parse_str(s: Seq<char>) -> Option<Seq<u8>>;

/// Calls `uuid::Uuid::now_v7`. The uuid crate writes the version nibble `7`
/// into the high half of byte 6 of every UUID it builds there; the remaining
/// bits come from the clock and a random source, so nothing more is stated.
#[verifier::external_body]
fn uuid_now_v7_bytes() -> (r: [u8; 16])
    ensures
        version_of(r@) == 7,
{
    uuid::Uuid::now_v7().into_bytes()
}

/// Calls `uuid::Uuid::parse_str`. Its result is named by [`uuid_parse_str`];
/// an accepted string yields the 16 parsed bytes, a refused one the crate's
/// error value.
#[verifier::external_body]
fn uuid_parse_str_bytes(s: &str) -> (r: Result<[u8; 16], uuid::Error>)
    ensures
        r is Ok <==> uuid_parse_str(s@) is Some,
        r matches Ok(b) ==> uuid_parse_str(s@) == Some(b@),
{
    match uuid::Uuid::parse_str(s) {
        Ok(u) => Ok(u.into_bytes()),
        Err(e) => Err(e),
    }
}

/// Calls `uuid::Uuid::from_bytes(..).hyphenated().to_string()`, which the
/// uuid crate documents as the lower-case `8-4-4-4-12` hex rendering of the
/// bytes in order.
#[verifier::external_body]
fn uuid_hyphenated_string(b: &[u8; 16]) -> (r: String)
    ensures
        r@ == hyphenated(b@),
{
    uuid::Uuid::from_bytes(*b).hyphenated().to_string()
}

/// The 16 bytes of a `uuid::Uuid`, in order (`Uuid::as_bytes`).
pub uninterp spec fn uuid_bytes(u: uuid::Uuid) -> Seq<u8>;

/// Calls `uuid::Uuid::from_bytes`, which builds the UUID holding exactly
/// these 16 bytes.
#[verifier::external_body]
fn uuid_from_bytes(b: [u8; 16]) -> (u: uuid::Uuid)
    ensures
        uuid_bytes(u) == b@,
{
    uuid::Uuid::from_bytes(b)
}

/// Calls `uuid::Uuid::into_bytes`, which returns the UUID's 16 bytes.
#[verifier::external_body]
fn uuid_into_bytes(u: uuid::Uuid) -> (b: [u8; 16])
    ensures
        b@ == uuid_bytes(u),
{
    u.into_bytes()
}

/// Canonical identity for the aggregates: a time-ordered UUIDv7, 16 bytes.
///
/// Every validating construction path (`new`, `try_from_bytes`,
/// `parse_str`) yields a non-nil UUID with version field `7`. `nil` and
/// `from_bytes_unchecked` are the wire-codec escapes and carry no such
/// guarantee.
#[derive(Debug, Clone, Copy, Hash, PartialOrd, Ord)]
pub struct Uuid7 {
    bytes: [u8; 16],
}

impl View for Uuid7 {
    type V = Seq<u8>;

    closed spec fn view(&self) -> Seq<u8> {
        self.bytes@
    }
}

/// Error returned when a value fails the [`Uuid7`] invariants.
#[derive(Debug, Clone, PartialEq, Eq)]
pub enum Uuid7Error {
    /// The bytes are the all-zero nil UUID.
    Nil,
    /// The version field is not `7` (the payload is the version found).
    NotV7(usize),
    /// The input could not be parsed as a UUID at all.
    InvalidUuid(uuid::Error),
}

/// The outcome of validating 16 bytes as a [`Uuid7`].
pub open spec fn validation_outcome(b: Seq<u8>) -> Result<Seq<u8>, Uuid7Error> {
    if is_nil_bytes(b) {
        Err(Uuid7Error::Nil)
    } else if version_of(b) != 7 {
        Err(Uuid7Error::NotV7(version_of(b) as usize))
    } else {
        Ok(b)
    }
}

/// Outcome of a validating constructor, compared with [`validation_outcome`]
/// through the view of its `Ok` value.
pub open spec fn matches_outcome(r: Result<Uuid7, Uuid7Error>, b: Seq<u8>) -> bool {
    match validation_outcome(b) {
        Ok(v) => r matches Ok(u) && u@ == v,
        Err(e) => r == Err::<Uuid7, Uuid7Error>(e),
    }
}

impl Uuid7 {
    /// Generate a new time-ordered UUIDv7 from the current wall-clock time.
    pub fn new() -> (r: Self)
        ensures
            is_valid_uuid7(r@),
    {
        let b = uuid_now_v7_bytes();
        assert(!is_nil_bytes(b@)) by {
            assert(b@[6] / 16 == 7);
        }
        Uuid7 { bytes: b }
    }

    /// The nil UUID (all-zero bits) — the wire-codec "unset" sentinel.
    pub fn nil() -> (r: Self)
        ensures
            r@ == Seq::new(16, |_i: int| 0u8),
            is_nil_bytes(r@),
    {
        let r = Uuid7 { bytes: [0u8; 16] };
        assert(r@ =~= Seq::new(16, |_i: int| 0u8));
        r
    }

    /// Is this the nil sentinel?
    pub fn is_nil(&self) -> (r: bool)
        ensures
            r == is_nil_bytes(self@),
    {
        let mut i: usize = 0;
        while i < 16
            invariant
                0 <= i <= 16,
                self@.len() == 16,
                forall|j: int| 0 <= j < i ==> self@[j] == 0,
            decreases 16 - i,
        {
            if self.bytes[i] != 0 {
                return false;
            }
            i = i + 1;
        }
        true
    }

    /// The 4-bit version field.
    pub fn version_num(&self) -> (r: usize)
        ensures
            r == version_of(self@),
    {
        (self.bytes[6] / 16) as usize
    }

    /// Raw 16-byte representation.
    pub fn as_bytes(&self) -> (r: &[u8; 16])
        ensures
            r@ == self@,
    {
        &self.bytes
    }

    /// The same 16 bytes as a `uuid::Uuid`.
    pub fn as_uuid(&self) -> (r: uuid::Uuid)
        ensures
            uuid_bytes(r) == self@,
    {
        uuid_from_bytes(self.bytes)
    }

    /// Validate 16 bytes: nil is rejected first, then any version other
    /// than `7`.
    fn validate(bytes: [u8; 16]) -> (r: Result<Self, Uuid7Error>)
        ensures
            matches_outcome(r, bytes@),
    {
        let u = Uuid7 { bytes };
        if u.is_nil() {
            return Err(Uuid7Error::Nil);
        }
        let v = u.version_num();
        if v != 7 {
            return Err(Uuid7Error::NotV7(v));
        }
        Ok(u)
    }

    /// Validating constructor from raw bytes — rejects nil and any non-v7
    /// layout.
    pub fn try_from_bytes(bytes: [u8; 16]) -> (r: Result<Self, Uuid7Error>)
        ensures
            matches_outcome(r, bytes@),
    {
        Self::validate(bytes)
    }

    /// Unchecked construction from raw bytes, for wire round-trips whose
    /// producer already validated the layout.
    pub fn from_bytes_unchecked(bytes: [u8; 16]) -> (r: Self)
        ensures
            r@ == bytes@,
    {
        Uuid7 { bytes }
    }

    /// Parse a UUID string and validate it as a non-nil UUIDv7. A string
    /// the `uuid` parser refuses gives `InvalidUuid`.
    pub fn parse_str(s: &str) -> (r: Result<Self, Uuid7Error>)
        ensures
            uuid_parse_str(s@) is None <==> r matches Err(Uuid7Error::InvalidUuid(_)),
            uuid_parse_str(s@) matches Some(b) ==> matches_outcome(r, b),
    {
        match uuid_parse_str_bytes(s) {
            Ok(b) => Self::validate(b),
            Err(e) => Err(Uuid7Error::InvalidUuid(e)),
        }
    }

    /// Lower-case hyphenated rendering (`8-4-4-4-12`).
    pub fn to_string(&self) -> (r: String)
        ensures
            r@ == hyphenated(self@),
    {
        uuid_hyphenated_string(&self.bytes)
    }
}

impl PartialEq for Uuid7 {
    fn eq(&self, other: &Self) -> (r: bool) {
        let mut i: usize = 0;
        while i < 16
            invariant
                0 <= i <= 16,
                self@.len() == 16,
                other@.len() == 16,
                forall|j: int| 0 <= j < i ==> self@[j] == other@[j],
            decreases 16 - i,
        {
            if self.bytes[i] != other.bytes[i] {
                return false;
            }
            i = i + 1;
        }
        assert(self@ =~= other@);
        true
    }
}

impl vstd::std_specs::cmp::PartialEqSpecImpl for Uuid7 {
    open spec fn obeys_eq_spec() -> bool {
        true
    }

    open spec fn eq_spec(&self, other: &Self) -> bool {
        self@ == other@
    }
}

impl Eq for Uuid7 {

}

impl TryFrom<uuid::Uuid> for Uuid7 {
    type Error = Uuid7Error;

    /// Validate a `uuid::Uuid` as a [`Uuid7`]: nil is rejected first, then
    /// any version other than `7`.
    fn try_from(u: uuid::Uuid) -> (r: Result<Self, Uuid7Error>)
        ensures
            matches_outcome(r, uuid_bytes(u)),
    {
        Self::validate(uuid_into_bytes(u))
    }
}

impl vstd::std_specs::convert::TryFromSpecImpl<uuid::Uuid> for Uuid7 {
    /// The result is pinned by `try_from`'s own `ensures` (through
    /// [`matches_outcome`]), up to the representation of the bytes.
    open spec fn obeys_try_from_spec() -> bool {
        false
    }

    open spec fn try_from_spec(v: uuid::Uuid) -> Result<Self, Uuid7Error> {
        choose|r: Result<Self, Uuid7Error>| matches_outcome(r, uuid_bytes(v))
    }
}

impl core::str::FromStr for Uuid7 {
    type Err = Uuid7Error;

    fn from_str(s: &str) -> Result<Self, Self::Err> {
        Self::parse_str(s)
    }
}

/// A validated `Uuid7` survives its own byte round-trip: re-validating its
/// bytes accepts them and yields the same identity.
pub proof fn lemma_uuid7_bytes_round_trip(u: Uuid7)
    requires
        is_valid_uuid7(u@),
    ensures
        validation_outcome(u@) == Ok::<Seq<u8>, Uuid7Error>(u@),
{
}

// ---------------------------------------------------------------------------
// FileChecksum
// ---------------------------------------------------------------------------

/// 256-bit content hash identifying a file by its contents. Distinct from
/// [`Uuid7`]: content is not identity.
#[derive(Debug, Clone, Copy, PartialEq, Eq, Hash, PartialOrd, Ord)]
pub struct FileChecksum(pub [u8; 32]);

impl FileChecksum {
    /// Wrap a 32-byte hash.
    pub fn new(bytes: [u8; 32]) -> (r: Self)
        ensures
            r.0@ == bytes@,
    {
        FileChecksum(bytes)
    }

    /// All-zero sentinel for "not yet computed".
    pub fn zero() -> (r: Self)
        ensures
            r.0@ == Seq::new(32, |_i: int| 0u8),
            is_nil_bytes(r.0@),
    {
        let r = FileChecksum([0u8; 32]);
        assert(r.0@ =~= Seq::new(32, |_i: int| 0u8));
        r
    }

    /// Raw bytes.
    pub fn as_bytes(&self) -> (r: &[u8; 32])
        ensures
            r@ == self.0@,
    {
        &self.0
    }

    /// Is this the all-zero sentinel?
    pub fn is_zero(&self) -> (r: bool)
        ensures
            r == is_nil_bytes(self.0@),
    {
        let mut i: usize = 0;
        while i < 32
            invariant
                0 <= i <= 32,
                self.0@.len() == 32,
                forall|j: int| 0 <= j < i ==> self.0@[j] == 0,
            decreases 32 - i,
        {
            if self.0[i] != 0 {
                return false;
            }
            i = i + 1;
        }
        true
    }

    /// Lower-case hex rendering: 64 characters, each one of `0-9a-f`.
    pub fn to_string(&self) -> (r: String)
        ensures
            r@ == hex_of(self.0@),
            r@.len() == 64,
            forall|i: int| 0 <= i < r@.len() ==> is_lower_hex_char(#[trigger] r@[i]),
    {
        let mut s = String::new();
        let mut i: usize = 0;
        while i < 32
            invariant
                0 <= i <= 32,
                self.0@.len() == 32,
                s@ == hex_of(self.0@.take(i as int)),
            decreases 32 - i,
        {
            proof {
                lemma_hex_of_push(self.0@.take(i as int), self.0@[i as int]);
                assert(self.0@.take(i as int).push(self.0@[i as int]) =~= self.0@.take(i + 1));
            }
            push_hex_byte(&mut s, self.0[i]);
            i = i + 1;
        }
        assert(self.0@.take(32) =~= self.0@);
        proof {
            lemma_hex_of_shape(self.0@);
        }
        s
    }
}

impl Default for FileChecksum {
    /// The all-zero sentinel.
    fn default() -> (r: Self)
        ensures
            is_nil_bytes(r.0@),
    {
        FileChecksum::zero()
    }
}

impl From<[u8; 32]> for FileChecksum {
    fn from(bytes: [u8; 32]) -> (r: Self) {
        FileChecksum(bytes)
    }
}

impl vstd::std_specs::convert::FromSpecImpl<[u8; 32]> for FileChecksum {
    open spec fn obeys_from_spec() -> bool {
        true
    }

    open spec fn from_spec(bytes: [u8; 32]) -> Self {
        FileChecksum(bytes)
    }
}

// ---------------------------------------------------------------------------
// Rgba
// ---------------------------------------------------------------------------

/// The packed `0xRRGGBBAA` value of four components.
pub open spec fn pack_rgba(r: u8, g: u8, b: u8, a: u8) -> u32 {
    ((r as u32) << 24u32) | ((g as u32) << 16u32) | ((b as u32) << 8u32) | (a as u32)
}

/// Packed 32-bit RGBA colour (`0xRRGGBBAA`).
#[derive(Debug, Clone, Copy, PartialEq, Eq, Hash, Structural)]
pub struct Rgba(pub u32);

impl Rgba {
    /// Pack from RGBA components.
    pub fn new(r: u8, g: u8, b: u8, a: u8) -> (c: Self)
        ensures
            c.0 == pack_rgba(r, g, b, a),
    {
        Rgba(((r as u32) << 24u32) | ((g as u32) << 16u32) | ((b as u32) << 8u32) | (a as u32))
    }

    /// Red component (bits 24..32).
    pub fn r(self) -> (v: u8)
        ensures
            v == (self.0 >> 24u32) as u8,
    {
        (self.0 >> 24u32) as u8
    }

    /// Green component (bits 16..24).
    pub fn g(self) -> (v: u8)
        ensures
            v == (self.0 >> 16u32) as u8,
    {
        (self.0 >> 16u32) as u8
    }

    /// Blue component (bits 8..16).
    pub fn b(self) -> (v: u8)
        ensures
            v == (self.0 >> 8u32) as u8,
    {
        (self.0 >> 8u32) as u8
    }

    /// Alpha component (bits 0..8).
    pub fn a(self) -> (v: u8)
        ensures
            v == self.0 as u8,
    {
        self.0 as u8
    }
}

impl Default for Rgba {
    /// Transparent black (`0x00000000`).
    fn default() -> (c: Self)
        ensures
            c.0 == 0,
    {
        Rgba(0)
    }
}

/// Unpacking a packed colour gives back its four components.
pub proof fn lemma_rgba_pack_unpack(r: u8, g: u8, b: u8, a: u8)
    ensures
        (pack_rgba(r, g, b, a) >> 24u32) as u8 == r,
        (pack_rgba(r, g, b, a) >> 16u32) as u8 == g,
        (pack_rgba(r, g, b, a) >> 8u32) as u8 == b,
        pack_rgba(r, g, b, a) as u8 == a,
{
    assert((pack_rgba(r, g, b, a) >> 24u32) as u8 == r) by (bit_vector);
    assert((pack_rgba(r, g, b, a) >> 16u32) as u8 == g) by (bit_vector);
    assert((pack_rgba(r, g, b, a) >> 8u32) as u8 == b) by (bit_vector);
    assert(pack_rgba(r, g, b, a) as u8 == a) by (bit_vector);
}

/// Packing the components of a colour gives back the colour.
pub proof fn lemma_rgba_unpack_pack(c: u32)
    ensures
        pack_rgba((c >> 24u32) as u8, (c >> 16u32) as u8, (c >> 8u32) as u8, c as u8) == c,
{
    assert(pack_rgba((c >> 24u32) as u8, (c >> 16u32) as u8, (c >> 8u32) as u8, c as u8) == c)
        by (bit_vector);
}

} // verus!
