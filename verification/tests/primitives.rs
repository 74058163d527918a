use mediaschema::errors::{ErrorCode, ErrorInfo};
use mediaschema::identified::Identified;
use mediaschema::location::{Location, LocationError};
use mediaschema::primitives::{FileChecksum, Rgba, Uuid7, Uuid7Error};

#[test]
fn new_and_accessors() {
    let v = Identified::new(7u32, "hello");
    assert_eq!(v.id_ref(), &7u32);
    assert_eq!(v.data_ref(), &"hello");
}

#[test]
fn into_components_returns_pair() {
    let v = Identified::new(42u64, [1u8, 2, 3]);
    let (id, data) = v.into_components();
    assert_eq!(id, 42u64);
    assert_eq!(data, [1u8, 2, 3]);
}

#[test]
fn clone_when_both_clone() {
    let v = Identified::new(1u8, 2u8);
    #[allow(clippy::clone_on_copy)]
    let w = v.clone();
    assert_eq!(v, w);
}

fn take<T: Copy>(_: T) {}

#[test]
fn copy_when_both_copy() {
    let v = Identified::new(1u8, 2u16);
    take(v);
    assert_eq!(v.id_ref(), &1u8);
    assert_eq!(v.data_ref(), &2u16);
}

#[test]
fn debug_format_smoke() {
    let s = format!("{:?}", Identified::new(1u8, 2u8));
    assert!(s.contains("id"));
    assert!(s.contains("data"));
}

#[test]
fn uuid7_new_is_non_nil_and_unique() {
    let a = Uuid7::new();
    let b = Uuid7::new();
    assert!(!a.is_nil());
    assert!(!b.is_nil());
    assert_ne!(a, b, "two fresh UUIDv7s must differ");
}

#[test]
fn uuid7_nil_sentinel_must_be_explicit() {
    let n = Uuid7::nil();
    assert!(n.is_nil());
    assert_eq!(n.as_bytes(), &[0; 16]);
}

#[test]
fn uuid7_string_roundtrip() {
    let a = Uuid7::new();
    let s = a.to_string();
    let b: Uuid7 = s.parse().expect("parse roundtrip");
    assert_eq!(a, b);
}

#[test]
fn uuid7_rejects_nil_via_validating_constructors() {
    assert_eq!(Uuid7::try_from_bytes([0; 16]), Err(Uuid7Error::Nil));
    assert_eq!(Uuid7::try_from(uuid::Uuid::nil()), Err(Uuid7Error::Nil));
    assert_eq!("00000000-0000-0000-0000-000000000000".parse::<Uuid7>(), Err(Uuid7Error::Nil));
}

#[test]
fn uuid7_rejects_non_v7_via_validating_constructors() {
    let mut bytes = [0u8; 16];
    bytes[0] = 0x01;
    bytes[6] = 0x4a;
    bytes[8] = 0x80;
    let v4 = uuid::Uuid::from_bytes(bytes);
    assert_eq!(v4.get_version_num(), 4);
    let v4_str = v4.to_string();
    match Uuid7::try_from(v4) {
        Err(Uuid7Error::NotV7(4)) => {}
        other => panic!("expected NotV7(4), got {other:?}"),
    }
    match v4_str.parse::<Uuid7>() {
        Err(Uuid7Error::NotV7(4)) => {}
        other => panic!("expected NotV7(4), got {other:?}"),
    }
}

#[test]
fn uuid7_invalid_string_returns_uuid_error() {
    match "not-a-uuid".parse::<Uuid7>() {
        Err(Uuid7Error::InvalidUuid(_)) => {}
        other => panic!("expected InvalidUuid, got {other:?}"),
    }
}

#[test]
fn uuid7_from_bytes_unchecked_still_works_for_wire_roundtrip() {
    let a = Uuid7::new();
    let raw = *a.as_bytes();
    let b = Uuid7::from_bytes_unchecked(raw);
    assert_eq!(a, b);
}

#[test]
fn uuid7_distinct_from_filechecksum_type() {
    let _u: Uuid7 = Uuid7::nil();
    let _c: FileChecksum = FileChecksum::zero();
}

#[test]
fn filechecksum_hex_display() {
    let bytes: [u8; 32] = [0xde, 0xad, 0xbe, 0xef]
        .into_iter()
        .cycle()
        .take(32)
        .collect::<Vec<u8>>()
        .try_into()
        .unwrap();
    let cs = FileChecksum::new(bytes);
    let s = cs.to_string();
    assert_eq!(s.len(), 64);
    assert!(s.starts_with("deadbeef"));
    assert!(s.chars().all(|c| matches!(c, '0'..='9' | 'a'..='f')));
}

#[test]
fn filechecksum_zero_sentinel() {
    let z = FileChecksum::zero();
    assert!(z.is_zero());
    assert_eq!(z.to_string(), "0".repeat(64));
}

#[test]
fn rgba_pack_unpack() {
    let c = Rgba::new(0x12, 0x34, 0x56, 0x78);
    assert_eq!(c.0, 0x12_34_56_78);
    assert_eq!(c.r(), 0x12);
    assert_eq!(c.g(), 0x34);
    assert_eq!(c.b(), 0x56);
    assert_eq!(c.a(), 0x78);
}

#[test]
fn location_try_local_uuid7_happy_path() {
    let vol = Uuid7::new();
    let l = Location::try_local_uuid7(vol, &["Movies", "Holiday"]).unwrap();
    match l {
        Location::Local { volume, components, .. } => {
            assert_eq!(volume, vol);
            assert_eq!(components, vec!["Movies", "Holiday"]);
        }
        _ => unreachable!(),
    }
}

#[test]
fn location_try_local_uuid7_rejects_nil_volume() {
    let r = Location::try_local_uuid7(Uuid7::nil(), &["Movies"]);
    assert_eq!(r, Err(LocationError::NilVolume));
}

#[test]
fn location_try_local_uuid7_rejects_empty_path() {
    let vol = Uuid7::new();
    let r = Location::try_local_uuid7(vol, &[]);
    assert_eq!(r, Err(LocationError::EmptyPath));
}

#[test]
fn location_generic_try_local_rejects_empty_path() {
    let r = Location::<u32>::try_local(7, &[]);
    assert_eq!(r, Err(LocationError::EmptyPath));
}

#[test]
fn error_code_unknown_round_trips_wire_value() {
    for wire in [42_u32, 1234, 99_999, u32::MAX] {
        let c = ErrorCode::from_u32(wire);
        assert!(c.is_unknown(), "{wire} should land in Unknown");
        assert_eq!(c.as_u32(), wire, "wire->domain->wire must be identity");
    }
}

#[test]
fn error_code_from_u32_normalises_known_codes() {
    let canonical = ErrorCode::from_u32(404);
    assert_eq!(canonical, ErrorCode::NotFound);
    assert!(!canonical.is_unknown());
    for c in [
        ErrorCode::BadRequest,
        ErrorCode::NotFound,
        ErrorCode::ProbeCorrupt,
        ErrorCode::from_u32(99_999),
    ] {
        assert_eq!(ErrorCode::from_u32(c.as_u32()), c);
    }
}

#[test]
fn error_code_known_round_trips_canonical_value() {
    for c in [
        ErrorCode::BadRequest,
        ErrorCode::NotFound,
        ErrorCode::InternalError,
        ErrorCode::ProbeCorrupt,
        ErrorCode::SceneDetectionFailed,
        ErrorCode::TranscriptionFailed,
        ErrorCode::EmbeddingOutputInvalid,
        ErrorCode::LocalPermissionDenied,
        ErrorCode::EndpointUnreachable,
        ErrorCode::Cancelled,
        ErrorCode::CedModelError,
    ] {
        let n = c.as_u32();
        let back = ErrorCode::from_u32(n);
        assert_eq!(c, back, "{c:?} did not survive u32 round-trip");
        assert!(!back.is_unknown());
    }
}

#[test]
fn error_code_discriminants_match_findit_proto() {
    assert_eq!(ErrorCode::BadRequest.as_u32(), 400);
    assert_eq!(ErrorCode::NotFound.as_u32(), 404);
    assert_eq!(ErrorCode::Timeout.as_u32(), 504);
    assert_eq!(ErrorCode::ProbeCorrupt.as_u32(), 1000);
    assert_eq!(ErrorCode::ProbeUnsupportedFormat.as_u32(), 1001);
    assert_eq!(ErrorCode::SceneDetectionFailed.as_u32(), 2000);
    assert_eq!(ErrorCode::TranscriptionFailed.as_u32(), 3000);
    assert_eq!(ErrorCode::VlmFailed.as_u32(), 4000);
    assert_eq!(ErrorCode::AppleVisionFailed.as_u32(), 5000);
    assert_eq!(ErrorCode::EmbeddingFailed.as_u32(), 6000);
    assert_eq!(ErrorCode::EmbeddingOutputInvalid.as_u32(), 6005);
    assert_eq!(ErrorCode::PathNotFound.as_u32(), 7000);
    assert_eq!(ErrorCode::LocalPermissionDenied.as_u32(), 7007);
    assert_eq!(ErrorCode::EndpointUnreachable.as_u32(), 8000);
    assert_eq!(ErrorCode::Cancelled.as_u32(), 9000);
    assert_eq!(ErrorCode::OutOfMemory.as_u32(), 9001);
    assert_eq!(ErrorCode::CedFailed.as_u32(), 10000);
    assert_eq!(ErrorCode::CedModelError.as_u32(), 10002);
}

#[test]
fn error_info_construction() {
    let e = ErrorInfo::new(ErrorCode::ProbeCorrupt, "bad container header");
    assert_eq!(e.code, ErrorCode::ProbeCorrupt);
    assert_eq!(e.message.as_str(), "bad container header");
    let e2 = ErrorInfo::code_only(ErrorCode::Cancelled);
    assert_eq!(e2.code, ErrorCode::Cancelled);
    assert!(e2.message.is_empty());
}

#[test]
fn location_try_local_accepts_a_non_empty_path() {
    let vol = Uuid7::new();
    let l = Location::try_local(vol, &["a", "b.mp4"]).expect("non-empty path");
    assert_eq!(l.file_name(), "b.mp4");
    assert_eq!(Location::try_local(vol, &[]).err(), Some(LocationError::EmptyPath));
}
