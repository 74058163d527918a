//! The structured error vocabulary: [`ErrorCode`] (wire-stable numeric
//! codes, HTTP-style below 1000 and pipeline-stage codes from 1000 up) and
//! [`ErrorInfo`] (a code plus a human-readable message).
use vstd::prelude::*;

verus! {

/// Opaque payload of [`ErrorCode::Unknown`]: a wire code that names no
/// variant. Only [`ErrorCode::from_u32`] builds one, and only for such
/// codes.
#[derive(Debug, Clone, Copy, PartialEq, Eq, Hash, Structural)]
pub struct UnknownErrorCode(pub(crate) u32);

impl UnknownErrorCode {
    /// The wire value this `Unknown` carries.
    pub closed spec fn spec_get(self) -> u32 {
        self.0
    }

    /// The wire value this `Unknown` carries.
    pub fn get(self) -> (r: u32)
        ensures
            r == self.spec_get(),
    {
        self.0
    }
}

/// Stable error-code vocabulary used inside [`ErrorInfo`]. `Unknown`
/// preserves any wire code not enumerated here, so a wire → domain → wire
/// round-trip is lossless across version skew.
#[derive(Debug, Clone, Copy, PartialEq, Eq, Hash, Structural)]
#[non_exhaustive]
pub enum ErrorCode {
    BadRequest,
    PermissionDenied,
    NotFound,
    AlreadyExists,
    UnprocessableEntity,
    InternalError,
    ServiceUnavailable,
    Timeout,
    ProbeCorrupt,
    ProbeUnsupportedFormat,
    ProbeNoVideoStream,
    ProbeNoAudioStream,
    SceneDetectionFailed,
    SceneDetectionModelError,
    TranscriptionFailed,
    TranscriptionModelError,
    VlmFailed,
    VlmModelError,
    AppleVisionFailed,
    AppleVisionRequestFailed,
    EmbeddingFailed,
    EmbeddingModelError,
    EmbeddingModelLoadFailed,
    EmbeddingPreprocessFailed,
    EmbeddingInferenceFailed,
    EmbeddingOutputInvalid,
    PathNotFound,
    VolumeNotAvailable,
    MissingVolumeId,
    MalformedVolumeId,
    VolumeIdMismatch,
    LocalDatabaseError,
    FolderNotAvailable,
    LocalPermissionDenied,
    EndpointUnreachable,
    AuthenticationFailed,
    BucketNotFound,
    QuotaExceeded,
    RemoteDatabaseError,
    RemoteTimeout,
    Cancelled,
    OutOfMemory,
    CedFailed,
    CedRequestFailed,
    CedModelError,
    /// A wire code that names no variant, preserved verbatim.
    Unknown(UnknownErrorCode),
}

/// The numeric wire value of a code.
pub open spec fn error_code_value(c: ErrorCode) -> u32 {
    match c {
        ErrorCode::BadRequest => 400,
        ErrorCode::PermissionDenied => 403,
        ErrorCode::NotFound => 404,
        ErrorCode::AlreadyExists => 409,
        ErrorCode::UnprocessableEntity => 422,
        ErrorCode::InternalError => 500,
        ErrorCode::ServiceUnavailable => 503,
        ErrorCode::Timeout => 504,
        ErrorCode::ProbeCorrupt => 1000,
        ErrorCode::ProbeUnsupportedFormat => 1001,
        ErrorCode::ProbeNoVideoStream => 1002,
        ErrorCode::ProbeNoAudioStream => 1003,
        ErrorCode::SceneDetectionFailed => 2000,
        ErrorCode::SceneDetectionModelError => 2001,
        ErrorCode::TranscriptionFailed => 3000,
        ErrorCode::TranscriptionModelError => 3001,
        ErrorCode::VlmFailed => 4000,
        ErrorCode::VlmModelError => 4001,
        ErrorCode::AppleVisionFailed => 5000,
        ErrorCode::AppleVisionRequestFailed => 5001,
        ErrorCode::EmbeddingFailed => 6000,
        ErrorCode::EmbeddingModelError => 6001,
        ErrorCode::EmbeddingModelLoadFailed => 6002,
        ErrorCode::EmbeddingPreprocessFailed => 6003,
        ErrorCode::EmbeddingInferenceFailed => 6004,
        ErrorCode::EmbeddingOutputInvalid => 6005,
        ErrorCode::PathNotFound => 7000,
        ErrorCode::VolumeNotAvailable => 7001,
        ErrorCode::MissingVolumeId => 7002,
        ErrorCode::MalformedVolumeId => 7003,
        ErrorCode::VolumeIdMismatch => 7004,
        ErrorCode::LocalDatabaseError => 7005,
        ErrorCode::FolderNotAvailable => 7006,
        ErrorCode::LocalPermissionDenied => 7007,
        ErrorCode::EndpointUnreachable => 8000,
        ErrorCode::AuthenticationFailed => 8001,
        ErrorCode::BucketNotFound => 8002,
        ErrorCode::QuotaExceeded => 8003,
        ErrorCode::RemoteDatabaseError => 8004,
        ErrorCode::RemoteTimeout => 8005,
        ErrorCode::Cancelled => 9000,
        ErrorCode::OutOfMemory => 9001,
        ErrorCode::CedFailed => 10000,
        ErrorCode::CedRequestFailed => 10001,
        ErrorCode::CedModelError => 10002,
        ErrorCode::Unknown(u) => u.spec_get(),
    }
}

/// The code a wire value decodes to: its named variant, or `Unknown`
/// carrying the value.
pub closed spec fn error_code_of(n: u32) -> ErrorCode {
    match n {
        400 => ErrorCode::BadRequest,
        403 => ErrorCode::PermissionDenied,
        404 => ErrorCode::NotFound,
        409 => ErrorCode::AlreadyExists,
        422 => ErrorCode::UnprocessableEntity,
        500 => ErrorCode::InternalError,
        503 => ErrorCode::ServiceUnavailable,
        504 => ErrorCode::Timeout,
        1000 => ErrorCode::ProbeCorrupt,
        1001 => ErrorCode::ProbeUnsupportedFormat,
        1002 => ErrorCode::ProbeNoVideoStream,
        1003 => ErrorCode::ProbeNoAudioStream,
        2000 => ErrorCode::SceneDetectionFailed,
        2001 => ErrorCode::SceneDetectionModelError,
        3000 => ErrorCode::TranscriptionFailed,
        3001 => ErrorCode::TranscriptionModelError,
        4000 => ErrorCode::VlmFailed,
        4001 => ErrorCode::VlmModelError,
        5000 => ErrorCode::AppleVisionFailed,
        5001 => ErrorCode::AppleVisionRequestFailed,
        6000 => ErrorCode::EmbeddingFailed,
        6001 => ErrorCode::EmbeddingModelError,
        6002 => ErrorCode::EmbeddingModelLoadFailed,
        6003 => ErrorCode::EmbeddingPreprocessFailed,
        6004 => ErrorCode::EmbeddingInferenceFailed,
        6005 => ErrorCode::EmbeddingOutputInvalid,
        7000 => ErrorCode::PathNotFound,
        7001 => ErrorCode::VolumeNotAvailable,
        7002 => ErrorCode::MissingVolumeId,
        7003 => ErrorCode::MalformedVolumeId,
        7004 => ErrorCode::VolumeIdMismatch,
        7005 => ErrorCode::LocalDatabaseError,
        7006 => ErrorCode::FolderNotAvailable,
        7007 => ErrorCode::LocalPermissionDenied,
        8000 => ErrorCode::EndpointUnreachable,
        8001 => ErrorCode::AuthenticationFailed,
        8002 => ErrorCode::BucketNotFound,
        8003 => ErrorCode::QuotaExceeded,
        8004 => ErrorCode::RemoteDatabaseError,
        8005 => ErrorCode::RemoteTimeout,
        9000 => ErrorCode::Cancelled,
        9001 => ErrorCode::OutOfMemory,
        10000 => ErrorCode::CedFailed,
        10001 => ErrorCode::CedRequestFailed,
        10002 => ErrorCode::CedModelError,
        _ => ErrorCode::Unknown(UnknownErrorCode(n)),
    }
}

/// True iff `n` is the wire value of a named variant.
pub open spec fn is_named_code(n: u32) -> bool {
    !(error_code_of(n) is Unknown)
}

/// A code in canonical form: `Unknown` only ever carries a value that no
/// named variant owns. Every code [`ErrorCode::from_u32`] returns is
/// canonical, and no other path builds an `Unknown`.
pub open spec fn is_canonical(c: ErrorCode) -> bool {
    match c {
        ErrorCode::Unknown(u) => !is_named_code(u.spec_get()),
        _ => true,
    }
}

impl ErrorCode {
    /// Numeric wire value. Named variants emit their stable code;
    /// `Unknown(n)` emits `n` verbatim.
    pub fn as_u32(self) -> (r: u32)
        ensures
            r == error_code_value(self),
    {
        match self {
            ErrorCode::BadRequest => 400,
            ErrorCode::PermissionDenied => 403,
            ErrorCode::NotFound => 404,
            ErrorCode::AlreadyExists => 409,
            ErrorCode::UnprocessableEntity => 422,
            ErrorCode::InternalError => 500,
            ErrorCode::ServiceUnavailable => 503,
            ErrorCode::Timeout => 504,
            ErrorCode::ProbeCorrupt => 1000,
            ErrorCode::ProbeUnsupportedFormat => 1001,
            ErrorCode::ProbeNoVideoStream => 1002,
            ErrorCode::ProbeNoAudioStream => 1003,
            ErrorCode::SceneDetectionFailed => 2000,
            ErrorCode::SceneDetectionModelError => 2001,
            ErrorCode::TranscriptionFailed => 3000,
            ErrorCode::TranscriptionModelError => 3001,
            ErrorCode::VlmFailed => 4000,
            ErrorCode::VlmModelError => 4001,
            ErrorCode::AppleVisionFailed => 5000,
            ErrorCode::AppleVisionRequestFailed => 5001,
            ErrorCode::EmbeddingFailed => 6000,
            ErrorCode::EmbeddingModelError => 6001,
            ErrorCode::EmbeddingModelLoadFailed => 6002,
            ErrorCode::EmbeddingPreprocessFailed => 6003,
            ErrorCode::EmbeddingInferenceFailed => 6004,
            ErrorCode::EmbeddingOutputInvalid => 6005,
            ErrorCode::PathNotFound => 7000,
            ErrorCode::VolumeNotAvailable => 7001,
            ErrorCode::MissingVolumeId => 7002,
            ErrorCode::MalformedVolumeId => 7003,
            ErrorCode::VolumeIdMismatch => 7004,
            ErrorCode::LocalDatabaseError => 7005,
            ErrorCode::FolderNotAvailable => 7006,
            ErrorCode::LocalPermissionDenied => 7007,
            ErrorCode::EndpointUnreachable => 8000,
            ErrorCode::AuthenticationFailed => 8001,
            ErrorCode::BucketNotFound => 8002,
            ErrorCode::QuotaExceeded => 8003,
            ErrorCode::RemoteDatabaseError => 8004,
            ErrorCode::RemoteTimeout => 8005,
            ErrorCode::Cancelled => 9000,
            ErrorCode::OutOfMemory => 9001,
            ErrorCode::CedFailed => 10000,
            ErrorCode::CedRequestFailed => 10001,
            ErrorCode::CedModelError => 10002,
            ErrorCode::Unknown(u) => u.get(),
        }
    }

    /// Decode a wire value: a named code becomes its variant, any other
    /// value lands in `Unknown`. Never lossy, never fails.
    pub fn from_u32(n: u32) -> (r: Self)
        ensures
            r == error_code_of(n),
            is_canonical(r),
            error_code_value(r) == n,
    {
        let r = match n {
            400 => ErrorCode::BadRequest,
            403 => ErrorCode::PermissionDenied,
            404 => ErrorCode::NotFound,
            409 => ErrorCode::AlreadyExists,
            422 => ErrorCode::UnprocessableEntity,
            500 => ErrorCode::InternalError,
            503 => ErrorCode::ServiceUnavailable,
            504 => ErrorCode::Timeout,
            1000 => ErrorCode::ProbeCorrupt,
            1001 => ErrorCode::ProbeUnsupportedFormat,
            1002 => ErrorCode::ProbeNoVideoStream,
            1003 => ErrorCode::ProbeNoAudioStream,
            2000 => ErrorCode::SceneDetectionFailed,
            2001 => ErrorCode::SceneDetectionModelError,
            3000 => ErrorCode::TranscriptionFailed,
            3001 => ErrorCode::TranscriptionModelError,
            4000 => ErrorCode::VlmFailed,
            4001 => ErrorCode::VlmModelError,
            5000 => ErrorCode::AppleVisionFailed,
            5001 => ErrorCode::AppleVisionRequestFailed,
            6000 => ErrorCode::EmbeddingFailed,
            6001 => ErrorCode::EmbeddingModelError,
            6002 => ErrorCode::EmbeddingModelLoadFailed,
            6003 => ErrorCode::EmbeddingPreprocessFailed,
            6004 => ErrorCode::EmbeddingInferenceFailed,
            6005 => ErrorCode::EmbeddingOutputInvalid,
            7000 => ErrorCode::PathNotFound,
            7001 => ErrorCode::VolumeNotAvailable,
            7002 => ErrorCode::MissingVolumeId,
            7003 => ErrorCode::MalformedVolumeId,
            7004 => ErrorCode::VolumeIdMismatch,
            7005 => ErrorCode::LocalDatabaseError,
            7006 => ErrorCode::FolderNotAvailable,
            7007 => ErrorCode::LocalPermissionDenied,
            8000 => ErrorCode::EndpointUnreachable,
            8001 => ErrorCode::AuthenticationFailed,
            8002 => ErrorCode::BucketNotFound,
            8003 => ErrorCode::QuotaExceeded,
            8004 => ErrorCode::RemoteDatabaseError,
            8005 => ErrorCode::RemoteTimeout,
            9000 => ErrorCode::Cancelled,
            9001 => ErrorCode::OutOfMemory,
            10000 => ErrorCode::CedFailed,
            10001 => ErrorCode::CedRequestFailed,
            10002 => ErrorCode::CedModelError,
            other => ErrorCode::Unknown(UnknownErrorCode(other)),
        };
        proof {
            lemma_from_u32_as_u32(n);
        }
        r
    }

    /// Is this an `Unknown(_)` wire-preserved code?
    pub fn is_unknown(self) -> (r: bool)
        ensures
            r == (self is Unknown),
    {
        match self {
            ErrorCode::Unknown(_) => true,
            _ => false,
        }
    }
}

/// Wire → domain → wire is the identity: every `u32` survives
/// `from_u32` followed by `as_u32`, and decodes to a canonical code.
pub proof fn lemma_from_u32_as_u32(n: u32)
    ensures
        error_code_value(error_code_of(n)) == n,
        is_canonical(error_code_of(n)),
{
}

/// Domain → wire → domain is the identity on canonical codes (every code
/// the public API can produce): `from_u32(c.as_u32()) == c`.
pub proof fn lemma_as_u32_from_u32(c: ErrorCode)
    requires
        is_canonical(c),
    ensures
        error_code_of(error_code_value(c)) == c,
{
}

/// Information about an error: a stage-coded [`ErrorCode`] plus a
/// human-readable message (`""` = no message).
#[derive(Debug, PartialEq, Eq, Hash)]
pub struct ErrorInfo {
    pub code: ErrorCode,
    pub message: String,
}

impl Clone for ErrorInfo {
    /// The same code and message.
    fn clone(&self) -> (r: Self)
        ensures
            r == *self,
    {
        ErrorInfo { code: self.code, message: self.message.clone() }
    }
}

impl ErrorInfo {
    /// Construct with the given code and message.
    pub fn new(code: ErrorCode, message: &str) -> (r: Self)
        ensures
            r.code == code,
            r.message@ == message@,
    {
        ErrorInfo { code, message: message.to_owned() }
    }

    /// Construct with just a code (empty message).
    pub fn code_only(code: ErrorCode) -> (r: Self)
        ensures
            r.code == code,
            r.message@ == Seq::<char>::empty(),
    {
        ErrorInfo { code, message: String::new() }
    }

    /// The error's code.
    pub fn code(&self) -> (r: ErrorCode)
        ensures
            r == self.code,
    {
        self.code
    }

    /// The error's message.
    pub fn message(&self) -> (r: &str)
        ensures
            r@ == self.message@,
    {
        self.message.as_str()
    }
}

/// The wire table: every named code has its fixed protocol value, in both
/// directions. HTTP-style codes keep their HTTP status number; a pipeline
/// code takes its stage's thousand (probe 1000s, scene detection 2000s,
/// transcription 3000s, VLM 4000s, Apple Vision 5000s, embedding 6000s,
/// path / volume 7000s, remote 8000s, cancelled / resource 9000s, sound
/// events 10000s) plus its position within the stage.
pub proof fn lemma_wire_table()
    ensures
        error_code_value(ErrorCode::BadRequest) == 400 && error_code_of(400) == ErrorCode::BadRequest,
        error_code_value(ErrorCode::PermissionDenied) == 403 && error_code_of(403) == ErrorCode::PermissionDenied,
        error_code_value(ErrorCode::NotFound) == 404 && error_code_of(404) == ErrorCode::NotFound,
        error_code_value(ErrorCode::AlreadyExists) == 409 && error_code_of(409) == ErrorCode::AlreadyExists,
        error_code_value(ErrorCode::UnprocessableEntity) == 422 && error_code_of(422) == ErrorCode::UnprocessableEntity,
        error_code_value(ErrorCode::InternalError) == 500 && error_code_of(500) == ErrorCode::InternalError,
        error_code_value(ErrorCode::ServiceUnavailable) == 503 && error_code_of(503) == ErrorCode::ServiceUnavailable,
        error_code_value(ErrorCode::Timeout) == 504 && error_code_of(504) == ErrorCode::Timeout,
        error_code_value(ErrorCode::ProbeCorrupt) == 1000 && error_code_of(1000) == ErrorCode::ProbeCorrupt,
        error_code_value(ErrorCode::ProbeUnsupportedFormat) == 1001 && error_code_of(1001) == ErrorCode::ProbeUnsupportedFormat,
        error_code_value(ErrorCode::ProbeNoVideoStream) == 1002 && error_code_of(1002) == ErrorCode::ProbeNoVideoStream,
        error_code_value(ErrorCode::ProbeNoAudioStream) == 1003 && error_code_of(1003) == ErrorCode::ProbeNoAudioStream,
        error_code_value(ErrorCode::SceneDetectionFailed) == 2000 && error_code_of(2000) == ErrorCode::SceneDetectionFailed,
        error_code_value(ErrorCode::SceneDetectionModelError) == 2001 && error_code_of(2001) == ErrorCode::SceneDetectionModelError,
        error_code_value(ErrorCode::TranscriptionFailed) == 3000 && error_code_of(3000) == ErrorCode::TranscriptionFailed,
        error_code_value(ErrorCode::TranscriptionModelError) == 3001 && error_code_of(3001) == ErrorCode::TranscriptionModelError,
        error_code_value(ErrorCode::VlmFailed) == 4000 && error_code_of(4000) == ErrorCode::VlmFailed,
        error_code_value(ErrorCode::VlmModelError) == 4001 && error_code_of(4001) == ErrorCode::VlmModelError,
        error_code_value(ErrorCode::AppleVisionFailed) == 5000 && error_code_of(5000) == ErrorCode::AppleVisionFailed,
        error_code_value(ErrorCode::AppleVisionRequestFailed) == 5001 && error_code_of(5001) == ErrorCode::AppleVisionRequestFailed,
        error_code_value(ErrorCode::EmbeddingFailed) == 6000 && error_code_of(6000) == ErrorCode::EmbeddingFailed,
        error_code_value(ErrorCode::EmbeddingModelError) == 6001 && error_code_of(6001) == ErrorCode::EmbeddingModelError,
        error_code_value(ErrorCode::EmbeddingModelLoadFailed) == 6002 && error_code_of(6002) == ErrorCode::EmbeddingModelLoadFailed,
        error_code_value(ErrorCode::EmbeddingPreprocessFailed) == 6003 && error_code_of(6003) == ErrorCode::EmbeddingPreprocessFailed,
        error_code_value(ErrorCode::EmbeddingInferenceFailed) == 6004 && error_code_of(6004) == ErrorCode::EmbeddingInferenceFailed,
        error_code_value(ErrorCode::EmbeddingOutputInvalid) == 6005 && error_code_of(6005) == ErrorCode::EmbeddingOutputInvalid,
        error_code_value(ErrorCode::PathNotFound) == 7000 && error_code_of(7000) == ErrorCode::PathNotFound,
        error_code_value(ErrorCode::VolumeNotAvailable) == 7001 && error_code_of(7001) == ErrorCode::VolumeNotAvailable,
        error_code_value(ErrorCode::MissingVolumeId) == 7002 && error_code_of(7002) == ErrorCode::MissingVolumeId,
        error_code_value(ErrorCode::MalformedVolumeId) == 7003 && error_code_of(7003) == ErrorCode::MalformedVolumeId,
        error_code_value(ErrorCode::VolumeIdMismatch) == 7004 && error_code_of(7004) == ErrorCode::VolumeIdMismatch,
        error_code_value(ErrorCode::LocalDatabaseError) == 7005 && error_code_of(7005) == ErrorCode::LocalDatabaseError,
        error_code_value(ErrorCode::FolderNotAvailable) == 7006 && error_code_of(7006) == ErrorCode::FolderNotAvailable,
        error_code_value(ErrorCode::LocalPermissionDenied) == 7007 && error_code_of(7007) == ErrorCode::LocalPermissionDenied,
        error_code_value(ErrorCode::EndpointUnreachable) == 8000 && error_code_of(8000) == ErrorCode::EndpointUnreachable,
        error_code_value(ErrorCode::AuthenticationFailed) == 8001 && error_code_of(8001) == ErrorCode::AuthenticationFailed,
        error_code_value(ErrorCode::BucketNotFound) == 8002 && error_code_of(8002) == ErrorCode::BucketNotFound,
        error_code_value(ErrorCode::QuotaExceeded) == 8003 && error_code_of(8003) == ErrorCode::QuotaExceeded,
        error_code_value(ErrorCode::RemoteDatabaseError) == 8004 && error_code_of(8004) == ErrorCode::RemoteDatabaseError,
        error_code_value(ErrorCode::RemoteTimeout) == 8005 && error_code_of(8005) == ErrorCode::RemoteTimeout,
        error_code_value(ErrorCode::Cancelled) == 9000 && error_code_of(9000) == ErrorCode::Cancelled,
        error_code_value(ErrorCode::OutOfMemory) == 9001 && error_code_of(9001) == ErrorCode::OutOfMemory,
        error_code_value(ErrorCode::CedFailed) == 10000 && error_code_of(10000) == ErrorCode::CedFailed,
        error_code_value(ErrorCode::CedRequestFailed) == 10001 && error_code_of(10001) == ErrorCode::CedRequestFailed,
        error_code_value(ErrorCode::CedModelError) == 10002 && error_code_of(10002) == ErrorCode::CedModelError,
{
}

} // verus!
