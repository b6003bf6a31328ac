//! Errors of the API server and the gRPC status each one is answered with.

use vstd::prelude::*;
use crate::error::CoreError;

verus! {

/// gRPC status codes the API answers with.
#[derive(Debug, Clone, Copy, PartialEq, Eq, Structural)]
pub enum GrpcCode {
    InvalidArgument,
    NotFound,
    AlreadyExists,
    FailedPrecondition,
    DeadlineExceeded,
    PermissionDenied,
    Unavailable,
    Internal,
}

/// Errors that can occur in API operations.
#[derive(Debug, Clone)]
pub enum ApiError {
    /// A core error.
    Core(CoreError),
    /// The gRPC transport failed.
    Grpc(String),
    /// Server error.
    Server(String),
    /// Transport error.
    Transport(String),
}

/// The status of an HTTP-style code an agent reported.
pub open spec fn agent_status(code: i32) -> GrpcCode {
    if code == 400 {
        GrpcCode::InvalidArgument
    } else if code == 404 {
        GrpcCode::NotFound
    } else if code == 409 {
        GrpcCode::AlreadyExists
    } else if code == 412 {
        GrpcCode::FailedPrecondition
    } else if code == 503 {
        GrpcCode::Unavailable
    } else {
        GrpcCode::Internal
    }
}

/// The status an API error is answered with: typed core errors keep their
/// meaning (bad input, missing, duplicate, wrong state), agent errors map
/// their code, a failed transport is unavailable, anything else internal.
pub open spec fn status_of(err: ApiError) -> GrpcCode {
    match err {
        ApiError::Core(CoreError::Config(_)) => GrpcCode::InvalidArgument,
        ApiError::Core(CoreError::NotFound(_)) => GrpcCode::NotFound,
        ApiError::Core(CoreError::AlreadyExists(_)) => GrpcCode::AlreadyExists,
        ApiError::Core(CoreError::InvalidState(_)) => GrpcCode::FailedPrecondition,
        ApiError::Core(CoreError::Agent { code, .. }) => agent_status(code),
        ApiError::Grpc(_) => GrpcCode::Unavailable,
        _ => GrpcCode::Internal,
    }
}

/// The status of an HTTP-style code an agent reported.
pub fn agent_code_status(code: i32) -> (s: GrpcCode)
    ensures
        s == agent_status(code),
{
    if code == 400 {
        GrpcCode::InvalidArgument
    } else if code == 404 {
        GrpcCode::NotFound
    } else if code == 409 {
        GrpcCode::AlreadyExists
    } else if code == 412 {
        GrpcCode::FailedPrecondition
    } else if code == 503 {
        GrpcCode::Unavailable
    } else {
        GrpcCode::Internal
    }
}

impl ApiError {
    /// Creates a configuration error.
    pub fn config(msg: &str) -> (e: Self)
        ensures
            e matches ApiError::Core(CoreError::Config(m)) && m@ == msg@,
    {
        ApiError::Core(CoreError::Config(msg.to_owned()))
    }

    /// The gRPC status this error is answered with.
    pub fn status_code(&self) -> (s: GrpcCode)
        ensures
            s == status_of(*self),
    {
        match self {
            ApiError::Core(CoreError::Config(_)) => GrpcCode::InvalidArgument,
            ApiError::Core(CoreError::NotFound(_)) => GrpcCode::NotFound,
            ApiError::Core(CoreError::AlreadyExists(_)) => GrpcCode::AlreadyExists,
            ApiError::Core(CoreError::InvalidState(_)) => GrpcCode::FailedPrecondition,
            ApiError::Core(CoreError::Agent { code, .. }) => agent_code_status(*code),
            ApiError::Grpc(_) => GrpcCode::Unavailable,
            _ => GrpcCode::Internal,
        }
    }
}

} // verus!
