//! The ways a request can fail, and the HTTP status each one maps to.

use vstd::prelude::*;

verus! {

/// Why a request was not served.
#[derive(Clone, Copy, Debug, PartialEq, Eq, Structural)]
pub enum ServiceError {
    /// The bearer credential is missing, malformed, wrongly signed or expired.
    AuthRejected,
    /// The request body does not have the expected shape.
    MalformedRequest,
    /// The service could not build its answer (clock or signing failure).
    Internal,
}

/// The HTTP status that stands for `e`.
pub open spec fn spec_status_code(e: ServiceError) -> u16 {
    match e {
        ServiceError::AuthRejected => 401u16,
        ServiceError::MalformedRequest => 400u16,
        ServiceError::Internal => 500u16,
    }
}

impl ServiceError {
    /// The HTTP status sent for this error; the body stays empty.
    pub fn status_code(&self) -> (code: u16)
        ensures
            code == spec_status_code(*self),
    {
        match self {
            ServiceError::AuthRejected => 401,
            ServiceError::MalformedRequest => 400,
            ServiceError::Internal => 500,
        }
    }
}

} // verus!
