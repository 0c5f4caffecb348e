use vstd::prelude::*;

verus! {

/// The statuses a handler can answer with.
#[derive(Clone, Copy, Debug, PartialEq, Eq, Structural)]
pub enum Status {
    Success,
    Created,
    BadRequest,
    Unauthorized,
    NotFound,
    Conflict,
    UnprocessableEntity,
    InternalServerError,
}

impl Status {
    /// The numeric code that goes on the wire.
    pub open spec fn spec_code(self) -> u16 {
        match self {
            Status::Success => 200,
            Status::Created => 201,
            Status::BadRequest => 400,
            Status::Unauthorized => 401,
            Status::NotFound => 404,
            Status::Conflict => 409,
            Status::UnprocessableEntity => 422,
            Status::InternalServerError => 500,
        }
    }

    pub fn code(self) -> (code: u16)
        ensures
            code == self.spec_code(),
    {
        match self {
            Status::Success => 200,
            Status::Created => 201,
            Status::BadRequest => 400,
            Status::Unauthorized => 401,
            Status::NotFound => 404,
            Status::Conflict => 409,
            Status::UnprocessableEntity => 422,
            Status::InternalServerError => 500,
        }
    }
}

/// A failure as the caller sees it: a fixed message and a status, nothing
/// of the internal cause.
#[derive(Clone, Copy, Debug, PartialEq, Eq)]
pub struct ApiError {
    pub error: &'static str,
    pub status: Status,
}

impl ApiError {
    pub open spec fn spec_new(error: &'static str, status: Status) -> ApiError {
        ApiError { error, status }
    }

    #[verifier::when_used_as_spec(spec_new)]
    pub fn new(error: &'static str, status: Status) -> (failure: ApiError)
        ensures
            failure == ApiError::spec_new(error, status),
    {
        ApiError { error, status }
    }

    /// A store or file-system failure, reported without its cause.
    pub open spec fn spec_internal(error: &'static str) -> ApiError {
        ApiError { error, status: Status::InternalServerError }
    }

    #[verifier::when_used_as_spec(spec_internal)]
    pub fn internal(error: &'static str) -> (failure: ApiError)
        ensures
            failure == ApiError::spec_internal(error),
    {
        ApiError { error, status: Status::InternalServerError }
    }
}

} // verus!
