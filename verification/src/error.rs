//! The ways a request can fail, and the HTTP status each outcome is answered
//! with.

use vstd::prelude::*;

verus! {

/// Why an operation on the todo table did not go through.
#[derive(Debug, Clone, Copy, PartialEq, Eq, Structural)]
pub enum ServiceError {
    /// No row has the requested id. An expected outcome, not a fault.
    NotFound,
    /// The input is malformed or lacks a required part.
    Validation,
    /// The table itself could not carry out the operation.
    Storage,
}

/// The HTTP statuses this service answers with.
#[derive(Debug, Clone, Copy, PartialEq, Eq, Structural)]
pub enum StatusCode {
    Okay,
    Created,
    NoContent,
    BadRequest,
    NotFound,
    InternalServerError,
}

impl StatusCode {
    /// The number that goes on the wire.
    pub open spec fn code(self) -> int {
        match self {
            StatusCode::Okay => 200,
            StatusCode::Created => 201,
            StatusCode::NoContent => 204,
            StatusCode::BadRequest => 400,
            StatusCode::NotFound => 404,
            StatusCode::InternalServerError => 500,
        }
    }

    /// A status in the 2xx range.
    pub open spec fn is_success(self) -> bool {
        200 <= self.code() < 300
    }

    pub fn as_u16(&self) -> (number: u16)
        ensures
            number == self.code(),
    {
        match self {
            StatusCode::Okay => 200,
            StatusCode::Created => 201,
            StatusCode::NoContent => 204,
            StatusCode::BadRequest => 400,
            StatusCode::NotFound => 404,
            StatusCode::InternalServerError => 500,
        }
    }
}

impl ServiceError {
    /// The status a failure is reported with: 404 for a missing row, 400 for
    /// bad input, 500 for a storage fault.
    pub open spec fn status_of(self) -> StatusCode {
        match self {
            ServiceError::NotFound => StatusCode::NotFound,
            ServiceError::Validation => StatusCode::BadRequest,
            ServiceError::Storage => StatusCode::InternalServerError,
        }
    }

    pub fn status(&self) -> (status: StatusCode)
        ensures
            status == self.status_of(),
            !status.is_success(),
    {
        match self {
            ServiceError::NotFound => StatusCode::NotFound,
            ServiceError::Validation => StatusCode::BadRequest,
            ServiceError::Storage => StatusCode::InternalServerError,
        }
    }
}

} // verus!
