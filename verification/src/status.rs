//! The status codes that the handlers answer with.

use vstd::prelude::*;

verus! {

/// The outcome class of a reply.
#[derive(Clone, Copy, Debug, PartialEq, Eq, Structural)]
pub enum Status {
    /// The request was carried out.
    Success,
    /// The request could not be decoded, or the store refused the change.
    BadRequest,
    /// No post has the slug that was asked for.
    NotFound,
    /// The store failed while reading.
    InternalServerError,
}

impl Status {
    /// The numeric code of the status line.
    pub open spec fn code_of(self) -> u16 {
        match self {
            Status::Success => 200,
            Status::BadRequest => 400,
            Status::NotFound => 404,
            Status::InternalServerError => 500,
        }
    }

    /// Whether the status reports a carried-out request.
    pub open spec fn is_success(self) -> bool {
        self == Status::Success
    }

    /// The numeric code of the status line.
    pub fn code(&self) -> (code: u16)
        ensures
            code == self.code_of(),
    {
        match self {
            Status::Success => 200,
            Status::BadRequest => 400,
            Status::NotFound => 404,
            Status::InternalServerError => 500,
        }
    }
}

} // verus!
