//! The statuses the server answers with.

use vstd::prelude::*;

verus! {

/// The status of an answer, other than plain success.
#[derive(Clone, Copy, Debug, PartialEq, Eq, Structural)]
pub enum Status {
    /// The request led to a new stored file.
    Created,
    /// The request was at fault.
    BadRequest,
    /// The server could not do what was asked.
    InternalServerError,
}

impl Status {
    /// The status as a number.
    pub open spec fn number(self) -> int {
        match self {
            Status::Created => 201,
            Status::BadRequest => 400,
            Status::InternalServerError => 500,
        }
    }

    /// The status code to send.
    pub fn code(&self) -> (c: u16)
        ensures
            c == self.number(),
    {
        match self {
            Status::Created => 201,
            Status::BadRequest => 400,
            Status::InternalServerError => 500,
        }
    }
}

} // verus!
