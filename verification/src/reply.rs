//! The HTTP failures that the lookups answer with.
use vstd::prelude::*;

verus! {

/// A refused or failed request.
#[derive(PartialEq, Eq, Structural, Clone, Copy, Debug)]
pub enum HttpError {
    /// The request names something that is not served.
    BadRequest,
    /// What was asked for does not exist.
    NotFound,
    /// Something went wrong while answering.
    InternalServerError,
}

/// The HTTP status code of an error.
pub open spec fn code_of(e: HttpError) -> u16 {
    match e {
        HttpError::BadRequest => 400,
        HttpError::NotFound => 404,
        HttpError::InternalServerError => 500,
    }
}

impl HttpError {
    /// The HTTP status code of this error.
    pub fn status_code(&self) -> (r: u16)
        ensures
            r == code_of(*self),
    {
        match self {
            HttpError::BadRequest => 400,
            HttpError::NotFound => 404,
            HttpError::InternalServerError => 500,
        }
    }
}

} // verus!
