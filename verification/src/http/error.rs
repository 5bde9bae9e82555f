//! The errors that a handler answers with, and their status codes.

use vstd::prelude::*;
use crate::error::ResolveError;

verus! {

/// What a handler can fail with. The last three stand for faults inside the
/// server: of serialization, of the database, and of anything else.
#[derive(Clone, Copy, Debug, PartialEq, Eq, Structural)]
pub enum Error {
    BadRequest,
    Unauthorized,
    Forbidden,
    NotFound,
    Error,
    SerdeJson,
    Sqlx,
    Anyhow,
}

impl Error {
    /// The status code of the answer: 401, 403 and 404 for the errors of those
    /// names, 500 for every other.
    pub open spec fn status(self) -> int {
        match self {
            Error::Unauthorized => 401,
            Error::Forbidden => 403,
            Error::NotFound => 404,
            _ => 500,
        }
    }

    /// The line that describes the error.
    pub open spec fn message(self) -> Seq<char> {
        match self {
            Error::BadRequest => "400 Bad Request"@,
            Error::Unauthorized => "401 Unauthorized"@,
            Error::Forbidden => "403 Forbidden"@,
            Error::NotFound => "404 Not Found"@,
            _ => "500 Internal Server Error"@,
        }
    }

    /// The error that a failed resolution is answered with. A workspace, a
    /// commit, a path or a content that does not resolve is not found: none of
    /// them is a fault of the server.
    pub open spec fn of_resolve(e: ResolveError) -> Error {
        Error::NotFound
    }

    /// The status code of the answer.
    pub fn status_code(&self) -> (code: u16)
        ensures
            code == self.status(),
    {
        match self {
            Error::Unauthorized => 401,
            Error::Forbidden => 403,
            Error::NotFound => 404,
            _ => 500,
        }
    }

    /// The line that describes the error.
    pub fn to_string(&self) -> (line: String)
        ensures
            line@ == self.message(),
    {
        match self {
            Error::BadRequest => String::from_str("400 Bad Request"),
            Error::Unauthorized => String::from_str("401 Unauthorized"),
            Error::Forbidden => String::from_str("403 Forbidden"),
            Error::NotFound => String::from_str("404 Not Found"),
            _ => String::from_str("500 Internal Server Error"),
        }
    }
}

impl From<ResolveError> for Error {
    fn from(e: ResolveError) -> (error: Error) {
        Error::NotFound
    }
}

impl vstd::std_specs::convert::FromSpecImpl<ResolveError> for Error {
    open spec fn obeys_from_spec() -> bool {
        true
    }

    open spec fn from_spec(e: ResolveError) -> Error {
        Error::of_resolve(e)
    }
}

/// Every failed resolution is answered with 404.
pub proof fn lemma_resolve_errors_are_not_found(e: ResolveError)
    ensures
        Error::of_resolve(e).status() == 404,
{
}

} // verus!
