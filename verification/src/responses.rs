use vstd::prelude::*;

verus! {

/// The outcomes a data-access operation can report.
#[derive(Debug, PartialEq, Eq, Structural, Clone, Copy)]
pub enum CRUDError {
    NotFound,
    MaxRetry,
    WrongParameters,
    Write,
    Delete,
    JsonError,
    InternalError,
}

/// The HTTP status code each data-access outcome is answered with.
pub open spec fn crud_error_status(e: CRUDError) -> int {
    match e {
        CRUDError::NotFound => 404,
        CRUDError::MaxRetry => 406,
        CRUDError::WrongParameters => 404,
        CRUDError::Write => 500,
        CRUDError::Delete => 500,
        CRUDError::JsonError => 500,
        CRUDError::InternalError => 500,
    }
}

impl CRUDError {
    pub fn status(&self) -> (r: u16)
        ensures
            r == crud_error_status(*self),
    {
        match self {
            CRUDError::NotFound => 404,
            CRUDError::MaxRetry => 406,
            CRUDError::WrongParameters => 404,
            CRUDError::Write => 500,
            CRUDError::Delete => 500,
            CRUDError::JsonError => 500,
            CRUDError::InternalError => 500,
        }
    }
}

/// The status code for a whole operation result: success answers 200, an
/// error answers its own code.
pub fn response_status<T>(result: &Result<T, CRUDError>) -> (r: u16)
    ensures
        r == (match result {
            Ok(_) => 200int,
            Err(e) => crud_error_status(*e),
        }),
{
    match result {
        Ok(_) => 200,
        Err(e) => e.status(),
    }
}

/// A JSON response body wrapper.
pub struct AppJson<T>(pub T);

/// How error responses are serialized.
pub struct ErrorMessage {
    pub message: String,
}

impl ErrorMessage {
    pub fn new(message: String) -> (r: Self)
        ensures
            r.message@ == message@,
    {
        ErrorMessage { message }
    }
}

} // verus!
