use vstd::prelude::*;

verus! {

/// The errors a request can end in, each answered with an HTTP status.
#[derive(Debug, PartialEq, Eq)]
pub enum AppError {
    BadRequest(String),
    Unauthorized,
    NotFound(String),
    Internal(String),
}

/// The HTTP status that answers an error.
pub open spec fn status_of(e: AppError) -> u16 {
    match e {
        AppError::BadRequest(_) => 400,
        AppError::Unauthorized => 401,
        AppError::NotFound(_) => 404,
        AppError::Internal(_) => 500,
    }
}

impl AppError {
    /// The HTTP status code with which this error is answered.
    pub fn status_code(&self) -> (code: u16)
        ensures
            code == status_of(*self),
    {
        match self {
            AppError::BadRequest(_) => 400,
            AppError::Unauthorized => 401,
            AppError::NotFound(_) => 404,
            AppError::Internal(_) => 500,
        }
    }
}

} // verus!
