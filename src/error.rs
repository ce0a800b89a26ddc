use vstd::prelude::*;

verus! {

/// The status every failure is answered with.
pub const INTERNAL_SERVER_ERROR: u16 = 500;

/// The single, flat error of the service: the descriptive text of whatever
/// failed underneath. No failure is told apart from another.
#[derive(Debug, Clone)]
pub struct AppError(pub String);

impl AppError {
    /// The error that carries the text of `cause`.
    pub fn new(cause: String) -> (r: AppError)
        ensures
            r.0@ == cause@,
    {
        AppError(cause)
    }

    /// The status this error is answered with: always an internal server
    /// error.
    pub fn status_code(&self) -> (r: u16)
        ensures
            r == INTERNAL_SERVER_ERROR,
    {
        INTERNAL_SERVER_ERROR
    }

    /// The response this error becomes: internal server error status, the
    /// cause's text as body.
    pub fn into_response_parts(self) -> (r: (u16, String))
        ensures
            r.0 == INTERNAL_SERVER_ERROR,
            r.1@ == self.0@,
    {
        let status = self.status_code();
        (status, self.0)
    }
}

} // verus!
