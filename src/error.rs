//! Errors of the transport and the resource clients.
use vstd::prelude::*;

verus! {

/// A failed request. `InvalidToken` tells the caller that the bearer token
/// must be refreshed; every other failure carries a description.
#[derive(Debug, Clone, PartialEq, Eq)]
pub enum ClientError {
    /// The service answered that the bearer token is no longer valid.
    InvalidToken,
    /// The HTTP layer failed.
    HttpError(String),
    /// Any other failure: a malformed URL, a header that is not text, a body
    /// that could not be encoded or decoded.
    UnknownError(String),
}

/// The result of a request.
pub type ClientResult<T> = Result<T, ClientError>;

} // verus!
