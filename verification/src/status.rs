//! The status code with which each endpoint answers an outcome of the
//! repository.

use vstd::prelude::*;

use crate::error::RepositoryError;

verus! {

/// The status of a request whose body could not be read or was not valid.
pub const BAD_REQUEST: u16 = 400;

/// The endpoints that the service offers over the repository.
#[derive(Clone, Copy, Debug, PartialEq, Eq, Structural)]
pub enum Endpoint {
    /// `POST /books`
    CreateBook,
    /// `GET /books/{id}`
    FindBook,
    /// `GET /books`
    AllBooks,
    /// `PATCH /books/{id}`
    UpdateBook,
    /// `DELETE /books/{id}`
    DeleteBook,
}

/// The status with which `endpoint` answers a success: 201 for a creation
/// and for an update, 204 for a deletion, 200 for a lookup and a listing.
pub open spec fn success_status(endpoint: Endpoint) -> u16 {
    match endpoint {
        Endpoint::CreateBook => 201,
        Endpoint::FindBook => 200,
        Endpoint::AllBooks => 200,
        Endpoint::UpdateBook => 201,
        Endpoint::DeleteBook => 204,
    }
}

/// The status with which every endpoint answers a failure: 404 where the
/// book was not found, 500 for any other failure.
pub open spec fn failure_status(error: RepositoryError) -> u16 {
    match error {
        RepositoryError::NotFound(_) => 404,
        RepositoryError::IdsExhausted => 500,
    }
}

/// The status with which `endpoint` answers `outcome`.
pub open spec fn response_status<T>(endpoint: Endpoint, outcome: Result<T, RepositoryError>) -> u16 {
    match outcome {
        Ok(_) => success_status(endpoint),
        Err(error) => failure_status(error),
    }
}

/// Computes the status with which `endpoint` answers `outcome`.
pub fn status_code<T>(endpoint: Endpoint, outcome: &Result<T, RepositoryError>) -> (code: u16)
    ensures
        code == response_status(endpoint, *outcome),
{
    match outcome {
        Ok(_) => match endpoint {
            Endpoint::CreateBook => 201,
            Endpoint::FindBook => 200,
            Endpoint::AllBooks => 200,
            Endpoint::UpdateBook => 201,
            Endpoint::DeleteBook => 204,
        },
        Err(RepositoryError::NotFound(_)) => 404,
        Err(RepositoryError::IdsExhausted) => 500,
    }
}

/// A failed operation is never answered as a success, and a missing book is
/// answered with 404 by every endpoint.
pub proof fn lemma_failure_is_reported<T>(endpoint: Endpoint, outcome: Result<T, RepositoryError>)
    ensures
        outcome is Err ==> response_status(endpoint, outcome) >= 400,
        outcome is Ok ==> 200 <= response_status(endpoint, outcome) < 300,
        outcome matches Err(RepositoryError::NotFound(_)) ==> response_status(endpoint, outcome)
            == 404,
{
}

} // verus!
