//! Failures that repository operations report.

use vstd::prelude::*;

verus! {

/// Why a repository operation did not succeed.
#[derive(Clone, Copy, Debug, PartialEq, Eq, Structural)]
pub enum RepositoryError {
    /// No record is stored under the identifier.
    NotFound(i32),
    /// Every identifier the store can assign has already been handed out.
    IdsExhausted,
}

} // verus!
