//! What can go wrong, in terms a caller can act on.

use vstd::prelude::*;
use vstd::string::StringExecFns;

verus! {

/// A stored password hash that could not be checked against a password.
#[derive(Debug, Clone, Copy, PartialEq, Eq)]
pub struct HashError;

/// Why submitted fields were turned down by field validation.
#[derive(Debug, Clone, PartialEq, Eq)]
pub struct ValidationError {
    pub details: String,
}

/// A failure reported by the user repository.
#[derive(Debug, Clone, PartialEq, Eq)]
pub enum RepoError {
    /// A record with the same unique key is already there.
    DuplicateKey,
    /// No record answers the query.
    NotFound,
    /// Any other failure, in the repository's own words.
    Other(String),
}

/// The result code by which a database reports a broken integrity
/// constraint, such as a second record under a unique email.
pub const INTEGRITY_VIOLATION: &'static str = "23000";

/// What a failure that a database reported is to the repository's callers.
pub open spec fn database_failure(code: Option<Seq<char>>, message: String) -> RepoError {
    if code == Some(INTEGRITY_VIOLATION@) {
        RepoError::DuplicateKey
    } else {
        RepoError::Other(message)
    }
}

impl RepoError {
    /// Classifies a failure that a database reported with result code
    /// `code`, if it gave one, and with `message`.
    pub fn from_database(code: Option<&str>, message: String) -> (failure: RepoError)
        ensures
            failure == database_failure(
                match code {
                    Some(c) => Some(c@),
                    None => None,
                },
                message,
            ),
    {
        match code {
            Some(c) => {
                if String::from_str(c) == String::from_str(INTEGRITY_VIOLATION) {
                    RepoError::DuplicateKey
                } else {
                    RepoError::Other(message)
                }
            },
            None => RepoError::Other(message),
        }
    }
}

/// A failure reported by the session store.
#[derive(Debug, Clone, PartialEq, Eq)]
pub struct StoreError {
    pub reason: String,
}

/// The failures of the authentication service.
#[derive(Debug, Clone, PartialEq, Eq)]
pub enum AuthError {
    /// No user is registered under the submitted email, given as submitted.
    UnknownEmail(String),
    /// The email of a signup already belongs to a user.
    EmailAlreadyExists,
    /// Access is denied. Which check failed is deliberately not told.
    Unauthorized,
    /// Field validation turned the request down.
    ValidationFailed(ValidationError),
    /// The user repository failed.
    RepositoryFailure(RepoError),
    /// The session store failed.
    StoreFailure(StoreError),
}

} // verus!
