use vstd::prelude::*;

verus! {

/// Error taxonomy of the library.
///
/// An expired or used invite is deliberately not an error: it is a normal
/// terminal lifecycle state, surfaced as a value rather than through this
/// type.
#[derive(Clone, Copy, Debug, PartialEq, Eq, Structural)]
pub enum AppError {
    /// An invite, user, or passkey identifier does not resolve.
    NotFound,
    /// Challenge generation or attestation verification failed.
    CryptoFailure,
    /// The persistence layer rejected an operation.
    PersistenceFailure,
}

impl AppError {
    /// A short human-readable description of the error.
    pub fn message(&self) -> (s: &'static str)
        ensures
            *self is NotFound ==> s@ == "not found"@,
            *self is CryptoFailure ==> s@ == "cryptographic operation failed"@,
            *self is PersistenceFailure ==> s@ == "persistence failure"@,
    {
        match self {
            AppError::NotFound => "not found",
            AppError::CryptoFailure => "cryptographic operation failed",
            AppError::PersistenceFailure => "persistence failure",
        }
    }
}

} // verus!
