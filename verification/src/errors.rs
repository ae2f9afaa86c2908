//! Error taxonomy: parse failures, startup failures, store-level failures
//! and the caller-facing service failures.

use vstd::prelude::*;

verus! {

/// Malformed enum text: the string is not the canonical form of any variant.
#[derive(Clone, Copy, Debug, PartialEq, Eq, Structural)]
pub struct ParseError;

/// The backing store could not be opened, or its schema could not be
/// applied. Fatal at startup: the process must not proceed without a
/// usable store.
#[derive(Debug)]
pub struct InitError {
    pub message: String,
}

/// A store-level failure, surfaced by the repository.
#[derive(Debug)]
pub enum RepoError {
    /// The id being inserted already exists (primary-key violation).
    Conflict,
    /// No row matches the requested id.
    NotFound,
    /// A stored column that should hold canonical enum text holds something
    /// else; carries the column name and the offending value. Corruption is
    /// reported, never coerced or dropped.
    Corrupt(String, String),
    /// Any other failure of the store, carried as its message.
    Underlying(String),
}

/// A caller-facing failure of the service layer.
#[derive(Debug)]
pub enum ServiceError {
    /// The amount was zero or negative; nothing was written.
    InvalidAmount,
    /// The shared connection lock is unusable; fatal for the process.
    LockFailure,
    /// A repository failure, passed through unchanged.
    Repo(RepoError),
}

/// Error wrapper handed to the surrounding request-handling layer, which
/// owns turning it into a response.
#[derive(Debug)]
pub struct AppError(pub String);

impl AppError {
    /// The wrapped message.
    pub fn message(&self) -> (r: String)
        ensures
            r@ == self.0@,
    {
        self.0.clone()
    }
}

} // verus!
