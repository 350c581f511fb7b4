//! Error taxonomy of the domain layer.
//!
//! A `ValidationError` is recoverable by correcting the input and carries an
//! aggregated human-readable message.  A `RepositoryError` distinguishes a
//! missing record (`NotFound`) from an infrastructure failure (`Backend`).
//! Handlers propagate both unchanged, wrapped in `DomainError`.

use vstd::prelude::*;

verus! {

/// One or more field invariants were violated.  The message aggregates every
/// individual violation, in the order the fields were checked.
#[derive(Debug)]
pub struct ValidationError {
    message: String,
}

impl View for ValidationError {
    type V = Seq<char>;

    closed spec fn view(&self) -> Seq<char> {
        self.message@
    }
}

impl ValidationError {
    pub fn new(message: String) -> (r: Self)
        ensures
            r@ == message@,
    {
        ValidationError { message }
    }

    /// The aggregated human-readable message.
    pub fn message(&self) -> (r: String)
        ensures
            r@ == self@,
    {
        self.message.clone()
    }
}

impl Clone for ValidationError {
    fn clone(&self) -> (r: Self)
        ensures
            r@ == self@,
    {
        ValidationError { message: self.message.clone() }
    }
}

/// Failure reported by a storage adapter.
#[derive(Debug, Clone, Copy, PartialEq, Eq, Structural)]
pub enum RepositoryError {
    /// No item exists under the requested (owner, id) pair.
    NotFound,
    /// The backend was unavailable or the write failed; nothing was changed.
    Backend,
}

/// Any failure a command or query handler can propagate: either the input was
/// rejected by validation, or the repository reported a failure.  The handler
/// layer never translates errors; it returns them as they arose.
#[derive(Debug)]
pub enum DomainError {
    Validation(ValidationError),
    Repository(RepositoryError),
}

} // verus!
