use vstd::prelude::*;

verus! {

/// The error taxonomy of the authentication core.
#[derive(Clone, Copy, Debug, PartialEq, Eq, Structural)]
pub enum AuthError {
    /// A lookup missed. Expected and non-fatal: it drives the "create" and
    /// "unauthenticated" branches.
    NotFound,
    /// A uniqueness constraint was violated. Expected under concurrent
    /// duplicate logins; it must not crash the request.
    Conflict,
    /// A missing or invalid credential. Collapses every authentication
    /// failure into one answer, so nothing internal leaks to the client.
    Unauthorized,
    /// The identity provider or the network towards it failed.
    UpstreamAuthError,
    /// The persistence layer itself failed.
    StorageError,
}

} // verus!
