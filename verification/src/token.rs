use vstd::prelude::*;

verus! {

/// Coarse-grained authentication state derived from a session record.
///
/// `Unauthenticated` means the session proves no identity, `NeedsMfa` means a
/// user is established but a second factor is still outstanding, and
/// `Authenticated` means the login is fully verified. No other states exist.
#[derive(Clone, Copy, Debug, PartialEq, Eq, Structural)]
pub enum AuthState {
    Unauthenticated,
    NeedsMfa,
    Authenticated,
}

/// Per-request result of authentication derivation: the user payload together
/// with the coarse authentication state. Produced fresh per request and never
/// persisted.
pub struct AuthToken<U> {
    pub user: U,
    pub state: AuthState,
}

impl<U> AuthToken<U> {
    pub fn new(user: U, state: AuthState) -> (t: AuthToken<U>)
        ensures
            t.user == user,
            t.state == state,
    {
        AuthToken { user, state }
    }
}

/// Opaque failure marker: the session does not prove authentication. Carries
/// no detail, so nothing about the reason for the rejection can leak.
#[derive(Clone, Copy, Debug, PartialEq, Eq, Structural)]
pub struct UnauthorizedError;

/// A login-session write failed (the underlying store could not accept the
/// value). Surfaced synchronously to the login flow.
#[derive(Clone, Copy, Debug, PartialEq, Eq, Structural)]
pub struct InsertError;

/// A session read found an entry it could not interpret (a storage or schema
/// fault, distinct from the key simply being absent).
#[derive(Clone, Copy, Debug, PartialEq, Eq, Structural)]
pub struct ReadError;

} // verus!
