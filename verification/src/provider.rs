use vstd::prelude::*;
use crate::token::{AuthState, AuthToken, ReadError, UnauthorizedError};
use crate::store::{
    session_get_str, session_keys, session_purge, session_purged, session_renew_pending,
    session_blank, session_strs, SessionStore,
};

verus! {

/// The reserved session key the user payload is stored under.
pub open spec fn user_key() -> Seq<char> {
    "user"@
}

/// The reserved session key that holds the identifier of an outstanding
/// second factor.
pub open spec fn mfa_key() -> Seq<char> {
    "needs_mfa"@
}

/// The reserved session key that holds the login freshness deadline.
pub open spec fn valid_until_key() -> Seq<char> {
    "login_valid_until"@
}

/// Whether a session record with key set `keys` and string-readable entries
/// `strs` proves an identity at all: the user payload must be present and
/// readable, and the MFA entry, if present, must be readable.
pub open spec fn grants_token(keys: Set<Seq<char>>, strs: Map<Seq<char>, Seq<char>>) -> bool {
    strs.contains_key(user_key()) && (keys.contains(mfa_key()) ==> strs.contains_key(mfa_key()))
}

/// The authentication state owed by a session record that proves an identity:
/// `NeedsMfa` exactly when an MFA entry is present, `Authenticated` otherwise.
pub open spec fn state_of_session(keys: Set<Seq<char>>, strs: Map<Seq<char>, Seq<char>>) -> AuthState {
    if strs.contains_key(mfa_key()) {
        AuthState::NeedsMfa
    } else {
        AuthState::Authenticated
    }
}

/// The full contract of authentication derivation on a session record with
/// key set `keys` and string-readable entries `strs`: a token is granted if
/// and only if the record proves an identity, the token carries exactly the
/// stored user payload, and its state is exactly the one the record owes.
pub open spec fn token_of_session(
    keys: Set<Seq<char>>,
    strs: Map<Seq<char>, Seq<char>>,
    r: Result<AuthToken<String>, UnauthorizedError>,
) -> bool {
    match r {
        Ok(t) => grants_token(keys, strs) && t.user@ == strs[user_key()]
            && t.state == state_of_session(keys, strs),
        Err(_) => !grants_token(keys, strs),
    }
}

/// Combines the two independent session reads into the derivation outcome,
/// in isolation from any store. Fails closed: a missing or unreadable user
/// payload, or an unreadable MFA entry, yields the rejection; otherwise the
/// token carries the user and is `NeedsMfa` exactly when an MFA entry was
/// found.
pub fn derive_token(
    user_read: Result<Option<String>, ReadError>,
    mfa_read: Result<Option<String>, ReadError>,
) -> (r: Result<AuthToken<String>, UnauthorizedError>)
    ensures
        match (user_read, mfa_read) {
            (Ok(Some(u)), Ok(Some(_))) => r matches Ok(t) && t.user == u && t.state == AuthState::NeedsMfa,
            (Ok(Some(u)), Ok(None)) => r matches Ok(t) && t.user == u && t.state == AuthState::Authenticated,
            _ => r is Err,
        },
{
    let (r, _fault) = derive_token_observed(user_read, mfa_read);
    r
}

/// Like `derive_token`, but also reports the operational fault: whether the
/// MFA read itself errored on an established user (a store or schema defect,
/// distinct from an ordinary unauthenticated visitor). The caller is still
/// handed only the opaque rejection; the flag lets the transport layer
/// surface the fault to its observability channel.
pub fn derive_token_observed(
    user_read: Result<Option<String>, ReadError>,
    mfa_read: Result<Option<String>, ReadError>,
) -> (out: (Result<AuthToken<String>, UnauthorizedError>, bool))
    ensures
        out.1 == (user_read matches Ok(Some(_)) && mfa_read is Err),
        match (user_read, mfa_read) {
            (Ok(Some(u)), Ok(Some(_))) => out.0 matches Ok(t) && t.user == u && t.state == AuthState::NeedsMfa,
            (Ok(Some(u)), Ok(None)) => out.0 matches Ok(t) && t.user == u && t.state == AuthState::Authenticated,
            _ => out.0 is Err,
        },
{
    let user = match user_read {
        Ok(Some(u)) => u,
        _ => {
            return (Err(UnauthorizedError), false);
        },
    };
    match mfa_read {
        Ok(Some(_factor)) => (Ok(AuthToken { user, state: AuthState::NeedsMfa }), false),
        Ok(None) => (Ok(AuthToken { user, state: AuthState::Authenticated }), false),
        Err(_) => (Err(UnauthorizedError), true),
    }
}

/// Maps the outcome of a raw store read to the derivation's own read type,
/// preserving the value and turning the store's fault into `ReadError`.
pub fn to_read_outcome(raw: Result<Option<String>, actix_session::SessionGetError>) -> (r: Result<Option<String>, ReadError>)
    ensures
        match raw {
            Ok(v) => r == Ok::<Option<String>, ReadError>(v),
            Err(_) => r == Err::<Option<String>, ReadError>(ReadError),
        },
{
    match raw {
        Ok(v) => Ok(v),
        Err(_) => Err(ReadError),
    }
}

/// Maps the outcome of a raw integer store read to the freshness check's own
/// read type, preserving the value and turning the store's fault into
/// `ReadError`.
pub fn to_read_outcome_u64(raw: Result<Option<u64>, actix_session::SessionGetError>) -> (r: Result<Option<u64>, ReadError>)
    ensures
        match raw {
            Ok(v) => r == Ok::<Option<u64>, ReadError>(v),
            Err(_) => r == Err::<Option<u64>, ReadError>(ReadError),
        },
{
    match raw {
        Ok(v) => Ok(v),
        Err(_) => Err(ReadError),
    }
}

/// Provider for session-based authentication: a stateless translation of one
/// client's session record into an authentication token, or a rejection.
#[derive(Clone, Copy)]
pub struct SessionAuthProvider;

impl SessionAuthProvider {
    /// Derives the authentication token owed by the session record: the
    /// stored user payload together with `NeedsMfa` or `Authenticated`, or
    /// the opaque rejection when the record does not prove authentication.
    /// Never consults the login freshness deadline; that check belongs to
    /// the login flow.
    pub fn get_auth_token(&self, store: &SessionStore) -> (r: Result<AuthToken<String>, UnauthorizedError>)
        ensures
            token_of_session(session_keys(store.inner), session_strs(store.inner), r),
    {
        let (r, _fault) = self.get_auth_token_observed(store);
        r
    }

    /// Like `get_auth_token`, but also reports the operational fault: the
    /// flag is set exactly when the user is established and the record holds
    /// an MFA entry the store cannot read back — a store or schema defect the
    /// transport layer should surface to its observability channel, distinct
    /// from an ordinary unauthenticated visitor, who gets the same opaque
    /// rejection.
    pub fn get_auth_token_observed(&self, store: &SessionStore) -> (out: (Result<AuthToken<String>, UnauthorizedError>, bool))
        ensures
            token_of_session(session_keys(store.inner), session_strs(store.inner), out.0),
            out.1 == (session_strs(store.inner).contains_key(user_key())
                && session_keys(store.inner).contains(mfa_key())
                && !session_strs(store.inner).contains_key(mfa_key())),
    {
        let user_read = to_read_outcome(session_get_str(store, "user"));
        let mfa_read = to_read_outcome(session_get_str(store, "needs_mfa"));
        derive_token_observed(user_read, mfa_read)
    }

    /// Purges the session record unconditionally: afterwards it holds
    /// nothing, so any later derivation on it fails closed. Used for logout.
    pub fn invalidate(&self, store: &mut SessionStore)
        ensures
            session_purged(final(store).inner),
            !session_renew_pending(final(store).inner),
            session_blank(final(store).inner),
    {
        session_purge(store);
    }
}

} // verus!
