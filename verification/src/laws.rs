use vstd::prelude::*;
use crate::token::{AuthState, AuthToken, UnauthorizedError};
use crate::provider::{grants_token, mfa_key, token_of_session, user_key};

verus! {

/// A session with no readable `user` entry never yields a token: any
/// derivation outcome owed to such a record is the rejection. This covers
/// both an absent user entry and one the store cannot read back.
pub proof fn lemma_missing_user_fails_closed(
    keys: Set<Seq<char>>,
    strs: Map<Seq<char>, Seq<char>>,
    r: Result<AuthToken<String>, UnauthorizedError>,
)
    requires
        !strs.contains_key(user_key()),
        token_of_session(keys, strs, r),
    ensures
        r is Err,
{
}

/// A session with a readable `user` entry and no `needs_mfa` entry owes a
/// token carrying exactly that user, fully authenticated.
pub proof fn lemma_user_without_mfa_is_authenticated(
    keys: Set<Seq<char>>,
    strs: Map<Seq<char>, Seq<char>>,
    r: Result<AuthToken<String>, UnauthorizedError>,
)
    requires
        strs.contains_key(user_key()),
        !keys.contains(mfa_key()),
        !strs.contains_key(mfa_key()),
        token_of_session(keys, strs, r),
    ensures
        r matches Ok(t) && t.user@ == strs[user_key()] && t.state == AuthState::Authenticated,
{
}

/// A session with a readable `user` entry and any readable `needs_mfa` value
/// owes a token carrying exactly that user, with the second factor still
/// outstanding — partial MFA state is never mistaken for full authentication.
pub proof fn lemma_user_with_mfa_needs_mfa(
    keys: Set<Seq<char>>,
    strs: Map<Seq<char>, Seq<char>>,
    r: Result<AuthToken<String>, UnauthorizedError>,
)
    requires
        strs.contains_key(user_key()),
        strs.contains_key(mfa_key()),
        token_of_session(keys, strs, r),
    ensures
        r matches Ok(t) && t.user@ == strs[user_key()] && t.state == AuthState::NeedsMfa,
{
}

/// Once the MFA challenge is completed the `needs_mfa` entry is gone from the
/// record, and a fresh derivation on that record never yields `NeedsMfa`:
/// whatever `mfa_challenge_done` leaves behind, the outcome owed to it is
/// either a fully authenticated token or the rejection.
pub proof fn lemma_mfa_done_never_needs_mfa(
    keys: Set<Seq<char>>,
    strs: Map<Seq<char>, Seq<char>>,
    r: Result<AuthToken<String>, UnauthorizedError>,
)
    requires
        !keys.contains(mfa_key()),
        !strs.contains_key(mfa_key()),
        token_of_session(keys, strs, r),
    ensures
        !(r matches Ok(t) && t.state == AuthState::NeedsMfa),
        r matches Ok(t) ==> t.state == AuthState::Authenticated,
{
}

/// A destroyed session record holds nothing, so any derivation outcome owed
/// to it is the rejection: logout revokes authentication.
pub proof fn lemma_destroyed_session_fails_closed(
    r: Result<AuthToken<String>, UnauthorizedError>,
)
    requires
        token_of_session(Set::empty(), Map::empty(), r),
    ensures
        r is Err,
{
    assert(!grants_token(Set::empty(), Map::empty()));
}

} // verus!
