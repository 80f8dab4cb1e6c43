use vstd::prelude::*;
use crate::token::{InsertError, ReadError};
use crate::provider::{mfa_key, to_read_outcome_u64, user_key, valid_until_key};
use crate::store::{
    now_secs, session_blank, session_clear, session_get_u64, session_insert_str,
    session_insert_u64, session_keys, session_nums, session_purge, session_purged,
    session_remove, session_renew, session_renew_pending, session_strs, SessionStore,
};

verus! {

/// Whether a login whose freshness read gave `read` is stale at time `now`
/// (both in whole seconds since the Unix epoch). Fail-closed: an absent or
/// unreadable deadline is stale; a stored deadline is stale exactly when
/// `now` has passed it.
pub open spec fn stale_at(read: Result<Option<u64>, ReadError>, now: u64) -> bool {
    match read {
        Ok(Some(deadline)) => now > deadline,
        _ => true,
    }
}

/// Decides staleness from the outcome of the freshness read and the current
/// time, in isolation from any store.
pub fn login_stale(read: &Result<Option<u64>, ReadError>, now: u64) -> (r: bool)
    ensures
        r == stale_at(*read, now),
{
    match read {
        Ok(Some(deadline)) => now > *deadline,
        _ => true,
    }
}

/// Typed facade over one client's session record, exposing the login
/// lifecycle: set the user after a successful primary login, track an
/// outstanding MFA challenge, set and check the login freshness deadline,
/// and reset or destroy the session.
pub struct LoginSession {
    pub store: SessionStore,
}

impl LoginSession {
    /// Wraps a handle on one client's session record.
    pub fn new(store: SessionStore) -> (s: LoginSession)
        ensures
            s.store == store,
    {
        LoginSession { store }
    }

    /// Stores the serialized user payload under the `user` key, overwriting
    /// any prior value; the MFA and freshness entries are not touched. On a
    /// live record the write succeeds and the payload is then exactly what
    /// the authentication derivation reads back; storing a string cannot
    /// fail, so `InsertError`, the declared failure of the write path, is
    /// never produced here. On a purged record the write has no effect.
    pub fn set_user(&mut self, user: &str) -> (r: Result<(), InsertError>)
        ensures
            r is Ok,
            session_purged(final(self).store.inner) == session_purged(old(self).store.inner),
            session_renew_pending(final(self).store.inner) == session_renew_pending(old(self).store.inner),
            session_purged(old(self).store.inner) ==> session_blank(final(self).store.inner),
            !session_purged(old(self).store.inner) ==> session_keys(final(self).store.inner) == session_keys(old(self).store.inner).insert(user_key())
                && session_strs(final(self).store.inner) == session_strs(old(self).store.inner).insert(user_key(), user@)
                && session_nums(final(self).store.inner) == session_nums(old(self).store.inner).remove(user_key()),
    {
        match session_insert_str(&mut self.store, "user", user) {
            Ok(()) => Ok(()),
            Err(_) => Err(InsertError),
        }
    }

    /// Records that the second factor named `mfa_id` is outstanding, under
    /// the `needs_mfa` key; the user and freshness entries are not touched.
    /// On a live record the write succeeds and the entry is then exactly
    /// `mfa_id`; storing a string cannot fail, so `InsertError` is never
    /// produced here. On a purged record the write has no effect.
    pub fn needs_mfa(&mut self, mfa_id: &str) -> (r: Result<(), InsertError>)
        ensures
            r is Ok,
            session_purged(final(self).store.inner) == session_purged(old(self).store.inner),
            session_renew_pending(final(self).store.inner) == session_renew_pending(old(self).store.inner),
            session_purged(old(self).store.inner) ==> session_blank(final(self).store.inner),
            !session_purged(old(self).store.inner) ==> session_keys(final(self).store.inner) == session_keys(old(self).store.inner).insert(mfa_key())
                && session_strs(final(self).store.inner) == session_strs(old(self).store.inner).insert(mfa_key(), mfa_id@)
                && session_nums(final(self).store.inner) == session_nums(old(self).store.inner).remove(mfa_key()),
    {
        match session_insert_str(&mut self.store, "needs_mfa", mfa_id) {
            Ok(()) => Ok(()),
            Err(_) => Err(InsertError),
        }
    }

    /// Removes the `needs_mfa` entry unconditionally; idempotent, with no
    /// error path (absence is a no-op). Afterwards the record holds no MFA
    /// entry of any kind, so a fresh derivation can no longer owe `NeedsMfa`.
    pub fn mfa_challenge_done(&mut self)
        ensures
            session_purged(final(self).store.inner) == session_purged(old(self).store.inner),
            session_renew_pending(final(self).store.inner) == session_renew_pending(old(self).store.inner),
            !session_keys(final(self).store.inner).contains(mfa_key()),
            !session_strs(final(self).store.inner).contains_key(mfa_key()),
            !session_nums(final(self).store.inner).contains_key(mfa_key()),
            session_purged(old(self).store.inner) ==> session_blank(final(self).store.inner),
            !session_purged(old(self).store.inner) ==> session_keys(final(self).store.inner) == session_keys(old(self).store.inner).remove(mfa_key())
                && session_strs(final(self).store.inner) == session_strs(old(self).store.inner).remove(mfa_key())
                && session_nums(final(self).store.inner) == session_nums(old(self).store.inner).remove(mfa_key()),
    {
        let _ = session_remove(&mut self.store, "needs_mfa");
    }

    /// Stores the login freshness deadline, in whole seconds since the Unix
    /// epoch, under the `login_valid_until` key, overwriting any prior value;
    /// the user and MFA entries are not touched. On a live record the write
    /// succeeds and the deadline is then exactly `deadline_secs`; storing an
    /// integer cannot fail, so `InsertError` is never produced here. On a
    /// purged record the write has no effect.
    pub fn valid_until(&mut self, deadline_secs: u64) -> (r: Result<(), InsertError>)
        ensures
            r is Ok,
            session_purged(final(self).store.inner) == session_purged(old(self).store.inner),
            session_renew_pending(final(self).store.inner) == session_renew_pending(old(self).store.inner),
            session_purged(old(self).store.inner) ==> session_blank(final(self).store.inner),
            !session_purged(old(self).store.inner) ==> session_keys(final(self).store.inner) == session_keys(old(self).store.inner).insert(valid_until_key())
                && session_nums(final(self).store.inner) == session_nums(old(self).store.inner).insert(valid_until_key(), deadline_secs)
                && session_strs(final(self).store.inner) == session_strs(old(self).store.inner).remove(valid_until_key()),
    {
        match session_insert_u64(&mut self.store, "login_valid_until", deadline_secs) {
            Ok(()) => Ok(()),
            Err(_) => Err(InsertError),
        }
    }

    /// Whether the login is no longer fresh. Fail-closed: yields true when
    /// the `login_valid_until` entry is absent or unreadable, and when the
    /// current wall-clock time has passed the stored deadline; yields false
    /// only for a readable deadline still in the future.
    pub fn no_longer_valid(&self) -> (r: bool)
        ensures
            !session_nums(self.store.inner).contains_key(valid_until_key()) ==> r,
    {
        let read = to_read_outcome_u64(session_get_u64(&self.store, "login_valid_until"));
        let now = now_secs();
        login_stale(&read, now)
    }

    /// Issues a new session identity and clears every entry, in that order:
    /// the identity rotates across a login boundary (preventing session
    /// fixation) even though the content is cleared anyway. Afterwards the
    /// user, MFA and freshness entries are all gone, and every record not
    /// already destroyed is marked for identity renewal; on a destroyed
    /// record the store ignores the renewal, so rotation cannot be promised
    /// there.
    pub fn reset(&mut self)
        ensures
            session_purged(final(self).store.inner) == session_purged(old(self).store.inner),
            !session_purged(old(self).store.inner) ==> session_renew_pending(final(self).store.inner),
            session_blank(final(self).store.inner),
    {
        session_renew(&mut self.store);
        session_clear(&mut self.store);
    }

    /// Irrevocably discards the session record and its identity (logout).
    /// Afterwards the record is purged and holds nothing, so any later
    /// derivation on it fails closed.
    pub fn destroy(&mut self)
        ensures
            session_purged(final(self).store.inner),
            !session_renew_pending(final(self).store.inner),
            session_blank(final(self).store.inner),
    {
        session_purge(&mut self.store);
    }
}

} // verus!
