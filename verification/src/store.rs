use vstd::prelude::*;

verus! {

// `actix_session::Session` is the server-trusted session record: a key/value
// bag scoped to one client, mutated through shared references (interior
// mutability), with a lifecycle status (live, marked for renewal, purged).
#[verifier::external_type_specification]
#[verifier::external_body]
pub struct ExSession(actix_session::Session);

// Error returned by `actix_session::Session::insert` when a value cannot be
// serialized into the record.
#[verifier::external_type_specification]
#[verifier::external_body]
pub struct ExSessionInsertError(actix_session::SessionInsertError);

// Error returned by `actix_session::Session::get` when a stored entry cannot
// be read back at the requested type.
#[verifier::external_type_specification]
#[verifier::external_body]
pub struct ExSessionGetError(actix_session::SessionGetError);

// The request a session record is attached to; only used to resolve that
// record.
#[verifier::external_type_specification]
#[verifier::external_body]
pub struct ExHttpRequest(actix_web::HttpRequest);

/// The keys a session record currently holds.
pub uninterp spec fn session_keys(s: actix_session::Session) -> Set<Seq<char>>;

/// The entries of a session record that read back as strings: each key mapped
/// to the string that a read of that key yields.
pub uninterp spec fn session_strs(s: actix_session::Session) -> Map<Seq<char>, Seq<char>>;

/// The entries of a session record that read back as unsigned 64-bit
/// integers: each key mapped to the integer that a read of that key yields.
pub uninterp spec fn session_nums(s: actix_session::Session) -> Map<Seq<char>, u64>;

/// Whether the session record has been purged: irrevocably discarded together
/// with its identity. Writes to a purged record have no effect.
pub uninterp spec fn session_purged(s: actix_session::Session) -> bool;

/// Whether the session record is marked for identity renewal: a new session
/// identity, distinct from the old one, is issued when the record is next
/// persisted.
pub uninterp spec fn session_renew_pending(s: actix_session::Session) -> bool;

/// A session record that holds no entries at all.
pub open spec fn session_blank(s: actix_session::Session) -> bool {
    session_keys(s) == Set::<Seq<char>>::empty()
        && session_strs(s) == Map::<Seq<char>, Seq<char>>::empty()
        && session_nums(s) == Map::<Seq<char>, u64>::empty()
}

/// Handle on one client's session record.
pub struct SessionStore {
    pub inner: actix_session::Session,
}

impl SessionStore {
    /// Relies on `actix_session::SessionExt::get_session` for
    /// `actix_web::HttpRequest`: yields the session record attached to the
    /// request, attaching a fresh empty one first if none is present.
    ///
    /// Two calls on one request yield two handles sharing one record, while
    /// the contracts of this module model each handle as owning its record's
    /// state exclusively. Verified code must therefore hold at most one
    /// handle on a record at a time; a second handle is for unverified
    /// callers (tests, the transport layer) observing the same record.
    #[verifier::external_body]
    pub fn for_request(req: &actix_web::HttpRequest) -> SessionStore {
        SessionStore { inner: actix_session::SessionExt::get_session(req) }
    }
}

/// Relies on `actix_session::Session::get::<String>`: an absent key yields
/// `Ok(None)`; a present entry readable as a string yields that string; a
/// present entry of any other shape yields `Err`. Never mutates the record.
#[verifier::external_body]
pub(crate) fn session_get_str(s: &SessionStore, key: &str) -> (r: Result<Option<String>, actix_session::SessionGetError>)
    ensures
        match r {
            Ok(Some(v)) => session_keys(s.inner).contains(key@)
                && session_strs(s.inner).contains_key(key@)
                && v@ == session_strs(s.inner)[key@],
            Ok(None) => !session_keys(s.inner).contains(key@)
                && !session_strs(s.inner).contains_key(key@)
                && !session_nums(s.inner).contains_key(key@),
            Err(_) => session_keys(s.inner).contains(key@)
                && !session_strs(s.inner).contains_key(key@),
        },
{
    s.inner.get::<String>(key)
}

/// Relies on `actix_session::Session::get::<u64>`: an absent key yields
/// `Ok(None)`; a present entry readable as an unsigned 64-bit integer yields
/// that integer; a present entry of any other shape yields `Err`. Never
/// mutates the record.
#[verifier::external_body]
pub(crate) fn session_get_u64(s: &SessionStore, key: &str) -> (r: Result<Option<u64>, actix_session::SessionGetError>)
    ensures
        match r {
            Ok(Some(n)) => session_keys(s.inner).contains(key@)
                && session_nums(s.inner).contains_key(key@)
                && n == session_nums(s.inner)[key@],
            Ok(None) => !session_keys(s.inner).contains(key@)
                && !session_strs(s.inner).contains_key(key@)
                && !session_nums(s.inner).contains_key(key@),
            Err(_) => session_keys(s.inner).contains(key@)
                && !session_nums(s.inner).contains_key(key@),
        },
{
    s.inner.get::<u64>(key)
}

/// Relies on `actix_session::Session::insert` with a string value: the call
/// can fail only if serializing the value fails, and serializing a string
/// cannot, so it always returns `Ok`. On a live record the key then reads
/// back as exactly that string and the other entries are untouched; on a
/// purged record the call is a no-op. The purge and renewal marks are never
/// altered.
#[verifier::external_body]
pub(crate) fn session_insert_str(s: &mut SessionStore, key: &str, value: &str) -> (r: Result<(), actix_session::SessionInsertError>)
    ensures
        r is Ok,
        session_purged(final(s).inner) == session_purged(old(s).inner),
        session_renew_pending(final(s).inner) == session_renew_pending(old(s).inner),
        session_purged(old(s).inner) ==> session_blank(final(s).inner),
        !session_purged(old(s).inner) ==> session_keys(final(s).inner) == session_keys(old(s).inner).insert(key@)
            && session_strs(final(s).inner) == session_strs(old(s).inner).insert(key@, value@)
            && session_nums(final(s).inner) == session_nums(old(s).inner).remove(key@),
{
    s.inner.insert(key, value)
}

/// Relies on `actix_session::Session::insert` with an unsigned 64-bit value:
/// the call can fail only if serializing the value fails, and serializing an
/// integer cannot, so it always returns `Ok`. On a live record the key then
/// reads back as exactly that integer and the other entries are untouched; on
/// a purged record the call is a no-op. The purge and renewal marks are never
/// altered.
#[verifier::external_body]
pub(crate) fn session_insert_u64(s: &mut SessionStore, key: &str, value: u64) -> (r: Result<(), actix_session::SessionInsertError>)
    ensures
        r is Ok,
        session_purged(final(s).inner) == session_purged(old(s).inner),
        session_renew_pending(final(s).inner) == session_renew_pending(old(s).inner),
        session_purged(old(s).inner) ==> session_blank(final(s).inner),
        !session_purged(old(s).inner) ==> session_keys(final(s).inner) == session_keys(old(s).inner).insert(key@)
            && session_nums(final(s).inner) == session_nums(old(s).inner).insert(key@, value)
            && session_strs(final(s).inner) == session_strs(old(s).inner).remove(key@),
{
    s.inner.insert(key, value)
}

/// Relies on `actix_session::Session::remove`: on a live record the key is
/// removed and the raw prior value, if any, is handed back; on a purged
/// record the call is a no-op yielding `None`. The purge and renewal marks
/// are never altered.
#[verifier::external_body]
pub(crate) fn session_remove(s: &mut SessionStore, key: &str) -> (r: Option<String>)
    ensures
        session_purged(final(s).inner) == session_purged(old(s).inner),
        session_renew_pending(final(s).inner) == session_renew_pending(old(s).inner),
        session_purged(old(s).inner) ==> r is None && session_blank(final(s).inner),
        !session_purged(old(s).inner) ==> session_keys(final(s).inner) == session_keys(old(s).inner).remove(key@)
            && session_strs(final(s).inner) == session_strs(old(s).inner).remove(key@)
            && session_nums(final(s).inner) == session_nums(old(s).inner).remove(key@)
            && (r is Some <==> session_keys(old(s).inner).contains(key@)),
{
    s.inner.remove(key)
}

/// Relies on `actix_session::Session::clear`: every entry of the record is
/// removed (a purged record already holds none). The purge and renewal marks
/// are never altered.
#[verifier::external_body]
pub(crate) fn session_clear(s: &mut SessionStore)
    ensures
        session_purged(final(s).inner) == session_purged(old(s).inner),
        session_renew_pending(final(s).inner) == session_renew_pending(old(s).inner),
        session_blank(final(s).inner),
{
    s.inner.clear()
}

/// Relies on `actix_session::Session::renew`: a live record is marked for
/// identity renewal, its entries untouched; on a purged record the call is a
/// no-op.
#[verifier::external_body]
pub(crate) fn session_renew(s: &mut SessionStore)
    ensures
        session_purged(final(s).inner) == session_purged(old(s).inner),
        session_purged(old(s).inner) ==> session_blank(final(s).inner)
            && session_renew_pending(final(s).inner) == session_renew_pending(old(s).inner),
        !session_purged(old(s).inner) ==> session_renew_pending(final(s).inner)
            && session_keys(final(s).inner) == session_keys(old(s).inner)
            && session_strs(final(s).inner) == session_strs(old(s).inner)
            && session_nums(final(s).inner) == session_nums(old(s).inner),
{
    s.inner.renew()
}

/// Relies on `actix_session::Session::purge`: the record is marked purged and
/// every entry is removed, unconditionally; a purged record carries no
/// renewal mark.
#[verifier::external_body]
pub(crate) fn session_purge(s: &mut SessionStore)
    ensures
        session_purged(final(s).inner),
        !session_renew_pending(final(s).inner),
        session_blank(final(s).inner),
{
    s.inner.purge()
}

/// Relies on `std::time::SystemTime::now` and
/// `SystemTime::duration_since(UNIX_EPOCH)`: the current wall-clock time as
/// whole seconds since the Unix epoch (zero if the clock reads earlier than
/// the epoch). Nothing can be promised of the clock's value.
#[verifier::external_body]
pub(crate) fn now_secs() -> u64 {
    std::time::SystemTime::now()
        .duration_since(std::time::UNIX_EPOCH)
        .map(|d| d.as_secs())
        .unwrap_or(0)
}

} // verus!
