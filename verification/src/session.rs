use crate::error::Error;
use chashmap::CHashMap;
use std::time::{Duration, SystemTime, SystemTimeError, UNIX_EPOCH};
use vstd::prelude::*;
use vstd::std_specs::convert::FromSpecImpl;

verus! {

#[verifier::external_type_specification]
#[verifier::external_body]
#[verifier::reject_recursive_types(K)]
#[verifier::reject_recursive_types(V)]
pub struct ExCHashMap<K, V>(CHashMap<K, V>);

#[verifier::external_type_specification]
#[verifier::external_body]
pub struct ExSystemTime(SystemTime);

/// How long, in seconds, a session lasts when no other duration is given.
pub const YEAR_IN_SECS: usize = 365 * 60 * 60 * 24;

/// The secret of a session together with its expiry, in seconds.
pub struct AuthKey {
    pub expires: u64,
    pub secret: String,
}

impl View for AuthKey {
    type V = (u64, Seq<char>);

    open spec fn view(&self) -> (u64, Seq<char>) {
        (self.expires, self.secret@)
    }
}

/// A session entry is live at time `now` while its expiry lies after `now`.
pub open spec fn is_live_at(entry: (u64, Seq<char>), now: u64) -> bool {
    entry.0 > now
}

impl AuthKey {
    /// Whether this key is still live at time `now`.
    pub fn is_live(&self, now: u64) -> (live: bool)
        ensures
            live == is_live_at(self@, now),
    {
        self.expires > now
    }
}

impl From<String> for AuthKey {
    /// A key made from a bare secret lasts a year.
    fn from(secret: String) -> (key: AuthKey) {
        AuthKey { expires: YEAR_IN_SECS as u64, secret }
    }
}

impl FromSpecImpl<String> for AuthKey {
    open spec fn obeys_from_spec() -> bool {
        true
    }

    open spec fn from_spec(v: String) -> AuthKey {
        AuthKey { expires: YEAR_IN_SECS as u64, secret: v }
    }
}

/// The entries of a session map, by user id: each entry's expiry and secret.
pub uninterp spec fn session_entries(m: CHashMap<i32, AuthKey>) -> Map<i32, (u64, Seq<char>)>;

/// Whether no bucket of the map's table is marked removed. Removal and
/// retention mark buckets removed; a fresh table, as `new`, `clear` and
/// `shrink_to_fit` make, has none. Since the map always keeps some bucket
/// without an entry (its load factor stays below 85%), such a table always
/// has an empty bucket, at which a lookup of an absent key stops.
pub uninterp spec fn session_table_unworn(m: CHashMap<i32, AuthKey>) -> bool;

/// `CHashMap::new`: the new map has no entries.
#[verifier::external_body]
fn chashmap_new() -> (m: CHashMap<i32, AuthKey>)
    ensures
        session_entries(m) =~= Map::empty(),
        session_table_unworn(m),
{
    CHashMap::new()
}

/// `CHashMap::insert`: the entry of `id` becomes `key`, replacing any earlier one;
/// the replaced value that the method hands back is dropped. It takes the
/// bucket of `id` or the first free one and, when the table grows, rebuilds
/// it afresh, so it marks no bucket removed.
#[verifier::external_body]
fn chashmap_insert(m: &mut CHashMap<i32, AuthKey>, id: i32, key: AuthKey)
    ensures
        session_entries(*final(m)) == session_entries(*old(m)).insert(id, key@),
        session_table_unworn(*old(m)) ==> session_table_unworn(*final(m)),
{
    m.insert(id, key);
}

/// `CHashMap::remove`: the entry of `id`, if any, is gone afterwards; the removed
/// value that the method hands back is dropped. The lookup panics when it
/// walks the whole table without meeting `id` or an empty bucket, which an
/// unworn table rules out; the removed bucket is marked removed.
#[verifier::external_body]
fn chashmap_remove(m: &mut CHashMap<i32, AuthKey>, id: i32)
    requires
        session_table_unworn(*old(m)),
    ensures
        session_entries(*final(m)) == session_entries(*old(m)).remove(id),
{
    m.remove(&id);
}

/// `CHashMap::get`: the secret stored under `id`, cloned out of the read guard,
/// or `None` when `id` has no entry. The lookup panics when it walks the
/// whole table without meeting `id` or an empty bucket, which an unworn table
/// rules out.
#[verifier::external_body]
fn chashmap_get_secret(m: &CHashMap<i32, AuthKey>, id: i32) -> (r: Option<String>)
    requires
        session_table_unworn(*m),
    ensures
        match r {
            Some(s) => session_entries(*m).contains_key(id) && s@ == session_entries(*m)[id].1,
            None => !session_entries(*m).contains_key(id),
        },
{
    m.get(&id).map(|guard| guard.secret.clone())
}

/// `CHashMap::clear`: the map has no entries afterwards; the map of the earlier
/// entries that the method hands back is dropped.
#[verifier::external_body]
fn chashmap_clear(m: &mut CHashMap<i32, AuthKey>)
    ensures
        session_entries(*final(m)) =~= Map::empty(),
        session_table_unworn(*final(m)),
{
    m.clear();
}

/// `CHashMap::shrink_to_fit`: moves every entry into a fresh table, so the
/// entries stay as they were and no bucket is marked removed.
#[verifier::external_body]
fn chashmap_shrink_to_fit(m: &mut CHashMap<i32, AuthKey>)
    ensures
        session_entries(*final(m)) == session_entries(*old(m)),
        session_table_unworn(*final(m)),
{
    m.shrink_to_fit();
}

/// `CHashMap::retain` with the predicate `AuthKey::is_live(now)`: an entry stays
/// exactly when the predicate holds of it.
#[verifier::external_body]
fn chashmap_retain_live(m: &mut CHashMap<i32, AuthKey>, now: u64)
    ensures
        session_entries(*final(m)) == live_entries(session_entries(*old(m)), now),
{
    m.retain(|_, auth_key| auth_key.is_live(now));
}

/// `SystemTime::now`: the reading of the system clock, of which nothing is stated.
#[verifier::external_body]
fn system_time_now() -> SystemTime {
    SystemTime::now()
}

/// `SystemTime::duration_since(UNIX_EPOCH)`: fails when the clock reads earlier
/// than the epoch; nothing is stated of the duration.
#[verifier::external_body]
fn duration_since_unix_epoch(t: SystemTime) -> Result<Duration, SystemTimeError> {
    t.duration_since(UNIX_EPOCH)
}

/// The whole seconds of a duration, leaving out the fraction of a second.
pub uninterp spec fn duration_whole_secs(d: Duration) -> u64;

/// `Duration::as_secs`: the whole seconds of a duration.
#[verifier::external_body]
fn duration_as_secs(d: &Duration) -> (secs: u64)
    ensures
        secs == duration_whole_secs(*d),
{
    d.as_secs()
}

/// The entries of `m` that are live at time `now`.
pub open spec fn live_entries(m: Map<i32, (u64, Seq<char>)>, now: u64) -> Map<i32, (u64, Seq<char>)> {
    m.restrict(m.dom().filter(|id: i32| is_live_at(m[id], now)))
}

/// The secret stored for `id`, if any.
pub open spec fn secret_of(m: Map<i32, (u64, Seq<char>)>, id: i32) -> Option<Seq<char>> {
    if m.contains_key(id) {
        Some(m[id].1)
    } else {
        None
    }
}

/// A string option seen through the view of its string.
pub open spec fn opt_string_view(r: Option<String>) -> Option<Seq<char>> {
    match r {
        Some(s) => Some(s@),
        None => None,
    }
}

/// Reading a session back after storing it gives the stored secret, whatever
/// its expiry.
pub proof fn lemma_get_after_insert(m: Map<i32, (u64, Seq<char>)>, id: i32, expires: u64, secret: Seq<char>)
    ensures
        secret_of(m.insert(id, (expires, secret)), id) == Some(secret),
{
}

/// Storing a session leaves the sessions of every other user as they were.
pub proof fn lemma_insert_keeps_others(
    m: Map<i32, (u64, Seq<char>)>,
    id: i32,
    entry: (u64, Seq<char>),
    other: i32,
)
    requires
        other != id,
    ensures
        secret_of(m.insert(id, entry), other) == secret_of(m, other),
{
}

/// After a session is removed there is nothing to read for that user, and the
/// sessions of the other users are as they were.
pub proof fn lemma_get_after_remove(m: Map<i32, (u64, Seq<char>)>, id: i32, other: i32)
    ensures
        secret_of(m.remove(id), id) is None,
        other != id ==> secret_of(m.remove(id), other) == secret_of(m, other),
{
}

/// After every session is cleared there is nothing to read for any user.
pub proof fn lemma_get_after_clear_all(id: i32)
    ensures
        secret_of(Map::<i32, (u64, Seq<char>)>::empty(), id) is None,
{
}

/// Clearing the sessions expired at time `now` keeps a user's secret exactly
/// when the user had a session whose expiry lies after `now`.
pub proof fn lemma_get_after_clear_expired(m: Map<i32, (u64, Seq<char>)>, now: u64, id: i32)
    ensures
        secret_of(live_entries(m, now), id) == (if m.contains_key(id) && m[id].0 > now {
            Some(m[id].1)
        } else {
            None
        }),
{
}

/// Clearing expired sessions at `t1` and then at `t2` is clearing them once,
/// at the later of the two times; in particular it is idempotent.
pub proof fn lemma_clear_expired_twice(m: Map<i32, (u64, Seq<char>)>, t1: u64, t2: u64)
    ensures
        live_entries(live_entries(m, t1), t2) == live_entries(m, if t1 < t2 { t2 } else { t1 }),
{
    let later: u64 = if t1 < t2 { t2 } else { t1 };
    assert(live_entries(live_entries(m, t1), t2) =~= live_entries(m, later));
}

/// A session stored without a duration outlives a clearing of expired
/// sessions at time `now` exactly when `now` is earlier than a year's seconds.
pub proof fn lemma_default_session_expiry(m: Map<i32, (u64, Seq<char>)>, id: i32, secret: Seq<char>, now: u64)
    ensures
        secret_of(live_entries(m.insert(id, (YEAR_IN_SECS as u64, secret)), now), id)
            == (if now < YEAR_IN_SECS as u64 { Some(secret) } else { None }),
{
}

/// Clearing expired sessions at a clock reading, taken as a duration since the
/// epoch, ends exactly the sessions whose expiry is not after the whole seconds
/// of that reading and keeps every other session with its secret unchanged.
pub proof fn lemma_clear_expired_at_clock_reading(m: Map<i32, (u64, Seq<char>)>, since: Duration, id: i32)
    ensures
        m.contains_key(id) && m[id].0 <= duration_whole_secs(since)
            ==> secret_of(live_entries(m, duration_whole_secs(since)), id) is None,
        m.contains_key(id) && m[id].0 > duration_whole_secs(since)
            ==> secret_of(live_entries(m, duration_whole_secs(since)), id) == Some(m[id].1),
        !m.contains_key(id) ==> secret_of(live_entries(m, duration_whole_secs(since)), id) is None,
        live_entries(m, duration_whole_secs(since)).dom().subset_of(m.dom()),
{
}

/// The whole seconds of a time since the Unix epoch, or the clock error when
/// the time lies before the epoch.
pub fn secs_since_epoch(since: Result<Duration, SystemTimeError>) -> (r: Result<u64, Error>)
    ensures
        match since {
            Ok(d) => r == Ok::<u64, Error>(duration_whole_secs(d)),
            Err(_) => r matches Err(Error::SystemTimeError(_)),
        },
{
    match since {
        Ok(d) => Ok(duration_as_secs(&d)),
        Err(e) => Err(Error::from(e)),
    }
}

/// The current time, in whole seconds since the Unix epoch.
pub fn now() -> (r: Result<u64, Error>)
    ensures
        r matches Ok(s) ==> exists|d: Duration| s == duration_whole_secs(d),
        r matches Err(e) ==> e is SystemTimeError,
{
    let t = system_time_now();
    secs_since_epoch(duration_since_unix_epoch(t))
}

/// The default session store: the secret of each logged-in user, by user id,
/// held in a concurrent hash map for as long as the process runs.
pub struct SessionStore {
    sessions: CHashMap<i32, AuthKey>,
}

impl SessionStore {
    /// The store is well formed when its map's table has no bucket marked
    /// removed, so that every lookup ends; every operation keeps it so.
    pub closed spec fn wf(&self) -> bool {
        session_table_unworn(self.sessions)
    }
}

impl View for SessionStore {
    type V = Map<i32, (u64, Seq<char>)>;

    closed spec fn view(&self) -> Map<i32, (u64, Seq<char>)> {
        session_entries(self.sessions)
    }
}

impl SessionStore {
    /// A store without sessions.
    pub fn new() -> (store: SessionStore)
        ensures
            store.wf(),
            store@ == Map::<i32, (u64, Seq<char>)>::empty(),
    {
        SessionStore { sessions: chashmap_new() }
    }

    /// Stores `key` as the session of user `id`, lasting a year.
    pub fn insert(&mut self, id: i32, key: String) -> (r: Result<(), Error>)
        requires
            old(self).wf(),
        ensures
            final(self).wf(),
            r is Ok,
            final(self)@ == old(self)@.insert(id, (YEAR_IN_SECS as u64, key@)),
    {
        chashmap_insert(&mut self.sessions, id, AuthKey::from(key));
        Ok(())
    }

    /// Stores `key` as the session of user `id` with expiry `expires`.
    pub fn insert_with_expiry(&mut self, id: i32, key: String, expires: u64)
        requires
            old(self).wf(),
        ensures
            final(self).wf(),
            final(self)@ == old(self)@.insert(id, (expires, key@)),
    {
        let key = AuthKey { expires, secret: key };
        chashmap_insert(&mut self.sessions, id, key);
    }

    /// Stores `key` as the session of user `id`, with the whole seconds of
    /// `time` as its expiry.
    pub fn insert_for(&mut self, id: i32, key: String, time: Duration) -> (r: Result<(), Error>)
        requires
            old(self).wf(),
        ensures
            final(self).wf(),
            r is Ok,
            final(self)@ == old(self)@.insert(id, (duration_whole_secs(time), key@)),
    {
        let expires = duration_as_secs(&time);
        self.insert_with_expiry(id, key, expires);
        Ok(())
    }

    /// Ends the session of user `id`, if there is one.
    pub fn remove(&mut self, id: i32) -> (r: Result<(), Error>)
        requires
            old(self).wf(),
        ensures
            final(self).wf(),
            r is Ok,
            final(self)@ == old(self)@.remove(id),
    {
        chashmap_remove(&mut self.sessions, id);
        chashmap_shrink_to_fit(&mut self.sessions);
        Ok(())
    }

    /// The secret of the session of user `id`, if there is one.
    pub fn get(&self, id: i32) -> (r: Option<String>)
        requires
            self.wf(),
        ensures
            opt_string_view(r) == secret_of(self@, id),
    {
        chashmap_get_secret(&self.sessions, id)
    }

    /// Ends every session.
    pub fn clear_all(&mut self) -> (r: Result<(), Error>)
        ensures
            final(self).wf(),
            r is Ok,
            final(self)@ == Map::<i32, (u64, Seq<char>)>::empty(),
    {
        chashmap_clear(&mut self.sessions);
        Ok(())
    }

    /// Ends every session whose expiry is not after time `now`.
    pub fn clear_expired_at(&mut self, now: u64)
        ensures
            final(self).wf(),
            final(self)@ == live_entries(old(self)@, now),
    {
        chashmap_retain_live(&mut self.sessions, now);
        chashmap_shrink_to_fit(&mut self.sessions);
    }

    /// Ends every session whose expiry is not after the current time. Fails,
    /// leaving every session in place, when the clock cannot be read.
    pub fn clear_expired(&mut self) -> (r: Result<(), Error>)
        ensures
            r is Ok || old(self).wf() ==> final(self).wf(),
            r is Ok ==> exists|t: u64| final(self)@ == live_entries(old(self)@, t),
            r is Ok ==> exists|since: Duration|
                final(self)@ == live_entries(old(self)@, #[trigger] duration_whole_secs(since)),
            r matches Err(e) ==> e is SystemTimeError && final(self)@ == old(self)@,
    {
        match now() {
            Ok(time) => {
                let ghost since = choose|d: Duration| time == duration_whole_secs(d);
                self.clear_expired_at(time);
                assert(final(self)@ == live_entries(old(self)@, duration_whole_secs(since)));
                Ok(())
            },
            Err(e) => Err(e),
        }
    }
}

} // verus!
