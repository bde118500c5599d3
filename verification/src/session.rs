//! Sessions and the store that keeps them.
//!
//! A session is known by the id of its user. The store holds at most one
//! record per id; a record is there exactly while the session is
//! authenticated.

use crate::error::StoreError;
use std::collections::HashMap;
use std::time::Duration;
use vstd::prelude::*;

verus! {

broadcast use vstd::std_specs::hash::group_hash_axioms;

/// What a caller presents to prove an earlier login.
#[derive(Debug, Clone, PartialEq, Eq)]
pub struct Session {
    pub id: i32,
    pub auth_key: String,
}

/// What the store knows of one session.
pub struct SessionRecord {
    pub auth_key: Seq<char>,
    /// How long the session lasts; `None` for one that does not expire.
    pub ttl: Option<Duration>,
}

/// Whether `records` vouches for the session `id` with key `auth_key`.
pub open spec fn authenticated(
    records: Map<i32, SessionRecord>,
    id: i32,
    auth_key: Seq<char>,
) -> bool {
    records.contains_key(id) && records[id].auth_key == auth_key
}

/// `records` with a session issued to `id`, in place of any earlier one.
pub open spec fn issued(
    records: Map<i32, SessionRecord>,
    id: i32,
    auth_key: Seq<char>,
    ttl: Option<Duration>,
) -> Map<i32, SessionRecord> {
    records.insert(id, SessionRecord { auth_key, ttl })
}

/// `records` with the session of `id` revoked.
pub open spec fn revoked(records: Map<i32, SessionRecord>, id: i32) -> Map<i32, SessionRecord> {
    records.remove(id)
}

/// A store of session records.
///
/// An operation that fails leaves the records as they were.
pub trait SessionManager {
    /// The records of the sessions that are authenticated now.
    spec fn records(&self) -> Map<i32, SessionRecord>;

    /// Whether this store never fails.
    spec fn reliable(&self) -> bool;

    /// The key of the session `id`, if there is one.
    fn get(&self, id: i32) -> (key: Option<String>)
        ensures
            key is Some <==> self.records().contains_key(id),
            key matches Some(k) ==> k@ == self.records()[id].auth_key,
    ;

    /// Records a session of `id` that does not expire.
    fn insert(&mut self, id: i32, key: String) -> (done: Result<(), StoreError>)
        ensures
            done is Ok ==> final(self).records() == issued(old(self).records(), id, key@, None),
            done is Err ==> final(self).records() == old(self).records(),
            old(self).reliable() ==> done is Ok,
            final(self).reliable() == old(self).reliable(),
    ;

    /// Records a session of `id` that lasts for `time`.
    fn insert_for(&mut self, id: i32, key: String, time: Duration) -> (done: Result<
        (),
        StoreError,
    >)
        ensures
            done is Ok ==> final(self).records() == issued(
                old(self).records(),
                id,
                key@,
                Some(time),
            ),
            done is Err ==> final(self).records() == old(self).records(),
            old(self).reliable() ==> done is Ok,
            final(self).reliable() == old(self).reliable(),
    ;

    /// Forgets the session of `id`, if there is one.
    fn remove(&mut self, id: i32) -> (done: Result<(), StoreError>)
        ensures
            done is Ok ==> final(self).records() == revoked(old(self).records(), id),
            done is Err ==> final(self).records() == old(self).records(),
            old(self).reliable() ==> done is Ok,
            final(self).reliable() == old(self).reliable(),
    ;
}

/// One stored session.
struct Entry {
    auth_key: String,
    ttl: Option<Duration>,
}

impl Entry {
    spec fn record(self) -> SessionRecord {
        SessionRecord { auth_key: self.auth_key@, ttl: self.ttl }
    }
}

/// A session store in memory. It never fails.
pub struct MemorySessions {
    entries: HashMap<i32, Entry>,
}

impl MemorySessions {
    /// A store without sessions.
    pub fn new() -> (store: Self)
        ensures
            store.records() == Map::<i32, SessionRecord>::empty(),
    {
        let store = MemorySessions { entries: HashMap::new() };
        assert(store.records() =~= Map::<i32, SessionRecord>::empty());
        store
    }

    /// How long the session of `id` lasts: `None` where there is no such
    /// session, `Some(None)` for one that does not expire.
    pub fn ttl(&self, id: i32) -> (ttl: Option<Option<Duration>>)
        ensures
            ttl is Some <==> self.records().contains_key(id),
            ttl matches Some(t) ==> t == self.records()[id].ttl,
    {
        match self.entries.get(&id) {
            Some(entry) => Some(entry.ttl),
            None => None,
        }
    }
}

impl SessionManager for MemorySessions {
    closed spec fn records(&self) -> Map<i32, SessionRecord> {
        Map::new(|id: i32| self.entries@.contains_key(id), |id: i32| self.entries@[id].record())
    }

    open spec fn reliable(&self) -> bool {
        true
    }

    fn get(&self, id: i32) -> (key: Option<String>) {
        match self.entries.get(&id) {
            Some(entry) => Some(entry.auth_key.clone()),
            None => None,
        }
    }

    fn insert(&mut self, id: i32, key: String) -> (done: Result<(), StoreError>) {
        let ghost auth_key = key@;
        self.entries.insert(id, Entry { auth_key: key, ttl: None });
        assert(self.records() =~= issued(old(self).records(), id, auth_key, None));
        Ok(())
    }

    fn insert_for(&mut self, id: i32, key: String, time: Duration) -> (done: Result<
        (),
        StoreError,
    >) {
        let ghost auth_key = key@;
        self.entries.insert(id, Entry { auth_key: key, ttl: Some(time) });
        assert(self.records() =~= issued(old(self).records(), id, auth_key, Some(time)));
        Ok(())
    }

    fn remove(&mut self, id: i32) -> (done: Result<(), StoreError>) {
        self.entries.remove(&id);
        assert(self.records() =~= revoked(old(self).records(), id));
        Ok(())
    }
}

} // verus!
