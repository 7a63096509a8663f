//! The database as a service with a default-constructed state, its
//! handle, and a client that always holds its handle.

use vstd::prelude::*;
use core::marker::PhantomData;
use dashmap::DashMap;
use crate::shared_map::{
    map_contents, lookup, opt_bytes, shared_map_new, shared_map_get, shared_map_insert,
    shared_map_remove,
};

verus! {

/// An in-memory key-value database; keys and values are byte strings.
pub struct SailDB {
    map: DashMap<Vec<u8>, Vec<u8>>,
}

impl View for SailDB {
    type V = Map<Seq<u8>, Seq<u8>>;

    /// The entries of the database.
    closed spec fn view(&self) -> Map<Seq<u8>, Seq<u8>> {
        map_contents(self.map)
    }
}

impl Default for SailDB {
    /// A database with no entries.
    fn default() -> (db: Self)
        ensures
            db@ == Map::<Seq<u8>, Seq<u8>>::empty(),
    {
        SailDB { map: shared_map_new() }
    }
}

impl SailDB {
    /// The value stored under `key`, if any.
    pub fn get(&self, key: &Vec<u8>) -> (found: Option<Vec<u8>>)
        ensures
            opt_bytes(found) == lookup(self@, key@),
    {
        shared_map_get(&self.map, key)
    }

    /// Stores `value` under `key`, and gives back the value the key held
    /// before, if any.
    pub fn insert(&mut self, key: Vec<u8>, value: Vec<u8>) -> (previous: Option<Vec<u8>>)
        ensures
            final(self)@ == old(self)@.insert(key@, value@),
            opt_bytes(previous) == lookup(old(self)@, key@),
    {
        shared_map_insert(&mut self.map, key, value)
    }

    /// Removes the entry under `key`, and gives back the key and value it
    /// held, if there was one.
    pub fn remove(&mut self, key: &Vec<u8>) -> (removed: Option<(Vec<u8>, Vec<u8>)>)
        ensures
            final(self)@ == old(self)@.remove(key@),
            match removed {
                Some(entry) => entry.0@ == key@ && lookup(old(self)@, key@) == Some(entry.1@),
                None => lookup(old(self)@, key@) is None,
            },
    {
        shared_map_remove(&mut self.map, key)
    }
}

/// A client's handle on a database reached through the channel `C`;
/// `K` and `V` are the client's key and value types.
pub struct SailDBPeer<K, V, C>(pub C, PhantomData<(K, V)>);

impl<K, V, C> SailDBPeer<K, V, C> {
    /// The channel the handle talks through.
    pub closed spec fn channel(&self) -> C {
        self.0
    }

    /// A handle that talks through `chan`.
    pub fn from(chan: C) -> (peer: Self)
        ensures
            peer.channel() == chan,
    {
        SailDBPeer(chan, PhantomData)
    }
}

/// A client of a database; it reaches the database through its handle.
pub struct Sail<K, V, C> {
    db: SailDBPeer<K, V, C>,
}

impl<K, V, C> Sail<K, V, C> {
    /// The channel the client talks through.
    pub closed spec fn channel(&self) -> C {
        self.db.channel()
    }

    /// A client that talks through `chan`.
    pub fn from_channel(chan: C) -> (sail: Self)
        ensures
            sail.channel() == chan,
    {
        Sail { db: SailDBPeer::from(chan) }
    }
}

impl<K, V, C> core::ops::Deref for Sail<K, V, C> {
    type Target = SailDBPeer<K, V, C>;

    /// The client's handle.
    fn deref(&self) -> (peer: &SailDBPeer<K, V, C>)
        ensures
            peer.channel() == self.channel(),
    {
        &self.db
    }
}

impl<K, V, C> core::ops::DerefMut for Sail<K, V, C> {
    /// The client's handle, to make calls through.
    fn deref_mut(&mut self) -> (peer: &mut SailDBPeer<K, V, C>)
        ensures
            peer.channel() == old(self).channel(),
            final(self).channel() == final(peer).channel(),
    {
        &mut self.db
    }
}

} // verus!
