//! The database with its serving side, the typed handle a client talks
//! through, and the client that keeps that handle between calls.

use vstd::prelude::*;
use core::marker::PhantomData;
use dashmap::DashMap;
use crate::action::{StoreAction, store_tag};
use crate::shared_map::{
    map_contents, lookup, opt_bytes, shared_map_new, shared_map_get, shared_map_insert,
    shared_map_remove,
};

verus! {

/// The service name under which a database is bound by default.
pub const ID: &'static str = "sail";

/// An in-memory key-value database; keys and values are byte strings.
pub struct InnerSailDB {
    map: DashMap<Vec<u8>, Vec<u8>>,
}

impl View for InnerSailDB {
    type V = Map<Seq<u8>, Seq<u8>>;

    /// The entries of the database.
    closed spec fn view(&self) -> Map<Seq<u8>, Seq<u8>> {
        map_contents(self.map)
    }
}

/// One request to the database, with its arguments.
pub enum StoreRequest {
    Get { key: Vec<u8> },
    Insert { key: Vec<u8>, value: Vec<u8> },
    Remove { key: Vec<u8> },
}

impl StoreRequest {
    /// The operation that the request asks for.
    pub open spec fn spec_action(&self) -> StoreAction {
        match self {
            StoreRequest::Get { .. } => StoreAction::Get,
            StoreRequest::Insert { .. } => StoreAction::Insert,
            StoreRequest::Remove { .. } => StoreAction::Remove,
        }
    }

    /// The operation that the request asks for, whose tag opens it on the
    /// wire.
    pub fn action(&self) -> (action: StoreAction)
        ensures
            action == self.spec_action(),
    {
        match self {
            StoreRequest::Get { .. } => StoreAction::Get,
            StoreRequest::Insert { .. } => StoreAction::Insert,
            StoreRequest::Remove { .. } => StoreAction::Remove,
        }
    }
}

/// The entries after a request and its reply: a read leaves the entries
/// and answers what the key holds; a write sets the key and answers what
/// it held before; a removal drops the key and answers what it held.
pub open spec fn store_step(entries: Map<Seq<u8>, Seq<u8>>, request: StoreRequest) -> (Map<Seq<u8>, Seq<u8>>, Option<Seq<u8>>) {
    match request {
        StoreRequest::Get { key } => (entries, lookup(entries, key@)),
        StoreRequest::Insert { key, value } => (entries.insert(key@, value@), lookup(entries, key@)),
        StoreRequest::Remove { key } => (entries.remove(key@), lookup(entries, key@)),
    }
}

impl InnerSailDB {
    /// A database with no entries.
    pub fn new() -> (db: Self)
        ensures
            db@ == Map::<Seq<u8>, Seq<u8>>::empty(),
    {
        InnerSailDB { map: shared_map_new() }
    }

    /// The value stored under `key`, if any.
    pub fn get(&self, key: &Vec<u8>) -> (found: Option<Vec<u8>>)
        ensures
            opt_bytes(found) == lookup(self@, key@),
    {
        shared_map_get(&self.map, key)
    }

    /// Stores `value` under `key`, and gives back the value the key held
    /// before, if any.
    pub fn insert(&mut self, key: Vec<u8>, value: Vec<u8>) -> (previous: Option<Vec<u8>>)
        ensures
            final(self)@ == old(self)@.insert(key@, value@),
            opt_bytes(previous) == lookup(old(self)@, key@),
    {
        shared_map_insert(&mut self.map, key, value)
    }

    /// Removes the entry under `key`, and gives back its value, if there was
    /// one.
    pub fn remove(&mut self, key: &Vec<u8>) -> (removed: Option<Vec<u8>>)
        ensures
            final(self)@ == old(self)@.remove(key@),
            opt_bytes(removed) == lookup(old(self)@, key@),
    {
        match shared_map_remove(&mut self.map, key) {
            Some(entry) => Some(entry.1),
            None => None,
        }
    }

    /// Answers one request, as the serving loop does for each tag it
    /// reads.
    pub fn serve(&mut self, request: StoreRequest) -> (reply: Option<Vec<u8>>)
        ensures
            (final(self)@, opt_bytes(reply)) == store_step(old(self)@, request),
            match request {
                StoreRequest::Get { key } => final(self)@ == old(self)@
                    && opt_bytes(reply) == lookup(old(self)@, key@),
                StoreRequest::Insert { key, value } => final(self)@ == old(self)@.insert(key@, value@)
                    && opt_bytes(reply) == lookup(old(self)@, key@),
                StoreRequest::Remove { key } => final(self)@ == old(self)@.remove(key@)
                    && opt_bytes(reply) == lookup(old(self)@, key@),
            },
    {
        match request {
            StoreRequest::Get { key } => self.get(&key),
            StoreRequest::Insert { key, value } => self.insert(key, value),
            StoreRequest::Remove { key } => self.remove(&key),
        }
    }
}

/// A client's handle on a database reached through the channel `C`;
/// `K` and `V` are the client's key and value types.
pub struct InnerSailDBPeer<K, V, C>(pub C, PhantomData<(K, V)>);

impl<K, V, C> InnerSailDBPeer<K, V, C> {
    /// The channel the handle talks through.
    pub closed spec fn channel(&self) -> C {
        self.0
    }

    /// A handle that talks through `chan`.
    pub fn from(chan: C) -> (peer: Self)
        ensures
            peer.channel() == chan,
    {
        InnerSailDBPeer(chan, PhantomData)
    }

    /// Opens a read: the channel, and the tag to send on it first.
    pub fn get(self) -> (opened: (C, u8))
        ensures
            opened.0 == self.channel(),
            opened.1 == store_tag(StoreAction::Get),
    {
        (self.0, StoreAction::Get.tag())
    }

    /// Opens a write: the channel, and the tag to send on it first.
    pub fn insert(self) -> (opened: (C, u8))
        ensures
            opened.0 == self.channel(),
            opened.1 == store_tag(StoreAction::Insert),
    {
        (self.0, StoreAction::Insert.tag())
    }

    /// Opens a removal: the channel, and the tag to send on it first.
    pub fn remove(self) -> (opened: (C, u8))
        ensures
            opened.0 == self.channel(),
            opened.1 == store_tag(StoreAction::Remove),
    {
        (self.0, StoreAction::Remove.tag())
    }

    /// Opens the request for `action`.
    pub fn open(self, action: StoreAction) -> (opened: (C, u8))
        ensures
            opened.0 == self.channel(),
            opened.1 == store_tag(action),
    {
        match action {
            StoreAction::Get => self.get(),
            StoreAction::Insert => self.insert(),
            StoreAction::Remove => self.remove(),
        }
    }
}

/// A client of a database. Between calls it holds its handle; a call takes
/// the handle out and puts it back only once the reply has come, so a call
/// that fails on the way leaves the client without a handle.
pub struct Sail<K, V, C> {
    db: Option<InnerSailDBPeer<K, V, C>>,
}

impl<K, V, C> Sail<K, V, C> {
    /// The channel of the handle the client holds, if it holds one.
    pub closed spec fn channel(&self) -> Option<C> {
        match self.db {
            Some(peer) => Some(peer.channel()),
            None => None,
        }
    }

    /// A client that talks through `chan`.
    pub fn from_channel(chan: C) -> (sail: Self)
        ensures
            sail.channel() == Some(chan),
    {
        Sail { db: Some(InnerSailDBPeer::from(chan)) }
    }

    /// Whether the client holds its handle, so that a call can start.
    pub fn is_connected(&self) -> (connected: bool)
        ensures
            connected == self.channel() is Some,
    {
        self.db.is_some()
    }

    /// Starts a call: takes the handle out and opens the request for
    /// `action` on its channel. The client holds no handle until the call
    /// ends.
    pub fn begin(&mut self, action: StoreAction) -> (opened: (C, u8))
        requires
            old(self).channel() is Some,
        ensures
            final(self).channel() is None,
            old(self).channel() == Some(opened.0),
            opened.1 == store_tag(action),
    {
        let db = self.db.take().unwrap();
        db.open(action)
    }

    /// Ends a call whose reply has come: the client holds a handle on
    /// `chan` again.
    pub fn finish(&mut self, chan: C)
        ensures
            final(self).channel() == Some(chan),
    {
        self.db = Some(InnerSailDBPeer::from(chan));
    }
}

} // verus!
