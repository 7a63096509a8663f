//! What holds of the database and of the list across calls, stated over
//! the models that the operations' contracts use.

use vstd::prelude::*;
use crate::shared_map::lookup;
use crate::inner::{StoreRequest, store_step};

verus! {

/// A read after a write of `value` under `key` finds `value`.
pub proof fn lemma_read_your_write(entries: Map<Seq<u8>, Seq<u8>>, key: Seq<u8>, value: Seq<u8>)
    ensures
        lookup(entries.insert(key, value), key) == Some(value),
{
}

/// A write or a removal under one key leaves what every other key holds.
pub proof fn lemma_other_keys_untouched(entries: Map<Seq<u8>, Seq<u8>>, key: Seq<u8>, value: Seq<u8>, other: Seq<u8>)
    requires
        other != key,
    ensures
        lookup(entries.insert(key, value), other) == lookup(entries, other),
        lookup(entries.remove(key), other) == lookup(entries, other),
{
}

/// After a removal the key holds nothing.
pub proof fn lemma_read_after_remove(entries: Map<Seq<u8>, Seq<u8>>, key: Seq<u8>)
    ensures
        lookup(entries.remove(key), key) is None,
{
}

/// A database with no entries answers every read with nothing.
pub proof fn lemma_empty_reads_nothing(key: Seq<u8>)
    ensures
        lookup(Map::<Seq<u8>, Seq<u8>>::empty(), key) is None,
{
}

/// What a write answers undoes it: writing back the previous value, or
/// removing the key where it held none, gives the entries from before.
pub proof fn lemma_write_undone_by_its_answer(entries: Map<Seq<u8>, Seq<u8>>, key: Seq<u8>, value: Seq<u8>)
    ensures
        match lookup(entries, key) {
            Some(previous) => entries.insert(key, value).insert(key, previous) == entries,
            None => entries.insert(key, value).remove(key) == entries,
        },
{
    match lookup(entries, key) {
        Some(previous) => {
            assert(entries.insert(key, value).insert(key, previous) =~= entries);
        },
        None => {
            assert(entries.insert(key, value).remove(key) =~= entries);
        },
    }
}

/// What a removal answers undoes it: writing the removed value back gives
/// the entries from before.
pub proof fn lemma_remove_undone_by_its_answer(entries: Map<Seq<u8>, Seq<u8>>, key: Seq<u8>)
    ensures
        match lookup(entries, key) {
            Some(removed) => entries.remove(key).insert(key, removed) == entries,
            None => entries.remove(key) == entries,
        },
{
    match lookup(entries, key) {
        Some(removed) => {
            assert(entries.remove(key).insert(key, removed) =~= entries);
        },
        None => {
            assert(entries.remove(key) =~= entries);
        },
    }
}

/// Writing the same value twice is writing it once, and the second write
/// answers the value itself.
pub proof fn lemma_write_twice(entries: Map<Seq<u8>, Seq<u8>>, key: Seq<u8>, value: Seq<u8>)
    ensures
        entries.insert(key, value).insert(key, value) == entries.insert(key, value),
        lookup(entries.insert(key, value), key) == Some(value),
{
    assert(entries.insert(key, value).insert(key, value) =~= entries.insert(key, value));
}

/// Removing twice is removing once, and the second removal answers
/// nothing.
pub proof fn lemma_remove_twice(entries: Map<Seq<u8>, Seq<u8>>, key: Seq<u8>)
    ensures
        entries.remove(key).remove(key) == entries.remove(key),
        lookup(entries.remove(key), key) is None,
{
    assert(entries.remove(key).remove(key) =~= entries.remove(key));
}

/// Served requests: a read served after a write of `value` under `key`
/// answers `value`, a read served after a removal of `key` answers
/// nothing, and a read changes no entry.
pub proof fn lemma_served_read_after_write(entries: Map<Seq<u8>, Seq<u8>>, key: Vec<u8>, value: Vec<u8>)
    ensures
        store_step(store_step(entries, StoreRequest::Insert { key, value }).0, StoreRequest::Get { key }).1 == Some(value@),
        store_step(store_step(entries, StoreRequest::Remove { key }).0, StoreRequest::Get { key }).1 is None,
        store_step(entries, StoreRequest::Get { key }).0 == entries,
{
}

/// A served write of `value` under `key` stores `value` under `key` and
/// leaves every other key holding what it held before.
pub proof fn lemma_served_write_keeps_others(entries: Map<Seq<u8>, Seq<u8>>, key: Vec<u8>, value: Vec<u8>, other: Seq<u8>)
    requires
        other != key@,
    ensures
        store_step(entries, StoreRequest::Insert { key, value }).0.contains_key(key@),
        store_step(entries, StoreRequest::Insert { key, value }).0[key@] == value@,
        store_step(entries, StoreRequest::Insert { key, value }).0.contains_key(other) == entries.contains_key(other),
        entries.contains_key(other) ==> store_step(entries, StoreRequest::Insert { key, value }).0[other] == entries[other],
{
}

/// A served write answers what the key held before it, whatever the new
/// value is: the old value where the key was present, nothing where it
/// was absent.
pub proof fn lemma_served_write_answers_previous(entries: Map<Seq<u8>, Seq<u8>>, key: Vec<u8>, value: Vec<u8>)
    ensures
        entries.contains_key(key@) ==> store_step(entries, StoreRequest::Insert { key, value }).1 == Some(entries[key@]),
        !entries.contains_key(key@) ==> store_step(entries, StoreRequest::Insert { key, value }).1 is None,
{
}

/// A served removal of `key` leaves the key absent and every other key
/// holding what it held before.
pub proof fn lemma_served_remove_keeps_others(entries: Map<Seq<u8>, Seq<u8>>, key: Vec<u8>, other: Seq<u8>)
    requires
        other != key@,
    ensures
        !store_step(entries, StoreRequest::Remove { key }).0.contains_key(key@),
        store_step(entries, StoreRequest::Remove { key }).0.contains_key(other) == entries.contains_key(other),
        entries.contains_key(other) ==> store_step(entries, StoreRequest::Remove { key }).0[other] == entries[other],
{
}

/// A served removal answers exactly what the key held: its value where it
/// was present, nothing where it was absent.
pub proof fn lemma_served_remove_answers_removed(entries: Map<Seq<u8>, Seq<u8>>, key: Vec<u8>)
    ensures
        entries.contains_key(key@) ==> store_step(entries, StoreRequest::Remove { key }).1 == Some(entries[key@]),
        !entries.contains_key(key@) ==> store_step(entries, StoreRequest::Remove { key }).1 is None,
{
}

/// A served read changes nothing and answers exactly what the key holds.
pub proof fn lemma_served_read_answers_held(entries: Map<Seq<u8>, Seq<u8>>, key: Vec<u8>)
    ensures
        store_step(entries, StoreRequest::Get { key }).0 == entries,
        entries.contains_key(key@) ==> store_step(entries, StoreRequest::Get { key }).1 == Some(entries[key@]),
        !entries.contains_key(key@) ==> store_step(entries, StoreRequest::Get { key }).1 is None,
{
}

/// A value pushed onto the list is found at the list's former length,
/// and taking it out from there gives back the list from before.
pub proof fn lemma_push_then_take<T>(values: Seq<T>, value: T)
    ensures
        values.push(value)[values.len() as int] == value,
        values.push(value).remove(values.len() as int) == values,
{
    assert(values.push(value).remove(values.len() as int) =~= values);
}

/// Taking out the value at `index` keeps the values before it in place
/// and moves each value after it one place forward.
pub proof fn lemma_take_shifts<T>(values: Seq<T>, index: int, other: int)
    requires
        0 <= index < values.len(),
        0 <= other < values.len() - 1,
    ensures
        values.remove(index).len() == values.len() - 1,
        other < index ==> values.remove(index)[other] == values[other],
        other >= index ==> values.remove(index)[other] == values[other + 1],
{
}

} // verus!
