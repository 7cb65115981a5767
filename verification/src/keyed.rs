//! Keyed records kept as a list of entries in the order they were written.
//!
//! A list of `(key, value)` entries stands for the map in which each key has
//! the value of the latest entry written under it.

use vstd::prelude::*;

verus! {

/// The map that a list of entries stands for: later entries win.
pub open spec fn entries_map<K, V>(entries: Seq<(K, V)>) -> Map<K, V>
    decreases entries.len(),
{
    if entries.len() == 0 {
        Map::empty()
    } else {
        entries_map(entries.drop_last()).insert(entries.last().0, entries.last().1)
    }
}

/// Writing an entry at the end is an insertion into the map.
pub proof fn lemma_entries_push<K, V>(entries: Seq<(K, V)>, key: K, value: V)
    ensures
        entries_map(entries.push((key, value))) == entries_map(entries).insert(key, value),
{
    assert(entries.push((key, value)).drop_last() =~= entries);
}

/// A key under which no entry was written is not in the map.
pub proof fn lemma_entries_absent<K, V>(entries: Seq<(K, V)>, key: K)
    requires
        forall|i: int| 0 <= i < entries.len() ==> entries[i].0 != key,
    ensures
        !entries_map(entries).contains_key(key),
    decreases entries.len(),
{
    if entries.len() > 0 {
        lemma_entries_absent(entries.drop_last(), key);
    }
}

/// The latest entry written under a key holds the key's value in the map.
pub proof fn lemma_entries_latest<K, V>(entries: Seq<(K, V)>, at: int)
    requires
        0 <= at < entries.len(),
        forall|i: int| at < i < entries.len() ==> entries[i].0 != entries[at].0,
    ensures
        entries_map(entries).contains_key(entries[at].0),
        entries_map(entries)[entries[at].0] == entries[at].1,
    decreases entries.len(),
{
    if at < entries.len() - 1 {
        lemma_entries_latest(entries.drop_last(), at);
    }
}

/// Overwriting the value of the latest entry written under a key is an
/// insertion into the map under that key.
pub proof fn lemma_entries_overwrite<K, V>(entries: Seq<(K, V)>, at: int, value: V)
    requires
        0 <= at < entries.len(),
        forall|i: int| at < i < entries.len() ==> entries[i].0 != entries[at].0,
    ensures
        entries_map(entries.update(at, (entries[at].0, value))) == entries_map(entries).insert(
            entries[at].0,
            value,
        ),
    decreases entries.len(),
{
    let key = entries[at].0;
    let updated = entries.update(at, (key, value));
    if at == entries.len() - 1 {
        assert(updated.drop_last() =~= entries.drop_last());
        assert(entries_map(updated) =~= entries_map(entries).insert(key, value));
    } else {
        lemma_entries_overwrite(entries.drop_last(), at, value);
        assert(updated.drop_last() =~= entries.drop_last().update(at, (key, value)));
        assert(updated.last() == entries.last());
        assert(entries_map(updated) =~= entries_map(entries).insert(key, value));
    }
}

} // verus!
