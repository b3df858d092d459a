//! The mathematical model of a repository: a map from identifiers to records,
//! written by upserts and read as a whole by snapshots.

use vstd::prelude::*;

verus! {

/// `records` lists the records of `store` in the order of `keys`, and `keys`
/// names every key of `store` once.
pub open spec fn lists<K, V>(keys: Seq<K>, records: Seq<V>, store: Map<K, V>) -> bool {
    &&& keys.no_duplicates()
    &&& keys.len() == records.len()
    &&& forall|key: K| keys.contains(key) <==> store.contains_key(key)
    &&& forall|i: int| 0 <= i < keys.len() ==> records[i] == store[#[trigger] keys[i]]
}

/// `records` holds the record of every key of `store`, each once, in some
/// order.
pub open spec fn is_snapshot<K, V>(records: Seq<V>, store: Map<K, V>) -> bool {
    exists|keys: Seq<K>| lists(keys, records, store)
}

/// Saving twice under one key leaves what the second save alone leaves: the
/// first record is gone, the store has no more keys than after the first
/// save, and every listing of the store shows the key once, with the second
/// record.
pub proof fn lemma_upsert_twice<K, V>(
    store: Map<K, V>,
    key: K,
    first: V,
    second: V,
    keys: Seq<K>,
    records: Seq<V>,
)
    requires
        lists(keys, records, store.insert(key, first).insert(key, second)),
    ensures
        store.insert(key, first).insert(key, second) == store.insert(key, second),
        store.insert(key, first).insert(key, second).dom() == store.insert(key, first).dom(),
        exists|i: int|
            {
                &&& 0 <= i < keys.len()
                &&& keys[i] == key
                &&& records[i] == second
                &&& forall|j: int| 0 <= j < keys.len() && keys[j] == key ==> j == i
            },
{
    let after = store.insert(key, first).insert(key, second);
    assert(after =~= store.insert(key, second));
    assert(after.dom() =~= store.insert(key, first).dom());
    assert(after.contains_key(key));
    assert(keys.contains(key));
    let i = choose|i: int| 0 <= i < keys.len() && keys[i] == key;
    assert(records[i] == after[keys[i]]);
}

} // verus!
