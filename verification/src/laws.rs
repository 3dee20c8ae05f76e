//! The library's laws, stated over the mathematical model the contracts use:
//! `set_string` takes the store's map to `old map.insert(key, value)` and
//! `get_string` answers exactly from the map, so each law below speaks of
//! maps over key and value views (`Seq<char>`) and a sequence of writes.

use crate::store::map_of;
use vstd::prelude::*;

verus! {

/// The map after a sequence of writes, applied in order: each write inserts
/// its key-value pair (last write wins). This is what a run of serialized
/// `set_string` calls leaves in the store, by `set_string`'s contract.
pub open spec fn after_writes(
    m: Map<Seq<char>, Seq<char>>,
    writes: Seq<(Seq<char>, Seq<char>)>,
) -> Map<Seq<char>, Seq<char>>
    decreases writes.len(),
{
    if writes.len() == 0 {
        m
    } else {
        after_writes(m, writes.drop_last()).insert(writes.last().0, writes.last().1)
    }
}

/// A write is readable back: after setting `key` to `value`, looking `key` up
/// yields exactly `value`, whatever the map held before.
pub proof fn lemma_set_then_get(m: Map<Seq<char>, Seq<char>>, key: Seq<char>, value: Seq<char>)
    ensures
        m.insert(key, value).contains_key(key),
        m.insert(key, value)[key] == value,
{
}

/// A key that no write ever names stays absent: if the map does not hold
/// `key` and every write is to some other key, the map after the writes does
/// not hold `key` either.
pub proof fn lemma_unset_key_absent(
    m: Map<Seq<char>, Seq<char>>,
    writes: Seq<(Seq<char>, Seq<char>)>,
    key: Seq<char>,
)
    requires
        !m.contains_key(key),
        forall|i: int| 0 <= i < writes.len() ==> writes[i].0 != key,
    ensures
        !after_writes(m, writes).contains_key(key),
    decreases writes.len(),
{
    if writes.len() > 0 {
        lemma_unset_key_absent(m, writes.drop_last(), key);
    }
}

/// Overwriting: setting a key twice leaves the later value, and a key set to
/// neither write keeps exactly the entry it had before.
pub proof fn lemma_overwrite(
    m: Map<Seq<char>, Seq<char>>,
    key: Seq<char>,
    v1: Seq<char>,
    v2: Seq<char>,
    other: Seq<char>,
)
    requires
        other != key,
    ensures
        m.insert(key, v1).insert(key, v2)[key] == v2,
        m.insert(key, v1).insert(key, v2).contains_key(other) == m.contains_key(other),
        m.contains_key(other) ==> m.insert(key, v1).insert(key, v2)[other] == m[other],
{
}

/// Idempotence: setting the same key-value pair twice leaves the map exactly
/// as setting it once does.
pub proof fn lemma_set_idempotent(m: Map<Seq<char>, Seq<char>>, key: Seq<char>, value: Seq<char>)
    ensures
        m.insert(key, value).insert(key, value) == m.insert(key, value),
{
    assert(m.insert(key, value).insert(key, value) =~= m.insert(key, value));
}

/// A store built over no entries answers every lookup with nothing: its map
/// holds no key until a write occurs.
pub proof fn lemma_fresh_store_empty(key: Seq<char>)
    ensures
        !map_of(Seq::<(String, String)>::empty()).contains_key(key),
{
}

/// Serialized writes to pairwise-distinct keys are all kept: whatever order
/// the lock admitted them in, every written key afterwards maps to its own
/// value — no update is lost.
pub proof fn lemma_distinct_writes_all_kept(
    m: Map<Seq<char>, Seq<char>>,
    writes: Seq<(Seq<char>, Seq<char>)>,
    i: int,
)
    requires
        0 <= i < writes.len(),
        forall|a: int, b: int| 0 <= a < b < writes.len() ==> writes[a].0 != writes[b].0,
    ensures
        after_writes(m, writes).contains_key(writes[i].0),
        after_writes(m, writes)[writes[i].0] == writes[i].1,
    decreases writes.len(),
{
    if i < writes.len() - 1 {
        let t = writes.drop_last();
        lemma_distinct_writes_all_kept(m, t, i);
        assert(writes.last().0 != writes[i].0);
    }
}

} // verus!
