//! Small tables: sequences of entries in which no key occurs twice.

use vstd::prelude::*;

verus! {

/// Whether a table holds the given key.
pub open spec fn has_key<K, V>(entries: Seq<(K, V)>, key: K) -> bool {
    exists|i: int| 0 <= i < entries.len() && (#[trigger] entries[i]).0 == key
}

/// The place of the given key in a table that holds it.
pub open spec fn slot_of<K, V>(entries: Seq<(K, V)>, key: K) -> int {
    choose|i: int| 0 <= i < entries.len() && (#[trigger] entries[i]).0 == key
}

/// Whether no key occurs twice in a table.
pub open spec fn distinct_keys<K, V>(entries: Seq<(K, V)>) -> bool {
    forall|i: int, j: int|
        0 <= i < j < entries.len() ==> (#[trigger] entries[i]).0 != (#[trigger] entries[j]).0
}

/// The table after an entry was made: an entry with a known key takes the
/// place of the old one, any other goes to the end.
pub open spec fn with_entry<K, V>(entries: Seq<(K, V)>, key: K, value: V) -> Seq<(K, V)> {
    if has_key(entries, key) {
        entries.update(slot_of(entries, key), (key, value))
    } else {
        entries.push((key, value))
    }
}

/// The table after the entry with the given key was taken out.
pub open spec fn without_entry<K, V>(entries: Seq<(K, V)>, key: K) -> Seq<(K, V)> {
    if has_key(entries, key) {
        entries.remove(slot_of(entries, key))
    } else {
        entries
    }
}

/// In a table without repeated keys, the place of a key is the one place that
/// holds it.
pub proof fn slot_is_unique<K, V>(entries: Seq<(K, V)>, key: K, i: int)
    requires
        distinct_keys(entries),
        0 <= i < entries.len(),
        entries[i].0 == key,
    ensures
        has_key(entries, key),
        slot_of(entries, key) == i,
{
    assert(has_key(entries, key));
    let j = slot_of(entries, key);
    assert(entries[j].0 == key);
}

/// Making an entry keeps the keys distinct, and afterwards the table holds
/// the key with the new value.
pub proof fn with_entry_keeps_distinct<K, V>(entries: Seq<(K, V)>, key: K, value: V)
    requires
        distinct_keys(entries),
    ensures
        distinct_keys(with_entry(entries, key, value)),
        has_key(with_entry(entries, key, value), key),
        with_entry(entries, key, value)[slot_of(with_entry(entries, key, value), key)].1 == value,
{
    let after = with_entry(entries, key, value);
    if has_key(entries, key) {
        let i = slot_of(entries, key);
        assert(after[i] == (key, value));
        assert forall|a: int, b: int| 0 <= a < b < after.len() implies (#[trigger] after[a]).0 != (
        #[trigger] after[b]).0 by {
            assert(after[a].0 == entries[a].0);
            assert(after[b].0 == entries[b].0);
        }
        slot_is_unique(after, key, i);
    } else {
        let i = entries.len() as int;
        assert(after[i] == (key, value));
        assert forall|a: int, b: int| 0 <= a < b < after.len() implies (#[trigger] after[a]).0 != (
        #[trigger] after[b]).0 by {
            if b < entries.len() {
                assert(after[a] == entries[a]);
                assert(after[b] == entries[b]);
            } else {
                assert(after[a] == entries[a]);
            }
        }
        slot_is_unique(after, key, i);
    }
}

/// Taking an entry out keeps the keys distinct, and afterwards the table does
/// not hold the key.
pub proof fn without_entry_drops_key<K, V>(entries: Seq<(K, V)>, key: K)
    requires
        distinct_keys(entries),
    ensures
        distinct_keys(without_entry(entries, key)),
        !has_key(without_entry(entries, key), key),
        has_key(entries, key) ==> without_entry(entries, key).len() == entries.len() - 1,
{
    let after = without_entry(entries, key);
    if has_key(entries, key) {
        let i = slot_of(entries, key);
        assert forall|a: int| 0 <= a < after.len() implies (#[trigger] after[a]) == entries[if a
            < i {
            a
        } else {
            a + 1
        }] by {}
        assert forall|a: int, b: int| 0 <= a < b < after.len() implies (#[trigger] after[a]).0 != (
        #[trigger] after[b]).0 by {
            let a0 = if a < i { a } else { a + 1 };
            let b0 = if b < i { b } else { b + 1 };
            assert(after[a] == entries[a0]);
            assert(after[b] == entries[b0]);
        }
        assert forall|a: int| 0 <= a < after.len() implies (#[trigger] after[a]).0 != key by {
            let a0 = if a < i { a } else { a + 1 };
            assert(after[a] == entries[a0]);
            if a0 < i {
                assert(entries[a0].0 != entries[i].0);
            } else {
                assert(entries[i].0 != entries[a0].0);
            }
        }
    }
}

} // verus!
