//! A list of entries, no two under one key, read as a finite map.

use vstd::prelude::*;

verus! {

/// Whether no two entries share a key.
pub open spec fn distinct_keys<K, V>(entries: Seq<(K, V)>) -> bool {
    forall|i: int, j: int|
        0 <= i < entries.len() && 0 <= j < entries.len() && i != j ==> (#[trigger] entries[i]).0
            != (#[trigger] entries[j]).0
}

/// The map that holds each entry's value under its key. Where a key occurs
/// twice, the later entry counts.
pub open spec fn table<K, V>(entries: Seq<(K, V)>) -> Map<K, V>
    decreases entries.len(),
{
    if entries.len() == 0 {
        Map::empty()
    } else {
        table(entries.drop_last()).insert(entries.last().0, entries.last().1)
    }
}

/// The first place at which `key` occurs among the keys of `entries`.
pub open spec fn position<K, V>(entries: Seq<(K, V)>, key: K) -> Option<int>
    decreases entries.len(),
{
    if entries.len() == 0 {
        None
    } else {
        match position(entries.drop_last(), key) {
            Some(i) => Some(i),
            None => if entries.last().0 == key {
                Some(entries.len() - 1)
            } else {
                None
            },
        }
    }
}

/// `position` finds the first entry under `key`, and finds none only where
/// there is none.
pub proof fn lemma_position<K, V>(entries: Seq<(K, V)>, key: K)
    ensures
        match position(entries, key) {
            Some(i) => {
                &&& 0 <= i < entries.len()
                &&& entries[i].0 == key
                &&& forall|j: int| 0 <= j < i ==> (#[trigger] entries[j]).0 != key
            },
            None => forall|j: int| 0 <= j < entries.len() ==> (#[trigger] entries[j]).0 != key,
        },
    decreases entries.len(),
{
    if entries.len() > 0 {
        lemma_position(entries.drop_last(), key);
        assert(forall|j: int|
            0 <= j < entries.len() - 1 ==> entries.drop_last()[j] == #[trigger] entries[j]);
    }
}

/// The table holds `key` exactly where an entry stands under it.
pub proof fn lemma_table_contains<K, V>(entries: Seq<(K, V)>, key: K)
    ensures
        table(entries).dom().contains(key) <==> exists|i: int|
            0 <= i < entries.len() && (#[trigger] entries[i]).0 == key,
    decreases entries.len(),
{
    if entries.len() > 0 {
        let front = entries.drop_last();
        lemma_table_contains(front, key);
        if table(entries).dom().contains(key) {
            if key == entries.last().0 {
                assert(entries[entries.len() - 1].0 == key);
            } else {
                assert(table(front).dom().contains(key));
                let i = choose|i: int| 0 <= i < front.len() && (#[trigger] front[i]).0 == key;
                assert(front[i] == entries[i]);
                assert(entries[i].0 == key);
            }
        }
        if exists|i: int| 0 <= i < entries.len() && (#[trigger] entries[i]).0 == key {
            let i = choose|i: int| 0 <= i < entries.len() && (#[trigger] entries[i]).0 == key;
            if i < front.len() {
                assert(front[i] == entries[i]);
                assert(front[i].0 == key);
            }
        }
    }
}

/// Distinct keys stay distinct when the last entry is dropped.
pub proof fn lemma_distinct_drop_last<K, V>(entries: Seq<(K, V)>)
    requires
        entries.len() > 0,
        distinct_keys(entries),
    ensures
        distinct_keys(entries.drop_last()),
{
    let front = entries.drop_last();
    assert forall|i: int, j: int|
        0 <= i < front.len() && 0 <= j < front.len() && i != j implies (#[trigger] front[i]).0 != (
    #[trigger] front[j]).0 by {
        assert(front[i] == entries[i]);
        assert(front[j] == entries[j]);
        assert(entries[i].0 != entries[j].0);
    }
}

/// With distinct keys, the table holds each entry's value under its key.
pub proof fn lemma_table_value<K, V>(entries: Seq<(K, V)>, i: int)
    requires
        0 <= i < entries.len(),
        distinct_keys(entries),
    ensures
        table(entries).dom().contains(entries[i].0),
        table(entries)[entries[i].0] == entries[i].1,
    decreases entries.len(),
{
    let front = entries.drop_last();
    if i < entries.len() - 1 {
        lemma_distinct_drop_last(entries);
        lemma_table_value(front, i);
        assert(front[i] == entries[i]);
        assert(entries[i].0 != entries[entries.len() - 1].0);
    }
}

/// Whether the table of `entries` holds `key` is whether `key` has a
/// position; with distinct keys the table holds the value at that position.
pub proof fn lemma_table_position<K, V>(entries: Seq<(K, V)>, key: K)
    ensures
        table(entries).dom().contains(key) <==> position(entries, key) is Some,
        distinct_keys(entries) && position(entries, key) is Some ==> table(entries)[key]
            == entries[position(entries, key)->0].1,
{
    lemma_position(entries, key);
    lemma_table_contains(entries, key);
    if position(entries, key) is Some {
        let i = position(entries, key)->0;
        assert(entries[i].0 == key);
        if distinct_keys(entries) {
            lemma_table_value(entries, i);
        }
    } else {
        if exists|i: int| 0 <= i < entries.len() && (#[trigger] entries[i]).0 == key {
            let i = choose|i: int| 0 <= i < entries.len() && (#[trigger] entries[i]).0 == key;
            assert(entries[i].0 != key);
        }
    }
}

/// Appending an entry puts its value under its key.
pub proof fn lemma_table_push<K, V>(entries: Seq<(K, V)>, key: K, value: V)
    ensures
        table(entries.push((key, value))) == table(entries).insert(key, value),
{
    assert(entries.push((key, value)).drop_last() =~= entries);
}

/// Taking out the entry at `i` takes its key out of the table, where keys
/// are distinct, and leaves them distinct.
pub proof fn lemma_table_remove<K, V>(entries: Seq<(K, V)>, i: int)
    requires
        0 <= i < entries.len(),
        distinct_keys(entries),
    ensures
        distinct_keys(entries.remove(i)),
        table(entries.remove(i)) == table(entries).remove(entries[i].0),
{
    let rest = entries.remove(i);
    assert forall|a: int, b: int|
        0 <= a < rest.len() && 0 <= b < rest.len() && a != b implies (#[trigger] rest[a]).0 != (
    #[trigger] rest[b]).0 by {
        let a0 = if a < i {
            a
        } else {
            a + 1
        };
        let b0 = if b < i {
            b
        } else {
            b + 1
        };
        assert(rest[a] == entries[a0]);
        assert(rest[b] == entries[b0]);
        assert(entries[a0].0 != entries[b0].0);
    }
    let left = table(rest);
    let right = table(entries).remove(entries[i].0);
    assert forall|k: K| left.dom().contains(k) <==> right.dom().contains(k) by {
        lemma_table_contains(rest, k);
        lemma_table_contains(entries, k);
        if left.dom().contains(k) {
            let a = choose|a: int| 0 <= a < rest.len() && (#[trigger] rest[a]).0 == k;
            let a0 = if a < i {
                a
            } else {
                a + 1
            };
            assert(rest[a] == entries[a0]);
            assert(entries[a0].0 == k);
            assert(entries[a0].0 != entries[i].0);
        }
        if right.dom().contains(k) {
            let a0 = choose|a: int| 0 <= a < entries.len() && (#[trigger] entries[a]).0 == k;
            assert(a0 != i);
            let a = if a0 < i {
                a0
            } else {
                a0 - 1
            };
            assert(rest[a] == entries[a0]);
            assert(rest[a].0 == k);
        }
    }
    assert forall|k: K| left.dom().contains(k) implies left[k] == right[k] by {
        lemma_table_contains(rest, k);
        let a = choose|a: int| 0 <= a < rest.len() && (#[trigger] rest[a]).0 == k;
        let a0 = if a < i {
            a
        } else {
            a + 1
        };
        assert(rest[a] == entries[a0]);
        lemma_table_value(rest, a);
        lemma_table_value(entries, a0);
    }
    assert(left =~= right);
}

/// Appending an entry under a key that does not occur keeps the keys
/// distinct.
pub proof fn lemma_distinct_push<K, V>(entries: Seq<(K, V)>, key: K, value: V)
    requires
        distinct_keys(entries),
        !table(entries).dom().contains(key),
    ensures
        distinct_keys(entries.push((key, value))),
{
    lemma_table_contains(entries, key);
    let more = entries.push((key, value));
    assert forall|a: int, b: int|
        0 <= a < more.len() && 0 <= b < more.len() && a != b implies (#[trigger] more[a]).0 != (
    #[trigger] more[b]).0 by {
        if a < entries.len() && b < entries.len() {
            assert(entries[a].0 != entries[b].0);
        } else if a < entries.len() {
            assert(entries[a].0 != key);
        } else {
            assert(entries[b].0 != key);
        }
    }
}

/// With distinct keys, the table has as many keys as there are entries.
pub proof fn lemma_table_size<K, V>(entries: Seq<(K, V)>)
    requires
        distinct_keys(entries),
    ensures
        table(entries).dom().finite(),
        table(entries).dom().len() == entries.len(),
    decreases entries.len(),
{
    if entries.len() > 0 {
        lemma_distinct_drop_last(entries);
        lemma_table_size(entries.drop_last());
        lemma_table_contains(entries.drop_last(), entries.last().0);
        if table(entries.drop_last()).dom().contains(entries.last().0) {
            let i = choose|i: int|
                0 <= i < entries.drop_last().len() && (#[trigger] entries.drop_last()[i]).0
                    == entries.last().0;
            assert(entries[i] == entries.drop_last()[i]);
            assert(entries[i].0 != entries[entries.len() - 1].0);
        }
    }
}

} // verus!
