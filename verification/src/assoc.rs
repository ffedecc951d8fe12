//! Lists of pairs that are read as maps: the model of every table that the
//! library keeps in a vector.

use vstd::prelude::*;

verus! {

/// The map that a list of pairs stands for. Where a key stands twice, one of
/// its values is taken: the lists of this library hold each key once.
pub open spec fn as_map<K, V>(pairs: Seq<(K, V)>) -> Map<K, V> {
    Map::new(
        |key: K| exists|i: int| 0 <= i < pairs.len() && pairs[i].0 == key,
        |key: K| pairs[choose|i: int| 0 <= i < pairs.len() && pairs[i].0 == key].1,
    )
}

/// No key stands twice.
pub open spec fn unique_keys<K, V>(pairs: Seq<(K, V)>) -> bool {
    forall|i: int, j: int| 0 <= i < j < pairs.len() ==> pairs[i].0 != pairs[j].0
}

/// Each pair of a list with unique keys is an entry of its map.
pub proof fn lemma_as_map_at<K, V>(pairs: Seq<(K, V)>, i: int)
    requires
        unique_keys(pairs),
        0 <= i < pairs.len(),
    ensures
        as_map(pairs).contains_key(pairs[i].0),
        as_map(pairs)[pairs[i].0] == pairs[i].1,
{
    let key = pairs[i].0;
    let chosen = choose|c: int| 0 <= c < pairs.len() && pairs[c].0 == key;
    assert(chosen == i);
}

/// Each entry of the map is a pair of the list.
pub proof fn lemma_as_map_from<K, V>(pairs: Seq<(K, V)>, key: K) -> (i: int)
    requires
        as_map(pairs).contains_key(key),
    ensures
        0 <= i < pairs.len(),
        pairs[i] == (key, as_map(pairs)[key]),
{
    choose|i: int| 0 <= i < pairs.len() && pairs[i].0 == key
}

/// A key that stands nowhere in the list is not in the map.
pub proof fn lemma_as_map_absent<K, V>(pairs: Seq<(K, V)>, key: K)
    requires
        forall|i: int| 0 <= i < pairs.len() ==> pairs[i].0 != key,
    ensures
        !as_map(pairs).contains_key(key),
{
}

pub proof fn lemma_as_map_empty<K, V>()
    ensures
        as_map(Seq::<(K, V)>::empty()) == Map::<K, V>::empty(),
        unique_keys(Seq::<(K, V)>::empty()),
{
    assert(as_map(Seq::<(K, V)>::empty()) =~= Map::<K, V>::empty());
}

/// A pair with a new key at the end of the list is an insertion.
pub proof fn lemma_as_map_push<K, V>(pairs: Seq<(K, V)>, entry: (K, V))
    requires
        unique_keys(pairs),
        !as_map(pairs).contains_key(entry.0),
    ensures
        unique_keys(pairs.push(entry)),
        as_map(pairs.push(entry)) == as_map(pairs).insert(entry.0, entry.1),
{
    let grown = pairs.push(entry);
    assert forall|i: int, j: int| 0 <= i < j < grown.len() implies grown[i].0 != grown[j].0 by {
        if j == pairs.len() {
            assert(pairs[i].0 == grown[i].0);
        }
    }
    assert forall|key: K| #[trigger]
        as_map(grown).contains_key(key) <==> as_map(pairs).insert(entry.0, entry.1).contains_key(
            key,
        ) by {
        if as_map(grown).contains_key(key) {
            let i = choose|i: int| 0 <= i < grown.len() && grown[i].0 == key;
            if i < pairs.len() {
                assert(pairs[i].0 == key);
            }
        }
        if as_map(pairs).contains_key(key) {
            let i = choose|i: int| 0 <= i < pairs.len() && pairs[i].0 == key;
            assert(grown[i].0 == key);
        }
        if key == entry.0 {
            assert(grown[pairs.len() as int].0 == key);
        }
    }
    assert forall|key: K| #[trigger] as_map(grown).contains_key(key) implies as_map(grown)[key]
        == as_map(pairs).insert(entry.0, entry.1)[key] by {
        let i = choose|i: int| 0 <= i < grown.len() && grown[i].0 == key;
        lemma_as_map_at(grown, i);
        if i < pairs.len() {
            assert(pairs[i] == grown[i]);
            lemma_as_map_at(pairs, i);
        }
    }
    assert(as_map(grown) =~= as_map(pairs).insert(entry.0, entry.1));
}

/// Taking a pair out of the list takes its key out of the map.
pub proof fn lemma_as_map_remove<K, V>(pairs: Seq<(K, V)>, at: int)
    requires
        unique_keys(pairs),
        0 <= at < pairs.len(),
    ensures
        unique_keys(pairs.remove(at)),
        as_map(pairs.remove(at)) == as_map(pairs).remove(pairs[at].0),
{
    let less = pairs.remove(at);
    assert forall|i: int, j: int| 0 <= i < j < less.len() implies less[i].0 != less[j].0 by {
        let a = if i < at { i } else { i + 1 };
        let b = if j < at { j } else { j + 1 };
        assert(less[i] == pairs[a] && less[j] == pairs[b]);
    }
    assert forall|key: K| #[trigger]
        as_map(less).contains_key(key) <==> as_map(pairs).remove(pairs[at].0).contains_key(
            key,
        ) by {
        if as_map(less).contains_key(key) {
            let i = choose|i: int| 0 <= i < less.len() && less[i].0 == key;
            let a = if i < at { i } else { i + 1 };
            assert(pairs[a].0 == key);
        }
        if as_map(pairs).contains_key(key) && key != pairs[at].0 {
            let a = choose|a: int| 0 <= a < pairs.len() && pairs[a].0 == key;
            let i = if a < at { a } else { a - 1 };
            assert(less[i].0 == key);
        }
    }
    assert forall|key: K| #[trigger] as_map(less).contains_key(key) implies as_map(less)[key]
        == as_map(pairs).remove(pairs[at].0)[key] by {
        let i = choose|i: int| 0 <= i < less.len() && less[i].0 == key;
        let a = if i < at { i } else { i + 1 };
        lemma_as_map_at(less, i);
        assert(less[i] == pairs[a]);
        lemma_as_map_at(pairs, a);
    }
    assert(as_map(less) =~= as_map(pairs).remove(pairs[at].0));
}

/// A new value for the key of a pair is an insertion.
pub proof fn lemma_as_map_update<K, V>(pairs: Seq<(K, V)>, at: int, value: V)
    requires
        unique_keys(pairs),
        0 <= at < pairs.len(),
    ensures
        unique_keys(pairs.update(at, (pairs[at].0, value))),
        as_map(pairs.update(at, (pairs[at].0, value))) == as_map(pairs).insert(
            pairs[at].0,
            value,
        ),
{
    let changed = pairs.update(at, (pairs[at].0, value));
    assert forall|i: int, j: int| 0 <= i < j < changed.len() implies changed[i].0
        != changed[j].0 by {
        assert(changed[i].0 == pairs[i].0 && changed[j].0 == pairs[j].0);
    }
    assert forall|key: K| #[trigger]
        as_map(changed).contains_key(key) <==> as_map(pairs).insert(
            pairs[at].0,
            value,
        ).contains_key(key) by {
        if as_map(changed).contains_key(key) {
            let i = choose|i: int| 0 <= i < changed.len() && changed[i].0 == key;
            assert(pairs[i].0 == key);
        }
        if as_map(pairs).contains_key(key) {
            let i = choose|i: int| 0 <= i < pairs.len() && pairs[i].0 == key;
            assert(changed[i].0 == key);
        }
        if key == pairs[at].0 {
            assert(changed[at].0 == key);
        }
    }
    assert forall|key: K| #[trigger]
        as_map(changed).contains_key(key) implies as_map(changed)[key] == as_map(pairs).insert(
        pairs[at].0,
        value,
    )[key] by {
        let i = choose|i: int| 0 <= i < changed.len() && changed[i].0 == key;
        lemma_as_map_at(changed, i);
        if i != at {
            assert(changed[i] == pairs[i]);
            lemma_as_map_at(pairs, i);
        }
    }
    assert(as_map(changed) =~= as_map(pairs).insert(pairs[at].0, value));
}

/// A list with unique keys has as many pairs as its map has entries.
pub proof fn lemma_as_map_len<K, V>(pairs: Seq<(K, V)>)
    requires
        unique_keys(pairs),
    ensures
        as_map(pairs).dom().finite(),
        as_map(pairs).len() == pairs.len(),
{
    let keys = pairs.map_values(|e: (K, V)| e.0);
    assert(keys.no_duplicates());
    keys.unique_seq_to_set();
    assert(keys.to_set() =~= as_map(pairs).dom()) by {
        assert forall|key: K| keys.to_set().contains(key) <==> as_map(pairs).dom().contains(
            key,
        ) by {
            if keys.to_set().contains(key) {
                let i = choose|i: int| 0 <= i < keys.len() && keys[i] == key;
                assert(pairs[i].0 == key);
            }
            if as_map(pairs).dom().contains(key) {
                let i = choose|i: int| 0 <= i < pairs.len() && pairs[i].0 == key;
                assert(keys[i] == key);
            }
        }
    }
}

} // verus!
