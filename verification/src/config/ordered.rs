//! Name-indexed collections that keep the order of first insertion.
//!
//! A collection is modelled as a sequence of `(key, value)` pairs in
//! iteration order, keys being the characters of the name.

use indexmap::IndexMap;
use vstd::prelude::*;

verus! {

/// `indexmap::IndexMap`, held as an opaque value. What a map holds is named
/// per instantiation, next to the types that are stored in it.
#[verifier::external_type_specification]
#[verifier::external_body]
#[verifier::reject_recursive_types(K)]
#[verifier::reject_recursive_types(V)]
#[verifier::reject_recursive_types(S)]
pub struct ExIndexMap<K, V, S>(IndexMap<K, V, S>);

/// The pairs of a name-indexed collection, in iteration order.
pub type Entries<V> = Seq<(Seq<char>, V)>;

/// Some pair of `s` is stored under `key`.
pub open spec fn has_key<V>(s: Entries<V>, key: Seq<char>) -> bool {
    exists|i: int| 0 <= i < s.len() && (#[trigger] s[i]).0 == key
}

/// A position of `s` that is stored under `key`, where there is one.
pub open spec fn key_index<V>(s: Entries<V>, key: Seq<char>) -> int {
    choose|i: int| 0 <= i < s.len() && (#[trigger] s[i]).0 == key
}

/// No two pairs of `s` share a key.
pub open spec fn distinct_keys<V>(s: Entries<V>) -> bool {
    forall|i: int, j: int| 0 <= i < j < s.len() ==> (#[trigger] s[i]).0 != (#[trigger] s[j]).0
}

/// Insertion into an ordered map: a key that is already present keeps its
/// place and takes the new value; a new key goes last.
pub open spec fn ordered_insert<V>(s: Entries<V>, key: Seq<char>, value: V) -> Entries<V> {
    if has_key(s, key) {
        s.update(key_index(s, key), (key, value))
    } else {
        s.push((key, value))
    }
}

/// The ordered map that results from inserting `pairs` one after another,
/// front to back, into an empty map.
pub open spec fn collect<V>(pairs: Entries<V>) -> Entries<V>
    decreases pairs.len(),
{
    if pairs.len() == 0 {
        Seq::empty()
    } else {
        ordered_insert(collect(pairs.drop_last()), pairs.last().0, pairs.last().1)
    }
}

/// `pairs[i]` is the last pair of `pairs` under its key.
pub open spec fn is_last_of_key<V>(pairs: Entries<V>, i: int) -> bool {
    &&& 0 <= i < pairs.len()
    &&& forall|j: int| i < j < pairs.len() ==> (#[trigger] pairs[j]).0 != pairs[i].0
}

/// Insertion changes the length by at most one and keeps every other key's
/// pair where it was.
pub proof fn lemma_insert_shape<V>(s: Entries<V>, key: Seq<char>, value: V)
    ensures
        has_key(s, key) ==> ordered_insert(s, key, value).len() == s.len(),
        !has_key(s, key) ==> ordered_insert(s, key, value).len() == s.len() + 1,
        forall|i: int|
            0 <= i < s.len() && (#[trigger] s[i]).0 != key ==> ordered_insert(s, key, value)[i]
                == s[i],
        forall|i: int|
            0 <= i < s.len() ==> (#[trigger] ordered_insert(s, key, value)[i]).0 == s[i].0,
        has_key(ordered_insert(s, key, value), key),
{
    let t = ordered_insert(s, key, value);
    if has_key(s, key) {
        let n = key_index(s, key);
        assert(t[n].0 == key);
    } else {
        assert(t[s.len() as int].0 == key);
    }
}

/// Insertion keeps keys distinct.
pub proof fn lemma_insert_keeps_distinct<V>(s: Entries<V>, key: Seq<char>, value: V)
    requires
        distinct_keys(s),
    ensures
        distinct_keys(ordered_insert(s, key, value)),
{
    let t = ordered_insert(s, key, value);
    lemma_insert_shape(s, key, value);
    assert forall|i: int, j: int| 0 <= i < j < t.len() implies (#[trigger] t[i]).0 != (
    #[trigger] t[j]).0 by {
        if has_key(s, key) {
            assert(t[i].0 == s[i].0 && t[j].0 == s[j].0);
        } else {
            if j < s.len() {
                assert(t[i].0 == s[i].0 && t[j].0 == s[j].0);
            } else {
                assert(t[j].0 == key);
                assert(t[i].0 == s[i].0);
            }
        }
    }
}

/// After an insertion the map holds the inserted pair, exactly once.
pub proof fn lemma_insert_holds_pair<V>(s: Entries<V>, key: Seq<char>, value: V)
    requires
        distinct_keys(s),
    ensures
        ordered_insert(s, key, value).contains((key, value)),
        forall|n: int|
            0 <= n < ordered_insert(s, key, value).len() && (#[trigger] ordered_insert(
                s,
                key,
                value,
            )[n]).0 == key ==> ordered_insert(s, key, value)[n] == (key, value),
{
    let t = ordered_insert(s, key, value);
    lemma_insert_shape(s, key, value);
    if has_key(s, key) {
        let n = key_index(s, key);
        assert(t[n] == (key, value));
        assert forall|m: int| 0 <= m < t.len() && (#[trigger] t[m]).0 == key implies t[m] == (
            key,
            value,
        ) by {
            if m != n {
                assert(s[m].0 == t[m].0);
                if m < n {
                    assert(s[m].0 != s[n].0);
                } else {
                    assert(s[n].0 != s[m].0);
                }
            }
        }
    } else {
        assert(t[s.len() as int] == (key, value));
        assert forall|m: int| 0 <= m < t.len() && (#[trigger] t[m]).0 == key implies t[m] == (
            key,
            value,
        ) by {
            if m < s.len() {
                assert(s[m].0 == key);
            }
        }
    }
}

/// The keys of `s`, in order.
pub open spec fn keys_of<V>(s: Entries<V>) -> Seq<Seq<char>> {
    Seq::new(s.len(), |i: int| s[i].0)
}

/// The keys of `keys` in order of first appearance, each once.
pub open spec fn first_appearances(keys: Seq<Seq<char>>) -> Seq<Seq<char>>
    decreases keys.len(),
{
    if keys.len() == 0 {
        Seq::empty()
    } else {
        let seen = first_appearances(keys.drop_last());
        if seen.contains(keys.last()) {
            seen
        } else {
            seen.push(keys.last())
        }
    }
}

/// Names are unique within a collected map.
pub proof fn lemma_collect_distinct<V>(pairs: Entries<V>)
    ensures
        distinct_keys(collect(pairs)),
    decreases pairs.len(),
{
    if pairs.len() > 0 {
        lemma_collect_distinct(pairs.drop_last());
        lemma_insert_keeps_distinct(collect(pairs.drop_last()), pairs.last().0, pairs.last().1);
    }
}

/// Last write wins: the pair that was declared last under a name is in the
/// collected map.
pub proof fn lemma_collect_last_wins<V>(pairs: Entries<V>, i: int)
    requires
        is_last_of_key(pairs, i),
    ensures
        collect(pairs).contains(pairs[i]),
    decreases pairs.len(),
{
    let front = pairs.drop_last();
    let held = collect(front);
    let (key, value) = pairs.last();
    lemma_collect_distinct(front);
    if i == pairs.len() - 1 {
        lemma_insert_holds_pair(held, key, value);
    } else {
        assert(pairs[pairs.len() - 1].0 != pairs[i].0);
        assert(is_last_of_key(front, i)) by {
            assert forall|j: int| i < j < front.len() implies (#[trigger] front[j]).0
                != front[i].0 by {
                assert(pairs[j].0 != pairs[i].0);
            }
        }
        lemma_collect_last_wins(front, i);
        let m = choose|m: int| 0 <= m < held.len() && held[m] == front[i];
        lemma_insert_shape(held, key, value);
        assert(held[m].0 != key);
        assert(collect(pairs)[m] == pairs[i]);
    }
}

/// Nothing else is in the collected map: each of its pairs is the last
/// declaration under its name.
pub proof fn lemma_collect_sources<V>(pairs: Entries<V>, n: int)
    requires
        0 <= n < collect(pairs).len(),
    ensures
        exists|i: int| #[trigger] is_last_of_key(pairs, i) && pairs[i] == collect(pairs)[n],
    decreases pairs.len(),
{
    let front = pairs.drop_last();
    let held = collect(front);
    let (key, value) = pairs.last();
    let all = collect(pairs);
    lemma_collect_distinct(front);
    lemma_insert_shape(held, key, value);
    lemma_insert_holds_pair(held, key, value);
    if all[n].0 == key {
        assert(is_last_of_key(pairs, pairs.len() - 1));
    } else {
        if n >= held.len() {
            assert(!has_key(held, key) ==> all[held.len() as int].0 == key);
        }
        assert(n < held.len());
        assert(held[n].0 == all[n].0);
        assert(all[n] == held[n]);
        lemma_collect_sources(front, n);
        let i = choose|i: int| #[trigger] is_last_of_key(front, i) && front[i] == held[n];
        assert(is_last_of_key(pairs, i)) by {
            assert forall|j: int| i < j < pairs.len() implies (#[trigger] pairs[j]).0
                != pairs[i].0 by {
                if j < front.len() {
                    assert(front[j].0 != front[i].0);
                }
            }
        }
    }
}

/// A list without repeated names is collected unchanged.
pub proof fn lemma_collect_identity<V>(pairs: Entries<V>)
    requires
        distinct_keys(pairs),
    ensures
        collect(pairs) == pairs,
    decreases pairs.len(),
{
    if pairs.len() > 0 {
        let front = pairs.drop_last();
        assert(distinct_keys(front)) by {
            assert forall|i: int, j: int| 0 <= i < j < front.len() implies (#[trigger] front[i]).0
                != (#[trigger] front[j]).0 by {
                assert(pairs[i].0 != pairs[j].0);
            }
        }
        lemma_collect_identity(front);
        assert(!has_key(front, pairs.last().0)) by {
            if has_key(front, pairs.last().0) {
                let i = key_index(front, pairs.last().0);
                assert(pairs[i].0 != pairs[pairs.len() - 1].0);
            }
        }
        assert(front.push(pairs.last()) =~= pairs);
    } else {
        assert(collect(pairs) =~= pairs);
    }
}

/// Insertion order is kept: the names of a collected map are the declared
/// names in order of first appearance.
pub proof fn lemma_collect_key_order<V>(pairs: Entries<V>)
    ensures
        keys_of(collect(pairs)) == first_appearances(keys_of(pairs)),
    decreases pairs.len(),
{
    if pairs.len() == 0 {
        assert(keys_of(collect(pairs)) =~= first_appearances(keys_of(pairs)));
    } else {
        let front = pairs.drop_last();
        let held = collect(front);
        let (key, value) = pairs.last();
        lemma_collect_key_order(front);
        lemma_insert_shape(held, key, value);
        assert(keys_of(pairs).drop_last() =~= keys_of(front));
        assert(keys_of(pairs).last() == key);
        let seen = keys_of(held);
        if has_key(held, key) {
            let n = key_index(held, key);
            assert(seen[n] == key);
            assert(keys_of(collect(pairs)) =~= seen);
        } else {
            if seen.contains(key) {
                let n = choose|n: int| 0 <= n < seen.len() && seen[n] == key;
                assert(held[n].0 == key);
            }
            assert(keys_of(collect(pairs)) =~= seen.push(key));
        }
    }
}

} // verus!
