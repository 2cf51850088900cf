//! Lists of pairs, read as maps.

use vstd::prelude::*;

verus! {

/// The map that a list of pairs builds up, where a later value replaces an
/// earlier one of the same key.
pub open spec fn collected<K, V>(pairs: Seq<(K, V)>) -> Map<K, V>
    decreases pairs.len(),
{
    if pairs.len() == 0 {
        Map::empty()
    } else {
        collected(pairs.drop_last()).insert(pairs.last().0, pairs.last().1)
    }
}

/// The keys of a list of pairs.
pub open spec fn keys_of<K, V>(pairs: Seq<(K, V)>) -> Seq<K> {
    pairs.map_values(|p: (K, V)| p.0)
}

/// What a list of pairs without repeated keys builds up is the list, read as a map.
pub proof fn lemma_collected<K, V>(pairs: Seq<(K, V)>)
    requires
        keys_of(pairs).no_duplicates(),
    ensures
        forall|k: K|
            #![trigger collected(pairs).contains_key(k)]
            collected(pairs).contains_key(k) <==> keys_of(pairs).contains(k),
        forall|i: int|
            #![trigger pairs[i]]
            0 <= i < pairs.len() ==> collected(pairs).contains_key(pairs[i].0) && collected(
                pairs,
            )[pairs[i].0] == pairs[i].1,
    decreases pairs.len(),
{
    let keys = keys_of(pairs);
    if pairs.len() > 0 {
        let front = pairs.drop_last();
        assert(keys_of(front) =~= keys.drop_last());
        lemma_collected(front);
        assert forall|k: K|
            #![trigger collected(pairs).contains_key(k)]
            collected(pairs).contains_key(k) <==> keys.contains(k) by {
            if keys.contains(k) {
                let i = choose|i: int| 0 <= i < keys.len() && keys[i] == k;
                if i < front.len() {
                    assert(keys_of(front)[i] == k);
                }
            }
            assert(keys[pairs.len() - 1] == pairs.last().0);
            assert(collected(pairs).contains_key(k) <==> collected(front).contains_key(k) || k
                == pairs.last().0);
        }
        assert forall|i: int| #![trigger pairs[i]] 0 <= i < pairs.len() implies collected(
            pairs,
        ).contains_key(pairs[i].0) && collected(pairs)[pairs[i].0] == pairs[i].1 by {
            if i < front.len() {
                assert(front[i] == pairs[i]);
                assert(keys[pairs.len() - 1] == pairs.last().0);
            }
        }
    }
}

/// A change of the value of one pair changes the map at its key alone.
pub proof fn lemma_set_value<K, V>(pairs: Seq<(K, V)>, i: int, value: V)
    requires
        keys_of(pairs).no_duplicates(),
        0 <= i < pairs.len(),
    ensures
        keys_of(pairs.update(i, (pairs[i].0, value))) == keys_of(pairs),
        collected(pairs.update(i, (pairs[i].0, value))) == collected(pairs).insert(
            pairs[i].0,
            value,
        ),
{
    let after = pairs.update(i, (pairs[i].0, value));
    assert(keys_of(after) =~= keys_of(pairs));
    lemma_collected(pairs);
    lemma_collected(after);
    assert(after[i] == (pairs[i].0, value));
}

/// A pair at the end sets its key.
pub proof fn lemma_push_pair<K, V>(pairs: Seq<(K, V)>, key: K, value: V)
    requires
        keys_of(pairs).no_duplicates(),
        !keys_of(pairs).contains(key),
    ensures
        keys_of(pairs.push((key, value))).no_duplicates(),
        collected(pairs.push((key, value))) == collected(pairs).insert(key, value),
{
    assert(pairs.push((key, value)).drop_last() =~= pairs);
    assert(keys_of(pairs.push((key, value))) =~= keys_of(pairs).push(key));
}

/// Without one pair the map lacks its key.
pub proof fn lemma_remove_pair<K, V>(pairs: Seq<(K, V)>, i: int)
    requires
        keys_of(pairs).no_duplicates(),
        0 <= i < pairs.len(),
    ensures
        keys_of(pairs.remove(i)).no_duplicates(),
        collected(pairs.remove(i)) == collected(pairs).remove(pairs[i].0),
{
    let after = pairs.remove(i);
    let keys = keys_of(pairs);
    assert forall|a: int, b: int| 0 <= a < b < after.len() implies keys_of(after)[a] != keys_of(
        after,
    )[b] by {
        let c = if a < i { a } else { a + 1 };
        let d = if b < i { b } else { b + 1 };
        assert(keys[c] != keys[d]);
    }
    lemma_collected(pairs);
    lemma_collected(after);
    assert forall|k: K| #[trigger] collected(after).contains_key(k) <==> collected(
        pairs,
    ).contains_key(k) && k != pairs[i].0 by {
        if keys_of(after).contains(k) {
            let a = choose|a: int| 0 <= a < after.len() && keys_of(after)[a] == k;
            let c = if a < i { a } else { a + 1 };
            assert(keys[c] != keys[i]);
        }
        if keys.contains(k) && k != pairs[i].0 {
            let c = choose|c: int| 0 <= c < keys.len() && keys[c] == k;
            let a = if c < i { c } else { c - 1 };
            assert(keys_of(after)[a] == k);
        }
    }
}

/// A key that no pair has is not in the map.
pub proof fn law_absent_key<K, V>(pairs: Seq<(K, V)>, key: K)
    requires
        forall|i: int| 0 <= i < pairs.len() ==> (#[trigger] pairs[i]).0 != key,
    ensures
        !collected(pairs).contains_key(key),
    decreases pairs.len(),
{
    if pairs.len() > 0 {
        let front = pairs.drop_last();
        assert forall|i: int| 0 <= i < front.len() implies (#[trigger] front[i]).0 != key by {
            assert(front[i] == pairs[i]);
        }
        law_absent_key(front, key);
        assert(pairs[pairs.len() - 1].0 != key);
    }
}

/// The last pair of a key gives its value in the map.
pub proof fn law_last_value<K, V>(pairs: Seq<(K, V)>, i: int)
    requires
        0 <= i < pairs.len(),
        forall|j: int| i < j < pairs.len() ==> (#[trigger] pairs[j]).0 != pairs[i].0,
    ensures
        collected(pairs).contains_key(pairs[i].0),
        collected(pairs)[pairs[i].0] == pairs[i].1,
    decreases pairs.len(),
{
    if i < pairs.len() - 1 {
        let front = pairs.drop_last();
        assert(front[i] == pairs[i]);
        assert forall|j: int| i < j < front.len() implies (#[trigger] front[j]).0 != front[i].0 by {
            assert(front[j] == pairs[j]);
        }
        law_last_value(front, i);
        assert(pairs[pairs.len() - 1].0 != pairs[i].0);
    }
}

} // verus!
