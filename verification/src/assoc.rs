use vstd::prelude::*;

verus! {

/// The map that a list of key and value pairs stands for: a later pair
/// replaces an earlier one with the same key.
pub open spec fn assoc_map<K, V>(pairs: Seq<(K, V)>) -> Map<K, V>
    decreases pairs.len(),
{
    if pairs.len() == 0 {
        Map::empty()
    } else {
        assoc_map(pairs.drop_last()).insert(pairs.last().0, pairs.last().1)
    }
}

/// No key occurs twice in the list.
pub open spec fn distinct_keys<K, V>(pairs: Seq<(K, V)>) -> bool {
    forall|i: int, j: int| 0 <= i < j < pairs.len() ==> (#[trigger] pairs[i]).0 != (#[trigger] pairs[j]).0
}

/// Some pair of the list has the key.
pub open spec fn has_key<K, V>(pairs: Seq<(K, V)>, key: K) -> bool {
    exists|i: int| 0 <= i < pairs.len() && (#[trigger] pairs[i]).0 == key
}

/// The map holds exactly the keys of the list, and it is finite.
pub proof fn lemma_assoc_dom<K, V>(pairs: Seq<(K, V)>)
    ensures
        assoc_map(pairs).dom().finite(),
        forall|key: K| #[trigger] assoc_map(pairs).contains_key(key) <==> has_key(pairs, key),
    decreases pairs.len(),
{
    if pairs.len() > 0 {
        let front = pairs.drop_last();
        lemma_assoc_dom(front);
        assert forall|key: K| #[trigger]
            assoc_map(pairs).contains_key(key) <==> has_key(pairs, key) by {
            if has_key(pairs, key) {
                let i = choose|i: int| 0 <= i < pairs.len() && (#[trigger] pairs[i]).0 == key;
                if i < pairs.len() - 1 {
                    assert(front[i].0 == key);
                    assert(has_key(front, key));
                }
            }
            if assoc_map(pairs).contains_key(key) {
                if key != pairs.last().0 {
                    assert(has_key(front, key));
                    let i = choose|i: int| 0 <= i < front.len() && (#[trigger] front[i]).0 == key;
                    assert(pairs[i].0 == key);
                } else {
                    assert(pairs[pairs.len() - 1].0 == key);
                }
            }
        }
    } else {
        assert forall|key: K| !has_key(pairs, key) by {}
    }
}

/// The map gives a key the value of the last pair that has it.
pub proof fn lemma_assoc_value<K, V>(pairs: Seq<(K, V)>, at: int)
    requires
        0 <= at < pairs.len(),
        forall|j: int| at < j < pairs.len() ==> (#[trigger] pairs[j]).0 != pairs[at].0,
    ensures
        assoc_map(pairs).contains_key(pairs[at].0),
        assoc_map(pairs)[pairs[at].0] == pairs[at].1,
    decreases pairs.len(),
{
    if at < pairs.len() - 1 {
        let front = pairs.drop_last();
        assert(pairs[pairs.len() - 1].0 != pairs[at].0);
        assert forall|j: int| at < j < front.len() implies (#[trigger] front[j]).0 != front[at].0 by {
            assert(pairs[j].0 != pairs[at].0);
        }
        lemma_assoc_value(front, at);
    }
}

/// Without repeated keys the map has as many entries as the list.
pub proof fn lemma_assoc_len<K, V>(pairs: Seq<(K, V)>)
    requires
        distinct_keys(pairs),
    ensures
        assoc_map(pairs).dom().finite(),
        assoc_map(pairs).len() == pairs.len(),
    decreases pairs.len(),
{
    lemma_assoc_dom(pairs);
    if pairs.len() > 0 {
        let front = pairs.drop_last();
        assert(distinct_keys(front)) by {
            assert forall|i: int, j: int| 0 <= i < j < front.len() implies (#[trigger] front[i]).0 != (
            #[trigger] front[j]).0 by {
                assert(pairs[i].0 != pairs[j].0);
            }
        }
        lemma_assoc_len(front);
        lemma_assoc_dom(front);
        if has_key(front, pairs.last().0) {
            let i = choose|i: int| 0 <= i < front.len() && (#[trigger] front[i]).0 == pairs.last().0;
            assert(pairs[i].0 != pairs[pairs.len() - 1].0);
        }
        assert(!assoc_map(front).contains_key(pairs.last().0));
    }
}

/// Replacing the value of a pair in place is an insert under its key.
pub proof fn lemma_assoc_update<K, V>(pairs: Seq<(K, V)>, at: int, value: V)
    requires
        0 <= at < pairs.len(),
        distinct_keys(pairs),
    ensures
        assoc_map(pairs.update(at, (pairs[at].0, value))) == assoc_map(pairs).insert(
            pairs[at].0,
            value,
        ),
        distinct_keys(pairs.update(at, (pairs[at].0, value))),
    decreases pairs.len(),
{
    let key = pairs[at].0;
    let changed = pairs.update(at, (key, value));
    assert(distinct_keys(changed)) by {
        assert forall|i: int, j: int| 0 <= i < j < changed.len() implies (#[trigger] changed[i]).0 != (
        #[trigger] changed[j]).0 by {
            assert(pairs[i].0 != pairs[j].0);
        }
    }
    let front = pairs.drop_last();
    if at == pairs.len() - 1 {
        assert(changed.drop_last() =~= front);
        assert(assoc_map(changed) =~= assoc_map(pairs).insert(key, value));
    } else {
        assert(distinct_keys(front)) by {
            assert forall|i: int, j: int| 0 <= i < j < front.len() implies (#[trigger] front[i]).0 != (
            #[trigger] front[j]).0 by {
                assert(pairs[i].0 != pairs[j].0);
            }
        }
        lemma_assoc_update(front, at, value);
        assert(changed.drop_last() =~= front.update(at, (key, value)));
        assert(pairs[at].0 != pairs[pairs.len() - 1].0);
        assert(assoc_map(changed) =~= assoc_map(pairs).insert(key, value));
    }
}

/// Taking a pair out of a list without repeated keys removes its key.
pub proof fn lemma_assoc_remove<K, V>(pairs: Seq<(K, V)>, at: int)
    requires
        0 <= at < pairs.len(),
        distinct_keys(pairs),
    ensures
        assoc_map(pairs.remove(at)) == assoc_map(pairs).remove(pairs[at].0),
        distinct_keys(pairs.remove(at)),
    decreases pairs.len(),
{
    let key = pairs[at].0;
    let left = pairs.remove(at);
    assert(distinct_keys(left)) by {
        assert forall|i: int, j: int| 0 <= i < j < left.len() implies (#[trigger] left[i]).0 != (
        #[trigger] left[j]).0 by {
            let a = if i < at { i } else { i + 1 };
            let b = if j < at { j } else { j + 1 };
            assert(pairs[a].0 != pairs[b].0);
        }
    }
    let front = pairs.drop_last();
    assert(distinct_keys(front)) by {
        assert forall|i: int, j: int| 0 <= i < j < front.len() implies (#[trigger] front[i]).0 != (
        #[trigger] front[j]).0 by {
            assert(pairs[i].0 != pairs[j].0);
        }
    }
    if at == pairs.len() - 1 {
        assert(left =~= front);
        lemma_assoc_dom(front);
        if has_key(front, key) {
            let i = choose|i: int| 0 <= i < front.len() && (#[trigger] front[i]).0 == key;
            assert(pairs[i].0 != pairs[at].0);
        }
        assert(assoc_map(left) =~= assoc_map(pairs).remove(key));
    } else {
        lemma_assoc_remove(front, at);
        assert(left.drop_last() =~= front.remove(at));
        assert(left.last() == pairs.last());
        assert(pairs[at].0 != pairs[pairs.len() - 1].0);
        assert(assoc_map(left) =~= assoc_map(pairs).remove(key));
    }
}

} // verus!
