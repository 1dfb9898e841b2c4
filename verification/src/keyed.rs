//! Lists that stand for finite maps: each item has a key, and no key occurs twice.

use vstd::prelude::*;

verus! {

/// The mapping from keys to values that a list of items stands for. Where a
/// key occurs twice the later item counts.
pub open spec fn keyed_map<T, K, V>(s: Seq<T>, key: spec_fn(T) -> K, value: spec_fn(T) -> V) -> Map<
    K,
    V,
>
    decreases s.len(),
{
    if s.len() == 0 {
        Map::empty()
    } else {
        keyed_map(s.drop_last(), key, value).insert(key(s.last()), value(s.last()))
    }
}

/// No key occurs twice in the list.
pub open spec fn distinct_keys<T, K>(s: Seq<T>, key: spec_fn(T) -> K) -> bool {
    forall|i: int, j: int| 0 <= i < j < s.len() ==> key(s[i]) != key(s[j])
}

/// A list without a key twice stays so when its last item is dropped.
pub proof fn lemma_distinct_drop_last<T, K>(s: Seq<T>, key: spec_fn(T) -> K)
    requires
        distinct_keys(s, key),
        s.len() > 0,
    ensures
        distinct_keys(s.drop_last(), key),
{
    let head = s.drop_last();
    assert forall|a: int, b: int| 0 <= a < b < head.len() implies key(head[a]) != key(head[b]) by {
        assert(key(s[a]) != key(s[b]));
    }
}

/// The keys of the mapping are the keys of the items, and there are finitely many.
pub proof fn lemma_keyed_dom<T, K, V>(s: Seq<T>, key: spec_fn(T) -> K, value: spec_fn(T) -> V)
    ensures
        forall|k: K| #[trigger]
            keyed_map(s, key, value).dom().contains(k) <==> exists|i: int|
                0 <= i < s.len() && key(#[trigger] s[i]) == k,
        keyed_map(s, key, value).dom().finite(),
    decreases s.len(),
{
    if s.len() > 0 {
        let head = s.drop_last();
        lemma_keyed_dom(head, key, value);
        assert forall|k: K| #[trigger]
            keyed_map(s, key, value).dom().contains(k) <==> exists|i: int|
                0 <= i < s.len() && key(#[trigger] s[i]) == k by {
            if keyed_map(s, key, value).dom().contains(k) {
                if k == key(s.last()) {
                    assert(key(s[s.len() - 1]) == k);
                } else {
                    let i = choose|i: int| 0 <= i < head.len() && key(#[trigger] head[i]) == k;
                    assert(key(s[i]) == k);
                }
            }
            if exists|i: int| 0 <= i < s.len() && key(#[trigger] s[i]) == k {
                let i = choose|i: int| 0 <= i < s.len() && key(#[trigger] s[i]) == k;
                if i < s.len() - 1 {
                    assert(key(head[i]) == k);
                }
            }
        }
    }
}

/// Each key of the mapping maps to the value of an item that has this key.
pub proof fn lemma_keyed_witness<T, K, V>(
    s: Seq<T>,
    key: spec_fn(T) -> K,
    value: spec_fn(T) -> V,
    k: K,
)
    requires
        keyed_map(s, key, value).dom().contains(k),
    ensures
        exists|i: int|
            0 <= i < s.len() && key(#[trigger] s[i]) == k && keyed_map(s, key, value)[k] == value(
                s[i],
            ),
    decreases s.len(),
{
    if s.len() > 0 {
        if k == key(s.last()) {
            assert(key(s[s.len() - 1]) == k);
        } else {
            let head = s.drop_last();
            lemma_keyed_witness(head, key, value, k);
            let i = choose|i: int|
                0 <= i < head.len() && key(#[trigger] head[i]) == k && keyed_map(
                    head,
                    key,
                    value,
                )[k] == value(head[i]);
            assert(key(s[i]) == k);
        }
    }
}

/// Where no key occurs twice, each item's key maps to that item's value.
pub proof fn lemma_keyed_value<T, K, V>(
    s: Seq<T>,
    key: spec_fn(T) -> K,
    value: spec_fn(T) -> V,
    i: int,
)
    requires
        distinct_keys(s, key),
        0 <= i < s.len(),
    ensures
        keyed_map(s, key, value).dom().contains(key(s[i])),
        keyed_map(s, key, value)[key(s[i])] == value(s[i]),
    decreases s.len(),
{
    if i < s.len() - 1 {
        lemma_distinct_drop_last(s, key);
        lemma_keyed_value(s.drop_last(), key, value, i);
        assert(key(s[i]) != key(s[s.len() - 1]));
    }
}

/// Where no key occurs twice, there are as many keys as items.
pub proof fn lemma_keyed_len<T, K, V>(s: Seq<T>, key: spec_fn(T) -> K, value: spec_fn(T) -> V)
    requires
        distinct_keys(s, key),
    ensures
        keyed_map(s, key, value).dom().finite(),
        keyed_map(s, key, value).dom().len() == s.len(),
    decreases s.len(),
{
    lemma_keyed_dom(s, key, value);
    if s.len() > 0 {
        let head = s.drop_last();
        lemma_distinct_drop_last(s, key);
        lemma_keyed_len(head, key, value);
        lemma_keyed_dom(head, key, value);
        if keyed_map(head, key, value).dom().contains(key(s.last())) {
            let i = choose|i: int| 0 <= i < head.len() && key(#[trigger] head[i]) == key(s.last());
            assert(key(s[i]) != key(s[s.len() - 1]));
        }
        assert(keyed_map(s, key, value).dom() =~= keyed_map(head, key, value).dom().insert(
            key(s.last()),
        ));
    } else {
        assert(keyed_map(s, key, value).dom() =~= Set::<K>::empty());
    }
}

/// Replacing an item by one of the same key replaces its value in the mapping.
pub proof fn lemma_keyed_update<T, K, V>(
    s: Seq<T>,
    key: spec_fn(T) -> K,
    value: spec_fn(T) -> V,
    i: int,
    item: T,
)
    requires
        distinct_keys(s, key),
        0 <= i < s.len(),
        key(item) == key(s[i]),
    ensures
        distinct_keys(s.update(i, item), key),
        keyed_map(s.update(i, item), key, value) == keyed_map(s, key, value).insert(
            key(item),
            value(item),
        ),
{
    let t = s.update(i, item);
    assert(distinct_keys(t, key)) by {
        assert forall|a: int, b: int| 0 <= a < b < t.len() implies key(t[a]) != key(t[b]) by {
            assert(key(s[a]) != key(s[b]));
        }
    }
    lemma_keyed_dom(s, key, value);
    lemma_keyed_dom(t, key, value);
    let m = keyed_map(s, key, value).insert(key(item), value(item));
    assert forall|k: K| keyed_map(t, key, value).dom().contains(k) <==> m.dom().contains(k) by {
        if keyed_map(t, key, value).dom().contains(k) {
            let j = choose|j: int| 0 <= j < t.len() && key(#[trigger] t[j]) == k;
            assert(key(s[j]) == k);
        }
        if m.dom().contains(k) && k != key(item) {
            let j = choose|j: int| 0 <= j < s.len() && key(#[trigger] s[j]) == k;
            assert(key(t[j]) == k);
        }
        if k == key(item) {
            assert(key(t[i]) == k);
        }
    }
    assert forall|k: K| keyed_map(t, key, value).dom().contains(k) implies keyed_map(
        t,
        key,
        value,
    )[k] == m[k] by {
        let j = choose|j: int| 0 <= j < t.len() && key(#[trigger] t[j]) == k;
        lemma_keyed_value(t, key, value, j);
        if j != i {
            lemma_keyed_value(s, key, value, j);
        }
    }
    assert(keyed_map(t, key, value) =~= m);
}

/// Adding an item with a new key keeps the keys distinct.
pub proof fn lemma_keyed_push<T, K, V>(
    s: Seq<T>,
    key: spec_fn(T) -> K,
    value: spec_fn(T) -> V,
    item: T,
)
    requires
        distinct_keys(s, key),
        forall|i: int| 0 <= i < s.len() ==> key(#[trigger] s[i]) != key(item),
    ensures
        distinct_keys(s.push(item), key),
        keyed_map(s.push(item), key, value) == keyed_map(s, key, value).insert(
            key(item),
            value(item),
        ),
{
    assert(s.push(item).drop_last() =~= s);
}

/// Taking an item out takes its key out of the mapping.
pub proof fn lemma_keyed_remove<T, K, V>(
    s: Seq<T>,
    key: spec_fn(T) -> K,
    value: spec_fn(T) -> V,
    i: int,
)
    requires
        distinct_keys(s, key),
        0 <= i < s.len(),
    ensures
        distinct_keys(s.remove(i), key),
        keyed_map(s.remove(i), key, value) == keyed_map(s, key, value).remove(key(s[i])),
{
    let t = s.remove(i);
    assert(distinct_keys(t, key)) by {
        assert forall|a: int, b: int| 0 <= a < b < t.len() implies key(t[a]) != key(t[b]) by {
            let a0 = if a < i { a } else { a + 1 };
            let b0 = if b < i { b } else { b + 1 };
            assert(key(s[a0]) != key(s[b0]));
        }
    }
    lemma_keyed_dom(s, key, value);
    lemma_keyed_dom(t, key, value);
    let m = keyed_map(s, key, value).remove(key(s[i]));
    assert forall|k: K| keyed_map(t, key, value).dom().contains(k) <==> m.dom().contains(k) by {
        if keyed_map(t, key, value).dom().contains(k) {
            let j = choose|j: int| 0 <= j < t.len() && key(#[trigger] t[j]) == k;
            let j0 = if j < i { j } else { j + 1 };
            assert(key(s[j0]) == k);
            if j0 < i {
                assert(key(s[j0]) != key(s[i]));
            } else {
                assert(key(s[i]) != key(s[j0]));
            }
        }
        if m.dom().contains(k) {
            let j = choose|j: int| 0 <= j < s.len() && key(#[trigger] s[j]) == k;
            let j1 = if j < i { j } else { j - 1 };
            assert(key(t[j1]) == k);
        }
    }
    assert forall|k: K| keyed_map(t, key, value).dom().contains(k) implies keyed_map(
        t,
        key,
        value,
    )[k] == m[k] by {
        let j = choose|j: int| 0 <= j < t.len() && key(#[trigger] t[j]) == k;
        let j0 = if j < i { j } else { j + 1 };
        lemma_keyed_value(t, key, value, j);
        lemma_keyed_value(s, key, value, j0);
    }
    assert(keyed_map(t, key, value) =~= m);
}

} // verus!
