//! Association lists: sequences of key and value in which no key occurs
//! twice. They model every table of the crate.

use vstd::prelude::*;

verus! {

/// Whether some entry of `s` has the key `k`.
pub open spec fn has_key<K, V>(s: Seq<(K, V)>, k: K) -> bool {
    exists|i: int| 0 <= i < s.len() && (#[trigger] s[i]).0 == k
}

/// The place of an entry with the key `k`; meant for `s` that has one.
pub open spec fn position<K, V>(s: Seq<(K, V)>, k: K) -> int {
    choose|i: int| 0 <= i < s.len() && (#[trigger] s[i]).0 == k
}

/// The value under `k`.
pub open spec fn find<K, V>(s: Seq<(K, V)>, k: K) -> Option<V> {
    if has_key(s, k) {
        Some(s[position(s, k)].1)
    } else {
        None
    }
}

/// `s` with `v` under `k`: in the place of the old entry where there was
/// one, else at the end.
pub open spec fn put<K, V>(s: Seq<(K, V)>, k: K, v: V) -> Seq<(K, V)> {
    if has_key(s, k) {
        s.update(position(s, k), (k, v))
    } else {
        s.push((k, v))
    }
}

/// `s` without the entry under `k`.
pub open spec fn remove<K, V>(s: Seq<(K, V)>, k: K) -> Seq<(K, V)> {
    if has_key(s, k) {
        s.remove(position(s, k))
    } else {
        s
    }
}

/// No key occurs twice.
pub open spec fn distinct<K, V>(s: Seq<(K, V)>) -> bool {
    forall|i: int, j: int| 0 <= i < j < s.len() ==> (#[trigger] s[i]).0 != (#[trigger] s[j]).0
}

/// The keys of `s`, as a set.
pub open spec fn key_set<K, V>(s: Seq<(K, V)>) -> Set<K> {
    Set::new(|k: K| has_key(s, k))
}

/// In a list without repeated keys, an entry with the key `k` at `i` is the
/// entry that `position` and `find` speak of.
pub proof fn lemma_position<K, V>(s: Seq<(K, V)>, k: K, i: int)
    requires
        distinct(s),
        0 <= i < s.len(),
        s[i].0 == k,
    ensures
        has_key(s, k),
        position(s, k) == i,
        find(s, k) == Some(s[i].1),
{
    let p = position(s, k);
    assert(0 <= p < s.len() && s[p].0 == k);
    if p < i {
        assert(s[p].0 != s[i].0);
    } else if i < p {
        assert(s[i].0 != s[p].0);
    }
}

/// A key that no entry has is not found.
pub proof fn lemma_absent<K, V>(s: Seq<(K, V)>, k: K)
    requires
        forall|i: int| 0 <= i < s.len() ==> (#[trigger] s[i]).0 != k,
    ensures
        !has_key(s, k),
        find(s, k) is None,
        remove(s, k) == s,
{
}

/// Putting keeps the keys apart, finds the new value under its key, leaves
/// every other key as it was, and adds at most its own key.
pub proof fn lemma_put<K, V>(s: Seq<(K, V)>, k: K, v: V)
    requires
        distinct(s),
    ensures
        distinct(put(s, k, v)),
        find(put(s, k, v), k) == Some(v),
        forall|other: K| other != k ==> find(put(s, k, v), other) == find(s, other),
        key_set(put(s, k, v)) == key_set(s).insert(k),
        has_key(s, k) ==> put(s, k, v).len() == s.len(),
        !has_key(s, k) ==> put(s, k, v).len() == s.len() + 1,
{
    let t = put(s, k, v);
    if has_key(s, k) {
        let p = position(s, k);
        assert(0 <= p < s.len() && s[p].0 == k);
        assert forall|i: int| 0 <= i < t.len() implies (#[trigger] t[i]).0 == s[i].0 by {}
        assert(distinct(t)) by {
            assert forall|i: int, j: int| 0 <= i < j < t.len() implies (#[trigger] t[i]).0 != (
            #[trigger] t[j]).0 by {
                assert(s[i].0 != s[j].0);
            }
        }
        assert(t[p].0 == k);
        lemma_position(t, k, p);
        assert forall|other: K| other != k implies find(t, other) == find(s, other) by {
            if has_key(s, other) {
                let q = position(s, other);
                assert(0 <= q < s.len() && s[q].0 == other);
                assert(t[q] == s[q]);
                lemma_position(t, other, q);
            } else {
                if has_key(t, other) {
                    let q = position(t, other);
                    assert(0 <= q < t.len() && t[q].0 == other);
                    assert(s[q].0 == other);
                }
            }
        }
        assert(key_set(t) =~= key_set(s).insert(k)) by {
            assert forall|x: K| key_set(t).contains(x) <==> key_set(s).insert(k).contains(
                x,
            ) by {
                if has_key(t, x) {
                    let q = position(t, x);
                    assert(0 <= q < t.len() && t[q].0 == x);
                    assert(s[q].0 == x);
                }
                if has_key(s, x) {
                    let q = position(s, x);
                    assert(0 <= q < s.len() && s[q].0 == x);
                    assert(t[q].0 == x);
                }
            }
        }
    } else {
        let n = s.len() as int;
        assert(t[n] == (k, v));
        assert forall|i: int| 0 <= i < n implies (#[trigger] t[i]) == s[i] by {}
        assert(distinct(t)) by {
            assert forall|i: int, j: int| 0 <= i < j < t.len() implies (#[trigger] t[i]).0 != (
            #[trigger] t[j]).0 by {
                if j < n {
                    assert(s[i].0 != s[j].0);
                } else {
                    assert(s[i].0 != k);
                }
            }
        }
        lemma_position(t, k, n);
        assert forall|other: K| other != k implies find(t, other) == find(s, other) by {
            if has_key(s, other) {
                let q = position(s, other);
                assert(0 <= q < s.len() && s[q].0 == other);
                assert(t[q] == s[q]);
                lemma_position(t, other, q);
            } else {
                if has_key(t, other) {
                    let q = position(t, other);
                    assert(0 <= q < t.len() && t[q].0 == other);
                    assert(s[q].0 == other);
                }
            }
        }
        assert(key_set(t) =~= key_set(s).insert(k)) by {
            assert forall|x: K| key_set(t).contains(x) <==> key_set(s).insert(k).contains(
                x,
            ) by {
                if has_key(t, x) {
                    let q = position(t, x);
                    assert(0 <= q < t.len() && t[q].0 == x);
                    if q < n {
                        assert(s[q].0 == x);
                    }
                }
                if has_key(s, x) {
                    let q = position(s, x);
                    assert(0 <= q < s.len() && s[q].0 == x);
                    assert(t[q].0 == x);
                }
            }
        }
    }
}

/// Removing keeps the keys apart, leaves nothing under the removed key,
/// leaves every other key as it was, and takes away only its own key.
pub proof fn lemma_remove<K, V>(s: Seq<(K, V)>, k: K)
    requires
        distinct(s),
    ensures
        distinct(remove(s, k)),
        find(remove(s, k), k) is None,
        forall|other: K| other != k ==> find(remove(s, k), other) == find(s, other),
        key_set(remove(s, k)) == key_set(s).remove(k),
        has_key(s, k) ==> remove(s, k).len() + 1 == s.len(),
        !has_key(s, k) ==> remove(s, k) == s,
{
    let t = remove(s, k);
    if has_key(s, k) {
        let p = position(s, k);
        assert(0 <= p < s.len() && s[p].0 == k);
        assert forall|i: int| 0 <= i < t.len() implies (#[trigger] t[i]) == (if i < p {
            s[i]
        } else {
            s[i + 1]
        }) by {}
        assert(distinct(t)) by {
            assert forall|i: int, j: int| 0 <= i < j < t.len() implies (#[trigger] t[i]).0 != (
            #[trigger] t[j]).0 by {
                let a = if i < p { i } else { i + 1 };
                let b = if j < p { j } else { j + 1 };
                assert(s[a].0 != s[b].0);
            }
        }
        assert(!has_key(t, k)) by {
            if has_key(t, k) {
                let q = position(t, k);
                assert(0 <= q < t.len() && t[q].0 == k);
                let a = if q < p { q } else { q + 1 };
                assert(s[a].0 == k);
                if a < p {
                    assert(s[a].0 != s[p].0);
                } else {
                    assert(s[p].0 != s[a].0);
                }
            }
        }
        assert forall|other: K| other != k implies find(t, other) == find(s, other) by {
            if has_key(s, other) {
                let q = position(s, other);
                assert(0 <= q < s.len() && s[q].0 == other);
                let a = if q < p { q } else { q - 1 };
                assert(t[a] == s[q]);
                lemma_position(t, other, a);
            } else {
                if has_key(t, other) {
                    let q = position(t, other);
                    assert(0 <= q < t.len() && t[q].0 == other);
                    let a = if q < p { q } else { q + 1 };
                    assert(s[a].0 == other);
                }
            }
        }
        assert(key_set(t) =~= key_set(s).remove(k)) by {
            assert forall|x: K| key_set(t).contains(x) <==> key_set(s).remove(k).contains(
                x,
            ) by {
                if has_key(t, x) {
                    let q = position(t, x);
                    assert(0 <= q < t.len() && t[q].0 == x);
                    let a = if q < p { q } else { q + 1 };
                    assert(s[a].0 == x);
                }
                if has_key(s, x) && x != k {
                    let q = position(s, x);
                    assert(0 <= q < s.len() && s[q].0 == x);
                    let a = if q < p { q } else { q - 1 };
                    assert(t[a].0 == x);
                }
            }
        }
    } else {
        assert(key_set(t) =~= key_set(s).remove(k));
    }
}

} // verus!
