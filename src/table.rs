//! A vector of records seen as a map from each record's key to the record.
use vstd::prelude::*;

verus! {

/// Some record in `s` has key `k`.
pub open spec fn has_key<T>(s: Seq<T>, key: spec_fn(T) -> Seq<char>, k: Seq<char>) -> bool {
    exists|i: int| 0 <= i < s.len() && key(s[i]) == k
}

/// No two records in `s` share a key.
pub open spec fn unique_keys<T>(s: Seq<T>, key: spec_fn(T) -> Seq<char>) -> bool {
    forall|i: int, j: int|
        0 <= i < s.len() && 0 <= j < s.len() && i != j ==> key(s[i]) != key(s[j])
}

/// The map from each key to the record that holds it.
pub open spec fn as_map<T>(s: Seq<T>, key: spec_fn(T) -> Seq<char>) -> Map<Seq<char>, T> {
    Map::new(
        |k: Seq<char>| has_key(s, key, k),
        |k: Seq<char>| s[choose|i: int| 0 <= i < s.len() && key(s[i]) == k],
    )
}

pub proof fn lemma_as_map_index<T>(s: Seq<T>, key: spec_fn(T) -> Seq<char>, i: int)
    requires
        unique_keys(s, key),
        0 <= i < s.len(),
    ensures
        as_map(s, key).contains_key(key(s[i])),
        as_map(s, key)[key(s[i])] == s[i],
{
    assert(has_key(s, key, key(s[i])));
    let j = choose|j: int| 0 <= j < s.len() && key(s[j]) == key(s[i]);
    assert(j == i);
}

/// Replacing a record by one with the same key replaces the map's entry.
pub proof fn lemma_as_map_update<T>(s: Seq<T>, key: spec_fn(T) -> Seq<char>, i: int, e: T)
    requires
        unique_keys(s, key),
        0 <= i < s.len(),
        key(e) == key(s[i]),
    ensures
        unique_keys(s.update(i, e), key),
        as_map(s.update(i, e), key) == as_map(s, key).insert(key(e), e),
{
    let t = s.update(i, e);
    assert forall|a: int, b: int|
        0 <= a < t.len() && 0 <= b < t.len() && a != b implies key(t[a]) != key(t[b]) by {
        if a != i && b != i {
            assert(t[a] == s[a] && t[b] == s[b]);
        } else if a == i {
            assert(t[b] == s[b]);
        } else {
            assert(t[a] == s[a]);
        }
    }
    let m1 = as_map(t, key);
    let m2 = as_map(s, key).insert(key(e), e);
    assert forall|k: Seq<char>| #[trigger] m1.contains_key(k) <==> m2.contains_key(k) by {
        if has_key(t, key, k) {
            let j = choose|j: int| 0 <= j < t.len() && key(t[j]) == k;
            if j != i {
                assert(t[j] == s[j]);
            }
        }
        if has_key(s, key, k) && k != key(e) {
            let j = choose|j: int| 0 <= j < s.len() && key(s[j]) == k;
            assert(t[j] == s[j]);
        }
        if k == key(e) {
            assert(key(t[i]) == k);
        }
    }
    assert forall|k: Seq<char>| #[trigger] m1.contains_key(k) implies m1[k] == m2[k] by {
        let j = choose|j: int| 0 <= j < t.len() && key(t[j]) == k;
        if k == key(e) {
            assert(j == i);
        } else {
            assert(j != i);
            assert(t[j] == s[j]);
            let j2 = choose|j2: int| 0 <= j2 < s.len() && key(s[j2]) == k;
            assert(j2 == j);
        }
    }
    assert(m1 =~= m2);
}

/// Inserting a record under a new key adds that key to the map.
pub proof fn lemma_as_map_insert<T>(s: Seq<T>, key: spec_fn(T) -> Seq<char>, p: int, e: T)
    requires
        unique_keys(s, key),
        0 <= p <= s.len(),
        !has_key(s, key, key(e)),
    ensures
        unique_keys(s.insert(p, e), key),
        as_map(s.insert(p, e), key) == as_map(s, key).insert(key(e), e),
{
    let t = s.insert(p, e);
    assert forall|a: int| 0 <= a < t.len() && a != p implies #[trigger] t[a] == s[if a < p {
        a
    } else {
        a - 1
    }] by {}
    assert forall|a: int, b: int|
        0 <= a < t.len() && 0 <= b < t.len() && a != b implies key(t[a]) != key(t[b]) by {
        let sa = if a < p {
            a
        } else {
            a - 1
        };
        let sb = if b < p {
            b
        } else {
            b - 1
        };
        if a != p && b != p {
            assert(t[a] == s[sa] && t[b] == s[sb]);
        } else if a == p {
            assert(t[b] == s[sb]);
        } else {
            assert(t[a] == s[sa]);
        }
    }
    let m1 = as_map(t, key);
    let m2 = as_map(s, key).insert(key(e), e);
    assert forall|k: Seq<char>| #[trigger] m1.contains_key(k) <==> m2.contains_key(k) by {
        if has_key(t, key, k) {
            let j = choose|j: int| 0 <= j < t.len() && key(t[j]) == k;
            if j != p {
                let sj = if j < p {
                    j
                } else {
                    j - 1
                };
                assert(t[j] == s[sj]);
            }
        }
        if has_key(s, key, k) {
            let j = choose|j: int| 0 <= j < s.len() && key(s[j]) == k;
            if j < p {
                assert(t[j] == s[j]);
            } else {
                assert(t[j + 1] == s[j]);
            }
        }
        if k == key(e) {
            assert(key(t[p]) == k);
        }
    }
    assert forall|k: Seq<char>| #[trigger] m1.contains_key(k) implies m1[k] == m2[k] by {
        let j = choose|j: int| 0 <= j < t.len() && key(t[j]) == k;
        if k == key(e) {
            assert(key(t[p]) == k);
            assert(j == p);
        } else {
            assert(j != p);
            let sj = if j < p {
                j
            } else {
                j - 1
            };
            assert(t[j] == s[sj]);
            let j2 = choose|j2: int| 0 <= j2 < s.len() && key(s[j2]) == k;
            let tj2 = if j2 < p {
                j2
            } else {
                j2 + 1
            };
            assert(t[tj2] == s[j2]);
            assert(tj2 == j);
        }
    }
    assert(m1 =~= m2);
}

} // verus!
