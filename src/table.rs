//! Keyed tables stored as vectors of pairs, and the map each one denotes.
use vstd::prelude::*;

verus! {

/// No key occurs twice in `s`.
pub open spec fn unique_keys<K, V>(s: Seq<(K, V)>) -> bool {
    forall|i: int, j: int| 0 <= i < s.len() && 0 <= j < s.len() && i != j ==> s[i].0 != s[j].0
}

/// `s` has an entry with key `k`.
pub open spec fn has_key<K, V>(s: Seq<(K, V)>, k: K) -> bool {
    exists|i: int| 0 <= i < s.len() && s[i].0 == k
}

/// The map that a table denotes: each key to the value of its last entry.
pub open spec fn table_map<K, V>(s: Seq<(K, V)>) -> Map<K, V>
    decreases s.len(),
{
    if s.len() == 0 {
        Map::empty()
    } else {
        table_map(s.drop_last()).insert(s.last().0, s.last().1)
    }
}

/// The keys of a table are the keys of its map.
pub proof fn lemma_table_keys<K, V>(s: Seq<(K, V)>, k: K)
    ensures
        table_map(s).contains_key(k) <==> has_key(s, k),
    decreases s.len(),
{
    if s.len() > 0 {
        let t = s.drop_last();
        lemma_table_keys(t, k);
        if has_key(t, k) {
            let i = choose|i: int| 0 <= i < t.len() && t[i].0 == k;
            assert(s[i].0 == k);
        }
        if has_key(s, k) && s.last().0 != k {
            let i = choose|i: int| 0 <= i < s.len() && s[i].0 == k;
            assert(i != s.len() - 1);
            assert(t[i].0 == k);
        }
    }
}

/// In a table with unique keys, the map sends each entry's key to its value.
pub proof fn lemma_table_entry<K, V>(s: Seq<(K, V)>, i: int)
    requires
        unique_keys(s),
        0 <= i < s.len(),
    ensures
        table_map(s).contains_key(s[i].0),
        table_map(s)[s[i].0] == s[i].1,
    decreases s.len(),
{
    let t = s.drop_last();
    if i < s.len() - 1 {
        assert(unique_keys(t));
        lemma_table_entry(t, i);
        assert(s[i].0 != s.last().0);
        assert(t[i] == s[i]);
    }
}

/// Overwriting the value of an entry overwrites the key's value in the map.
pub proof fn lemma_table_update<K, V>(s: Seq<(K, V)>, i: int, v: V)
    requires
        unique_keys(s),
        0 <= i < s.len(),
    ensures
        unique_keys(s.update(i, (s[i].0, v))),
        table_map(s.update(i, (s[i].0, v))) == table_map(s).insert(s[i].0, v),
    decreases s.len(),
{
    let u = s.update(i, (s[i].0, v));
    assert(unique_keys(u));
    let t = s.drop_last();
    if i == s.len() - 1 {
        assert(u.drop_last() =~= t);
        assert(!has_key(t, s[i].0));
        lemma_table_keys(t, s[i].0);
        assert(table_map(u) =~= table_map(s).insert(s[i].0, v));
    } else {
        assert(unique_keys(t));
        lemma_table_update(t, i, v);
        assert(u.drop_last() =~= t.update(i, (t[i].0, v)));
        assert(s[i].0 != s.last().0);
        assert(table_map(u) =~= table_map(s).insert(s[i].0, v));
    }
}

/// Appending an entry under a new key adds that key to the map.
pub proof fn lemma_table_push<K, V>(s: Seq<(K, V)>, k: K, v: V)
    requires
        unique_keys(s),
        !has_key(s, k),
    ensures
        unique_keys(s.push((k, v))),
        table_map(s.push((k, v))) == table_map(s).insert(k, v),
{
    let u = s.push((k, v));
    assert forall|i: int, j: int| 0 <= i < u.len() && 0 <= j < u.len() && i != j implies u[i].0
        != u[j].0 by {
        if i == s.len() {
            assert(s[j].0 != k);
        } else if j == s.len() {
            assert(s[i].0 != k);
        }
    }
    assert(u.drop_last() =~= s);
}

/// Rewriting every value of a table rewrites every value of its map.
pub proof fn lemma_table_map_values<K, V>(s: Seq<(K, V)>, f: spec_fn(V) -> V)
    ensures
        table_map(s.map_values(|p: (K, V)| (p.0, f(p.1)))) == table_map(s).map_values(f),
    decreases s.len(),
{
    let g = |p: (K, V)| (p.0, f(p.1));
    let u = s.map_values(g);
    if s.len() == 0 {
        assert(table_map(u) =~= table_map(s).map_values(f));
    } else {
        let t = s.drop_last();
        lemma_table_map_values(t, f);
        assert(u.drop_last() =~= t.map_values(g));
        assert(table_map(u) =~= table_map(s).map_values(f));
    }
}

} // verus!
