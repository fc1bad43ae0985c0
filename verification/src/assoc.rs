//! Association sequences: the mathematical model behind the side table's
//! typed store and retention registry, and behind object properties.
//!
//! A collection is a sequence of key/value pairs; lookup takes the last
//! binding of a key, so a sequence with unique keys behaves as a finite map.

use vstd::prelude::*;

verus! {

/// No key occurs twice.
pub open spec fn keys_unique<K, V>(s: Seq<(K, V)>) -> bool {
    forall|m: int, n: int| 0 <= m < n < s.len() ==> (#[trigger] s[m]).0 != (#[trigger] s[n]).0
}

/// The last binding of `k`, if any.
pub open spec fn assoc_lookup<K, V>(s: Seq<(K, V)>, k: K) -> Option<V>
    decreases s.len(),
{
    if s.len() == 0 {
        None
    } else if s.last().0 == k {
        Some(s.last().1)
    } else {
        assoc_lookup(s.drop_last(), k)
    }
}

/// A key is absent exactly when no pair carries it.
pub proof fn lemma_lookup_none<K, V>(s: Seq<(K, V)>, k: K)
    ensures
        (assoc_lookup(s, k) is None) <==> (forall|m: int|
            0 <= m < s.len() ==> (#[trigger] s[m]).0 != k),
    decreases s.len(),
{
    if s.len() > 0 {
        lemma_lookup_none(s.drop_last(), k);
        assert forall|m: int| 0 <= m < s.len() - 1 implies s.drop_last()[m] == s[m] by {}
    }
}

/// With unique keys, lookup returns the value beside the key.
pub proof fn lemma_lookup_unique<K, V>(s: Seq<(K, V)>, k: K, m: int)
    requires
        keys_unique(s),
        0 <= m < s.len(),
        s[m].0 == k,
    ensures
        assoc_lookup(s, k) == Some(s[m].1),
    decreases s.len(),
{
    if s.len() > 0 {
        if m == s.len() - 1 {
        } else {
            assert(s.last().0 != k);
            assert forall|i: int| 0 <= i < s.len() - 1 implies s.drop_last()[i] == s[i] by {}
            lemma_lookup_unique(s.drop_last(), k, m);
        }
    }
}

/// Replacing the binding at `idx` changes only its key's lookup.
pub proof fn lemma_lookup_update<K, V>(s: Seq<(K, V)>, idx: int, p: (K, V), k2: K)
    requires
        0 <= idx < s.len(),
        s[idx].0 == p.0,
        k2 != p.0,
    ensures
        assoc_lookup(s.update(idx, p), k2) == assoc_lookup(s, k2),
    decreases s.len(),
{
    let t = s.update(idx, p);
    if idx == s.len() - 1 {
        assert(t.drop_last() =~= s.drop_last());
    } else {
        assert(t.last() == s.last());
        assert(t.drop_last() =~= s.drop_last().update(idx, p));
        lemma_lookup_update(s.drop_last(), idx, p, k2);
    }
}

/// Removing the binding of `k` (under unique keys) empties its lookup and
/// leaves every other key's lookup unchanged.
pub proof fn lemma_lookup_remove<K, V>(s: Seq<(K, V)>, idx: int, k: K)
    requires
        keys_unique(s),
        0 <= idx < s.len(),
        s[idx].0 == k,
    ensures
        assoc_lookup(s.remove(idx), k) is None,
        forall|k2: K| k2 != k ==> assoc_lookup(s.remove(idx), k2) == assoc_lookup(s, k2),
        keys_unique(s.remove(idx)),
    decreases s.len(),
{
    let t = s.remove(idx);
    assert forall|m: int, n: int| 0 <= m < n < t.len() implies (#[trigger] t[m]).0 != (
    #[trigger] t[n]).0 by {
        if n < idx {
        } else if m < idx {
            assert(t[n] == s[n + 1]);
        } else {
            assert(t[m] == s[m + 1]);
            assert(t[n] == s[n + 1]);
        }
    }
    if idx == s.len() - 1 {
        assert(t =~= s.drop_last());
        lemma_lookup_none(s, k);
        lemma_lookup_none(s.drop_last(), k);
        assert forall|k2: K| k2 != k implies assoc_lookup(t, k2) == assoc_lookup(s, k2) by {
            assert(s.last().0 == k);
        }
    } else {
        assert(t.last() == s.last());
        assert(t.drop_last() =~= s.drop_last().remove(idx));
        assert forall|m: int, n: int|
            0 <= m < n < s.drop_last().len() implies (#[trigger] s.drop_last()[m]).0 != (
        #[trigger] s.drop_last()[n]).0 by {
            assert(s.drop_last()[m] == s[m]);
            assert(s.drop_last()[n] == s[n]);
        }
        lemma_lookup_remove(s.drop_last(), idx, k);
        assert(s.last().0 != k);
        assert forall|k2: K| k2 != k implies assoc_lookup(t, k2) == assoc_lookup(s, k2) by {
            assert(assoc_lookup(s.drop_last().remove(idx), k2) == assoc_lookup(
                s.drop_last(),
                k2,
            ));
            assert(assoc_lookup(t.drop_last(), k2) == assoc_lookup(s.drop_last(), k2));
        }
    }
}

/// Appending a fresh binding leaves other keys' lookups unchanged.
pub proof fn lemma_lookup_push<K, V>(s: Seq<(K, V)>, p: (K, V), k2: K)
    requires
        k2 != p.0,
    ensures
        assoc_lookup(s.push(p), k2) == assoc_lookup(s, k2),
{
    assert(s.push(p).drop_last() =~= s);
}

} // verus!
