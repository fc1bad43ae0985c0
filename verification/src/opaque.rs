//! The per-runtime side table: a typed key/value store, a retention
//! registry, and a task spawner queue.
//!
//! One instance exists per runtime and lives exactly as long as it.  A typed
//! store key carries a `tag` standing for its concrete key type and an `id`
//! for its identity within that type, so keys of distinct concrete types
//! never collide even when their identities coincide.

use vstd::prelude::*;

use crate::assoc::{
    assoc_lookup, keys_unique, lemma_lookup_none, lemma_lookup_push, lemma_lookup_remove,
    lemma_lookup_unique, lemma_lookup_update,
};
use crate::raw::RawValue;

verus! {

/// A key of the typed store: a concrete-key-type tag plus an identity
/// within that type.
#[derive(Clone, Copy, Debug, PartialEq, Eq, Structural)]
pub struct TypedKey {
    pub tag: u64,
    pub id: u64,
}

/// The opaque per-runtime state reachable from every execution environment
/// of a runtime.
pub struct Opaque {
    /// The typed key/value store.
    pub map: Vec<(TypedKey, u64)>,
    /// The retention registry: retained raw values by opaque key.
    pub registery: Vec<(u64, RawValue)>,
    /// The next retention key to hand out.
    pub next_reg_key: u64,
    /// The task spawner's queue of submitted task handles.
    pub spawner: Vec<u64>,
}

impl Opaque {
    /// Well-formedness: both collections behave as maps, and every handed-out
    /// retention key is below the next one.
    pub open spec fn wf(&self) -> bool {
        &&& keys_unique(self.map@)
        &&& keys_unique(self.registery@)
        &&& forall|i: int|
            0 <= i < self.registery@.len() ==> (#[trigger] self.registery@[i]).0
                < self.next_reg_key
    }

    /// An empty side table.
    pub fn empty() -> (r: Opaque)
        ensures
            r.wf(),
            r.map@.len() == 0,
            r.registery@.len() == 0,
            r.spawner@.len() == 0,
            r.next_reg_key == 0,
    {
        Opaque { map: Vec::new(), registery: Vec::new(), next_reg_key: 0, spawner: Vec::new() }
    }

    /// Binds `key` to `value`, returning the value it replaced.
    pub fn insert(&mut self, key: TypedKey, value: u64) -> (r: Option<u64>)
        requires
            old(self).wf(),
        ensures
            final(self).wf(),
            r == assoc_lookup(old(self).map@, key),
            assoc_lookup(final(self).map@, key) == Some(value),
            forall|k2: TypedKey|
                k2 != key ==> assoc_lookup(final(self).map@, k2) == assoc_lookup(
                    old(self).map@,
                    k2,
                ),
            final(self).registery@ == old(self).registery@,
            final(self).next_reg_key == old(self).next_reg_key,
            final(self).spawner@ == old(self).spawner@,
    {
        let n = self.map.len();
        let mut i: usize = 0;
        while i < n
            invariant
                n == self.map@.len(),
                i <= n,
                old(self).wf(),
                *self == *old(self),
                forall|m: int| 0 <= m < i ==> (#[trigger] self.map@[m]).0 != key,
            decreases n - i,
        {
            if self.map[i].0 == key {
                let old_val = self.map[i].1;
                self.map.set(i, (key, value));
                proof {
                    lemma_lookup_unique(old(self).map@, key, i as int);
                    assert(keys_unique(self.map@));
                    lemma_lookup_unique(self.map@, key, i as int);
                    assert forall|k2: TypedKey| k2 != key implies assoc_lookup(self.map@, k2)
                        == assoc_lookup(old(self).map@, k2) by {
                        lemma_lookup_update(old(self).map@, i as int, (key, value), k2);
                    }
                }
                return Some(old_val);
            }
            i += 1;
        }
        proof {
            lemma_lookup_none(self.map@, key);
        }
        self.map.push((key, value));
        proof {
            assert(self.map@.last() == (key, value));
            assert(keys_unique(self.map@));
            assert forall|k2: TypedKey| k2 != key implies assoc_lookup(self.map@, k2)
                == assoc_lookup(old(self).map@, k2) by {
                lemma_lookup_push(old(self).map@, (key, value), k2);
            }
        }
        None
    }

    /// The value bound to `key`, if any.
    pub fn get(&self, key: &TypedKey) -> (r: Option<u64>)
        ensures
            r == assoc_lookup(self.map@, *key),
    {
        let mut idx = self.map.len();
        proof {
            assert(self.map@.take(idx as int) =~= self.map@);
        }
        while idx > 0
            invariant
                idx <= self.map@.len(),
                assoc_lookup(self.map@, *key) == assoc_lookup(
                    self.map@.take(idx as int),
                    *key,
                ),
            decreases idx,
        {
            idx -= 1;
            proof {
                assert(self.map@.take(idx as int + 1).last() == self.map@[idx as int]);
                assert(self.map@.take(idx as int + 1).drop_last() =~= self.map@.take(
                    idx as int,
                ));
            }
            let e = &self.map[idx];
            if e.0 == *key {
                return Some(e.1);
            }
        }
        None
    }

    /// A mutable borrow of the value bound to `key`, if any: what the
    /// caller writes through it becomes the key's binding; no other key's
    /// binding moves.
    pub fn get_mut(&mut self, key: &TypedKey) -> (r: Option<&mut u64>)
        requires
            old(self).wf(),
        ensures
            match r {
                Some(p) => {
                    &&& final(self).wf()
                    &&& assoc_lookup(old(self).map@, *key) == Some(*p)
                    &&& assoc_lookup(final(self).map@, *key) == Some(*final(p))
                    &&& forall|k2: TypedKey|
                        k2 != *key ==> assoc_lookup(final(self).map@, k2) == assoc_lookup(
                            old(self).map@,
                            k2,
                        )
                    &&& final(self).registery@ == old(self).registery@
                    &&& final(self).next_reg_key == old(self).next_reg_key
                    &&& final(self).spawner@ == old(self).spawner@
                },
                None => assoc_lookup(old(self).map@, *key) is None && *final(self) == *old(
                    self,
                ),
            },
    {
        let n = self.map.len();
        let mut i: usize = 0;
        while i < n
            invariant
                n == self.map@.len(),
                i <= n,
                old(self).wf(),
                *self == *old(self),
                forall|m: int| 0 <= m < i ==> (#[trigger] self.map@[m]).0 != *key,
            decreases n - i,
        {
            if self.map[i].0 == *key {
                proof {
                    lemma_lookup_unique(old(self).map@, *key, i as int);
                    assert forall|x: u64|
                        keys_unique(old(self).map@.update(i as int, (*key, x)))
                            && #[trigger] assoc_lookup(
                            old(self).map@.update(i as int, (*key, x)),
                            *key,
                        ) == Some(x) && (forall|k2: TypedKey|
                            k2 != *key ==> assoc_lookup(
                                old(self).map@.update(i as int, (*key, x)),
                                k2,
                            ) == assoc_lookup(old(self).map@, k2)) by {
                        let m2 = old(self).map@.update(i as int, (*key, x));
                        assert(keys_unique(m2));
                        lemma_lookup_unique(m2, *key, i as int);
                        assert forall|k2: TypedKey| k2 != *key implies assoc_lookup(m2, k2)
                            == assoc_lookup(old(self).map@, k2) by {
                            lemma_lookup_update(old(self).map@, i as int, (*key, x), k2);
                        }
                    }
                }
                return Some(&mut self.map[i].1);
            }
            i += 1;
        }
        proof {
            lemma_lookup_none(self.map@, *key);
        }
        None
    }

    /// Whether `key` is bound.
    pub fn contains(&self, key: &TypedKey) -> (r: bool)
        ensures
            r == (assoc_lookup(self.map@, *key) is Some),
    {
        match self.get(key) {
            Some(_) => true,
            None => false,
        }
    }

    /// Unbinds `key`, returning the value it was bound to.
    pub fn remove(&mut self, key: &TypedKey) -> (r: Option<u64>)
        requires
            old(self).wf(),
        ensures
            final(self).wf(),
            r == assoc_lookup(old(self).map@, *key),
            assoc_lookup(final(self).map@, *key) is None,
            forall|k2: TypedKey|
                k2 != *key ==> assoc_lookup(final(self).map@, k2) == assoc_lookup(
                    old(self).map@,
                    k2,
                ),
            final(self).registery@ == old(self).registery@,
            final(self).next_reg_key == old(self).next_reg_key,
            final(self).spawner@ == old(self).spawner@,
    {
        let n = self.map.len();
        let mut i: usize = 0;
        while i < n
            invariant
                n == self.map@.len(),
                i <= n,
                old(self).wf(),
                *self == *old(self),
                forall|m: int| 0 <= m < i ==> (#[trigger] self.map@[m]).0 != *key,
            decreases n - i,
        {
            if self.map[i].0 == *key {
                proof {
                    lemma_lookup_unique(old(self).map@, *key, i as int);
                    lemma_lookup_remove(old(self).map@, i as int, *key);
                }
                let e = self.map.remove(i);
                return Some(e.1);
            }
            i += 1;
        }
        proof {
            lemma_lookup_none(self.map@, *key);
        }
        None
    }

    /// Moves a raw value into the retention registry and returns its key.
    pub fn retain_raw(&mut self, raw: RawValue) -> (k: u64)
        requires
            old(self).wf(),
            old(self).next_reg_key < u64::MAX,
        ensures
            final(self).wf(),
            k == old(self).next_reg_key,
            final(self).registery@ == old(self).registery@.push((k, raw)),
            assoc_lookup(final(self).registery@, k) == Some(raw),
            forall|k2: u64|
                k2 != k ==> assoc_lookup(final(self).registery@, k2) == assoc_lookup(
                    old(self).registery@,
                    k2,
                ),
            final(self).next_reg_key == old(self).next_reg_key + 1,
            final(self).map@ == old(self).map@,
            final(self).spawner@ == old(self).spawner@,
    {
        let k = self.next_reg_key;
        self.registery.push((k, raw));
        self.next_reg_key = self.next_reg_key + 1;
        proof {
            assert(self.registery@.last() == self.registery@[self.registery@.len() - 1]);
            assert(keys_unique(self.registery@));
            assert forall|k2: u64| k2 != k implies assoc_lookup(self.registery@, k2)
                == assoc_lookup(old(self).registery@, k2) by {
                lemma_lookup_push(old(self).registery@, self.registery@.last(), k2);
            }
        }
        k
    }

    /// Removes and returns the raw value retained under `k`, if present.
    pub fn release_raw(&mut self, k: u64) -> (r: Option<RawValue>)
        requires
            old(self).wf(),
        ensures
            final(self).wf(),
            r == assoc_lookup(old(self).registery@, k),
            assoc_lookup(final(self).registery@, k) is None,
            forall|k2: u64|
                k2 != k ==> assoc_lookup(final(self).registery@, k2) == assoc_lookup(
                    old(self).registery@,
                    k2,
                ),
            final(self).map@ == old(self).map@,
            final(self).next_reg_key == old(self).next_reg_key,
            final(self).spawner@ == old(self).spawner@,
    {
        let n = self.registery.len();
        let mut i: usize = 0;
        while i < n
            invariant
                n == self.registery@.len(),
                i <= n,
                old(self).wf(),
                *self == *old(self),
                forall|m: int| 0 <= m < i ==> (#[trigger] self.registery@[m]).0 != k,
            decreases n - i,
        {
            if self.registery[i].0 == k {
                proof {
                    lemma_lookup_unique(old(self).registery@, k, i as int);
                    lemma_lookup_remove(old(self).registery@, i as int, k);
                }
                let e = self.registery.remove(i);
                return Some(e.1);
            }
            i += 1;
        }
        proof {
            lemma_lookup_none(self.registery@, k);
        }
        None
    }

    /// A non-owning observation of the raw value retained under `k`: the
    /// registry keeps its entry.
    pub fn peek_raw(&self, k: u64) -> (r: Option<RawValue>)
        ensures
            r == assoc_lookup(self.registery@, k),
    {
        let mut idx = self.registery.len();
        proof {
            assert(self.registery@.take(idx as int) =~= self.registery@);
        }
        while idx > 0
            invariant
                idx <= self.registery@.len(),
                assoc_lookup(self.registery@, k) == assoc_lookup(
                    self.registery@.take(idx as int),
                    k,
                ),
            decreases idx,
        {
            idx -= 1;
            proof {
                assert(self.registery@.take(idx as int + 1).last() == self.registery@[
                    idx as int]);
                assert(self.registery@.take(idx as int + 1).drop_last()
                    =~= self.registery@.take(idx as int));
            }
            let e = &self.registery[idx];
            if e.0 == k {
                return Some(e.1.duplicate());
            }
        }
        None
    }

    /// Submits one task handle to the spawner queue.  Submission is
    /// synchronous and appends exactly one entry; scheduling is left to the
    /// external executor that drains the queue.
    pub fn spawn_task(&mut self, task: u64)
        requires
            old(self).wf(),
        ensures
            final(self).wf(),
            final(self).spawner@ == old(self).spawner@.push(task),
            final(self).map@ == old(self).map@,
            final(self).registery@ == old(self).registery@,
            final(self).next_reg_key == old(self).next_reg_key,
    {
        self.spawner.push(task);
    }
}

} // verus!
