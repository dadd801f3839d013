use crate::address::Address;
use vstd::prelude::*;

verus! {

/// A key of a registry: a value that can be compared for equality at run time.
pub trait RegistryKey: Sized + Copy {
    fn same_key(&self, other: &Self) -> (r: bool)
        ensures
            r == (*self == *other),
    ;
}

impl RegistryKey for Address {
    fn same_key(&self, other: &Address) -> (r: bool) {
        self.same(other)
    }
}

/// The pair that names a progress record.
#[derive(Clone, Copy, Debug)]
pub struct PlayerKey {
    pub authority: Address,
    pub player: Address,
}

impl RegistryKey for PlayerKey {
    fn same_key(&self, other: &PlayerKey) -> (r: bool) {
        self.authority.same(&other.authority) && self.player.same(&other.player)
    }
}

pub open spec fn distinct<K>(keys: Seq<K>) -> bool {
    forall|i: int, j: int| 0 <= i < j < keys.len() ==> keys[i] != keys[j]
}

pub open spec fn slot_of<K>(keys: Seq<K>, key: K) -> int {
    choose|i: int| 0 <= i < keys.len() && keys[i] == key
}

proof fn lemma_slot_of<K>(keys: Seq<K>, key: K, i: int)
    requires
        distinct(keys),
        0 <= i < keys.len(),
        keys[i] == key,
    ensures
        slot_of(keys, key) == i,
{
    let c = slot_of(keys, key);
    assert(0 <= c < keys.len() && keys[c] == key);
    if c < i {
        assert(keys[c] != keys[i]);
    } else if i < c {
        assert(keys[i] != keys[c]);
    }
}

/// A keyed store with at most one value per key. Its view is the map from the
/// keys that are present to their values.
pub struct Registry<K, V> {
    keys: Vec<K>,
    values: Vec<V>,
}

impl<K: RegistryKey, V: Copy> Registry<K, V> {
    pub closed spec fn wf(&self) -> bool {
        &&& self.keys@.len() == self.values@.len()
        &&& distinct(self.keys@)
    }

    pub closed spec fn view(&self) -> Map<K, V> {
        Map::new(
            |k: K| self.keys@.contains(k),
            |k: K| self.values@[slot_of(self.keys@, k)],
        )
    }

    pub fn new() -> (r: Self)
        ensures
            r.wf(),
            r@ == Map::<K, V>::empty(),
    {
        let r = Registry { keys: Vec::new(), values: Vec::new() };
        proof {
            assert(r@ =~= Map::<K, V>::empty());
        }
        r
    }

    fn position(&self, key: &K) -> (r: Option<usize>)
        requires
            self.wf(),
        ensures
            match r {
                Some(i) => i < self.keys@.len() && self.keys@[i as int] == *key,
                None => !self.keys@.contains(*key),
            },
    {
        let mut i: usize = 0;
        while i < self.keys.len()
            invariant
                i <= self.keys@.len(),
                forall|j: int| 0 <= j < i ==> self.keys@[j] != *key,
            decreases self.keys@.len() - i,
        {
            if self.keys[i].same_key(key) {
                return Some(i);
            }
            i += 1;
        }
        None
    }

    /// The value stored under `key`, if there is one.
    pub fn get(&self, key: &K) -> (r: Option<V>)
        requires
            self.wf(),
        ensures
            r == (if self@.contains_key(*key) { Some(self@[*key]) } else { None }),
    {
        match self.position(key) {
            Some(i) => {
                proof {
                    lemma_slot_of(self.keys@, *key, i as int);
                }
                Some(self.values[i])
            },
            None => None,
        }
    }

    pub fn contains(&self, key: &K) -> (r: bool)
        requires
            self.wf(),
        ensures
            r == self@.contains_key(*key),
    {
        self.position(key).is_some()
    }

    /// Stores `value` under `key`, in place of what was there.
    pub fn insert(&mut self, key: K, value: V)
        requires
            old(self).wf(),
        ensures
            final(self).wf(),
            final(self)@ == old(self)@.insert(key, value),
    {
        match self.position(&key) {
            Some(i) => {
                self.values.set(i, value);
                proof {
                    assert forall|k: K| self@.contains_key(k) implies #[trigger] self@[k] == old(self)@.insert(key, value)[k] by {
                        if k == key {
                            lemma_slot_of(self.keys@, key, i as int);
                        } else {
                            let s = slot_of(self.keys@, k);
                            assert(s != i);
                        }
                    }
                    assert(self@ =~= old(self)@.insert(key, value));
                }
            },
            None => {
                self.keys.push(key);
                self.values.push(value);
                proof {
                    let n = old(self).keys@.len() as int;
                    assert(self.keys@[n] == key);
                    assert forall|k: K| self@.contains_key(k) <==> old(self)@.insert(key, value).contains_key(k) by {
                        if old(self).keys@.contains(k) {
                            let j = old(self).keys@.index_of(k);
                            assert(self.keys@[j] == k);
                        }
                        if k == key {
                            assert(self.keys@[n] == k);
                        }
                    }
                    assert forall|k: K| self@.contains_key(k) implies #[trigger] self@[k] == old(self)@.insert(key, value)[k] by {
                        if k == key {
                            lemma_slot_of(self.keys@, key, n);
                        } else {
                            let j = slot_of(old(self).keys@, k);
                            assert(old(self).keys@.contains(k));
                            assert(self.keys@[j] == k);
                            lemma_slot_of(self.keys@, k, j);
                        }
                    }
                    assert(self@ =~= old(self)@.insert(key, value));
                }
            },
        }
    }
}

} // verus!
