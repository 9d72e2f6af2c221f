//! A table of values under keys, at most one value under each key.

use vstd::prelude::*;
use crate::address::Address;

verus! {

/// What can serve as a key of a table: a value that stands for an identity,
/// and can be compared by it.
pub trait Key: Sized {
    /// What the key stands for.
    type Id;

    /// What the key stands for.
    spec fn id(&self) -> Self::Id;

    /// Whether two keys stand for the same.
    fn matches(&self, other: &Self) -> (same: bool)
        ensures
            same == (self.id() == other.id()),
    ;
}

impl Key for Address {
    type Id = Seq<char>;

    open spec fn id(&self) -> Seq<char> {
        self@
    }

    fn matches(&self, other: &Address) -> (same: bool) {
        self.same_as(other)
    }
}

impl Key for u64 {
    type Id = u64;

    open spec fn id(&self) -> u64 {
        *self
    }

    fn matches(&self, other: &u64) -> (same: bool) {
        *self == *other
    }
}

/// Values stored under keys, at most one under each.
#[derive(Clone, Debug, PartialEq, Eq)]
pub struct Registry<K, V> {
    pub keys: Vec<K>,
    pub values: Vec<V>,
}

/// What the keys of `keys` stand for, in order.
pub open spec fn ids<K: Key>(keys: Seq<K>) -> Seq<K::Id> {
    keys.map_values(|key: K| key.id())
}

/// In a list without duplicates, the place of an entry is the place that
/// `index_of` finds.
pub proof fn lemma_index_of_unique<A>(list: Seq<A>, at: int)
    requires
        list.no_duplicates(),
        0 <= at < list.len(),
    ensures
        list.index_of(list[at]) == at,
        list.contains(list[at]),
{
    let found = list.index_of(list[at]);
    assert(0 <= found < list.len() && list[found] == list[at]);
}

/// What is stored under `key`, if anything.
pub open spec fn stored<I, V>(table: Map<I, V>, key: I) -> Option<V> {
    if table.contains_key(key) {
        Some(table[key])
    } else {
        None
    }
}

impl<K: Key, V> View for Registry<K, V> {
    type V = Map<K::Id, V>;

    /// The table as a map from what the keys stand for to what is stored
    /// under them.
    open spec fn view(&self) -> Map<K::Id, V> {
        Map::new(
            |id: K::Id| ids(self.keys@).contains(id),
            |id: K::Id| self.values@[ids(self.keys@).index_of(id)],
        )
    }
}

impl<K: Key, V> Registry<K, V> {
    /// Every key has its value, and no two keys stand for the same.
    pub open spec fn wf(&self) -> bool {
        &&& self.keys@.len() == self.values@.len()
        &&& ids(self.keys@).no_duplicates()
    }

    /// Whether every key has its value and no two keys stand for the same.
    pub fn is_well_formed(&self) -> (ok: bool)
        ensures
            ok == self.wf(),
    {
        if self.keys.len() != self.values.len() {
            return false;
        }
        let n = self.keys.len();
        let mut i: usize = 0;
        while i < n
            invariant
                i <= n,
                n == self.keys@.len(),
                forall|a: int, b: int| 0 <= a < b < i ==> self.keys@[a].id() != self.keys@[b].id(),
            decreases n - i,
        {
            let mut j: usize = 0;
            while j < i
                invariant
                    j <= i,
                    i < n,
                    n == self.keys@.len(),
                    forall|a: int| 0 <= a < j ==> self.keys@[a].id() != self.keys@[i as int].id(),
                decreases i - j,
            {
                if self.keys[j].matches(&self.keys[i]) {
                    proof {
                        let list = ids(self.keys@);
                        assert(list[j as int] == list[i as int]);
                    }
                    return false;
                }
                j = j + 1;
            }
            i = i + 1;
        }
        proof {
            let list = ids(self.keys@);
            assert forall|a: int, b: int|
                0 <= a < list.len() && 0 <= b < list.len() && a != b implies list[a] != list[b] by {
                if a < b {
                    assert(self.keys@[a].id() != self.keys@[b].id());
                } else {
                    assert(self.keys@[b].id() != self.keys@[a].id());
                }
            }
        }
        true
    }

    /// The empty table.
    pub fn new() -> (table: Registry<K, V>)
        ensures
            table.wf(),
            table@ == Map::<K::Id, V>::empty(),
    {
        let table = Registry { keys: Vec::new(), values: Vec::new() };
        assert(ids(table.keys@) =~= Seq::<K::Id>::empty());
        assert(table@ =~= Map::<K::Id, V>::empty());
        table
    }

    /// The place of the key that stands for the same as `key`, if there is
    /// one.
    pub fn find(&self, key: &K) -> (at: Option<usize>)
        requires
            self.wf(),
        ensures
            at is Some <==> self@.contains_key(key.id()),
            at is Some ==> at->0 < self.keys@.len() && self.keys@[at->0 as int].id() == key.id()
                && ids(self.keys@).index_of(key.id()) == at->0 && self@[key.id()]
                == self.values@[at->0 as int],
    {
        let mut i: usize = 0;
        while i < self.keys.len()
            invariant
                self.wf(),
                i <= self.keys@.len(),
                forall|j: int| 0 <= j < i ==> self.keys@[j].id() != key.id(),
            decreases self.keys@.len() - i,
        {
            if self.keys[i].matches(key) {
                proof {
                    assert(ids(self.keys@)[i as int] == key.id());
                    lemma_index_of_unique(ids(self.keys@), i as int);
                }
                return Some(i);
            }
            i = i + 1;
        }
        proof {
            if ids(self.keys@).contains(key.id()) {
                let j = choose|j: int|
                    0 <= j < ids(self.keys@).len() && ids(self.keys@)[j] == key.id();
                assert(self.keys@[j].id() == key.id());
            }
        }
        None
    }

    /// What is stored under `key`, if anything.
    pub fn get(&self, key: &K) -> (found: Option<&V>)
        requires
            self.wf(),
        ensures
            match found {
                Some(value) => stored(self@, key.id()) == Some(*value),
                None => stored(self@, key.id()) is None,
            },
    {
        match self.find(key) {
            Some(at) => Some(&self.values[at]),
            None => None,
        }
    }

    /// Whether anything is stored under `key`.
    pub fn has(&self, key: &K) -> (found: bool)
        requires
            self.wf(),
        ensures
            found == self@.contains_key(key.id()),
    {
        self.find(key).is_some()
    }

    /// Stores `value` under `key`, in place of what was stored there.
    pub fn set(&mut self, key: K, value: V)
        requires
            old(self).wf(),
        ensures
            final(self).wf(),
            final(self)@ == old(self)@.insert(key.id(), value),
    {
        let ghost before = ids(self.keys@);
        let ghost id = key.id();
        match self.find(&key) {
            Some(at) => {
                self.values[at] = value;
                proof {
                    assert forall|other: K::Id| other != id implies stored(final(self)@, other)
                        == stored(old(self)@, other) by {
                        if before.contains(other) {
                            let j = before.index_of(other);
                            assert(0 <= j < before.len() && before[j] == other);
                        }
                    }
                    assert(final(self)@ =~= old(self)@.insert(id, value));
                }
            },
            None => {
                self.keys.push(key);
                self.values.push(value);
                proof {
                    let after = ids(self.keys@);
                    let last = before.len() as int;
                    assert(after =~= before.push(id));
                    assert forall|i: int, j: int|
                        0 <= i < after.len() && 0 <= j < after.len() && i != j implies after[i]
                        != after[j] by {
                        if i < last && j < last {
                            assert(before[i] != before[j]);
                        } else if i < last {
                            assert(before.contains(before[i]));
                        } else {
                            assert(before.contains(before[j]));
                        }
                    }
                    lemma_index_of_unique(after, last);
                    assert forall|other: K::Id| other != id implies stored(final(self)@, other)
                        == stored(old(self)@, other) by {
                        if before.contains(other) {
                            let j = before.index_of(other);
                            assert(0 <= j < before.len() && before[j] == other);
                            assert(after[j] == other);
                            lemma_index_of_unique(after, j);
                        } else if after.contains(other) {
                            let j = after.index_of(other);
                            assert(0 <= j < after.len() && after[j] == other);
                            assert(j < last);
                            assert(before[j] == other);
                        }
                    }
                    assert(after[last] == id);
                    assert(stored(final(self)@, id) == Some(value));
                    assert forall|k: K::Id| final(self)@.contains_key(k) <==> old(self)@.insert(
                        id,
                        value,
                    ).contains_key(k) by {
                        if k != id {
                            assert(stored(final(self)@, k) == stored(old(self)@, k));
                        }
                    }
                    assert forall|k: K::Id| final(self)@.contains_key(k) implies final(self)@[k]
                        == old(self)@.insert(id, value)[k] by {
                        if k != id {
                            assert(stored(final(self)@, k) == stored(old(self)@, k));
                        }
                    }
                    assert(final(self)@ =~= old(self)@.insert(id, value));
                }
            },
        }
    }
}

/// A table whose value at one place is replaced holds the new value under
/// the key of that place, and is otherwise as before.
pub proof fn lemma_value_replaced<K: Key, V>(before: Registry<K, V>, after: Registry<K, V>, at: int)
    requires
        before.wf(),
        0 <= at < before.keys@.len(),
        after.keys@ == before.keys@,
        after.values@ == before.values@.update(at, after.values@[at]),
    ensures
        after.wf(),
        after@ == before@.insert(before.keys@[at].id(), after.values@[at]),
{
    let keys = ids(before.keys@);
    let id = before.keys@[at].id();
    assert(keys[at] == id);
    lemma_index_of_unique(keys, at);
    assert forall|k: K::Id| after@.contains_key(k) implies after@[k] == before@.insert(
        id,
        after.values@[at],
    )[k] by {
        if k != id {
            let j = keys.index_of(k);
            assert(0 <= j < keys.len() && keys[j] == k);
        }
    }
    assert(after@ =~= before@.insert(id, after.values@[at]));
}

} // verus!
