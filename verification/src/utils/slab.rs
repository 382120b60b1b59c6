//! Index-stable storage with reuse of freed indices.
//!
//! A [`Slab`] maps small integer keys to values. A key stays valid until its
//! value is removed; the key that was freed last is the first to be handed
//! out again, and a new slot is opened only when no freed key is left.

use vstd::prelude::*;

verus! {

/// One slot of a slab.
pub enum Slot<T> {
    /// A free slot, with the key that is handed out after this one.
    Vacant(usize),
    /// A slot that holds a value.
    Occupied(T),
}

/// Storage of values under keys that the slab chooses.
pub struct Slab<T> {
    entries: Vec<Slot<T>>,
    len: usize,
    next: usize,
    free: Ghost<Seq<usize>>,
}

impl<T> View for Slab<T> {
    type V = Map<usize, T>;

    /// The values by their keys.
    closed spec fn view(&self) -> Map<usize, T> {
        Map::new(
            |key: usize| key < self.entries@.len() && self.entries@[key as int] is Occupied,
            |key: usize| self.entries@[key as int]->Occupied_0,
        )
    }
}

impl<T> Slab<T> {
    /// The freed keys, in the order in which they will be handed out.
    pub closed spec fn free_keys(&self) -> Seq<usize> {
        self.free@
    }

    /// The number of slots opened so far. Every key is below it.
    pub closed spec fn slots(&self) -> nat {
        self.entries@.len()
    }

    /// The key that the next insertion returns: the key freed last, or a new
    /// slot if there is none.
    pub open spec fn next_key(&self) -> nat {
        if self.free_keys().len() > 0 {
            self.free_keys()[0] as nat
        } else {
            self.slots()
        }
    }

    spec fn link(&self, i: int) -> nat {
        if i + 1 < self.free@.len() {
            self.free@[i + 1] as nat
        } else {
            self.entries@.len()
        }
    }

    /// The invariant of the slab: the vacant slots form the chain of freed
    /// keys, and the length counts the occupied ones.
    pub closed spec fn wf(&self) -> bool {
        &&& self.entries@.len() <= usize::MAX
        &&& self.len + self.free@.len() == self.entries@.len()
        &&& self.next == self.next_key()
        &&& self.free@.no_duplicates()
        &&& forall|i: int|
            0 <= i < self.free@.len() ==> (#[trigger] self.free@[i]) < self.entries@.len()
        &&& forall|i: int|
            0 <= i < self.free@.len() ==> self.entries@[self.free@[i] as int] == Slot::<T>::Vacant(
                (#[trigger] self.link(i)) as usize,
            )
        &&& forall|key: int|
            0 <= key < self.entries@.len() && (#[trigger] self.entries@[key]) is Vacant
                ==> self.free@.contains(key as usize)
    }

    /// What `wf` says of the keys: the occupied and the freed keys are the
    /// slots opened so far, each once.
    pub proof fn lemma_keys(&self)
        requires
            self.wf(),
        ensures
            self@.dom().finite(),
            self@.dom().len() + self.free_keys().len() == self.slots(),
            self.free_keys().no_duplicates(),
            forall|key: usize| self@.contains_key(key) ==> key < self.slots(),
            forall|key: usize| self.free_keys().contains(key) ==> key < self.slots(),
            forall|key: usize|
                key < self.slots() ==> (self@.contains_key(key) <==> !self.free_keys().contains(
                    key,
                )),
            self.next_key() <= self.slots(),
    {
        let n = self.entries@.len();
        let free_set = self.free@.to_set();
        let all = Set::new(|key: usize| key < n);
        assert forall|key: usize| key < n implies (self@.contains_key(key)
            <==> !self.free@.contains(key)) by {
            if self.free@.contains(key) {
                let i = choose|i: int| 0 <= i < self.free@.len() && self.free@[i] == key;
                assert(self.entries@[self.free@[i] as int] == Slot::<T>::Vacant(
                    self.link(i) as usize,
                ));
            } else {
                if self.entries@[key as int] is Vacant {
                    assert(self.free@.contains(key));
                }
            }
        }
        assert forall|key: usize| self.free@.contains(key) implies key < n by {
            let i = choose|i: int| 0 <= i < self.free@.len() && self.free@[i] == key;
            assert(self.free@[i] < n);
        }
        lemma_below_is_finite(n);
        assert(self@.dom() + free_set =~= all);
        assert(self@.dom().disjoint(free_set));
        self.free@.unique_seq_to_set();
        assert(self@.dom().subset_of(all));
        vstd::set_lib::lemma_len_subset(self@.dom(), all);
        vstd::set_lib::lemma_len_subset(free_set, all);
        vstd::set_lib::lemma_set_disjoint_lens(self@.dom(), free_set);
        if self.free@.len() > 0 {
            assert(self.free@[0] < n);
        }
    }

    /// An empty slab.
    pub fn new() -> (slab: Slab<T>)
        ensures
            slab.wf(),
            slab@ == Map::<usize, T>::empty(),
            slab.free_keys() == Seq::<usize>::empty(),
            slab.slots() == 0,
    {
        let slab = Slab { entries: Vec::new(), len: 0, next: 0, free: Ghost(Seq::empty()) };
        assert(slab@ =~= Map::<usize, T>::empty());
        slab
    }

    /// The number of values.
    pub fn len(&self) -> (len: usize)
        requires
            self.wf(),
        ensures
            len == self@.dom().len(),
    {
        proof {
            self.lemma_keys();
        }
        self.len
    }

    /// Whether the slab holds no value.
    pub fn is_empty(&self) -> (empty: bool)
        requires
            self.wf(),
        ensures
            empty == (self@ == Map::<usize, T>::empty()),
    {
        proof {
            self.lemma_keys();
            if self@.dom().len() == 0 {
                assert(self@ =~= Map::<usize, T>::empty());
            }
        }
        self.len == 0
    }

    /// Whether a value is stored under `key`.
    pub fn contains(&self, key: usize) -> (found: bool)
        requires
            self.wf(),
        ensures
            found == self@.contains_key(key),
    {
        if key < self.entries.len() {
            match &self.entries[key] {
                Slot::Occupied(_) => true,
                Slot::Vacant(_) => false,
            }
        } else {
            false
        }
    }

    /// The value stored under `key`, if there is one.
    pub fn get(&self, key: usize) -> (value: Option<&T>)
        requires
            self.wf(),
        ensures
            match value {
                Some(v) => self@.contains_key(key) && *v == self@[key],
                None => !self@.contains_key(key),
            },
    {
        if key < self.entries.len() {
            match &self.entries[key] {
                Slot::Occupied(v) => Some(v),
                Slot::Vacant(_) => None,
            }
        } else {
            None
        }
    }

    /// Whether one more value can be stored: a freed key is left, or the
    /// slots opened so far leave a key below the largest `usize`.
    pub open spec fn spec_has_room(&self) -> bool {
        self.free_keys().len() > 0 || self.slots() < usize::MAX
    }

    /// Whether a freed key is left.
    pub fn has_free_key(&self) -> (left: bool)
        requires
            self.wf(),
        ensures
            left == (self.free_keys().len() > 0),
    {
        proof {
            self.lemma_keys();
        }
        self.next < self.entries.len()
    }

    /// The number of slots opened so far.
    pub fn slot_count(&self) -> (count: usize)
        requires
            self.wf(),
        ensures
            count == self.slots(),
    {
        self.entries.len()
    }

    /// Whether one more value can be stored.
    #[verifier::when_used_as_spec(spec_has_room)]
    pub fn has_room(&self) -> (room: bool)
        requires
            self.wf(),
        ensures
            room == self.spec_has_room(),
    {
        proof {
            self.lemma_keys();
        }
        self.next < self.entries.len() || self.entries.len() < usize::MAX
    }

    /// Stores `value` and returns its key: the key freed last, or a new slot
    /// if no freed key is left.
    pub fn insert(&mut self, value: T) -> (key: usize)
        requires
            old(self).wf(),
            old(self).has_room(),
        ensures
            final(self).wf(),
            key == old(self).next_key(),
            key < final(self).slots(),
            key < usize::MAX,
            !old(self)@.contains_key(key),
            final(self)@ == old(self)@.insert(key, value),
            final(self).free_keys() == if old(self).free_keys().len() > 0 {
                old(self).free_keys().skip(1)
            } else {
                old(self).free_keys()
            },
            final(self).slots() == if old(self).free_keys().len() > 0 {
                old(self).slots()
            } else {
                old(self).slots() + 1
            },
    {
        proof {
            self.lemma_keys();
        }
        let key = self.next;
        if key == self.entries.len() {
            assert(self.free@.len() == 0) by {
                if self.free@.len() > 0 {
                    assert(self.free@[0] < self.entries@.len());
                }
            }
            self.entries.push(Slot::Occupied(value));
            self.next = key + 1;
            self.len = self.len + 1;
            proof {
                assert(self@ =~= old(self)@.insert(key, value));
                assert forall|k: int|
                    0 <= k < self.entries@.len() && (#[trigger] self.entries@[k]) is Vacant
                    implies self.free@.contains(k as usize) by {
                    assert(old(self).entries@[k] is Vacant);
                }
            }
        } else {
            assert(self.free@.len() > 0);
            assert(self.free@[0] == key);
            let ghost link = self.link(0);
            let mut slot = Slot::Occupied(value);
            self.entries.set_and_swap(key, &mut slot);
            match slot {
                Slot::Vacant(next) => {
                    self.next = next;
                },
                Slot::Occupied(_) => {
                    assert(false);
                },
            }
            self.len = self.len + 1;
            proof {
                let before = old(self).free@;
                let after = before.skip(1);
                self.free@ = after;
                assert forall|i: int| 0 <= i < after.len() implies (#[trigger] after[i])
                    < self.entries@.len() by {
                    assert(after[i] == before[i + 1]);
                }
                assert forall|i: int| 0 <= i < after.len() implies self.entries@[after[i] as int]
                    == Slot::<T>::Vacant((#[trigger] self.link(i)) as usize) by {
                    assert(after[i] == before[i + 1]);
                    assert(before[i + 1] != before[0]);
                    assert(old(self).entries@[before[i + 1] as int] == Slot::<T>::Vacant(
                        old(self).link(i + 1) as usize,
                    ));
                    if i + 1 < after.len() {
                        assert(after[i + 1] == before[i + 2]);
                    }
                }
                assert(after.no_duplicates());
                assert forall|k: int|
                    0 <= k < self.entries@.len() && (#[trigger] self.entries@[k]) is Vacant
                    implies after.contains(k as usize) by {
                    assert(k != key);
                    assert(old(self).entries@[k] is Vacant);
                    let i = choose|i: int| 0 <= i < before.len() && before[i] == k as usize;
                    assert(i != 0);
                    assert(after[i - 1] == k as usize);
                }
                assert(self@ =~= old(self)@.insert(key, value));
            }
        }
        key
    }

    /// Puts `value` in place of the value stored under `key` and returns the
    /// old one.
    pub fn replace(&mut self, key: usize, value: T) -> (previous: T)
        requires
            old(self).wf(),
            old(self)@.contains_key(key),
        ensures
            final(self).wf(),
            previous == old(self)@[key],
            final(self)@ == old(self)@.insert(key, value),
            final(self).free_keys() == old(self).free_keys(),
            final(self).slots() == old(self).slots(),
    {
        let mut slot = Slot::Occupied(value);
        self.entries.set_and_swap(key, &mut slot);
        proof {
            assert forall|i: int| 0 <= i < self.free@.len() implies self.entries@[self.free@[i] as int]
                == Slot::<T>::Vacant((#[trigger] self.link(i)) as usize) by {
                assert(old(self).entries@[old(self).free@[i] as int] == Slot::<T>::Vacant(
                    old(self).link(i) as usize,
                ));
            }
            assert forall|k: int|
                0 <= k < self.entries@.len() && (#[trigger] self.entries@[k]) is Vacant
                implies self.free@.contains(k as usize) by {
                assert(old(self).entries@[k] is Vacant);
            }
            assert(self@ =~= old(self)@.insert(key, value));
        }
        match slot {
            Slot::Occupied(previous) => previous,
            Slot::Vacant(_) => vstd::pervasive::unreached(),
        }
    }

    /// Removes the value stored under `key` and returns it. The key is the
    /// next to be handed out. Where nothing is stored under `key`, nothing
    /// changes.
    pub fn remove(&mut self, key: usize) -> (value: Option<T>)
        requires
            old(self).wf(),
        ensures
            final(self).wf(),
            value == if old(self)@.contains_key(key) {
                Some(old(self)@[key])
            } else {
                None
            },
            final(self)@ == old(self)@.remove(key),
            final(self).slots() == old(self).slots(),
            final(self).free_keys() == if old(self)@.contains_key(key) {
                seq![key] + old(self).free_keys()
            } else {
                old(self).free_keys()
            },
    {
        if !self.contains(key) {
            assert(self@ =~= old(self)@.remove(key));
            return None;
        }
        proof {
            self.lemma_keys();
        }
        let mut slot = Slot::Vacant(self.next);
        self.entries.set_and_swap(key, &mut slot);
        self.next = key;
        self.len = self.len - 1;
        proof {
            let before = old(self).free@;
            let after = seq![key] + before;
            self.free@ = after;
            assert(!before.contains(key));
            assert forall|i: int| 0 <= i < after.len() implies (#[trigger] after[i])
                < self.entries@.len() by {
                if i > 0 {
                    assert(after[i] == before[i - 1]);
                }
            }
            assert forall|i: int| 0 <= i < after.len() implies self.entries@[after[i] as int]
                == Slot::<T>::Vacant((#[trigger] self.link(i)) as usize) by {
                if i > 0 {
                    assert(after[i] == before[i - 1]);
                    assert(old(self).entries@[before[i - 1] as int] == Slot::<T>::Vacant(
                        old(self).link(i - 1) as usize,
                    ));
                    if i + 1 < after.len() {
                        assert(after[i + 1] == before[i]);
                    }
                } else {
                    if before.len() > 0 {
                        assert(after[1] == before[0]);
                    }
                }
            }
            assert forall|i: int, j: int|
                0 <= i < after.len() && 0 <= j < after.len() && i != j implies after[i]
                != after[j] by {
                if i > 0 {
                    assert(after[i] == before[i - 1]);
                }
                if j > 0 {
                    assert(after[j] == before[j - 1]);
                }
            }
            assert forall|k: int|
                0 <= k < self.entries@.len() && (#[trigger] self.entries@[k]) is Vacant
                implies after.contains(k as usize) by {
                if k == key {
                    assert(after[0] == key);
                } else {
                    assert(old(self).entries@[k] is Vacant);
                    let i = choose|i: int| 0 <= i < before.len() && before[i] == k as usize;
                    assert(after[i + 1] == k as usize);
                }
            }
            assert(self@ =~= old(self)@.remove(key));
        }
        match slot {
            Slot::Occupied(value) => Some(value),
            Slot::Vacant(_) => {
                assert(false);
                None
            },
        }
    }
}

/// There are `n` keys below `n`.
proof fn lemma_below_is_finite(n: nat)
    requires
        n <= usize::MAX,
    ensures
        Set::new(|key: usize| key < n).finite(),
        Set::new(|key: usize| key < n).len() == n,
    decreases n,
{
    let keys = Set::new(|key: usize| key < n);
    if n == 0 {
        assert(keys =~= Set::<usize>::empty());
    } else {
        let fewer = Set::new(|key: usize| key < (n - 1) as nat);
        lemma_below_is_finite((n - 1) as nat);
        assert(keys =~= fewer.insert((n - 1) as usize));
    }
}

} // verus!
