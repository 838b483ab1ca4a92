//! A generation-checked slot table.
//!
//! Values are addressed by a [`Slot`]: an index paired with the generation
//! the index carried when the value was inserted.  Deleting a value bumps
//! the index's generation, so a slot held across a delete no longer
//! resolves: stale handles are rejected instead of aliasing a reused entry.

use vstd::prelude::*;

verus! {

#[derive(Clone, Copy, Debug, Default, Eq, PartialEq, Structural)]
pub struct Slot {
    pub index: usize,
    pub generation: usize,
}

#[derive(Debug)]
pub struct SlotMap<T> {
    slots: Vec<Slot>,
    data: Vec<Option<T>>,
    free: Vec<usize>,
}

impl<T> SlotMap<T> {
    /// Entry `i` of `slots` records the generation of index `i`; `data[i]`
    /// holds the live value of index `i`, and is `None` exactly when `i`
    /// waits on the free list.
    pub closed spec fn wf(self) -> bool {
        &&& self.slots@.len() == self.data@.len()
        &&& forall|i: int| 0 <= i < self.slots@.len() ==> (#[trigger] self.slots@[i]).index == i
        &&& forall|j: int| 0 <= j < self.free@.len()
            ==> (#[trigger] self.free@[j]) < self.slots@.len()
        &&& forall|i: usize| i < self.data@.len()
            ==> ((#[trigger] self.data@[i as int]) is None <==> self.free@.contains(i))
        &&& forall|j: int, k: int| 0 <= j < k < self.free@.len()
            ==> (#[trigger] self.free@[j]) != (#[trigger] self.free@[k])
    }

    /// What a slot resolves to: the value at its index, provided the
    /// generations agree.
    pub closed spec fn spec_get(self, slot: Slot) -> Option<T> {
        if slot.index < self.slots@.len()
            && self.slots@[slot.index as int].generation == slot.generation {
            self.data@[slot.index as int]
        } else {
            None
        }
    }

    /// How many slots a handle may validly index.
    pub closed spec fn spec_capacity(self) -> nat {
        self.slots@.len()
    }

    /// How many indices wait on the free list.
    pub closed spec fn spec_free_len(self) -> nat {
        self.free@.len()
    }

    /// The current generation of an index.
    pub closed spec fn spec_generation(self, index: usize) -> usize {
        self.slots@[index as int].generation
    }

    pub fn new() -> (map: Self)
        ensures
            map.wf(),
            map.spec_capacity() == 0,
            map.spec_free_len() == 0,
            forall|s: Slot| map.spec_get(s) is None,
    {
        SlotMap { slots: Vec::new(), data: Vec::new(), free: Vec::new() }
    }

    pub fn capacity(&self) -> (n: usize)
        ensures
            n == self.spec_capacity(),
    {
        self.slots.len()
    }

    pub fn free_len(&self) -> (n: usize)
        ensures
            n == self.spec_free_len(),
    {
        self.free.len()
    }

    pub fn generation_of(&self, index: usize) -> (g: usize)
        requires
            index < self.spec_capacity(),
        ensures
            g == self.spec_generation(index),
    {
        self.slots[index].generation
    }

    pub fn get(&self, slot: Slot) -> (value: Option<&T>)
        requires
            self.wf(),
            slot.index < self.spec_capacity(),
        ensures
            match value {
                Some(v) => self.spec_get(slot) == Some(*v),
                None => self.spec_get(slot) is None,
            },
    {
        let internal = self.slots[slot.index];
        if internal.generation == slot.generation {
            self.data[internal.index].as_ref()
        } else {
            None
        }
    }

    pub fn get_mut(&mut self, slot: Slot) -> (value: Option<&mut T>)
        requires
            old(self).wf(),
            slot.index < old(self).spec_capacity(),
        ensures
            final(self).wf(),
            final(self).spec_capacity() == old(self).spec_capacity(),
            final(self).spec_free_len() == old(self).spec_free_len(),
            match value {
                Some(v) => {
                    &&& old(self).spec_get(slot) == Some(*v)
                    &&& final(self).spec_get(slot) == Some(*final(v))
                    &&& forall|s: Slot| s != slot
                        ==> final(self).spec_get(s) == old(self).spec_get(s)
                },
                None => {
                    &&& old(self).spec_get(slot) is None
                    &&& *final(self) == *old(self)
                },
            },
    {
        let internal = self.slots[slot.index];
        if internal.generation == slot.generation {
            if self.data[internal.index].is_some() {
                self.data[internal.index].as_mut()
            } else {
                None
            }
        } else {
            None
        }
    }

    pub fn insert(&mut self, value: T) -> (slot: Slot)
        requires
            old(self).wf(),
            old(self).spec_capacity() < usize::MAX,
        ensures
            final(self).wf(),
            final(self).spec_get(slot) == Some(value),
            slot.index < final(self).spec_capacity(),
            final(self).spec_generation(slot.index) == slot.generation,
            forall|s: Slot| s != slot ==> final(self).spec_get(s) == old(self).spec_get(s),
            old(self).spec_free_len() > 0 ==> {
                &&& final(self).spec_capacity() == old(self).spec_capacity()
                &&& final(self).spec_free_len() == old(self).spec_free_len() - 1
                &&& slot.generation == old(self).spec_generation(slot.index)
            },
            old(self).spec_free_len() == 0 ==> {
                &&& final(self).spec_capacity() == old(self).spec_capacity() + 1
                &&& final(self).spec_free_len() == 0
                &&& slot == (Slot { index: old(self).spec_capacity() as usize, generation: 0 })
            },
    {
        if self.free.len() > 0 {
            let index = self.free[0];
            self.free.swap_remove(0);
            let internal = self.slots[index];
            self.data[internal.index] = Some(value);
            proof {
                assert(forall|j: int| 0 <= j < self.free@.len()
                    ==> #[trigger] self.free@[j] != index);
                assert forall|i: usize| i < self.data@.len()
                    implies ((#[trigger] self.data@[i as int]) is None
                        <==> self.free@.contains(i)) by {
                    if i != index {
                        assert(self.data@[i as int] == old(self).data@[i as int]);
                        if old(self).free@.contains(i) {
                            let j = choose|j: int|
                                0 <= j < old(self).free@.len()
                                    && old(self).free@[j] == i;
                            if j != 0 {
                                if j == old(self).free@.len() - 1 {
                                    assert(self.free@[0] == i);
                                } else {
                                    assert(self.free@[j] == i);
                                }
                            }
                        } else {
                            assert forall|j: int| 0 <= j < self.free@.len()
                                implies #[trigger] self.free@[j] != i by {
                                if j == 0 {
                                    assert(old(self).free@[old(self).free@.len() - 1]
                                        == self.free@[0]);
                                } else {
                                    assert(old(self).free@[j] == self.free@[j]);
                                }
                            }
                        }
                    }
                }
            }
            Slot { index, generation: internal.generation }
        } else {
            let generation: usize = 0;
            let internal = Slot { index: self.data.len(), generation };
            self.slots.push(internal);
            self.data.push(Some(value));
            let slot = Slot { index: self.slots.len() - 1, generation };
            proof {
                assert(forall|i: int| 0 <= i < old(self).data@.len()
                    ==> self.data@[i] == old(self).data@[i]);
            }
            slot
        }
    }

    pub fn delete(&mut self, slot: Slot) -> (value: Option<T>)
        requires
            old(self).wf(),
            slot.index < old(self).spec_capacity(),
            old(self).spec_generation(slot.index) < usize::MAX,
        ensures
            final(self).wf(),
            value == old(self).spec_get(slot),
            final(self).spec_get(slot) is None,
            forall|s: Slot| s != slot ==> final(self).spec_get(s) == old(self).spec_get(s),
            final(self).spec_capacity() == old(self).spec_capacity(),
            value is Some ==> {
                &&& final(self).spec_free_len() == old(self).spec_free_len() + 1
                &&& final(self).spec_generation(slot.index)
                    == old(self).spec_generation(slot.index) + 1
            },
            value is None ==> *final(self) == *old(self),
    {
        let internal = self.slots[slot.index];
        if internal.generation == slot.generation && self.data[internal.index].is_some() {
            let value = self.data[internal.index].take();
            self.free.push(slot.index);
            self.slots[slot.index].generation = internal.generation + 1;
            proof {
                assert(forall|j: int| 0 <= j < old(self).free@.len()
                    ==> #[trigger] old(self).free@[j] != slot.index);
                assert forall|i: usize| i < self.data@.len()
                    implies ((#[trigger] self.data@[i as int]) is None
                        <==> self.free@.contains(i)) by {
                    if i == slot.index {
                        assert(self.free@[self.free@.len() - 1] == i);
                    } else {
                        assert(self.data@[i as int] == old(self).data@[i as int]);
                        if old(self).free@.contains(i) {
                            let j = choose|j: int|
                                0 <= j < old(self).free@.len()
                                    && old(self).free@[j] == i;
                            assert(self.free@[j] == i);
                        } else {
                            assert forall|j: int| 0 <= j < self.free@.len()
                                implies #[trigger] self.free@[j] != i by {
                                if j < old(self).free@.len() {
                                    assert(old(self).free@.push(slot.index)[j]
                                        == old(self).free@[j]);
                                    assert(self.free@[j] == old(self).free@[j]);
                                } else {
                                    assert(old(self).free@.push(slot.index)[j] == slot.index);
                                    assert(self.free@[j] == slot.index);
                                }
                            }
                        }
                    }
                }
                assert forall|s: Slot| s != slot
                    implies final(self).spec_get(s) == old(self).spec_get(s) by {
                    if s.index == slot.index {
                        assert(s.generation != slot.generation);
                    }
                }
            }
            value
        } else {
            proof {
                if internal.generation == slot.generation {
                    assert(self.data@[slot.index as int] is None);
                }
                assert(*final(self) =~= *old(self));
            }
            None
        }
    }
}

impl<T> Default for SlotMap<T> {
    fn default() -> (map: Self)
        ensures
            map.wf(),
            map.spec_capacity() == 0,
            map.spec_free_len() == 0,
            forall|s: Slot| map.spec_get(s) is None,
    {
        SlotMap::new()
    }
}

} // verus!
