//! The operations that are in flight.

pub mod lifecycle;

use crate::driver::op::CompletionMeta;
use crate::driver::op::OsError;
use crate::driver::op::Poll;
use crate::driver::uring::lifecycle::Dropped;
use crate::driver::uring::lifecycle::Finished;
use crate::driver::uring::lifecycle::MaybeFdLifecycle;
use crate::utils::slab::Slab;
use vstd::prelude::*;

verus! {

/// The slots of the operations that were submitted and are not yet released
/// by both the kernel and their owner, by the index that tags them in the
/// kernel's queues.
///
/// The driver must not be torn down while a slot is left.
pub struct Ops<W, D> {
    pub slab: Slab<MaybeFdLifecycle<W, D>>,
}

/// What the operations in flight are: the slots by their index, the indices
/// that were freed, the next to be handed out first, and the number of
/// indices that were ever opened.
#[verifier::ext_equal]
pub struct OpsView<W, D> {
    pub slots: Map<usize, MaybeFdLifecycle<W, D>>,
    pub free: Seq<usize>,
    pub opened: nat,
}

impl<W, D> OpsView<W, D> {
    /// No operation in flight, and no index opened.
    pub open spec fn empty() -> Self {
        OpsView { slots: Map::empty(), free: Seq::empty(), opened: 0 }
    }

    /// The index that the next operation gets: the index freed last, or a
    /// new one if none is free.
    pub open spec fn next_index(self) -> nat {
        if self.free.len() > 0 {
            self.free[0] as nat
        } else {
            self.opened
        }
    }

    /// Whether one more operation can be taken: a freed index is left, or
    /// the next new index is below the tags that are reserved for the driver.
    pub open spec fn has_room(self) -> bool {
        self.free.len() > 0 || self.opened + 4 <= usize::MAX
    }

    /// The operations after one more was taken into the slot of the next
    /// index.
    pub open spec fn inserted(self, slot: MaybeFdLifecycle<W, D>) -> Self {
        if self.free.len() > 0 {
            OpsView {
                slots: self.slots.insert(self.free[0], slot),
                free: self.free.skip(1),
                opened: self.opened,
            }
        } else {
            OpsView {
                slots: self.slots.insert(self.opened as usize, slot),
                free: self.free,
                opened: self.opened + 1,
            }
        }
    }

    /// The operations after the slot with the given index changed to `next`,
    /// or was freed where `next` is `None`.
    pub open spec fn with_slot(self, index: usize, next: Option<MaybeFdLifecycle<W, D>>) -> Self {
        match next {
            Some(slot) => OpsView { slots: self.slots.insert(index, slot), ..self },
            None => OpsView {
                slots: self.slots.remove(index),
                free: seq![index] + self.free,
                opened: self.opened,
            },
        }
    }
}

impl<W, D> View for Ops<W, D> {
    type V = OpsView<W, D>;

    open spec fn view(&self) -> OpsView<W, D> {
        OpsView { slots: self.slab@, free: self.slab.free_keys(), opened: self.slab.slots() }
    }
}

impl<W, D> Ops<W, D> {
    /// The invariant of the slots: every index is below the tags that are
    /// reserved for the driver.
    pub open spec fn wf(&self) -> bool {
        &&& self.slab.wf()
        &&& self.slab.slots() + 3 <= usize::MAX
    }

    /// What the invariant says of the indices: each is either in use or
    /// free, none is both or free twice, and all are below the tags that are
    /// reserved for the driver.
    pub proof fn lemma_indices(&self)
        requires
            self.wf(),
        ensures
            self@.slots.dom().finite(),
            self@.slots.dom().len() + self@.free.len() == self@.opened,
            self@.free.no_duplicates(),
            forall|index: usize|
                index < self@.opened ==> (self@.slots.contains_key(index) <==> !self@.free.contains(
                    index,
                )),
            forall|index: usize| self@.slots.contains_key(index) ==> index + 4 <= usize::MAX,
            forall|index: usize| self@.free.contains(index) ==> index + 4 <= usize::MAX,
    {
        self.slab.lemma_keys();
    }

    /// No operation in flight.
    pub fn new() -> (ops: Self)
        ensures
            ops.wf(),
            ops@ == OpsView::<W, D>::empty(),
    {
        Ops { slab: Slab::new() }
    }

    /// Whether one more operation can be taken.
    pub fn has_room(&self) -> (room: bool)
        requires
            self.wf(),
        ensures
            room == self@.has_room(),
    {
        self.slab.has_free_key() || self.slab.slot_count() <= usize::MAX - 4
    }

    /// Opens the slot of a new operation and returns its index. `is_fd` says
    /// whether a successful result will be a descriptor to own.
    pub fn insert(&mut self, is_fd: bool) -> (index: usize)
        requires
            old(self).wf(),
            old(self)@.has_room(),
        ensures
            final(self).wf(),
            !old(self)@.slots.contains_key(index),
            index == old(self)@.next_index(),
            index + 4 <= usize::MAX,
            final(self)@ == old(self)@.inserted(MaybeFdLifecycle::<W, D>::new(is_fd)),
    {
        self.slab.insert(MaybeFdLifecycle::new(is_fd))
    }

    /// Puts a slot back under the index it was just taken from, or leaves the
    /// index free.
    fn restore(&mut self, index: usize, next: Option<MaybeFdLifecycle<W, D>>, Ghost(before): Ghost<
        OpsView<W, D>,
    >)
        requires
            old(self).wf(),
            before.slots.contains_key(index),
            old(self)@ == before.with_slot(index, None),
        ensures
            final(self).wf(),
            final(self)@ == before.with_slot(index, next),
    {
        match next {
            Some(slot) => {
                assert(old(self)@.free[0] == index);
                let key = self.slab.insert(slot);
                assert(self@.slots =~= before.slots.insert(index, slot));
                assert(self@.free =~= before.free);
            },
            None => {},
        }
    }

    /// Records the completion of the operation in slot `index` and says what
    /// is left to be done. The slot is freed if its owner is gone.
    pub fn complete(&mut self, index: usize, result: Result<u32, OsError>, flags: u32) -> (finished:
        Finished<W, D>)
        requires
            old(self).wf(),
            old(self)@.slots.contains_key(index),
        ensures
            final(self).wf(),
            final(self)@ == old(self)@.with_slot(
                index,
                old(self)@.slots[index].completed(result, flags),
            ),
            finished == old(self)@.slots[index].finished(result, flags),
    {
        let ghost before = self@;
        match self.slab.remove(index) {
            Some(slot) => {
                let (next, finished) = slot.complete(result, flags);
                self.restore(index, next, Ghost(before));
                finished
            },
            None => vstd::pervasive::unreached(),
        }
    }

    /// Polls the operation in slot `index` for its owner. The slot is freed
    /// when the result is handed out.
    pub fn poll_op(&mut self, index: usize, waker: W) -> (poll: Poll<CompletionMeta>)
        requires
            old(self).wf(),
            old(self)@.slots.contains_key(index),
            old(self)@.slots[index].owned(),
        ensures
            final(self).wf(),
            final(self)@ == old(self)@.with_slot(index, old(self)@.slots[index].polled(waker)),
            poll == old(self)@.slots[index].poll_outcome(),
    {
        let ghost before = self@;
        match self.slab.remove(index) {
            Some(slot) => {
                let (next, poll) = slot.poll_op(waker);
                self.restore(index, next, Ghost(before));
                poll
            },
            None => vstd::pervasive::unreached(),
        }
    }

    /// Records that the owner of slot `index` was dropped. The slot is freed
    /// if the operation had completed; else it stays, with `data` parked in
    /// it, until the completion arrives.
    pub fn drop_op(&mut self, index: usize, data: D) -> (dropped: Dropped<D>)
        requires
            old(self).wf(),
            old(self)@.slots.contains_key(index),
            old(self)@.slots[index].owned(),
        ensures
            final(self).wf(),
            final(self)@ == old(self)@.with_slot(index, old(self)@.slots[index].dropped(data)),
            dropped == old(self)@.slots[index].drop_outcome(data),
    {
        let ghost before = self@;
        match self.slab.remove(index) {
            Some(slot) => {
                let (next, dropped) = slot.drop_op(data);
                self.restore(index, next, Ghost(before));
                dropped
            },
            None => vstd::pervasive::unreached(),
        }
    }

    /// The slot with the given index, if it holds an operation.
    pub fn get(&self, index: usize) -> (slot: Option<&MaybeFdLifecycle<W, D>>)
        requires
            self.wf(),
        ensures
            match slot {
                Some(found) => self@.slots.contains_key(index) && *found == self@.slots[index],
                None => !self@.slots.contains_key(index),
            },
    {
        self.slab.get(index)
    }

    /// Whether slot `index` holds an operation.
    pub fn contains(&self, index: usize) -> (found: bool)
        requires
            self.wf(),
        ensures
            found == self@.slots.contains_key(index),
    {
        self.slab.contains(index)
    }

    /// The number of operations in flight.
    pub fn len(&self) -> (len: usize)
        requires
            self.wf(),
        ensures
            len == self@.slots.dom().len(),
    {
        self.slab.len()
    }

    /// Whether no operation is in flight, as it must be when the driver is
    /// torn down.
    pub fn is_empty(&self) -> (empty: bool)
        requires
            self.wf(),
        ensures
            empty == (self@.slots == Map::<usize, MaybeFdLifecycle<W, D>>::empty()),
    {
        self.slab.is_empty()
    }
}

} // verus!
