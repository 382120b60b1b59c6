//! The bookkeeping of the I/O driver.
//!
//! The driver owns the slots of the operations in flight and decides what to
//! do with each completion that the kernel reports, when the submission queue
//! has to be flushed, and how to wait. The ring itself, and every call into
//! the kernel, belongs to the embedding program.

pub mod file_io;
pub mod op;
pub mod uring;
pub mod util;

use crate::driver::op::result_of;
use crate::driver::op::tagged;
use crate::driver::op::unwrap_to_result;
use crate::driver::op::CompletionMeta;
use crate::driver::op::Op;
use crate::driver::op::OpAble;
use crate::driver::op::OsError;
use crate::driver::op::Poll;
use crate::driver::op::EAGAIN;
use crate::driver::op::EBUSY;
use crate::driver::op::ETIME;
use crate::driver::uring::lifecycle::Dropped;
use crate::driver::uring::lifecycle::Finished;
use crate::driver::uring::lifecycle::MaybeFdLifecycle;
use crate::driver::uring::Ops;
use crate::driver::uring::OpsView;
use crate::driver::util::timespec;
use crate::driver::util::timespec_of;
use std::time::Duration;
use vstd::prelude::*;

verus! {

/// The tag of a request to cancel an operation.
pub const CANCEL_USERDATA: u64 = u64::MAX;

/// The tag of a timeout that bounds a wait.
pub const TIMEOUT_USERDATA: u64 = u64::MAX - 1;

/// The least tag that is reserved for requests of the driver itself. Tags
/// from here up never name a slot.
pub const MIN_REVERSED_USERDATA: u64 = u64::MAX - 3;

/// What the tag of a queue entry stands for.
#[derive(Clone, Copy, Debug, PartialEq, Eq, Structural)]
pub enum Tag {
    /// A request to cancel an operation.
    Cancel,
    /// A timeout that bounds a wait.
    Timeout,
    /// A reserved tag that is not in use.
    Reserved,
    /// The operation in the slot with this index.
    Slot(usize),
    /// A tag below the reserved range that is no index on this machine.
    Foreign,
}

impl Tag {
    /// What a tag stands for.
    pub open spec fn spec_of(user_data: u64) -> Tag {
        if user_data == CANCEL_USERDATA {
            Tag::Cancel
        } else if user_data == TIMEOUT_USERDATA {
            Tag::Timeout
        } else if user_data >= MIN_REVERSED_USERDATA {
            Tag::Reserved
        } else if user_data <= usize::MAX {
            Tag::Slot(user_data as usize)
        } else {
            Tag::Foreign
        }
    }

    /// What a tag stands for.
    #[verifier::when_used_as_spec(spec_of)]
    pub fn of(user_data: u64) -> (tag: Tag)
        ensures
            tag == Tag::spec_of(user_data),
    {
        if user_data == CANCEL_USERDATA {
            Tag::Cancel
        } else if user_data == TIMEOUT_USERDATA {
            Tag::Timeout
        } else if user_data >= MIN_REVERSED_USERDATA {
            Tag::Reserved
        } else if user_data <= usize::MAX as u64 {
            Tag::Slot(user_data as usize)
        } else {
            Tag::Foreign
        }
    }

    /// Whether the tag is reserved for requests of the driver itself.
    pub open spec fn is_control(self) -> bool {
        self is Cancel || self is Timeout || self is Reserved
    }
}

/// The tag of the operation in slot `index`.
pub fn slot_user_data(index: usize) -> (user_data: u64)
    ensures
        user_data == index,
        user_data < MIN_REVERSED_USERDATA ==> Tag::of(user_data) == Tag::Slot(index),
{
    index as u64
}

/// One completion as the kernel reports it.
#[derive(Clone, Copy, Debug, PartialEq, Eq, Structural)]
pub struct CompletionEvent {
    /// The tag of the request.
    pub user_data: u64,
    /// The result of the operation: its value if zero or more, else the
    /// negated number of an error.
    pub result: i32,
    /// Flags of the completion.
    pub flags: u32,
}

/// `io_uring::cqueue::Entry`, a completion queue entry of the ring. It holds
/// three numbers, which are read through the getters below.
#[verifier::external_type_specification]
#[verifier::external_body]
pub struct ExCompletionEntry(io_uring::cqueue::Entry);

/// The tag that a completion queue entry holds.
pub uninterp spec fn cqe_user_data(cqe: io_uring::cqueue::Entry) -> u64;

/// The result code that a completion queue entry holds.
pub uninterp spec fn cqe_result(cqe: io_uring::cqueue::Entry) -> i32;

/// The flags that a completion queue entry holds.
pub uninterp spec fn cqe_flags(cqe: io_uring::cqueue::Entry) -> u32;

/// `io_uring::cqueue::Entry::user_data`: reads the tag of the entry, which
/// is the tag that the request was submitted with.
pub assume_specification[ io_uring::cqueue::Entry::user_data ](
    cqe: &io_uring::cqueue::Entry,
) -> (user_data: u64)
    ensures
        user_data == cqe_user_data(*cqe),
;

/// `io_uring::cqueue::Entry::result`: reads the result code of the entry.
pub assume_specification[ io_uring::cqueue::Entry::result ](
    cqe: &io_uring::cqueue::Entry,
) -> (result: i32)
    ensures
        result == cqe_result(*cqe),
;

/// `io_uring::cqueue::Entry::flags`: reads the flags of the entry.
pub assume_specification[ io_uring::cqueue::Entry::flags ](cqe: &io_uring::cqueue::Entry) -> (flags:
    u32)
    ensures
        flags == cqe_flags(*cqe),
;

impl CompletionEvent {
    /// The completion that a completion queue entry of the ring holds.
    pub open spec fn spec_from_entry(cqe: &io_uring::cqueue::Entry) -> CompletionEvent {
        CompletionEvent {
            user_data: cqe_user_data(*cqe),
            result: cqe_result(*cqe),
            flags: cqe_flags(*cqe),
        }
    }

    /// Reads a completion queue entry of the ring.
    #[verifier::when_used_as_spec(spec_from_entry)]
    pub fn from_entry(cqe: &io_uring::cqueue::Entry) -> (event: CompletionEvent)
        ensures
            event == Self::spec_from_entry(cqe),
    {
        CompletionEvent {
            user_data: cqe.user_data(),
            result: cqe.result(),
            flags: cqe.flags(),
        }
    }
}

/// The operations after a completion was routed, and what it leaves to be
/// done.
///
/// A completion with a reserved tag is dropped. Any other completion goes to
/// the slot that its tag names; where that slot holds nothing, it is dropped
/// as well.
pub open spec fn routed<W, D>(ops: OpsView<W, D>, event: CompletionEvent) -> (
    OpsView<W, D>,
    Finished<W, D>,
) {
    match Tag::of(event.user_data) {
        Tag::Slot(index) => if ops.slots.contains_key(index) {
            (
                ops.with_slot(
                    index,
                    ops.slots[index].completed(result_of(event.result), event.flags),
                ),
                ops.slots[index].finished(result_of(event.result), event.flags),
            )
        } else {
            (ops, Finished::Nothing)
        },
        _ => (ops, Finished::Nothing),
    }
}

/// The operations after the completions were routed in their order, and what
/// each of them leaves to be done.
pub open spec fn routed_all<W, D>(ops: OpsView<W, D>, events: Seq<CompletionEvent>) -> (
    OpsView<W, D>,
    Seq<Finished<W, D>>,
)
    decreases events.len(),
{
    if events.len() == 0 {
        (ops, Seq::empty())
    } else {
        let (before, finished) = routed_all(ops, events.drop_last());
        let (after, last) = routed(before, events.last());
        (after, finished.push(last))
    }
}

/// What the runtime asks of an I/O driver. The embedding program implements
/// it over its ring.
pub trait Driver {
    /// Runs `f` with this driver as the current one.
    fn with<R, F: FnOnce() -> R>(&self, f: F) -> R;

    /// Submits the queued operations to the kernel and processes the
    /// completions that are there.
    fn submit(&self) -> Result<(), OsError>;

    /// Waits until a completion arrives and processes the completions.
    fn park(&self) -> Result<(), OsError>;

    /// Waits until a completion arrives or the time has passed, and
    /// processes the completions.
    fn park_timeout(&self, duration: Duration) -> Result<(), OsError>;
}

/// What the drop of a handle leaves to be done.
pub enum OpDropped<D> {
    /// The handle had handed out its result, or its slot holds nothing:
    /// nothing changed, and the data can go.
    Detached(D),
    /// The operation is still in flight and the data is parked in its slot.
    /// `cancel` says whether the kernel is to be asked to cancel it.
    InFlight { cancel: bool },
    /// The operation had completed and the slot is free: the data can go, and
    /// a descriptor that the operation returned must be closed.
    Finished { data: D, close: Option<u32> },
}

/// The submission queue entry that asks the kernel to cancel the request
/// tagged `target`.
pub uninterp spec fn cancel_request(target: u64) -> io_uring::squeue::Entry;

/// `io_uring::opcode::AsyncCancel::new` followed by `build`: the submission
/// queue entry that asks the kernel to cancel the request tagged `target`,
/// which depends on `target` alone.
#[verifier::external_body]
fn async_cancel(target: u64) -> (sqe: io_uring::squeue::Entry)
    ensures
        sqe == cancel_request(target),
{
    io_uring::opcode::AsyncCancel::new(target).build()
}

/// The request to cancel the operation in slot `index`, tagged as a request
/// of the driver itself. Cancelling is best effort: the operation may still
/// complete, and its slot is released by that completion either way.
pub fn cancel_op(index: usize) -> (sqe: io_uring::squeue::Entry)
    ensures
        sqe == tagged(cancel_request(index as u64), CANCEL_USERDATA),
{
    async_cancel(slot_user_data(index)).user_data(CANCEL_USERDATA)
}

/// Whether a failed flush of the submission queue is to be tried again:
/// where the kernel is out of resources for the moment, completions are
/// processed to make room and the flush is repeated. Any other error is
/// handed on.
pub fn retry_submit(raw_os_error: Option<i32>) -> (retry: bool)
    ensures
        retry == (raw_os_error == Some(EAGAIN) || raw_os_error == Some(EBUSY)),
{
    match raw_os_error {
        Some(errno) => errno == EAGAIN || errno == EBUSY,
        None => false,
    }
}

/// Whether a submission queue that holds `len` of `capacity` entries has to
/// be flushed before `need` more are pushed.
pub open spec fn spec_flush_needed(len: usize, capacity: usize, need: usize) -> bool {
    len + need > capacity
}

/// Whether a submission queue that holds `len` of `capacity` entries has to
/// be flushed before `need` more are pushed.
#[verifier::when_used_as_spec(spec_flush_needed)]
pub fn flush_needed(len: usize, capacity: usize, need: usize) -> (flush: bool)
    ensures
        flush == spec_flush_needed(len, capacity, need),
{
    match len.checked_add(need) {
        Some(total) => total > capacity,
        None => true,
    }
}

/// The number of flushes before `need` entries are pushed to a queue that
/// holds `len` of `capacity` entries, given that a flush empties the queue:
/// none if the entries fit, one if they fit in the empty queue, and `None` if
/// they never fit.
pub open spec fn flushes_before_push(len: usize, capacity: usize, need: usize) -> Option<nat> {
    if !flush_needed(len, capacity, need) {
        Some(0)
    } else if !flush_needed(0, capacity, need) {
        Some(1)
    } else {
        None
    }
}

/// Entries that fit in the queue at all are pushed after one flush if the
/// queue lacks the room for them, and at once if it has the room: a full
/// queue costs one flush, never more, and no push is refused.
pub proof fn one_flush_makes_room(len: usize, capacity: usize, need: usize)
    requires
        need <= capacity,
    ensures
        flushes_before_push(len, capacity, need) == Some(
            if len + need > capacity {
                1nat
            } else {
                0nat
            },
        ),
{
}

/// A full queue that takes entries at all is flushed once before an entry is
/// pushed: it asks for a flush, and after the flush, which leaves it empty,
/// it asks for none.
pub proof fn full_queue_is_flushed_once(capacity: usize)
    requires
        capacity >= 1,
    ensures
        flush_needed(capacity, capacity, 1),
        !flush_needed(0, capacity, 1),
        flushes_before_push(capacity, capacity, 1) == Some(1nat),
{
}

/// How the driver waits for completions.
pub enum ParkPlan {
    /// Wait until a completion arrives.
    Wait,
    /// Push a timeout request tagged `TIMEOUT_USERDATA`, then wait until a
    /// completion arrives, that of the timeout if nothing else. For kernels
    /// that take no timeout with the wait call.
    TimeoutEntry(io_uring::types::Timespec),
    /// Wait with the timeout as an argument to the wait call.
    WaitArgs(io_uring::types::Timespec),
}

impl ParkPlan {
    /// Whether the submission queue must have room for one entry before the
    /// wait.
    pub fn needs_space(&self) -> (needs: bool)
        ensures
            needs == !(self is Wait),
    {
        match self {
            ParkPlan::Wait => false,
            _ => true,
        }
    }

    /// Whether an error of the wait call counts as a wait that ended without
    /// a completion: a wait that takes its timeout as an argument reports the
    /// elapsed time as an error, which is none.
    pub fn tolerates(&self, raw_os_error: Option<i32>) -> (tolerated: bool)
        ensures
            tolerated == (self is WaitArgs && raw_os_error == Some(ETIME)),
    {
        match self {
            ParkPlan::WaitArgs(_) => match raw_os_error {
                Some(errno) => errno == ETIME,
                None => false,
            },
            _ => false,
        }
    }
}

/// What is to be done with an operation that is to be submitted.
pub enum Submission<T> {
    /// No index is left for the operation, which is handed back untouched:
    /// as many operations are in flight as the tags of the queue can tell
    /// apart.
    NoRoom(T),
    /// The submission queue is full: it is to be flushed to the kernel, and
    /// the operation, which is handed back untouched, submitted again.
    Flush(T),
    /// The slot of the operation is open: its tagged entry is to be pushed to
    /// the submission queue.
    Push(Op<T>, io_uring::squeue::Entry),
}

/// The state of the driver: the operations in flight, and whether the kernel
/// takes a timeout with the wait call itself.
pub struct UringInner<W, D> {
    /// The operations in flight.
    pub ops: Ops<W, D>,
    /// Whether the kernel supports extended arguments to the wait call.
    pub ext_arg: bool,
}

impl<W, D> UringInner<W, D> {
    /// The invariant of the driver state.
    pub open spec fn wf(&self) -> bool {
        self.ops.wf()
    }

    /// A driver with no operation in flight.
    pub fn new(ext_arg: bool) -> (inner: Self)
        ensures
            inner.wf(),
            inner.ext_arg == ext_arg,
            inner.ops@ == OpsView::<W, D>::empty(),
    {
        UringInner { ops: Ops::new(), ext_arg }
    }

    /// Routes one completion: drops it if its tag is reserved, else records
    /// it in the slot that the tag names.
    pub fn route(&mut self, event: CompletionEvent) -> (finished: Finished<W, D>)
        requires
            old(self).wf(),
        ensures
            final(self).wf(),
            final(self).ext_arg == old(self).ext_arg,
            (final(self).ops@, finished) == routed(old(self).ops@, event),
    {
        match Tag::of(event.user_data) {
            Tag::Slot(index) => {
                if self.ops.contains(index) {
                    self.ops.complete(index, unwrap_to_result(event.result), event.flags)
                } else {
                    Finished::Nothing
                }
            },
            _ => Finished::Nothing,
        }
    }

    /// How to wait for completions, for at most `timeout` if one is given.
    pub fn park_plan(&self, timeout: Option<Duration>) -> (plan: ParkPlan)
        ensures
            plan == match timeout {
                None => ParkPlan::Wait,
                Some(duration) => if self.ext_arg {
                    ParkPlan::WaitArgs(timespec_of(duration))
                } else {
                    ParkPlan::TimeoutEntry(timespec_of(duration))
                },
            },
    {
        match timeout {
            None => ParkPlan::Wait,
            Some(duration) => if self.ext_arg {
                ParkPlan::WaitArgs(timespec(duration))
            } else {
                ParkPlan::TimeoutEntry(timespec(duration))
            },
        }
    }

    /// Opens the slot of a new operation and returns the handle that owns
    /// it.
    pub fn new_op<T: OpAble>(&mut self, data: T) -> (op: Op<T>)
        requires
            old(self).wf(),
            old(self).ops@.has_room(),
        ensures
            final(self).wf(),
            final(self).ext_arg == old(self).ext_arg,
            op.index == old(self).ops@.next_index(),
            op.index + 4 <= usize::MAX,
            final(self).ops@ == old(self).ops@.inserted(MaybeFdLifecycle::<W, D>::new(T::RET_IS_FD)),
            op.data == Some(data),
            op.attached(final(self)),
    {
        Op { index: self.ops.insert(T::RET_IS_FD), data: Some(data) }
    }

    /// Prepares the submission of an operation: opens its slot, builds its
    /// submission queue entry and tags the entry with the index of the slot.
    /// Returns the handle of the operation and the entry, which is to be
    /// pushed to the submission queue, after a flush if the queue is full.
    ///
    /// The entry is what the operation builds of itself, which is the
    /// operation's own to decide; what is done with the entry once it is built
    /// is `submit_with_entry`.
    pub fn submit_with_data<T: OpAble>(&mut self, data: T) -> (r: (Op<T>, io_uring::squeue::Entry))
        requires
            old(self).wf(),
            old(self).ops@.has_room(),
        ensures
            final(self).wf(),
            final(self).ext_arg == old(self).ext_arg,
            r.0.index == old(self).ops@.next_index(),
            final(self).ops@ == old(self).ops@.inserted(MaybeFdLifecycle::<W, D>::new(T::RET_IS_FD)),
            r.0.data is Some,
            r.0.attached(final(self)),
            exists|sqe: io_uring::squeue::Entry| r.1 == #[trigger] tagged(sqe, r.0.index as u64),
            Tag::of(r.0.index as u64) == Tag::Slot(r.0.index),
    {
        let mut data = data;
        let built = data.uring_op();
        let r = self.submit_with_entry(data, built);
        assert(r.1 == tagged(built, r.0.index as u64));
        r
    }

    /// Submits an operation to a submission queue that holds `len` of
    /// `capacity` entries.
    ///
    /// If the queue is full, nothing is done but to ask for a flush: no slot
    /// is opened before the queue has room, so that a flush that fails leaves
    /// nothing behind. If the queue has room, the submission is prepared as
    /// by `submit_with_data`. A queue that was flushed is empty and has room,
    /// so that one flush is enough. A full queue is never a reason to refuse
    /// the operation: it is refused only where no index is left for it.
    pub fn submit_with_space<T: OpAble>(&mut self, data: T, len: usize, capacity: usize) -> (r:
        Submission<T>)
        requires
            old(self).wf(),
        ensures
            final(self).wf(),
            final(self).ext_arg == old(self).ext_arg,
            match r {
                Submission::NoRoom(back) => {
                    &&& !old(self).ops@.has_room()
                    &&& back == data
                    &&& final(self).ops@ == old(self).ops@
                },
                Submission::Flush(back) => {
                    &&& old(self).ops@.has_room()
                    &&& flush_needed(len, capacity, 1)
                    &&& back == data
                    &&& final(self).ops@ == old(self).ops@
                },
                Submission::Push(op, tagged_entry) => {
                    &&& old(self).ops@.has_room()
                    &&& !flush_needed(len, capacity, 1)
                    &&& op.index == old(self).ops@.next_index()
                    &&& final(self).ops@ == old(self).ops@.inserted(
                        MaybeFdLifecycle::<W, D>::new(T::RET_IS_FD),
                    )
                    &&& op.data is Some
                    &&& op.attached(final(self))
                    &&& exists|sqe: io_uring::squeue::Entry|
                        tagged_entry == #[trigger] tagged(sqe, op.index as u64)
                    &&& Tag::of(op.index as u64) == Tag::Slot(op.index)
                },
            },
    {
        if !self.ops.has_room() {
            Submission::NoRoom(data)
        } else if flush_needed(len, capacity, 1) {
            Submission::Flush(data)
        } else {
            let (op, sqe) = self.submit_with_data(data);
            Submission::Push(op, sqe)
        }
    }

    /// Takes an operation whose submission queue entry is built: opens the
    /// slot of the operation and tags the entry with the index of the slot,
    /// so that the completion of the entry finds the slot. Returns the handle
    /// that owns the slot and holds the operation, and the tagged entry.
    pub fn submit_with_entry<T: OpAble>(&mut self, data: T, built: io_uring::squeue::Entry) -> (r: (
        Op<T>,
        io_uring::squeue::Entry,
    ))
        requires
            old(self).wf(),
            old(self).ops@.has_room(),
        ensures
            final(self).wf(),
            final(self).ext_arg == old(self).ext_arg,
            r.0.index == old(self).ops@.next_index(),
            final(self).ops@ == old(self).ops@.inserted(MaybeFdLifecycle::<W, D>::new(T::RET_IS_FD)),
            r.0.data == Some(data),
            r.0.attached(final(self)),
            r.1 == tagged(built, r.0.index as u64),
            Tag::of(r.0.index as u64) == Tag::Slot(r.0.index),
    {
        let op = self.new_op(data);
        let sqe = built.user_data(slot_user_data(op.index));
        (op, sqe)
    }

    /// Polls the operation in slot `index` for its owner.
    pub fn poll_op(&mut self, index: usize, waker: W) -> (poll: Poll<CompletionMeta>)
        requires
            old(self).wf(),
            old(self).ops@.slots.contains_key(index),
            old(self).ops@.slots[index].owned(),
        ensures
            final(self).wf(),
            final(self).ext_arg == old(self).ext_arg,
            final(self).ops@ == old(self).ops@.with_slot(
                index,
                old(self).ops@.slots[index].polled(waker),
            ),
            poll == old(self).ops@.slots[index].poll_outcome(),
    {
        self.ops.poll_op(index, waker)
    }

    /// What the drop of the handle with the given index leaves to be done,
    /// and to the operations.
    pub open spec fn op_dropped(ops: OpsView<W, D>, index: usize, data: D, skip_cancel: bool) -> (
        OpsView<W, D>,
        OpDropped<D>,
    ) {
        if index == usize::MAX || !ops.slots.contains_key(index) {
            (ops, OpDropped::Detached(data))
        } else {
            (
                ops.with_slot(index, ops.slots[index].dropped(data)),
                match ops.slots[index].drop_outcome(data) {
                    Dropped::InFlight => OpDropped::InFlight { cancel: !skip_cancel },
                    Dropped::Finished { data, close } => OpDropped::Finished { data, close },
                },
            )
        }
    }

    /// Records that the handle with the given index was dropped.
    ///
    /// A handle that has handed out its result leaves nothing to do. If the
    /// operation has completed unobserved, its slot is freed and its result
    /// released. If it is still in flight, `data` is parked in the slot and,
    /// unless `skip_cancel` is set, the kernel is to be asked to cancel the
    /// operation; the slot is freed by the completion that arrives later.
    pub fn drop_op(&mut self, index: usize, data: D, skip_cancel: bool) -> (dropped: OpDropped<D>)
        requires
            old(self).wf(),
            index != usize::MAX && old(self).ops@.slots.contains_key(index) ==> old(self).ops@.slots[
                index
            ].owned(),
        ensures
            final(self).wf(),
            final(self).ext_arg == old(self).ext_arg,
            (final(self).ops@, dropped) == Self::op_dropped(
                old(self).ops@,
                index,
                data,
                skip_cancel,
            ),
    {
        if index == usize::MAX {
            return OpDropped::Detached(data);
        }
        if !self.ops.contains(index) {
            return OpDropped::Detached(data);
        }
        match self.ops.drop_op(index, data) {
            Dropped::InFlight => OpDropped::InFlight { cancel: !skip_cancel },
            Dropped::Finished { data, close } => OpDropped::Finished { data, close },
        }
    }

    /// Processes the completion queue entries that the ring handed out:
    /// reads each and routes it, in their order. Returns, for each, what it
    /// leaves to be done.
    pub fn tick(&mut self, entries: &Vec<io_uring::cqueue::Entry>) -> (finished: Vec<Finished<W, D>>)
        requires
            old(self).wf(),
        ensures
            final(self).wf(),
            final(self).ext_arg == old(self).ext_arg,
            (final(self).ops@, finished@) == routed_all(
                old(self).ops@,
                Seq::new(entries@.len(), |i: int| CompletionEvent::from_entry(&entries@[i])),
            ),
    {
        let mut events: Vec<CompletionEvent> = Vec::new();
        let mut i: usize = 0;
        while i < entries.len()
            invariant
                i <= entries.len(),
                events.len() == i,
                forall|k: int|
                    0 <= k < i ==> events@[k] == CompletionEvent::from_entry(&entries@[k]),
            decreases entries.len() - i,
        {
            events.push(CompletionEvent::from_entry(&entries[i]));
            i = i + 1;
        }
        assert(events@ =~= Seq::new(
            entries@.len(),
            |i: int| CompletionEvent::from_entry(&entries@[i]),
        ));
        self.route_all(&events)
    }

    /// Routes the completions in their order and returns, for each, what it
    /// leaves to be done.
    pub fn route_all(&mut self, events: &Vec<CompletionEvent>) -> (finished: Vec<Finished<W, D>>)
        requires
            old(self).wf(),
        ensures
            final(self).wf(),
            final(self).ext_arg == old(self).ext_arg,
            (final(self).ops@, finished@) == routed_all(old(self).ops@, events@),
    {
        let mut finished: Vec<Finished<W, D>> = Vec::new();
        let mut i: usize = 0;
        while i < events.len()
            invariant
                i <= events.len(),
                self.wf(),
                self.ext_arg == old(self).ext_arg,
                (self.ops@, finished@) == routed_all(old(self).ops@, events@.take(i as int)),
            decreases events.len() - i,
        {
            let one = self.route(events[i]);
            finished.push(one);
            proof {
                let seen = events@.take(i as int + 1);
                assert(seen.drop_last() =~= events@.take(i as int));
                assert(seen.last() == events@[i as int]);
            }
            i = i + 1;
        }
        proof {
            assert(events@.take(i as int) =~= events@);
        }
        finished
    }
}

/// The slot of a handle that is dropped does not stay for ever.
///
/// If the operation had completed, the drop frees the slot at once. If the
/// operation is in flight, the slot stays, with the data of the operation
/// parked in it, and the completion that arrives later for that slot frees
/// it, hands the data back and says which descriptor to close. No other slot
/// changes.
pub proof fn dropped_op_is_released<W, D>(
    ops: OpsView<W, D>,
    index: usize,
    data: D,
    skip_cancel: bool,
    event: CompletionEvent,
)
    requires
        index != usize::MAX,
        ops.slots.contains_key(index),
        ops.slots[index].owned(),
        Tag::of(event.user_data) == Tag::Slot(index),
    ensures
        ({
            let (after_drop, dropped) = UringInner::<W, D>::op_dropped(
                ops,
                index,
                data,
                skip_cancel,
            );
            let (after, finished) = routed(after_drop, event);
            &&& ops.slots[index].lifecycle is Completed ==> {
                &&& dropped is Finished
                &&& after_drop == ops.with_slot(index, None)
            }
            &&& !(ops.slots[index].lifecycle is Completed) ==> {
                &&& dropped == OpDropped::<D>::InFlight { cancel: !skip_cancel }
                &&& after_drop.slots.contains_key(index)
                &&& after == ops.with_slot(index, None)
                &&& finished == Finished::<W, D>::Release {
                    data,
                    close: crate::driver::uring::lifecycle::carried_fd(
                        ops.slots[index].is_fd,
                        result_of(event.result),
                    ),
                }
            }
        }),
{
    let (after_drop, dropped) = UringInner::<W, D>::op_dropped(ops, index, data, skip_cancel);
    if !(ops.slots[index].lifecycle is Completed) {
        assert(after_drop.slots.remove(index) =~= ops.slots.remove(index));
    }
}

/// A completion that carries the tag of a slot reaches that slot: the tag of
/// an index that the driver handed out stands for that index, and for no
/// request of the driver itself.
pub proof fn slot_tag_round_trip<W, D>(inner: &UringInner<W, D>, index: usize)
    requires
        inner.wf(),
        inner.ops@.slots.contains_key(index),
    ensures
        Tag::of(index as u64) == Tag::Slot(index),
        !Tag::of(index as u64).is_control(),
        Tag::of(CANCEL_USERDATA).is_control(),
        Tag::of(TIMEOUT_USERDATA).is_control(),
{
    inner.ops.lemma_indices();
}

} // verus!
