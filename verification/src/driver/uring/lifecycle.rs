//! The life of one operation between its submission and the moment both the
//! kernel and the owning handle are done with it.
//!
//! A slot starts as `Submitted`. The handle that polls it leaves a waker
//! (`Waiting`); the completion stores the result (`Completed`), which the
//! next poll takes, freeing the slot. A handle that is dropped first parks
//! its data in the slot (`Ignored`), and the completion that arrives later
//! frees the slot.

use crate::driver::op::CompletionMeta;
use crate::driver::op::MaybeFd;
use crate::driver::op::OsError;
use crate::driver::op::Poll;
use vstd::prelude::*;

verus! {

/// The state of an operation. `W` is what wakes the task that waits for the
/// operation, `D` is what must stay alive while the kernel works on it.
pub enum Lifecycle<W, D> {
    /// Submitted, and nobody waits for the result yet.
    Submitted,
    /// Submitted, and the owner waits to be woken.
    Waiting(W),
    /// The owner was dropped before the completion; the data of the
    /// operation is kept until the kernel is done with it.
    Ignored(D),
    /// Completed with a result and flags that the owner has not taken yet.
    Completed(Result<u32, OsError>, u32),
}

/// The state of an operation, with the mark that says whether a successful
/// result is a descriptor to own.
pub struct MaybeFdLifecycle<W, D> {
    pub is_fd: bool,
    pub lifecycle: Lifecycle<W, D>,
}

/// What a completion leaves to be done.
pub enum Finished<W, D> {
    /// Nothing: the result is stored until the owner polls, or the operation
    /// had completed before.
    Nothing,
    /// The result is stored and the owner waits for it: wake the owner.
    Wake(W),
    /// The owner is gone and the slot is free: the data that was kept for the
    /// kernel can go, and a descriptor that the operation returned must be
    /// closed.
    Release { data: D, close: Option<u32> },
}

/// What the drop of an owner leaves to be done.
pub enum Dropped<D> {
    /// The operation is still in flight: its data is parked in the slot, and
    /// the kernel should be asked to cancel it.
    InFlight,
    /// The operation had completed and the slot is free: the data can go, and
    /// a descriptor that the operation returned must be closed.
    Finished { data: D, close: Option<u32> },
}

/// The descriptor that a result carries, if successful results of the
/// operation are descriptors.
pub open spec fn carried_fd(is_fd: bool, result: Result<u32, OsError>) -> Option<u32> {
    match result {
        Ok(fd) if is_fd => Some(fd),
        _ => None,
    }
}

impl<W, D> MaybeFdLifecycle<W, D> {
    /// The slot after its operation completed, `None` where the slot is
    /// freed.
    pub open spec fn completed(self, result: Result<u32, OsError>, flags: u32) -> Option<Self> {
        match self.lifecycle {
            Lifecycle::Submitted | Lifecycle::Waiting(_) => Some(
                MaybeFdLifecycle { is_fd: self.is_fd, lifecycle: Lifecycle::Completed(result, flags) },
            ),
            Lifecycle::Ignored(_) => None,
            Lifecycle::Completed(_, _) => Some(self),
        }
    }

    /// What the completion of the operation leaves to be done.
    pub open spec fn finished(self, result: Result<u32, OsError>, flags: u32) -> Finished<W, D> {
        match self.lifecycle {
            Lifecycle::Submitted => Finished::Nothing,
            Lifecycle::Waiting(waker) => Finished::Wake(waker),
            Lifecycle::Ignored(data) => Finished::Release {
                data,
                close: carried_fd(self.is_fd, result),
            },
            Lifecycle::Completed(_, _) => Finished::Nothing,
        }
    }

    /// Whether the owner of the slot is still there.
    pub open spec fn owned(self) -> bool {
        !(self.lifecycle is Ignored)
    }

    /// The slot after its owner polled it, `None` where the slot is freed.
    pub open spec fn polled(self, waker: W) -> Option<Self> {
        match self.lifecycle {
            Lifecycle::Completed(_, _) => None,
            _ => Some(MaybeFdLifecycle { is_fd: self.is_fd, lifecycle: Lifecycle::Waiting(waker) }),
        }
    }

    /// What the owner gets from a poll.
    pub open spec fn poll_outcome(self) -> Poll<CompletionMeta> {
        match self.lifecycle {
            Lifecycle::Completed(result, flags) => Poll::Ready(
                CompletionMeta { result: MaybeFd::of_result(result, self.is_fd), flags },
            ),
            _ => Poll::Pending,
        }
    }

    /// The slot after its owner was dropped, `None` where the slot is freed.
    pub open spec fn dropped(self, data: D) -> Option<Self> {
        match self.lifecycle {
            Lifecycle::Completed(_, _) => None,
            _ => Some(MaybeFdLifecycle { is_fd: self.is_fd, lifecycle: Lifecycle::Ignored(data) }),
        }
    }

    /// What the drop of the owner leaves to be done.
    pub open spec fn drop_outcome(self, data: D) -> Dropped<D> {
        match self.lifecycle {
            Lifecycle::Completed(result, _) => Dropped::Finished {
                data,
                close: carried_fd(self.is_fd, result),
            },
            _ => Dropped::InFlight,
        }
    }

    /// The slot of an operation that was just submitted.
    pub open spec fn new_spec(is_fd: bool) -> Self {
        MaybeFdLifecycle { is_fd, lifecycle: Lifecycle::Submitted }
    }

    /// The slot of an operation that was just submitted.
    #[verifier::when_used_as_spec(new_spec)]
    pub fn new(is_fd: bool) -> (slot: Self)
        ensures
            slot == Self::new_spec(is_fd),
    {
        MaybeFdLifecycle { is_fd, lifecycle: Lifecycle::Submitted }
    }

    /// Records the completion of the operation.
    ///
    /// Returns the slot as it is from now on, or `None` if the slot is to be
    /// freed because the owner is gone, and what is left to be done.
    pub fn complete(self, result: Result<u32, OsError>, flags: u32) -> (r: (
        Option<Self>,
        Finished<W, D>,
    ))
        ensures
            r.0 == self.completed(result, flags),
            r.1 == self.finished(result, flags),
    {
        let is_fd = self.is_fd;
        match self.lifecycle {
            Lifecycle::Submitted => (
                Some(MaybeFdLifecycle { is_fd, lifecycle: Lifecycle::Completed(result, flags) }),
                Finished::Nothing,
            ),
            Lifecycle::Waiting(waker) => (
                Some(MaybeFdLifecycle { is_fd, lifecycle: Lifecycle::Completed(result, flags) }),
                Finished::Wake(waker),
            ),
            Lifecycle::Ignored(data) => {
                let close = match result {
                    Ok(fd) => if is_fd {
                        Some(fd)
                    } else {
                        None
                    },
                    Err(_) => None,
                };
                (None, Finished::Release { data, close })
            },
            Lifecycle::Completed(stored, stored_flags) => (
                Some(MaybeFdLifecycle { is_fd, lifecycle: Lifecycle::Completed(stored, stored_flags) }),
                Finished::Nothing,
            ),
        }
    }

    /// Polls the operation for its owner.
    ///
    /// While the operation is in flight the waker is stored in place of an
    /// earlier one and the poll is pending. Once it has completed, the result
    /// is handed out and the slot is to be freed.
    pub fn poll_op(self, waker: W) -> (r: (Option<Self>, Poll<CompletionMeta>))
        requires
            self.owned(),
        ensures
            r.0 == self.polled(waker),
            r.1 == self.poll_outcome(),
    {
        let is_fd = self.is_fd;
        match self.lifecycle {
            Lifecycle::Completed(result, flags) => (
                None,
                Poll::Ready(CompletionMeta { result: MaybeFd::new_result(result, is_fd), flags }),
            ),
            _ => (Some(MaybeFdLifecycle { is_fd, lifecycle: Lifecycle::Waiting(waker) }), Poll::Pending),
        }
    }

    /// Records that the owner was dropped without taking the result.
    ///
    /// While the operation is in flight, `data` is parked in the slot until
    /// the completion arrives. Once it has completed, the slot is to be freed
    /// and the result is released.
    pub fn drop_op(self, data: D) -> (r: (Option<Self>, Dropped<D>))
        requires
            self.owned(),
        ensures
            r.0 == self.dropped(data),
            r.1 == self.drop_outcome(data),
    {
        let is_fd = self.is_fd;
        match self.lifecycle {
            Lifecycle::Completed(result, _) => {
                let close = match result {
                    Ok(fd) => if is_fd {
                        Some(fd)
                    } else {
                        None
                    },
                    Err(_) => None,
                };
                (None, Dropped::Finished { data, close })
            },
            _ => (Some(MaybeFdLifecycle { is_fd, lifecycle: Lifecycle::Ignored(data) }), Dropped::InFlight),
        }
    }
}

/// A slot is freed when both the kernel and the owner are done with it, and
/// not before.
///
/// While only one of them is done the slot stays: a completion keeps the
/// result for the owner, and an owner that is dropped leaves its data for the
/// kernel. Whichever comes second frees the slot: the poll or the drop that
/// follows the completion, or the completion that follows the drop. A poll
/// that finds the operation in flight changes nothing of this.
pub proof fn slot_is_freed_by_the_second<W, D>(
    slot: MaybeFdLifecycle<W, D>,
    result: Result<u32, OsError>,
    flags: u32,
    waker: W,
    data: D,
)
    requires
        slot.lifecycle is Submitted || slot.lifecycle is Waiting,
    ensures
        slot.polled(waker) matches Some(waiting) && waiting.lifecycle is Waiting
            && slot.poll_outcome() is Pending,
        slot.completed(result, flags) matches Some(done) && done.owned() && {
            &&& done.polled(waker) is None
            &&& done.poll_outcome() == Poll::Ready(
                CompletionMeta { result: MaybeFd::of_result(result, slot.is_fd), flags },
            )
            &&& done.dropped(data) is None
            &&& done.drop_outcome(data) == Dropped::Finished {
                data,
                close: carried_fd(slot.is_fd, result),
            }
        },
        slot.dropped(data) matches Some(ignored) && !ignored.owned() && {
            &&& slot.drop_outcome(data) is InFlight
            &&& ignored.completed(result, flags) is None
            &&& ignored.finished(result, flags) == Finished::<W, D>::Release {
                data,
                close: carried_fd(slot.is_fd, result),
            }
        },
{
}

} // verus!
