//! What an operation leaves behind: its result, and the handle that owns it
//! until then.

use crate::driver::UringInner;
use vstd::prelude::*;

verus! {

/// An error that the operating system reported, by its number.
#[derive(Clone, Copy, Debug, PartialEq, Eq, Structural)]
pub struct OsError {
    pub errno: i32,
}

/// Invalid argument.
pub const EINVAL: i32 = 22;

/// Resource temporarily unavailable.
pub const EAGAIN: i32 = 11;

/// Device or resource busy.
pub const EBUSY: i32 = 16;

/// Timer expired.
pub const ETIME: i32 = 62;

/// No such file or directory.
pub const ENOENT: i32 = 2;

impl OsError {
    /// The error with the given number.
    pub fn from_raw_os_error(errno: i32) -> (e: OsError)
        ensures
            e.errno == errno,
    {
        OsError { errno }
    }

    /// The number of the error.
    pub fn raw_os_error(&self) -> (errno: i32)
        ensures
            errno == self.errno,
    {
        self.errno
    }
}

/// The number that a kernel result below zero stands for as an error: its
/// negation, which for the least `i32` is that number again.
pub open spec fn errno_of(res: i32) -> i32 {
    if res == i32::MIN {
        i32::MIN
    } else {
        (-res) as i32
    }
}

/// What a kernel result means: a result of zero or more is the value of a
/// successful operation, a result below zero is the negated number of an
/// error.
pub open spec fn result_of(res: i32) -> Result<u32, OsError> {
    if res >= 0 {
        Ok(res as u32)
    } else {
        Err(OsError { errno: errno_of(res) })
    }
}

/// Turns the result field of a completion into a `Result`.
pub fn unwrap_to_result(res: i32) -> (r: Result<u32, OsError>)
    ensures
        r == result_of(res),
{
    if res >= 0 {
        Ok(res as u32)
    } else if res == i32::MIN {
        Err(OsError::from_raw_os_error(res))
    } else {
        Err(OsError::from_raw_os_error(-res))
    }
}

/// A number that an operation returned, which may be a file descriptor that
/// its holder owns.
///
/// A value marked as a descriptor stands for an open file. Whoever discards
/// the value owes the close of that file: [`MaybeFd::into_close`] says which
/// descriptor that is. [`MaybeFd::into_inner`] hands the number out and with it
/// the duty to close.
#[derive(Debug)]
pub struct MaybeFd {
    pub is_fd: bool,
    pub fd: u32,
}

impl MaybeFd {
    /// What a result of an operation becomes when its number is marked.
    pub open spec fn of_result(fdr: Result<u32, OsError>, is_fd: bool) -> Result<MaybeFd, OsError> {
        match fdr {
            Ok(fd) => Ok(MaybeFd { is_fd, fd }),
            Err(e) => Err(e),
        }
    }

    /// Wraps the result of an operation; `is_fd` says whether a successful
    /// result is a descriptor that the caller owns.
    pub fn new_result(fdr: Result<u32, OsError>, is_fd: bool) -> (r: Result<MaybeFd, OsError>)
        ensures
            r == Self::of_result(fdr, is_fd),
    {
        match fdr {
            Ok(fd) => Ok(MaybeFd { is_fd, fd }),
            Err(e) => Err(e),
        }
    }

    /// Wraps the result of an operation that returns an owned descriptor.
    pub fn new_fd_result(fdr: Result<u32, OsError>) -> (r: Result<MaybeFd, OsError>)
        ensures
            r == Self::of_result(fdr, true),
    {
        Self::new_result(fdr, true)
    }

    /// Wraps the result of an operation that returns a plain number.
    pub fn new_non_fd_result(fdr: Result<u32, OsError>) -> (r: Result<MaybeFd, OsError>)
        ensures
            r == Self::of_result(fdr, false),
    {
        Self::new_result(fdr, false)
    }

    /// Wraps a descriptor that the caller owns.
    pub fn new_fd(fd: u32) -> (r: MaybeFd)
        ensures
            r == (MaybeFd { is_fd: true, fd }),
    {
        MaybeFd { is_fd: true, fd }
    }

    /// Wraps a plain number.
    pub fn new_non_fd(fd: u32) -> (r: MaybeFd)
        ensures
            r == (MaybeFd { is_fd: false, fd }),
    {
        MaybeFd { is_fd: false, fd }
    }

    /// Hands the number out. A descriptor is from now on the caller's to
    /// close: nothing is owed for this value any more.
    pub fn into_inner(self) -> (fd: u32)
        ensures
            fd == self.fd,
    {
        self.fd
    }

    /// The plain number zero.
    pub fn zero() -> (r: MaybeFd)
        ensures
            r == (MaybeFd { is_fd: false, fd: 0 }),
    {
        MaybeFd { is_fd: false, fd: 0 }
    }

    /// The number.
    pub fn fd(&self) -> (fd: u32)
        ensures
            fd == self.fd,
    {
        self.fd
    }

    /// The descriptor to close when this value is discarded.
    pub open spec fn owed_close(&self) -> Option<u32> {
        if self.is_fd {
            Some(self.fd)
        } else {
            None
        }
    }

    /// Discards the value. Returns the descriptor that must now be closed,
    /// once: the number, if the value is marked as a descriptor, and nothing
    /// otherwise.
    pub fn into_close(self) -> (close: Option<u32>)
        ensures
            close == self.owed_close(),
    {
        if self.is_fd {
            Some(self.fd)
        } else {
            None
        }
    }
}

/// The result of an operation and the flags that the kernel gave with it.
#[derive(Debug)]
pub struct CompletionMeta {
    pub result: Result<MaybeFd, OsError>,
    pub flags: u32,
}

/// A finished operation: the state that was stored for it, and its result.
#[derive(Debug)]
pub struct Completion<T> {
    pub data: T,
    pub meta: CompletionMeta,
}

/// Whether a result is there yet.
#[derive(Debug)]
pub enum Poll<T> {
    /// The result.
    Ready(T),
    /// The operation is still in flight; the caller is woken when it is
    /// done.
    Pending,
}

/// `io_uring::squeue::Entry`, a submission queue entry of the ring. The
/// driver builds such entries and hands them out to be pushed; it never looks
/// inside one.
#[verifier::external_type_specification]
#[verifier::external_body]
pub struct ExSubmissionEntry(io_uring::squeue::Entry);

/// The submission queue entry that is `sqe` with its tag set to `user_data`.
pub uninterp spec fn tagged(sqe: io_uring::squeue::Entry, user_data: u64) -> io_uring::squeue::Entry;

/// `io_uring::squeue::Entry::user_data`: sets the tag of the entry, which the
/// kernel hands back with the completion, and changes nothing else of it.
pub assume_specification[ io_uring::squeue::Entry::user_data ](
    sqe: io_uring::squeue::Entry,
    user_data: u64,
) -> (result: io_uring::squeue::Entry)
    ensures
        result == tagged(sqe, user_data),
;

/// What can be submitted to the ring as an operation.
pub trait OpAble {
    /// Whether a successful result is a descriptor that the caller owns.
    const RET_IS_FD: bool = false;

    /// Whether the operation must not be cancelled when its handle is
    /// dropped, because it cannot be taken back.
    const SKIP_CANCEL: bool = false;

    /// The submission queue entry of the operation.
    fn uring_op(&mut self) -> io_uring::squeue::Entry;
}

/// The handle of an operation in flight.
///
/// The handle owns a slot of the driver from the submission until it has
/// been polled to completion, from when on its index is the largest `usize`,
/// or until it is dropped.
pub struct Op<T> {
    /// The index of the operation's slot.
    pub index: usize,
    /// The state that is kept for the operation.
    pub data: Option<T>,
}

/// The means to cancel an operation without its handle.
#[derive(Debug, Eq, PartialEq, Clone, Copy, Hash)]
pub struct OpCanceller {
    /// The index of the operation's slot.
    pub index: usize,
}

impl<T> Op<T> {
    /// Whether the handle has handed out its result.
    pub open spec fn finished(&self) -> bool {
        self.index == usize::MAX
    }

    /// The means to cancel the operation.
    pub fn op_canceller(&self) -> (canceller: OpCanceller)
        ensures
            canceller.index == self.index,
    {
        OpCanceller { index: self.index }
    }

    /// Whether the handle owns a slot of the driver.
    pub open spec fn attached<W, D>(&self, inner: &UringInner<W, D>) -> bool {
        &&& self.data is Some
        &&& inner.ops@.slots.contains_key(self.index)
        &&& inner.ops@.slots[self.index].owned()
    }

    /// Polls the operation.
    ///
    /// While the operation is in flight, the waker is left with the driver
    /// and the poll is pending: this is where a task is suspended, to be woken
    /// by the completion. Once the operation has completed, the stored state
    /// is returned together with the result, the slot is freed, and the handle
    /// owns no slot any more.
    pub fn poll<W, D>(&mut self, inner: &mut UringInner<W, D>, waker: W) -> (r: Poll<Completion<T>>)
        requires
            old(inner).wf(),
            old(self).attached(old(inner)),
        ensures
            final(inner).wf(),
            final(inner).ext_arg == old(inner).ext_arg,
            final(inner).ops@ == old(inner).ops@.with_slot(
                old(self).index,
                old(inner).ops@.slots[old(self).index].polled(waker),
            ),
            match old(inner).ops@.slots[old(self).index].poll_outcome() {
                Poll::Pending => r is Pending && *final(self) == *old(self),
                Poll::Ready(meta) => r == Poll::Ready(
                    Completion { data: old(self).data->0, meta },
                ) && final(self).finished() && final(self).data is None,
            },
    {
        match inner.poll_op(self.index, waker) {
            Poll::Pending => Poll::Pending,
            Poll::Ready(meta) => {
                self.index = usize::MAX;
                match self.data.take() {
                    Some(data) => Poll::Ready(Completion { data, meta }),
                    None => vstd::pervasive::unreached(),
                }
            },
        }
    }
}

} // verus!
