//! Closing a descriptor.

use crate::driver::op::OpAble;
use vstd::prelude::*;

verus! {

/// The request to close a descriptor.
pub struct Close {
    pub fd: i32,
}

/// The submission queue entry that closes the descriptor `fd`.
pub uninterp spec fn close_request(fd: i32) -> io_uring::squeue::Entry;

/// `io_uring::opcode::Close::new` on `io_uring::types::Fd(fd)`, followed by
/// `build`: the submission queue entry that closes the descriptor `fd`, which
/// depends on `fd` alone.
#[verifier::external_body]
fn close_entry(fd: i32) -> (sqe: io_uring::squeue::Entry)
    ensures
        sqe == close_request(fd),
{
    io_uring::opcode::Close::new(io_uring::types::Fd(fd)).build()
}

impl OpAble for Close {
    const SKIP_CANCEL: bool = true;

    fn uring_op(&mut self) -> (sqe: io_uring::squeue::Entry)
        ensures
            sqe == close_request(old(self).fd),
            *final(self) == *old(self),
    {
        close_entry(self.fd)
    }
}

} // verus!
