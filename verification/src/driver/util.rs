//! Conversions for the ring.

use vstd::prelude::*;

verus! {

/// `io_uring::types::Timespec`, a time as the ring takes it.
#[verifier::external_type_specification]
#[verifier::external_body]
pub struct ExTimespec(io_uring::types::Timespec);

/// The time of the ring that stands for a duration.
pub uninterp spec fn timespec_of(duration: std::time::Duration) -> io_uring::types::Timespec;

/// `io_uring::types::Timespec::from` a `Duration`: the time with the whole
/// seconds and the nanoseconds beyond them of `duration`, which depends on
/// `duration` alone.
#[verifier::external_body]
pub(crate) fn timespec(duration: std::time::Duration) -> (ts: io_uring::types::Timespec)
    ensures
        ts == timespec_of(duration),
{
    io_uring::types::Timespec::from(duration)
}

} // verus!
