//! A single-threaded, completion-based asynchronous execution engine: a task
//! state machine and run queue paired with the bookkeeping of an io_uring
//! driver.
//!
//! The crate holds the decisions of the engine, each with its contract: the
//! state word of a task and what it guarantees to wakers and owners, the run
//! queue and the loop of the runtime, the slots of the operations in flight,
//! and the routing of completions. The code that talks to the kernel, polls
//! futures and spawns threads lives with the embedding program, which
//! performs what the functions here decide on.
//!
//! What is taken on trust is marked where it stands: the atomic update of
//! std, and the builders and getters of the `io_uring` crate.

use vstd::prelude::*;

pub mod driver;
pub mod fs;
pub mod runtime;
pub mod task;
pub mod utils;

verus! {

/// Adds two counters.
pub fn add(left: u64, right: u64) -> (sum: u64)
    requires
        left + right <= u64::MAX,
    ensures
        sum == left + right,
{
    left + right
}

} // verus!
