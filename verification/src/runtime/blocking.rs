//! Blocking work, which runs outside the loop of the runtime.
//!
//! A unit of blocking work is handed to a thread pool, which runs it exactly
//! once, now or later, or drops it, which cancels it.

use vstd::prelude::*;

verus! {

/// What runs blocking work. Users may implement a pool of their own and
/// attach it to the runtime.
pub trait ThreadPool {
    /// Takes a unit of blocking work, to run it now or later.
    fn schedule_task<F: FnOnce() + Send + 'static>(&self, task: BlockingTask<F>);
}

/// Why the result of blocking work is missing.
#[derive(Debug, Clone, Copy, PartialEq, Eq, Structural)]
pub enum JoinError {
    /// The work was dropped before it ran.
    Canceled,
}

/// A unit of blocking work, which a thread pool runs with `run`.
pub struct BlockingTask<F> {
    /// The work, until it runs.
    pub task: Option<F>,
}

impl<F: FnOnce()> BlockingTask<F> {
    /// A unit of work that has not run yet.
    pub fn new(work: F) -> (task: Self)
        ensures
            task.task == Some(work),
    {
        BlockingTask { task: Some(work) }
    }

    /// Runs the work.
    pub fn run(self)
        requires
            self.task is Some,
            call_requires(self.task->0, ()),
        ensures
            call_ensures(self.task->0, (), ()),
    {
        let mut this = self;
        match this.task.take() {
            Some(work) => work(),
            None => vstd::pervasive::unreached(),
        }
    }
}

/// What to do with blocking work when no thread pool is attached.
#[derive(Clone, Copy, Debug, PartialEq, Eq, Structural)]
pub enum BlockingStrategy {
    /// Refuse the work with a panic.
    Panic,
    /// Run the work on the thread that asked for it.
    ExecuteLocal,
}

/// Where blocking work goes: to an attached pool, or by a strategy.
pub enum BlockingHandle<P> {
    /// To this pool.
    Attached(P),
    /// No pool is attached.
    Empty(BlockingStrategy),
}

impl<P> From<BlockingStrategy> for BlockingHandle<P> {
    fn from(value: BlockingStrategy) -> (handle: Self) {
        BlockingHandle::Empty(value)
    }
}

impl<P> vstd::std_specs::convert::FromSpecImpl<BlockingStrategy> for BlockingHandle<P> {
    open spec fn obeys_from_spec() -> bool {
        true
    }

    open spec fn from_spec(value: BlockingStrategy) -> Self {
        BlockingHandle::Empty(value)
    }
}

/// Blocking work as the result that a join waits for.
pub struct BlockingFuture<F>(pub Option<F>);

impl<F> BlockingFuture<F> {
    /// Runs the work and returns its result. The work must not have run
    /// before.
    pub fn poll<R>(&mut self) -> (result: Result<R, JoinError>) where F: FnOnce() -> R
        requires
            old(self).0 is Some,
            call_requires(old(self).0->0, ()),
        ensures
            final(self).0 is None,
            result matches Ok(value) && call_ensures(old(self).0->0, (), value),
    {
        match self.0.take() {
            Some(work) => Ok(work()),
            None => vstd::pervasive::unreached(),
        }
    }
}

} // verus!
