//! The run queue.

use crate::task::state::TransitionToIdle;
use crate::task::state::TransitionToNotified;
use std::collections::VecDeque;
use vstd::prelude::*;

verus! {

/// The tasks that are ready to run, in the order in which they became ready.
/// The queue belongs to one thread and has no limit.
pub struct TaskQueue<T> {
    queue: VecDeque<T>,
}

impl<T> View for TaskQueue<T> {
    type V = Seq<T>;

    /// The queued tasks, the next to run first.
    closed spec fn view(&self) -> Seq<T> {
        self.queue@
    }
}

impl<T> TaskQueue<T> {
    /// An empty queue.
    pub fn new() -> (queue: Self)
        ensures
            queue@ == Seq::<T>::empty(),
    {
        TaskQueue { queue: VecDeque::new() }
    }

    /// The number of queued tasks.
    pub fn len(&self) -> (len: usize)
        ensures
            len == self@.len(),
    {
        self.queue.len()
    }

    /// Whether no task is queued.
    pub fn is_empty(&self) -> (empty: bool)
        ensures
            empty == (self@.len() == 0),
    {
        self.queue.len() == 0
    }

    /// Queues a task behind all others.
    pub fn push(&mut self, task: T)
        ensures
            final(self)@ == old(self)@.push(task),
    {
        self.queue.push_back(task);
    }

    /// Takes the task that has waited longest.
    pub fn pop(&mut self) -> (task: Option<T>)
        ensures
            match task {
                Some(first) => old(self)@.len() > 0 && first == old(self)@[0] && final(self)@
                    == old(self)@.skip(1),
                None => old(self)@.len() == 0 && final(self)@ == old(self)@,
            },
    {
        self.queue.pop_front()
    }

    /// Queues a task that was woken, if the wake asks for it.
    ///
    /// `action` is what `State::transition_to_notified` returned for the
    /// task: on `Submit` the task is queued, else it is handed back, since it
    /// is queued already, runs, or is complete.
    pub fn schedule(&mut self, action: TransitionToNotified, task: T) -> (rest: Option<T>)
        ensures
            match action {
                TransitionToNotified::Submit => final(self)@ == old(self)@.push(task) && rest is None,
                TransitionToNotified::DoNothing => final(self)@ == old(self)@ && rest == Some(task),
            },
    {
        match action {
            TransitionToNotified::Submit => {
                self.push(task);
                None
            },
            TransitionToNotified::DoNothing => Some(task),
        }
    }

    /// Queues a task again whose poll ended unfinished, if it was woken in
    /// the meantime.
    ///
    /// `outcome` is what `State::transition_to_idle` returned for the task:
    /// on `OkNotified` the task is queued, since the wake that arrived during
    /// the poll queued nothing; else it is handed back.
    pub fn yield_now(&mut self, outcome: TransitionToIdle, task: T) -> (rest: Option<T>)
        ensures
            match outcome {
                TransitionToIdle::OkNotified => final(self)@ == old(self)@.push(task) && rest is None,
                TransitionToIdle::OkIdle => final(self)@ == old(self)@ && rest == Some(task),
            },
    {
        match outcome {
            TransitionToIdle::OkNotified => {
                self.push(task);
                None
            },
            TransitionToIdle::OkIdle => Some(task),
        }
    }
}

} // verus!
