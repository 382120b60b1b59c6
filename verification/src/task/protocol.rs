//! What the state word guarantees to the scheduler and to the owners of a
//! task, stated over the meaning of the word and proved for every
//! interleaving.
//!
//! The operations of [`State`](super::state::State) are atomic, so whatever
//! several contexts do to one task happens in some order. The first model
//! follows one task through such an order of events and counts its entries in
//! the run queue. The second follows the references to a task.

use super::state::SnapshotView;
use super::state::TransitionToIdle;
use super::state::TransitionToNotified;
use vstd::prelude::*;

verus! {

/// Something that happens to a task.
pub enum TaskEvent {
    /// Some context wakes the task.
    Wake,
    /// The scheduler pops the task from the run queue and starts to poll it.
    Run,
    /// The poll ends and the task is not finished.
    Yield,
    /// The poll ends and the task is finished.
    Finish,
}

/// A task together with the number of its entries in the run queue.
pub struct Scheduled {
    pub state: SnapshotView,
    pub queued: nat,
}

impl Scheduled {
    /// The task is in the run queue exactly while it is idle and notified,
    /// and then once.
    pub open spec fn consistent(self) -> bool {
        &&& !(self.state.running && self.state.complete)
        &&& self.queued == if self.state.is_idle() && self.state.notified {
            1nat
        } else {
            0nat
        }
    }

    /// Whether the event can happen now: a task is popped only if it is in
    /// the queue, and a poll ends only while the task runs.
    pub open spec fn admits(self, event: TaskEvent) -> bool {
        match event {
            TaskEvent::Wake => true,
            TaskEvent::Run => self.queued >= 1 && self.state.is_idle(),
            TaskEvent::Yield => self.state.running && !self.state.complete,
            TaskEvent::Finish => self.state.running && !self.state.complete,
        }
    }

    /// How often the event pushes the task to the run queue: once where a
    /// wake returns `Submit`, and once where the end of a poll returns
    /// `OkNotified`.
    pub open spec fn pushes(self, event: TaskEvent) -> nat {
        match event {
            TaskEvent::Wake => if self.state.notify_action() == TransitionToNotified::Submit {
                1
            } else {
                0
            },
            TaskEvent::Yield => if self.state.idle_outcome() == TransitionToIdle::OkNotified {
                1
            } else {
                0
            },
            TaskEvent::Run => 0,
            TaskEvent::Finish => 0,
        }
    }

    /// The task after the event.
    pub open spec fn step(self, event: TaskEvent) -> Scheduled {
        match event {
            TaskEvent::Wake => Scheduled {
                state: self.state.to_notified(),
                queued: self.queued + self.pushes(event),
            },
            TaskEvent::Run => Scheduled {
                state: self.state.to_running(),
                queued: (self.queued - 1) as nat,
            },
            TaskEvent::Yield => Scheduled {
                state: self.state.to_idle(),
                queued: self.queued + self.pushes(event),
            },
            TaskEvent::Finish => Scheduled { state: self.state.to_complete(), queued: self.queued },
        }
    }

    /// Whether the events can happen in this order.
    pub open spec fn admits_all(self, events: Seq<TaskEvent>) -> bool
        decreases events.len(),
    {
        if events.len() == 0 {
            true
        } else {
            self.admits(events[0]) && self.step(events[0]).admits_all(events.skip(1))
        }
    }

    /// The task after the events.
    pub open spec fn run(self, events: Seq<TaskEvent>) -> Scheduled
        decreases events.len(),
    {
        if events.len() == 0 {
            self
        } else {
            self.step(events[0]).run(events.skip(1))
        }
    }

    /// How often the events push the task to the run queue.
    pub open spec fn pushes_during(self, events: Seq<TaskEvent>) -> nat
        decreases events.len(),
    {
        if events.len() == 0 {
            0
        } else {
            self.pushes(events[0]) + self.step(events[0]).pushes_during(events.skip(1))
        }
    }
}

/// `n` wakes in a row.
pub open spec fn wakes(n: nat) -> Seq<TaskEvent> {
    Seq::new(n, |i: int| TaskEvent::Wake)
}

/// One poll that does not finish the task, with `n` wakes arriving while it
/// runs.
pub open spec fn poll_with_wakes(n: nat) -> Seq<TaskEvent> {
    seq![TaskEvent::Run] + wakes(n) + seq![TaskEvent::Yield]
}

/// A wake asks for a push exactly if it finds the task idle and not yet
/// notified; a wake that finds the task running, notified or complete asks
/// for none.
pub proof fn wake_submits_iff_idle_and_unnotified(state: SnapshotView)
    ensures
        state.notify_action() == TransitionToNotified::Submit <==> state.is_idle()
            && !state.notified,
        state.to_notified().notify_action() == TransitionToNotified::DoNothing,
        !state.complete ==> state.to_notified().notified,
{
}

/// A wake that arrives during a poll is not lost: the end of that poll
/// reports it, and the start of a poll forgets the wake that caused it.
pub proof fn wake_during_poll_is_reported(state: SnapshotView)
    requires
        state.running,
    ensures
        state.to_notified().idle_outcome() == TransitionToIdle::OkNotified,
        state.to_running().idle_outcome() == TransitionToIdle::OkIdle,
{
}

/// No event breaks the rule that the task is queued exactly while it is idle
/// and notified.
pub proof fn step_keeps_consistent(task: Scheduled, event: TaskEvent)
    requires
        task.consistent(),
        task.admits(event),
    ensures
        task.step(event).consistent(),
{
}

/// Whatever happens to a task and in whatever order, it never has two
/// entries in the run queue, and it has one whenever it is idle and notified.
pub proof fn run_keeps_consistent(task: Scheduled, events: Seq<TaskEvent>)
    requires
        task.consistent(),
        task.admits_all(events),
    ensures
        task.run(events).consistent(),
        task.run(events).queued <= 1,
    decreases events.len(),
{
    if events.len() > 0 {
        step_keeps_consistent(task, events[0]);
        run_keeps_consistent(task.step(events[0]), events.skip(1));
    }
}

/// Once a task is complete it stays complete, is never queued again, and no
/// wake changes its state.
pub proof fn complete_is_final(task: Scheduled, events: Seq<TaskEvent>)
    requires
        task.consistent(),
        task.state.complete,
        task.admits_all(events),
    ensures
        task.run(events).state == task.state,
        task.run(events).queued == 0,
        task.pushes_during(events) == 0,
    decreases events.len(),
{
    if events.len() > 0 {
        complete_is_final(task.step(events[0]), events.skip(1));
    }
}

/// Any number of wakes that arrive while the task is idle push it once.
pub proof fn wakes_while_idle_push_once(task: Scheduled, n: nat)
    requires
        task.consistent(),
        task.state.is_idle(),
        !task.state.notified,
    ensures
        task.admits_all(wakes(n)),
        task.pushes_during(wakes(n)) == if n > 0 {
            1nat
        } else {
            0nat
        },
        task.run(wakes(n)).queued == task.pushes_during(wakes(n)),
    decreases n,
{
    if n > 0 {
        assert(wakes(n).skip(1) =~= wakes((n - 1) as nat));
        let next = task.step(TaskEvent::Wake);
        wakes_when_notified_push_nothing(next, (n - 1) as nat);
    }
}

/// Wakes that arrive while the task is notified, running or complete push
/// nothing.
pub proof fn wakes_when_notified_push_nothing(task: Scheduled, n: nat)
    requires
        task.state.notified || task.state.running || task.state.complete,
    ensures
        task.admits_all(wakes(n)),
        task.pushes_during(wakes(n)) == 0,
        task.run(wakes(n)).queued == task.queued,
        task.run(wakes(n)).state == if n > 0 {
            task.state.to_notified()
        } else {
            task.state
        },
    decreases n,
{
    if n > 0 {
        assert(wakes(n).skip(1) =~= wakes((n - 1) as nat));
        let next = task.step(TaskEvent::Wake);
        wakes_when_notified_push_nothing(next, (n - 1) as nat);
    }
}

/// The events of a run happen one after the other: a run of two parts is the
/// run of the first followed by the run of the second.
pub proof fn run_in_parts(task: Scheduled, first: Seq<TaskEvent>, second: Seq<TaskEvent>)
    ensures
        task.run(first + second) == task.run(first).run(second),
        task.pushes_during(first + second) == task.pushes_during(first) + task.run(
            first,
        ).pushes_during(second),
        task.admits_all(first + second) <==> task.admits_all(first) && task.run(first).admits_all(
            second,
        ),
    decreases first.len(),
{
    if first.len() == 0 {
        assert(first + second =~= second);
    } else {
        assert((first + second).skip(1) =~= first.skip(1) + second);
        run_in_parts(task.step(first[0]), first.skip(1), second);
    }
}

/// A run of one event is that event.
pub proof fn single_event(task: Scheduled, event: TaskEvent)
    ensures
        task.run(seq![event]) == task.step(event),
        task.pushes_during(seq![event]) == task.pushes(event),
        task.admits_all(seq![event]) <==> task.admits(event),
{
    let events = seq![event];
    assert(events.skip(1) =~= Seq::<TaskEvent>::empty());
    assert(events[0] == event);
    let next = task.step(event);
    assert(next.run(events.skip(1)) == next);
    assert(next.pushes_during(events.skip(1)) == 0);
    assert(next.admits_all(events.skip(1)));
}

/// One run cycle of a queued task: however many wakes arrive while the task
/// is polled, the task is pushed once if any arrived and not at all if none
/// did, and afterwards it is queued exactly that often.
pub proof fn wakes_during_poll_push_once(task: Scheduled, n: nat)
    requires
        task.consistent(),
        task.state.is_idle(),
        task.state.notified,
    ensures
        task.admits_all(poll_with_wakes(n)),
        task.pushes_during(poll_with_wakes(n)) == if n > 0 {
            1nat
        } else {
            0nat
        },
        task.run(poll_with_wakes(n)).queued == task.pushes_during(poll_with_wakes(n)),
        task.run(poll_with_wakes(n)).state.is_idle(),
{
    let start = seq![TaskEvent::Run];
    let end = seq![TaskEvent::Yield];
    let running = task.step(TaskEvent::Run);
    single_event(task, TaskEvent::Run);
    wakes_when_notified_push_nothing(running, n);
    let woken = running.run(wakes(n));
    single_event(woken, TaskEvent::Yield);
    run_in_parts(task, start, wakes(n));
    run_in_parts(task, start + wakes(n), end);
}

/// The owners of a task: each holds one reference.
pub struct Owned {
    pub state: SnapshotView,
    pub holders: nat,
}

impl Owned {
    /// The count in the state word is the number of owners.
    pub open spec fn consistent(self) -> bool {
        self.state.ref_count == self.holders
    }

    /// The task after one more owner has taken a reference.
    pub open spec fn acquire(self) -> Owned {
        Owned { state: self.state.ref_inc(), holders: self.holders + 1 }
    }

    /// The task after one owner has given up its reference.
    pub open spec fn release(self) -> Owned {
        Owned { state: self.state.ref_dec(), holders: (self.holders - 1) as nat }
    }

    /// The task after its join handle is dropped: in one step where nothing
    /// has happened since the spawn, else by clearing the join interest,
    /// unless the task is complete, and giving up the reference.
    pub open spec fn drop_join_handle(self) -> Owned {
        match self.state.join_handle_dropped_fast() {
            Some(state) => Owned { state, holders: (self.holders - 1) as nat },
            None => match self.state.join_interest_unset() {
                Some(state) => (Owned { state, ..self }).release(),
                None => self.release(),
            },
        }
    }

    /// Whether dropping the join handle releases the task.
    pub open spec fn drop_join_handle_releases(self) -> bool {
        match self.state.join_handle_dropped_fast() {
            Some(_) => false,
            None => self.state.ref_dec_releases(),
        }
    }
}

/// Giving up a reference reports a release exactly if no owner is left, so
/// the count is not zero while anyone holds a reference.
pub proof fn release_reports_last_owner(task: Owned)
    requires
        task.consistent(),
        task.holders >= 1,
    ensures
        task.release().consistent(),
        task.state.ref_dec_releases() <==> task.release().holders == 0,
        task.release().holders >= 1 ==> task.release().state.ref_count >= 1,
        task.acquire().consistent(),
        task.acquire().state.ref_count >= 2,
{
}

/// A task starts with two owners, the scheduler and the join handle.
/// Whichever of the two gives up its reference first, the first does not
/// release the task and the second does.
pub proof fn dropping_both_owners_releases_once(task: Owned)
    requires
        task.consistent(),
        task.holders == 2,
    ensures
        !task.drop_join_handle_releases(),
        task.drop_join_handle().consistent(),
        task.drop_join_handle().holders == 1,
        task.drop_join_handle().state.ref_dec_releases(),
        task.drop_join_handle().release().state.ref_count == 0,
        !task.state.ref_dec_releases(),
        task.release().consistent(),
        task.release().holders == 1,
        task.release().drop_join_handle_releases(),
        task.release().drop_join_handle().state.ref_count == 0,
{
}

/// The state a task is spawned with has two owners, and its join handle can
/// be dropped in one step.
pub proof fn spawned_task_has_two_owners()
    ensures
        (Owned { state: SnapshotView::initial(), holders: 2 }).consistent(),
        SnapshotView::initial().join_handle_dropped_fast() is Some,
        (Scheduled { state: SnapshotView::initial(), queued: 1 }).consistent(),
{
}

} // verus!
