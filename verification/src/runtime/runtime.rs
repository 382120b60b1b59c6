//! The loop of the runtime.
//!
//! The loop runs the queued tasks, polls the main future while it is woken,
//! and then either waits for I/O, if no task is ready, or flushes the
//! submissions and goes on. It ends when the main future is ready.
//!
//! Running a task, polling a future and waiting on the driver are the work of
//! the embedding program. [`Runtime::block_on`] decides what is done next: it
//! takes what just happened and returns the next thing to do.

use crate::runtime::scheduler::TaskQueue;
use vstd::prelude::*;

verus! {

/// What belongs to the thread of a runtime: its run queue and the identity of
/// the thread.
pub struct Context<T> {
    /// The tasks that are ready to run.
    pub tasks: TaskQueue<T>,
    /// The thread that the runtime was built on.
    pub thread_id: usize,
}

impl<T> Context<T> {
    /// The context of the thread with the given identity, with nothing to
    /// run.
    pub fn new(thread_id: usize) -> (context: Self)
        ensures
            context.thread_id == thread_id,
            context.tasks@ == Seq::<T>::empty(),
    {
        Context { thread_id, tasks: TaskQueue::new() }
    }
}

/// Makes a new task ready to run, behind the tasks that are ready already.
pub fn spawn<T>(context: &mut Context<T>, task: T)
    ensures
        final(context).tasks@ == old(context).tasks@.push(task),
        final(context).thread_id == old(context).thread_id,
{
    context.tasks.push(task);
}

/// Where the loop stands: what it waits to hear of.
#[derive(Clone, Copy, Debug, PartialEq, Eq, Structural)]
pub enum Phase {
    /// The loop does not run.
    Stopped,
    /// A task runs. `left` is how many more tasks this pass may take before
    /// it gives way; `last` says that the main future is ready and this is
    /// the pass before the end.
    Running { left: usize, last: bool },
    /// The main future is polled, if it was woken.
    Polling,
    /// The submissions are flushed.
    Flushing,
    /// The thread waits for I/O.
    Parking,
}

/// What has happened since the last step.
#[derive(Clone, Copy, Debug, PartialEq, Eq, Structural)]
pub enum Event {
    /// The loop is entered.
    Started,
    /// The task that was handed out has run.
    TaskRan,
    /// The main future had not been woken and was not polled.
    MainNotWoken,
    /// The main future was polled and is not ready.
    MainPending,
    /// The main future was polled and is ready.
    MainReady,
    /// The submissions were flushed.
    Submitted,
    /// The wait for I/O is over.
    Parked,
}

/// What is to be done next.
pub enum Step<T> {
    /// Run the task.
    Run(T),
    /// Poll the main future if it was woken.
    PollMain,
    /// Flush the submissions without waiting, and process what has
    /// completed.
    Submit,
    /// Wait for I/O, and process what has completed.
    Park,
    /// Return the result of the main future.
    Finish,
}

/// The runtime of one thread.
pub struct Runtime<T, D> {
    /// The run queue.
    pub context: Context<T>,
    /// The I/O driver.
    pub driver: D,
    /// How many tasks a pass may take for each task that is queued when it
    /// starts. This bounds a pass, so that tasks that wake each other without
    /// end cannot keep the loop from I/O.
    pub rounds: usize,
    /// Where the loop stands.
    pub phase: Phase,
}

/// The tasks that one pass may take after its first when `queued` tasks are
/// ready at its start.
pub open spec fn pass_budget(queued: nat, rounds: usize) -> usize {
    if queued * rounds <= usize::MAX {
        (queued * rounds) as usize
    } else {
        usize::MAX
    }
}

impl Phase {
    /// Whether the event is the one that the loop waits for.
    pub open spec fn spec_expects(self, event: Event) -> bool {
        match self {
            Phase::Stopped => event is Started,
            Phase::Running { .. } => event is TaskRan,
            Phase::Polling => event is MainNotWoken || event is MainPending || event is MainReady,
            Phase::Flushing => event is Submitted,
            Phase::Parking => event is Parked,
        }
    }

    /// Whether the event is the one that the loop waits for.
    #[verifier::when_used_as_spec(spec_expects)]
    pub fn expects(self, event: Event) -> (expected: bool)
        ensures
            expected == self.spec_expects(event),
    {
        match self {
            Phase::Stopped => matches!(event, Event::Started),
            Phase::Running { .. } => matches!(event, Event::TaskRan),
            Phase::Polling => matches!(
                event,
                Event::MainNotWoken | Event::MainPending | Event::MainReady
            ),
            Phase::Flushing => matches!(event, Event::Submitted),
            Phase::Parking => matches!(event, Event::Parked),
        }
    }
}

/// The next task of a pass, or the end of the pass: a pass with tasks left to
/// take takes the task that has waited longest; a pass that finds the queue
/// empty ends with a poll of the main future, or with the end of the loop if
/// it is the last.
pub open spec fn pass_step<T>(queue: Seq<T>, left: usize, last: bool) -> (Phase, Seq<T>, Step<T>) {
    if queue.len() > 0 {
        (Phase::Running { left, last }, queue.skip(1), Step::Run(queue[0]))
    } else {
        pass_end(queue, last)
    }
}

/// The end of a pass.
pub open spec fn pass_end<T>(queue: Seq<T>, last: bool) -> (Phase, Seq<T>, Step<T>) {
    if last {
        (Phase::Stopped, queue, Step::Finish)
    } else {
        (Phase::Polling, queue, Step::PollMain)
    }
}

/// The loop as a function: from where it stands, what is queued and what
/// happened, to where it stands then, what is queued then, and what to do.
pub open spec fn advanced<T>(phase: Phase, queue: Seq<T>, rounds: usize, event: Event) -> (
    Phase,
    Seq<T>,
    Step<T>,
) {
    match phase {
        Phase::Running { left, last } => if left == 0 {
            pass_end(queue, last)
        } else {
            pass_step(queue, (left - 1) as usize, last)
        },
        Phase::Polling => match event {
            Event::MainPending => (Phase::Polling, queue, Step::PollMain),
            Event::MainReady => pass_step(queue, pass_budget(queue.len(), rounds), true),
            _ => if queue.len() == 0 {
                (Phase::Parking, queue, Step::Park)
            } else {
                (Phase::Flushing, queue, Step::Submit)
            },
        },
        _ => pass_step(queue, pass_budget(queue.len(), rounds), false),
    }
}

impl<T, D> Runtime<T, D> {
    /// A runtime over the given context and driver, whose passes take two
    /// tasks for each task that is queued at their start.
    pub fn new(context: Context<T>, driver: D) -> (runtime: Self)
        ensures
            runtime.context == context,
            runtime.driver == driver,
            runtime.rounds == 2,
            runtime.phase == Phase::Stopped,
    {
        Runtime { context, driver, rounds: 2, phase: Phase::Stopped }
    }

    /// Starts a pass over the run queue, or ends it at once if nothing is
    /// queued.
    fn start_pass(&mut self, last: bool) -> (step: Step<T>)
        ensures
            (final(self).phase, final(self).context.tasks@, step) == pass_step(
                old(self).context.tasks@,
                pass_budget(old(self).context.tasks@.len(), old(self).rounds),
                last,
            ),
            final(self).context.thread_id == old(self).context.thread_id,
            final(self).driver == old(self).driver,
            final(self).rounds == old(self).rounds,
    {
        let left = match self.context.tasks.len().checked_mul(self.rounds) {
            Some(left) => left,
            None => usize::MAX,
        };
        self.next_in_pass(left, last)
    }

    /// Takes the next task of a pass, or ends the pass.
    fn next_in_pass(&mut self, left: usize, last: bool) -> (step: Step<T>)
        ensures
            (final(self).phase, final(self).context.tasks@, step) == pass_step(
                old(self).context.tasks@,
                left,
                last,
            ),
            final(self).context.thread_id == old(self).context.thread_id,
            final(self).driver == old(self).driver,
            final(self).rounds == old(self).rounds,
    {
        match self.context.tasks.pop() {
            Some(task) => {
                self.phase = Phase::Running { left, last };
                Step::Run(task)
            },
            None => self.end_pass(last),
        }
    }

    /// Ends a pass: the main future is next, or the end of the loop.
    fn end_pass(&mut self, last: bool) -> (step: Step<T>)
        ensures
            (final(self).phase, final(self).context.tasks@, step) == pass_end(
                old(self).context.tasks@,
                last,
            ),
            final(self).context.thread_id == old(self).context.thread_id,
            final(self).driver == old(self).driver,
            final(self).rounds == old(self).rounds,
    {
        if last {
            self.phase = Phase::Stopped;
            Step::Finish
        } else {
            self.phase = Phase::Polling;
            Step::PollMain
        }
    }

    /// Takes what has happened and decides what is done next.
    ///
    /// A pass runs the queued tasks in their order, at most one more than the
    /// budget of the pass. After a pass the main future is polled as long as
    /// it is woken. When it is ready, one last pass runs and the loop ends.
    /// When it is not woken, the thread waits for I/O if no task is queued;
    /// if tasks are queued, the submissions are flushed without waiting. A new
    /// pass follows either.
    pub fn block_on(&mut self, event: Event) -> (step: Step<T>)
        requires
            old(self).phase.expects(event),
        ensures
            (final(self).phase, final(self).context.tasks@, step) == advanced(
                old(self).phase,
                old(self).context.tasks@,
                old(self).rounds,
                event,
            ),
            final(self).context.thread_id == old(self).context.thread_id,
            final(self).driver == old(self).driver,
            final(self).rounds == old(self).rounds,
    {
        match self.phase {
            Phase::Running { left, last } => {
                if left == 0 {
                    self.end_pass(last)
                } else {
                    self.next_in_pass(left - 1, last)
                }
            },
            Phase::Polling => match event {
                Event::MainPending => Step::PollMain,
                Event::MainReady => self.start_pass(true),
                _ => {
                    if self.context.tasks.is_empty() {
                        self.phase = Phase::Parking;
                        Step::Park
                    } else {
                        self.phase = Phase::Flushing;
                        Step::Submit
                    }
                },
            },
            _ => self.start_pass(false),
        }
    }
}

/// Where a pass stands after `taken` more of its tasks have run, if no task
/// is queued in the meantime.
pub open spec fn pass_after<T>(
    at: (Phase, Seq<T>, Step<T>),
    rounds: usize,
    taken: nat,
) -> (Phase, Seq<T>, Step<T>)
    decreases taken,
{
    if taken == 0 {
        at
    } else {
        let before = pass_after(at, rounds, (taken - 1) as nat);
        advanced(before.0, before.1, rounds, Event::TaskRan)
    }
}

/// A pass runs every task that is queued when it starts, in the order of the
/// queue, and then ends, provided that it may take at least one task for
/// each queued task and that no task is queued while it runs.
pub proof fn pass_takes_every_queued_task<T>(queue: Seq<T>, rounds: usize, last: bool, taken: nat)
    requires
        rounds >= 1,
        queue.len() <= usize::MAX,
        taken <= queue.len(),
    ensures
        ({
            let budget = pass_budget(queue.len(), rounds);
            let at = pass_after(pass_step(queue, budget, last), rounds, taken);
            if taken < queue.len() {
                at == (
                    Phase::Running { left: (budget - taken) as usize, last },
                    queue.skip(taken as int + 1),
                    Step::Run(queue[taken as int]),
                )
            } else {
                at == pass_end(Seq::<T>::empty(), last)
            }
        }),
    decreases taken,
{
    let budget = pass_budget(queue.len(), rounds);
    assert(queue.len() * rounds >= queue.len()) by (nonlinear_arith)
        requires
            rounds >= 1,
    ;
    assert(budget >= queue.len());
    if taken == 0 {
        if queue.len() == 0 {
            assert(queue =~= Seq::<T>::empty());
        } else {
        }
    } else {
        pass_takes_every_queued_task(queue, rounds, last, (taken - 1) as nat);
        let before = pass_after(pass_step(queue, budget, last), rounds, (taken - 1) as nat);
        let rest = queue.skip(taken as int);
        assert(before.1 == rest);
        if taken < queue.len() {
            assert(rest[0] == queue[taken as int]);
            assert(rest.skip(1) =~= queue.skip(taken as int + 1));
        } else {
            assert(rest =~= Seq::<T>::empty());
        }
    }
}

/// A pass ends after one task more than its budget, whatever is queued by
/// then: tasks that keep queueing each other cannot keep the loop from the
/// main future and from I/O.
pub proof fn pass_is_bounded<T>(queue: Seq<T>, rounds: usize, last: bool)
    ensures
        advanced(Phase::Running { left: 0, last }, queue, rounds, Event::TaskRan) == pass_end(
            queue,
            last,
        ),
        forall|left: usize| #![auto]
            left > 0 && queue.len() > 0 ==> advanced(
                Phase::Running { left, last },
                queue,
                rounds,
                Event::TaskRan,
            ).0 == (Phase::Running { left: (left - 1) as usize, last }),
{
}

/// The thread waits for I/O only when the main future was not woken and no
/// task is queued; with a task queued, the submissions are flushed without
/// waiting. The loop ends only after the main future was ready.
pub proof fn waits_only_when_idle<T>(phase: Phase, queue: Seq<T>, rounds: usize, event: Event)
    requires
        phase.expects(event),
    ensures
        advanced(phase, queue, rounds, event).2 is Park <==> phase is Polling
            && event is MainNotWoken && queue.len() == 0,
        advanced(phase, queue, rounds, event).2 is Submit <==> phase is Polling
            && event is MainNotWoken && queue.len() > 0,
        advanced(phase, queue, rounds, event).2 is Finish ==> (phase matches Phase::Running {
            last,
            ..
        } && last) || (phase is Polling && event is MainReady && queue.len() == 0),
{
}

} // verus!
