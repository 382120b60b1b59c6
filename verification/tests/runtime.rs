use std::cell::Cell;
use std::cell::RefCell;
use std::rc::Rc;
use uring_runtime::add;
use uring_runtime::driver::op::Op;
use uring_runtime::driver::op::OpAble;
use uring_runtime::driver::op::Poll;
use uring_runtime::driver::slot_user_data;
use uring_runtime::driver::uring::lifecycle::Finished;
use uring_runtime::driver::CompletionEvent;
use uring_runtime::driver::UringInner;
use uring_runtime::runtime::builder::RuntimeBuilder;
use uring_runtime::runtime::builder::DEFAULT_ENTRIES;
use uring_runtime::runtime::builder::MIN_ENTRIES;
use uring_runtime::runtime::runtime::spawn;
use uring_runtime::runtime::runtime::Context;
use uring_runtime::runtime::runtime::Event;
use uring_runtime::runtime::runtime::Phase;
use uring_runtime::runtime::runtime::Runtime;
use uring_runtime::runtime::runtime::Step;
use uring_runtime::runtime::scheduler::TaskQueue;
use uring_runtime::task::state::State;
use uring_runtime::task::state::TransitionToIdle;
use uring_runtime::task::state::TransitionToNotified;

/// The driver of the tests: wakers are numbers, and no data is parked.
type Inner = UringInner<usize, ()>;

/// A task of the tests: a piece of work that may queue further work and poll
/// operations.
struct Job(Box<dyn FnOnce(&mut Context<Job>, &mut Inner)>);

fn job(work: impl FnOnce(&mut Context<Job>) + 'static) -> Job {
    Job(Box::new(move |context, _| work(context)))
}

fn runtime() -> Runtime<Job, Inner> {
    Runtime::new(Context::new(1), Inner::new(false))
}

/// What a run of the loop did.
#[derive(Default)]
struct Trace {
    runs: usize,
    polls: usize,
    submits: usize,
    parks: usize,
}

/// Runs the loop to its end. `main` is the poll of the main future, `woken`
/// the flag that its waker sets, and `park` what a wait for I/O does.
fn run_loop<R>(
    rt: &mut Runtime<Job, Inner>,
    woken: &Cell<bool>,
    mut main: impl FnMut(&mut Context<Job>) -> Option<R>,
    mut park: impl FnMut(&mut Runtime<Job, Inner>),
) -> (R, Trace) {
    let mut trace = Trace::default();
    let mut result = None;
    assert!(rt.phase.expects(Event::Started));
    let mut step = rt.block_on(Event::Started);
    loop {
        let event = match step {
            Step::Run(task) => {
                trace.runs += 1;
                (task.0)(&mut rt.context, &mut rt.driver);
                Event::TaskRan
            }
            Step::PollMain => {
                if woken.replace(false) {
                    trace.polls += 1;
                    match main(&mut rt.context) {
                        Some(value) => {
                            result = Some(value);
                            Event::MainReady
                        }
                        None => Event::MainPending,
                    }
                } else {
                    Event::MainNotWoken
                }
            }
            Step::Submit => {
                trace.submits += 1;
                Event::Submitted
            }
            Step::Park => {
                trace.parks += 1;
                assert!(rt.context.tasks.is_empty());
                park(rt);
                Event::Parked
            }
            Step::Finish => return (result.unwrap(), trace),
        };
        assert!(rt.phase.expects(event));
        step = rt.block_on(event);
    }
}

#[test]
fn it_works() {
    let builder = RuntimeBuilder::<()>::new();
    assert_eq!(builder.entries(), 1024);
    let mut rt = runtime();
    let lines = Rc::new(RefCell::new(Vec::new()));
    let woken = Cell::new(true);
    let out = lines.clone();
    let ((), trace) = run_loop(
        &mut rt,
        &woken,
        |context| {
            let spawned = out.clone();
            spawn(
                context,
                job(move |_| {
                    println!("it works 0");
                    spawned.borrow_mut().push("it works 0");
                }),
            );
            println!("it works1!");
            out.borrow_mut().push("it works1!");
            Some(())
        },
        |_| panic!("nothing to wait for"),
    );
    assert_eq!(*lines.borrow(), vec!["it works1!", "it works 0"]);
    assert_eq!(trace.runs, 1);
    assert_eq!(trace.polls, 1);
    assert_eq!(trace.parks, 0);
    assert_eq!(rt.phase, Phase::Stopped);
}

#[test]
fn add_adds() {
    assert_eq!(add(2, 2), 4);
    assert_eq!(add(0, u64::MAX), u64::MAX);
}

#[test]
fn a_thousand_tasks_are_drained_without_a_park() {
    let mut rt = runtime();
    let done = Rc::new(Cell::new(0usize));
    let woken = Cell::new(true);
    let counter = done.clone();
    let (result, trace) = run_loop(
        &mut rt,
        &woken,
        |context| {
            for _ in 0..1000 {
                let counter = counter.clone();
                spawn(context, job(move |_| counter.set(counter.get() + 1)));
            }
            Some(42)
        },
        |_| panic!("nothing to wait for"),
    );
    assert_eq!(result, 42);
    assert_eq!(done.get(), 1000);
    assert_eq!(trace.runs, 1000);
    assert_eq!(trace.polls, 1);
    assert_eq!(trace.submits, 0);
    assert_eq!(trace.parks, 0);
    assert!(rt.context.tasks.is_empty());
}

#[test]
fn tasks_spawned_before_the_loop_run_in_their_order() {
    let mut rt = runtime();
    let order = Rc::new(RefCell::new(Vec::new()));
    for id in 0..5 {
        let order = order.clone();
        spawn(&mut rt.context, job(move |_| order.borrow_mut().push(id)));
    }
    assert_eq!(rt.context.tasks.len(), 5);
    let woken = Cell::new(true);
    let (result, trace) = run_loop(&mut rt, &woken, |_| Some("done"), |_| panic!("no wait"));
    assert_eq!(result, "done");
    assert_eq!(*order.borrow(), vec![0, 1, 2, 3, 4]);
    assert_eq!(trace.runs, 5);
    assert_eq!(trace.parks, 0);
}

/// A task that queues itself again each time it runs, until the main future
/// is ready.
fn looping(stop: Rc<Cell<bool>>, runs: Rc<Cell<usize>>) -> Job {
    job(move |context| {
        runs.set(runs.get() + 1);
        if !stop.get() {
            spawn(context, looping(stop.clone(), runs.clone()));
        }
    })
}

#[test]
fn a_task_that_requeues_itself_cannot_hold_the_loop() {
    let mut rt = runtime();
    let stop = Rc::new(Cell::new(false));
    let runs = Rc::new(Cell::new(0usize));
    spawn(&mut rt.context, looping(stop.clone(), runs.clone()));
    let woken = Cell::new(false);
    let polls = Cell::new(0);
    let mut seen_at_submit = Vec::new();

    let mut step = rt.block_on(Event::Started);
    let result = loop {
        let event = match step {
            Step::Run(task) => {
                (task.0)(&mut rt.context, &mut rt.driver);
                Event::TaskRan
            }
            Step::PollMain => {
                if woken.replace(false) {
                    polls.set(polls.get() + 1);
                    stop.set(true);
                    Event::MainReady
                } else {
                    Event::MainNotWoken
                }
            }
            Step::Submit => {
                seen_at_submit.push(runs.get());
                if seen_at_submit.len() == 2 {
                    woken.set(true);
                }
                Event::Submitted
            }
            Step::Park => panic!("a task is queued"),
            Step::Finish => break runs.get(),
        };
        step = rt.block_on(event);
    };
    // Each pass starts with one task queued and so takes three.
    assert_eq!(seen_at_submit, vec![3, 6]);
    assert_eq!(polls.get(), 1);
    // The third pass takes three, the last pass takes the task that is left.
    assert_eq!(result, 10);
    assert!(rt.context.tasks.is_empty());
}

#[test]
fn the_budget_of_a_pass_follows_the_rounds() {
    let mut rt = runtime();
    assert_eq!(rt.rounds, 2);
    rt.rounds = 0;
    let stop = Rc::new(Cell::new(false));
    let runs = Rc::new(Cell::new(0usize));
    spawn(&mut rt.context, looping(stop.clone(), runs.clone()));
    assert!(matches!(rt.block_on(Event::Started), Step::Run(_)));
    assert_eq!(rt.phase, Phase::Running { left: 0, last: false });
    assert!(matches!(rt.block_on(Event::TaskRan), Step::PollMain));
    assert_eq!(rt.phase, Phase::Polling);

    let mut rt: Runtime<u8, ()> = Runtime::new(Context::new(1), ());
    rt.rounds = usize::MAX;
    spawn(&mut rt.context, 1);
    spawn(&mut rt.context, 2);
    assert!(matches!(rt.block_on(Event::Started), Step::Run(1)));
    assert_eq!(rt.phase, Phase::Running { left: usize::MAX, last: false });
}

#[test]
fn the_loop_waits_only_when_nothing_is_queued() {
    let mut rt: Runtime<u8, ()> = Runtime::new(Context::new(3), ());
    assert_eq!(rt.context.thread_id, 3);
    assert_eq!(rt.phase, Phase::Stopped);
    assert!(matches!(rt.block_on(Event::Started), Step::PollMain));
    assert!(matches!(rt.block_on(Event::MainPending), Step::PollMain));
    assert_eq!(rt.phase, Phase::Polling);
    assert!(matches!(rt.block_on(Event::MainNotWoken), Step::Park));
    assert_eq!(rt.phase, Phase::Parking);
    spawn(&mut rt.context, 7);
    assert!(matches!(rt.block_on(Event::Parked), Step::Run(7)));
    assert_eq!(rt.phase, Phase::Running { left: 2, last: false });
    spawn(&mut rt.context, 8);
    assert!(matches!(rt.block_on(Event::TaskRan), Step::Run(8)));
    assert_eq!(rt.phase, Phase::Running { left: 1, last: false });
    assert!(matches!(rt.block_on(Event::TaskRan), Step::PollMain));
    spawn(&mut rt.context, 9);
    assert!(matches!(rt.block_on(Event::MainNotWoken), Step::Submit));
    assert_eq!(rt.phase, Phase::Flushing);
    assert!(matches!(rt.block_on(Event::Submitted), Step::Run(9)));
    assert!(matches!(rt.block_on(Event::TaskRan), Step::PollMain));
    spawn(&mut rt.context, 10);
    assert!(matches!(rt.block_on(Event::MainReady), Step::Run(10)));
    assert_eq!(rt.phase, Phase::Running { left: 2, last: true });
    assert!(matches!(rt.block_on(Event::TaskRan), Step::Finish));
    assert_eq!(rt.phase, Phase::Stopped);
}

#[test]
fn phases_expect_their_events() {
    let all = [
        Event::Started,
        Event::TaskRan,
        Event::MainNotWoken,
        Event::MainPending,
        Event::MainReady,
        Event::Submitted,
        Event::Parked,
    ];
    let expected = |phase: Phase| -> Vec<Event> {
        all.iter().copied().filter(|event| phase.expects(*event)).collect()
    };
    assert_eq!(expected(Phase::Stopped), vec![Event::Started]);
    assert_eq!(expected(Phase::Running { left: 1, last: false }), vec![Event::TaskRan]);
    assert_eq!(
        expected(Phase::Polling),
        vec![Event::MainNotWoken, Event::MainPending, Event::MainReady]
    );
    assert_eq!(expected(Phase::Flushing), vec![Event::Submitted]);
    assert_eq!(expected(Phase::Parking), vec![Event::Parked]);
}

/// An operation of the tests.
struct Read;

impl OpAble for Read {
    fn uring_op(&mut self) -> io_uring::squeue::Entry {
        io_uring::opcode::Nop::new().build()
    }
}

/// A task that waits for one operation.
struct Reader {
    state: State,
    op: RefCell<Op<Read>>,
    polls: Cell<usize>,
    result: Cell<Option<u32>>,
    main_woken: Rc<Cell<bool>>,
}

/// One poll of the task: it waits for its operation, and when that is done
/// it keeps the result and wakes the main future, which joins it.
fn poll_reader(task: Rc<Reader>) -> Job {
    Job(Box::new(move |context, driver| {
        task.state.transition_to_running();
        task.polls.set(task.polls.get() + 1);
        let polled = task.op.borrow_mut().poll(driver, 7);
        match polled {
            Poll::Pending => {
                let outcome = task.state.transition_to_idle();
                let again = poll_reader(task.clone());
                let _ = context.tasks.yield_now(outcome, again);
            }
            Poll::Ready(done) => {
                task.result.set(Some(done.meta.result.unwrap().into_inner()));
                let after = task.state.transition_to_complete();
                assert!(after.is_complete());
                task.main_woken.set(true);
            }
        }
    }))
}

#[test]
fn a_task_that_waits_for_io_resumes_after_the_park() {
    let mut rt = runtime();
    let main_woken = Rc::new(Cell::new(true));
    let op = rt.driver.new_op(Read);
    let index = op.index;
    let task = Rc::new(Reader {
        state: State::new(),
        op: RefCell::new(op),
        polls: Cell::new(0),
        result: Cell::new(None),
        main_woken: main_woken.clone(),
    });
    spawn(&mut rt.context, poll_reader(task.clone()));

    let joined = task.clone();
    let woken_task = task.clone();
    let (result, trace) = run_loop(
        &mut rt,
        &main_woken,
        move |_| joined.result.get(),
        move |rt| {
            // The kernel reports the one completion.
            let events = vec![CompletionEvent { user_data: slot_user_data(index), result: 99, flags: 0 }];
            let finished = rt.driver.route_all(&events);
            assert_eq!(finished.len(), 1);
            assert!(matches!(finished[0], Finished::Wake(7)));
            let action = woken_task.state.transition_to_notified();
            assert_eq!(action, TransitionToNotified::Submit);
            let rest = rt.context.tasks.schedule(action, poll_reader(woken_task.clone()));
            assert!(rest.is_none());
        },
    );
    assert_eq!(result, 99);
    assert_eq!(trace.parks, 1);
    assert_eq!(trace.submits, 0);
    assert_eq!(trace.runs, 2);
    assert_eq!(trace.polls, 2);
    assert_eq!(task.polls.get(), 2);
    assert!(task.state.load().is_complete());
    assert!(!task.state.load().is_running());
    assert_eq!(rt.driver.ops.len(), 0);
    assert_eq!(task.op.borrow().index, usize::MAX);
}

#[test]
fn the_queue_is_first_in_first_out() {
    let mut queue: TaskQueue<u32> = TaskQueue::new();
    assert!(queue.is_empty());
    assert_eq!(queue.pop(), None);
    queue.push(1);
    queue.push(2);
    queue.push(3);
    assert_eq!(queue.len(), 3);
    assert_eq!(queue.pop(), Some(1));
    queue.push(4);
    assert_eq!(queue.pop(), Some(2));
    assert_eq!(queue.pop(), Some(3));
    assert_eq!(queue.pop(), Some(4));
    assert_eq!(queue.pop(), None);
    assert!(queue.is_empty());
}

#[test]
fn a_wake_queues_the_task_only_on_submit() {
    let mut queue: TaskQueue<u32> = TaskQueue::new();
    assert_eq!(queue.schedule(TransitionToNotified::DoNothing, 1), Some(1));
    assert!(queue.is_empty());
    assert_eq!(queue.schedule(TransitionToNotified::Submit, 2), None);
    assert_eq!(queue.len(), 1);
    assert_eq!(queue.yield_now(TransitionToIdle::OkIdle, 3), Some(3));
    assert_eq!(queue.yield_now(TransitionToIdle::OkNotified, 4), None);
    assert_eq!(queue.pop(), Some(2));
    assert_eq!(queue.pop(), Some(4));
}

#[test]
fn wakes_and_the_queue_agree_over_a_run_cycle() {
    let state = State::new();
    let mut queue: TaskQueue<&str> = TaskQueue::new();
    queue.push("task");
    let task = queue.pop().unwrap();
    state.transition_to_running();
    for _ in 0..3 {
        assert_eq!(queue.schedule(state.transition_to_notified(), task), Some(task));
    }
    assert_eq!(queue.yield_now(state.transition_to_idle(), task), None);
    for _ in 0..3 {
        assert_eq!(queue.schedule(state.transition_to_notified(), task), Some(task));
    }
    assert_eq!(queue.len(), 1);
    let task = queue.pop().unwrap();
    state.transition_to_running();
    assert_eq!(queue.yield_now(state.transition_to_idle(), task), Some(task));
    assert!(queue.is_empty());
    assert_eq!(queue.schedule(state.transition_to_notified(), task), None);
    assert_eq!(queue.schedule(state.transition_to_notified(), task), Some(task));
    assert_eq!(queue.len(), 1);
}

#[test]
fn the_builder_enforces_the_least_depth() {
    assert_eq!(MIN_ENTRIES, 256);
    assert_eq!(DEFAULT_ENTRIES, 1024);
    let builder = RuntimeBuilder::<()>::new();
    assert_eq!(builder.entries, None);
    assert_eq!(builder.entries(), 1024);
    assert_eq!(builder.with_entries(8).entries, Some(256));
    assert_eq!(RuntimeBuilder::<()>::new().with_entries(255).entries(), 256);
    assert_eq!(RuntimeBuilder::<()>::new().with_entries(256).entries(), 256);
    assert_eq!(RuntimeBuilder::<()>::new().with_entries(4096).entries(), 4096);
    assert_eq!(RuntimeBuilder::<()>::new().with_entries(0).with_entries(512).entries, Some(512));
    assert_eq!(RuntimeBuilder::<u8>::default().entries, None);
}
