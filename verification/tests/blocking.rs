use std::cell::Cell;
use std::rc::Rc;
use std::sync::atomic::AtomicUsize;
use std::sync::atomic::Ordering;
use std::sync::mpsc;
use std::sync::Arc;
use uring_runtime::runtime::blocking::BlockingFuture;
use uring_runtime::runtime::blocking::BlockingHandle;
use uring_runtime::runtime::blocking::BlockingStrategy;
use uring_runtime::runtime::blocking::BlockingTask;
use uring_runtime::runtime::blocking::JoinError;
use uring_runtime::runtime::blocking::ThreadPool;

#[test]
fn a_blocking_task_runs_its_work_once() {
    let runs = Rc::new(Cell::new(0));
    let counter = runs.clone();
    let task = BlockingTask::new(move || counter.set(counter.get() + 1));
    assert!(task.task.is_some());
    assert_eq!(runs.get(), 0);
    task.run();
    assert_eq!(runs.get(), 1);
}

#[test]
fn a_blocking_future_yields_the_result_of_its_work() {
    let mut future = BlockingFuture(Some(|| 6 * 7));
    let result: Result<i32, JoinError> = future.poll();
    assert_eq!(result, Ok(42));
    assert!(future.0.is_none());
}

#[test]
fn join_errors_and_strategies() {
    assert_eq!(JoinError::Canceled, JoinError::Canceled.clone());
    assert_eq!(format!("{:?}", JoinError::Canceled), "Canceled");
    assert_ne!(BlockingStrategy::Panic, BlockingStrategy::ExecuteLocal);
    let handle: BlockingHandle<()> = BlockingHandle::from(BlockingStrategy::ExecuteLocal);
    assert!(matches!(handle, BlockingHandle::Empty(BlockingStrategy::ExecuteLocal)));
    let handle: BlockingHandle<()> = BlockingStrategy::Panic.into();
    assert!(matches!(handle, BlockingHandle::Empty(BlockingStrategy::Panic)));
    let handle: BlockingHandle<u8> = BlockingHandle::Attached(3);
    assert!(matches!(handle, BlockingHandle::Attached(3)));
}

/// A pool over the threads of another crate.
struct Pool(threadpool::ThreadPool);

impl ThreadPool for Pool {
    fn schedule_task<F: FnOnce() + Send + 'static>(&self, task: BlockingTask<F>) {
        self.0.execute(move || task.run());
    }
}

#[test]
fn a_thread_pool_runs_each_task_once() {
    let pool = Pool(threadpool::Builder::new().num_threads(2).build());
    let runs = Arc::new(AtomicUsize::new(0));
    let (sender, receiver) = mpsc::channel();
    for id in 0..8 {
        let runs = runs.clone();
        let sender = sender.clone();
        pool.schedule_task(BlockingTask::new(move || {
            runs.fetch_add(1, Ordering::SeqCst);
            sender.send(id).unwrap();
        }));
    }
    let mut seen: Vec<i32> = receiver.iter().take(8).collect();
    seen.sort();
    assert_eq!(seen, vec![0, 1, 2, 3, 4, 5, 6, 7]);
    pool.0.join();
    assert_eq!(runs.load(Ordering::SeqCst), 8);
}
