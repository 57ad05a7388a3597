use hello::channel::{JobChannel, Received};
use hello::model::{JobOutcome, WorkerState};
use hello::ThreadPool;
use std::cell::{Cell, RefCell};
use std::rc::Rc;
use std::sync::atomic::{AtomicUsize, Ordering};
use std::sync::{Arc, Mutex};

type Job = Box<dyn FnOnce()>;

fn counting_job(counter: &Arc<AtomicUsize>) -> Job {
    let counter = Arc::clone(counter);
    Box::new(move || {
        counter.fetch_add(1, Ordering::SeqCst);
    })
}

fn states<J>(pool: &ThreadPool<J>) -> Vec<WorkerState> {
    (0..pool.size()).map(|id| pool.worker_state(id).unwrap()).collect()
}

#[test]
fn a_new_pool_has_as_many_waiting_workers_as_asked_for() {
    for size in [1usize, 2, 3, 8, 64] {
        let pool: ThreadPool<Job> = ThreadPool::new(size);
        assert_eq!(pool.size(), size);
        assert_eq!(states(&pool), vec![WorkerState::Waiting; size]);
        assert_eq!(pool.worker_state(size), None);
        assert!(pool.is_open());
        assert_eq!(pool.pending_jobs(), 0);
        assert_eq!(pool.next_join(), Some(0));
    }
}

#[test]
fn five_jobs_on_two_workers_run_once_each() {
    let counter = Arc::new(AtomicUsize::new(0));
    let mut pool: ThreadPool<Job> = ThreadPool::new(2);
    for _ in 0..5 {
        assert!(pool.execute(counting_job(&counter)).is_ok());
    }
    assert_eq!(pool.pending_jobs(), 5);
    pool.shutdown(|job: Job| job());
    assert_eq!(counter.load(Ordering::SeqCst), 5);
    assert_eq!(pool.pending_jobs(), 0);
    assert_eq!(states(&pool), vec![WorkerState::Joined; 2]);
}

#[test]
fn more_workers_than_jobs_and_more_jobs_than_workers() {
    for (size, jobs) in [(1usize, 0usize), (1, 1), (4, 2), (2, 9), (3, 3)] {
        let counter = Arc::new(AtomicUsize::new(0));
        let mut pool: ThreadPool<Job> = ThreadPool::new(size);
        for _ in 0..jobs {
            assert!(pool.execute(counting_job(&counter)).is_ok());
        }
        pool.shutdown(|job: Job| job());
        assert_eq!(counter.load(Ordering::SeqCst), jobs);
        assert_eq!(states(&pool), vec![WorkerState::Joined; size]);
    }
}

#[test]
fn jobs_are_handed_out_in_the_order_of_submission() {
    let mut pool: ThreadPool<u32> = ThreadPool::new(3);
    for job in [10, 20, 30, 40] {
        assert_eq!(pool.execute(job), Ok(()));
    }
    assert!(matches!(pool.receive(2), Received::Job(10)));
    assert!(matches!(pool.receive(0), Received::Job(20)));
    pool.finish(0, JobOutcome::Completed);
    assert!(matches!(pool.receive(0), Received::Job(30)));
    assert!(matches!(pool.receive(1), Received::Job(40)));
    assert_eq!(pool.pending_jobs(), 0);
    assert_eq!(
        states(&pool),
        vec![WorkerState::Executing, WorkerState::Executing, WorkerState::Executing]
    );
}

#[test]
fn shutdown_runs_pending_jobs_in_order() {
    let log = Rc::new(RefCell::new(Vec::new()));
    let mut pool: ThreadPool<u32> = ThreadPool::new(2);
    for job in [1, 2, 3] {
        assert_eq!(pool.execute(job), Ok(()));
    }
    let sink = Rc::clone(&log);
    pool.shutdown(move |job: u32| sink.borrow_mut().push(job));
    assert_eq!(*log.borrow(), vec![1, 2, 3]);
}

#[test]
fn a_job_submitted_after_teardown_began_comes_back_and_never_runs() {
    let counter = Arc::new(AtomicUsize::new(0));
    let mut pool: ThreadPool<Job> = ThreadPool::new(2);
    assert!(pool.execute(counting_job(&counter)).is_ok());
    pool.close();
    assert!(!pool.is_open());
    let refused = pool.execute(counting_job(&counter));
    assert!(refused.is_err());
    assert_eq!(pool.pending_jobs(), 1);

    for id in 0..2 {
        loop {
            match pool.receive(id) {
                Received::Job(job) => {
                    job();
                    pool.finish(id, JobOutcome::Completed);
                }
                Received::Empty => panic!("a closed pool made a worker wait"),
                Received::Closed => break,
            }
        }
        pool.join(id);
    }
    assert_eq!(counter.load(Ordering::SeqCst), 1);
    assert!(pool.execute(counting_job(&counter)).is_err());
    assert_eq!(counter.load(Ordering::SeqCst), 1);
    drop(refused);
    assert_eq!(counter.load(Ordering::SeqCst), 1);
}

#[test]
fn a_refused_job_is_the_one_that_was_submitted() {
    let mut pool: ThreadPool<u32> = ThreadPool::new(1);
    pool.close();
    assert_eq!(pool.execute(7), Err(7));
    assert_eq!(pool.execute(8), Err(8));
    assert_eq!(pool.pending_jobs(), 0);
}

#[test]
fn teardown_of_idle_workers_ends_at_once() {
    let mut pool: ThreadPool<Job> = ThreadPool::new(3);
    for id in 0..3 {
        assert!(matches!(pool.receive(id), Received::Empty));
    }
    assert_eq!(states(&pool), vec![WorkerState::Waiting; 3]);
    pool.shutdown(|job: Job| job());
    assert_eq!(states(&pool), vec![WorkerState::Joined; 3]);
    assert_eq!(pool.next_join(), None);
}

#[test]
fn a_pool_of_three_torn_down_with_nothing_submitted() {
    let mut pool: ThreadPool<Job> = ThreadPool::new(3);
    pool.close();
    for id in 0..3 {
        assert!(matches!(pool.receive(id), Received::Closed));
    }
    assert_eq!(states(&pool), vec![WorkerState::Terminating; 3]);
    for id in 0..3 {
        assert_eq!(pool.next_join(), Some(id));
        pool.join(id);
    }
    assert_eq!(pool.next_join(), None);
    assert_eq!(states(&pool), vec![WorkerState::Joined; 3]);
    assert_eq!(pool.size(), 3);
}

#[test]
fn workers_are_joined_in_the_order_of_construction() {
    let mut pool: ThreadPool<u32> = ThreadPool::new(3);
    pool.close();
    assert!(matches!(pool.receive(2), Received::Closed));
    assert!(matches!(pool.receive(1), Received::Closed));
    assert_eq!(pool.next_join(), Some(0));
    assert!(matches!(pool.receive(0), Received::Closed));
    pool.join(0);
    assert_eq!(pool.next_join(), Some(1));
    pool.join(1);
    assert_eq!(pool.next_join(), Some(2));
    pool.join(2);
    assert_eq!(pool.next_join(), None);
}

#[test]
fn one_worker_runs_one_job_after_the_other() {
    let log = Rc::new(RefCell::new(Vec::new()));
    let mut pool: ThreadPool<Job> = ThreadPool::new(1);
    for name in ["first", "second"] {
        let sink = Rc::clone(&log);
        let job: Job = Box::new(move || {
            sink.borrow_mut().push(format!("{name} begins"));
            sink.borrow_mut().push(format!("{name} ends"));
        });
        assert!(pool.execute(job).is_ok());
    }
    match pool.receive(0) {
        Received::Job(job) => {
            assert_eq!(pool.worker_state(0), Some(WorkerState::Executing));
            assert_eq!(pool.pending_jobs(), 1);
            job();
            assert_eq!(pool.pending_jobs(), 1);
            pool.finish(0, JobOutcome::Completed);
        }
        _ => panic!("the first job was not handed out"),
    }
    assert_eq!(pool.worker_state(0), Some(WorkerState::Waiting));
    pool.shutdown(|job: Job| job());
    assert_eq!(
        *log.borrow(),
        vec!["first begins", "first ends", "second begins", "second ends"]
    );
}

#[test]
fn two_jobs_back_to_back_both_update_the_shared_state() {
    let shared = Arc::new(Mutex::new(0u32));
    let mut pool: ThreadPool<Job> = ThreadPool::new(2);
    for step in [1u32, 10] {
        let shared = Arc::clone(&shared);
        let job: Job = Box::new(move || {
            let mut value = shared.lock().unwrap();
            *value += step;
        });
        assert!(pool.execute(job).is_ok());
    }
    pool.shutdown(|job: Job| job());
    assert_eq!(*shared.lock().unwrap(), 11);
}

#[test]
fn a_worker_goes_back_to_waiting_after_each_job() {
    let ran = Rc::new(Cell::new(0u32));
    let mut pool: ThreadPool<Job> = ThreadPool::new(1);
    for _ in 0..3 {
        let ran = Rc::clone(&ran);
        assert!(pool.execute(Box::new(move || ran.set(ran.get() + 1))).is_ok());
        match pool.receive(0) {
            Received::Job(job) => job(),
            _ => panic!("no job was handed out"),
        }
        assert_eq!(pool.worker_state(0), Some(WorkerState::Executing));
        pool.finish(0, JobOutcome::Completed);
        assert_eq!(pool.worker_state(0), Some(WorkerState::Waiting));
    }
    assert_eq!(ran.get(), 3);
    assert!(matches!(pool.receive(0), Received::Empty));
}

#[test]
fn a_channel_hands_out_what_it_took_and_then_reports_its_state() {
    let mut channel: JobChannel<&str> = JobChannel::new();
    assert!(channel.is_open());
    assert_eq!(channel.len(), 0);
    assert!(matches!(channel.recv(), Received::Empty));
    assert_eq!(channel.send("a"), Ok(()));
    assert_eq!(channel.send("b"), Ok(()));
    assert_eq!(channel.len(), 2);
    assert!(matches!(channel.recv(), Received::Job("a")));
    channel.close();
    assert!(!channel.is_open());
    assert_eq!(channel.send("c"), Err("c"));
    assert_eq!(channel.len(), 1);
    assert!(matches!(channel.recv(), Received::Job("b")));
    assert!(matches!(channel.recv(), Received::Closed));
    assert!(matches!(channel.recv(), Received::Closed));
}

#[test]
fn no_pool_is_made_of_no_workers() {
    assert!(ThreadPool::<Job>::try_new(0).is_none());
    assert!(ThreadPool::<u32>::try_new(0).is_none());
}

#[test]
fn a_pool_is_made_of_one_worker_or_more() {
    for size in [1usize, 2, 17] {
        let pool = ThreadPool::<Job>::try_new(size).unwrap();
        assert_eq!(pool.size(), size);
        assert_eq!(states(&pool), vec![WorkerState::Waiting; size]);
        assert!(pool.is_open());
    }
}

#[test]
fn a_job_that_faults_costs_the_pool_no_worker() {
    let mut pool: ThreadPool<u32> = ThreadPool::new(1);
    for job in [1, 2, 3] {
        assert_eq!(pool.execute(job), Ok(()));
    }
    assert!(matches!(pool.receive(0), Received::Job(1)));
    pool.finish(0, JobOutcome::Faulted);
    assert_eq!(pool.worker_state(0), Some(WorkerState::Waiting));
    assert_eq!(pool.size(), 1);
    assert_eq!(pool.pending_jobs(), 2);
    assert!(matches!(pool.receive(0), Received::Job(2)));
    pool.finish(0, JobOutcome::Completed);
    let log = Rc::new(RefCell::new(Vec::new()));
    let sink = Rc::clone(&log);
    pool.shutdown(move |job: u32| sink.borrow_mut().push(job));
    assert_eq!(*log.borrow(), vec![3]);
    assert_eq!(states(&pool), vec![WorkerState::Joined]);
}
