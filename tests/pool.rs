use std::cell::RefCell;
use std::rc::Rc;

use thread_pool::message::PoolError;
use thread_pool::pool::{PoolState, ShutdownStep, Submitted, Taken};

type Job = Box<dyn FnOnce()>;

fn pool(size: usize, capacity: usize, max: Option<usize>) -> PoolState<Job> {
    match PoolState::new(size, capacity, max) {
        Ok(p) => p,
        Err(e) => panic!("pool refused: {:?}", e),
    }
}

fn recorder(log: &Rc<RefCell<Vec<u32>>>, v: u32) -> Job {
    let log = Rc::clone(log);
    Box::new(move || log.borrow_mut().push(v))
}

/// Runs queued jobs until the queue is empty; returns how many stop signals it saw.
fn drain(p: &mut PoolState<Job>) -> usize {
    let mut stops = 0;
    loop {
        match p.take() {
            Taken::Run(job) => job(),
            Taken::Terminate => stops += 1,
            Taken::Empty | Taken::Closed => return stops,
        }
    }
}

#[test]
fn zero_size_is_refused() {
    assert!(matches!(PoolState::<Job>::new(0, 4, None), Err(PoolError::ZeroSize)));
    assert!(matches!(PoolState::<Job>::new(0, 4, Some(3)), Err(PoolError::ZeroSize)));
}

#[test]
fn size_above_max_is_refused() {
    assert!(matches!(PoolState::<Job>::new(3, 0, Some(2)), Err(PoolError::SizeAboveMax)));
    assert!(PoolState::<Job>::new(2, 0, Some(2)).is_ok());
}

#[test]
fn new_pool_starts_empty() {
    let p = pool(4, 10, None);
    assert_eq!(p.workers(), 4);
    assert_eq!(p.queue_len(), 0);
    assert!(!p.stopping());
    assert!(p.accepting());
}

#[test]
fn fifo_within_producer() {
    let log = Rc::new(RefCell::new(Vec::new()));
    let mut p = pool(4, 10, None);
    for i in 0..10 {
        assert!(matches!(p.submit(recorder(&log, i)), Submitted::Queued));
    }
    assert_eq!(drain(&mut p), 0);
    assert_eq!(*log.borrow(), (0..10).collect::<Vec<u32>>());
}

#[test]
fn exactly_once_execution() {
    let count = Rc::new(RefCell::new(0u32));
    let mut p = pool(2, 100, None);
    for _ in 0..25 {
        let c = Rc::clone(&count);
        assert!(matches!(p.submit(Box::new(move || *c.borrow_mut() += 1)), Submitted::Queued));
    }
    assert_eq!(p.queue_len(), 25);
    drain(&mut p);
    assert_eq!(*count.borrow(), 25);
    assert!(matches!(p.take(), Taken::Empty));
    assert_eq!(*count.borrow(), 25);
}

#[test]
fn graceful_shutdown_runs_all_queued_work() {
    let log = Rc::new(RefCell::new(Vec::new()));
    let mut p = pool(4, 10, None);
    for i in 0..10 {
        assert!(matches!(p.submit(recorder(&log, i)), Submitted::Queued));
    }
    let mut stops = 0;
    let mut sent = 0;
    loop {
        match p.shutdown_step() {
            ShutdownStep::Sent => sent += 1,
            ShutdownStep::Done => break,
            ShutdownStep::Full => match p.take() {
                Taken::Run(job) => job(),
                Taken::Terminate => {
                    assert_eq!(log.borrow().len(), 10);
                    stops += 1;
                }
                Taken::Empty | Taken::Closed => panic!("queue empty while full"),
            },
        }
    }
    stops += drain(&mut p);
    assert_eq!(sent, 4);
    assert_eq!(stops, 4);
    assert_eq!(*log.borrow(), (0..10).collect::<Vec<u32>>());
}

#[test]
fn backpressure_in_fixed_mode() {
    let log = Rc::new(RefCell::new(Vec::new()));
    let mut p = pool(1, 0, None);
    // No worker waiting and no buffer: the job comes back.
    assert!(!p.accepting());
    assert!(matches!(p.submit(recorder(&log, 1)), Submitted::Full(_)));
    // The worker waits: the job goes straight to it, nothing is buffered.
    p.begin_wait();
    assert!(p.accepting());
    assert!(matches!(p.submit(recorder(&log, 1)), Submitted::Handed));
    assert_eq!(p.queue_len(), 0);
    assert_eq!(p.handed_len(), 1);
    assert!(matches!(p.submit(recorder(&log, 2)), Submitted::Full(_)));
    p.end_wait();
    let job = match p.take() {
        Taken::Run(job) => job,
        _ => panic!("expected a job"),
    };
    assert_eq!(p.handed_len(), 0);
    // While the worker runs its job, the second submission is held back.
    let second = match p.submit(recorder(&log, 2)) {
        Submitted::Full(job) => job,
        _ => panic!("expected backpressure"),
    };
    job();
    p.begin_wait();
    assert!(matches!(p.submit(second), Submitted::Handed));
    assert_eq!(p.queue_len(), 0);
    p.end_wait();
    drain(&mut p);
    assert_eq!(*log.borrow(), vec![1, 2]);
}

#[test]
fn zero_buffer_hands_each_job_to_a_worker() {
    let log = Rc::new(RefCell::new(Vec::new()));
    let mut p = pool(4, 0, None);
    for i in 0..10 {
        p.begin_wait();
        assert!(matches!(p.submit(recorder(&log, i)), Submitted::Handed));
        assert_eq!(p.queue_len(), 0);
        p.end_wait();
        match p.take() {
            Taken::Run(job) => job(),
            _ => panic!("expected the handed job"),
        }
    }
    assert_eq!(*log.borrow(), (0..10).collect::<Vec<u32>>());
}

#[test]
fn test_thread_pool_size() {
    let sum = Rc::new(RefCell::new(0u32));
    let mut p = pool(4, 100, None);
    for _ in 0..8 {
        let s = Rc::clone(&sum);
        assert!(matches!(p.submit(Box::new(move || *s.borrow_mut() += 1)), Submitted::Queued));
    }
    drain(&mut p);
    assert_eq!(*sum.borrow(), 8);
}

#[test]
fn elastic_growth_stops_at_max() {
    let log = Rc::new(RefCell::new(Vec::new()));
    let mut p = pool(2, 0, Some(4));
    assert!(matches!(p.submit(recorder(&log, 0)), Submitted::Grew(2)));
    assert_eq!(p.workers(), 3);
    assert!(matches!(p.submit(recorder(&log, 1)), Submitted::Grew(3)));
    assert_eq!(p.workers(), 4);
    for i in 0..5 {
        assert!(matches!(p.submit(recorder(&log, i)), Submitted::AtCapacity));
        assert_eq!(p.workers(), 4);
    }
    // The jobs that caused growth or were refused were not delivered.
    assert_eq!(drain(&mut p), 0);
    assert!(log.borrow().is_empty());
}

#[test]
fn elastic_mode_queues_when_room() {
    let log = Rc::new(RefCell::new(Vec::new()));
    let mut p = pool(2, 1, Some(4));
    assert!(matches!(p.submit(recorder(&log, 7)), Submitted::Queued));
    assert!(matches!(p.submit(recorder(&log, 8)), Submitted::Grew(2)));
    drain(&mut p);
    assert_eq!(*log.borrow(), vec![7]);
}

#[test]
fn idempotent_teardown() {
    let mut p = pool(2, 2, None);
    assert!(matches!(p.shutdown_step(), ShutdownStep::Sent));
    assert!(matches!(p.shutdown_step(), ShutdownStep::Sent));
    assert!(matches!(p.shutdown_step(), ShutdownStep::Done));
    assert!(matches!(p.shutdown_step(), ShutdownStep::Done));
    assert_eq!(p.queue_len(), 2);
    assert!(p.stopping());
    assert_eq!(drain(&mut p), 2);
    assert!(matches!(p.shutdown_step(), ShutdownStep::Done));
    assert_eq!(p.queue_len(), 0);
}

#[test]
fn shutdown_waits_for_room() {
    let mut p = pool(1, 0, None);
    assert!(matches!(p.shutdown_step(), ShutdownStep::Full));
    assert!(p.stopping());
    p.begin_wait();
    assert!(matches!(p.shutdown_step(), ShutdownStep::Sent));
    p.end_wait();
    assert!(matches!(p.take(), Taken::Terminate));
    assert!(matches!(p.shutdown_step(), ShutdownStep::Done));
}

#[test]
fn submission_after_shutdown_is_refused() {
    let count = Rc::new(RefCell::new(0u32));
    let mut p = pool(1, 4, Some(3));
    p.shutdown_step();
    let c = Rc::clone(&count);
    match p.submit(Box::new(move || *c.borrow_mut() += 1)) {
        Submitted::Stopped(job) => job(),
        _ => panic!("expected a refusal"),
    }
    assert_eq!(*count.borrow(), 1);
    assert_eq!(p.workers(), 1);
    assert!(matches!(p.take(), Taken::Terminate));
    assert!(matches!(p.take(), Taken::Empty));
}

#[test]
fn closed_queue_stops_workers_after_pending_work() {
    let log = Rc::new(RefCell::new(Vec::new()));
    let mut p = pool(1, 2, None);
    assert!(matches!(p.submit(recorder(&log, 5)), Submitted::Queued));
    p.close();
    assert!(matches!(p.submit(recorder(&log, 6)), Submitted::Stopped(_)));
    match p.take() {
        Taken::Run(job) => job(),
        _ => panic!("expected the pending job"),
    }
    assert!(matches!(p.take(), Taken::Closed));
    assert_eq!(*log.borrow(), vec![5]);
}

#[test]
fn waiting_worker_takes_before_buffer() {
    let log = Rc::new(RefCell::new(Vec::new()));
    let mut p = pool(3, 1, None);
    assert!(p.accepting());
    assert!(matches!(p.submit(recorder(&log, 1)), Submitted::Queued));
    assert!(!p.accepting());
    // Something is pending, so a worker does not register as waiting.
    p.begin_wait();
    assert!(!p.accepting());
    match p.take() {
        Taken::Run(job) => job(),
        _ => panic!("expected the buffered job"),
    }
    p.begin_wait();
    assert!(matches!(p.submit(recorder(&log, 2)), Submitted::Handed));
    assert!(matches!(p.submit(recorder(&log, 3)), Submitted::Queued));
    assert!(!p.accepting());
    assert_eq!(p.queue_len(), 1);
    assert_eq!(p.handed_len(), 1);
    drain(&mut p);
    assert_eq!(*log.borrow(), vec![1, 2, 3]);
}

#[test]
fn lost_worker_is_owed_no_stop_signal() {
    let mut p = pool(2, 0, None);
    p.worker_lost();
    p.begin_wait();
    assert!(matches!(p.shutdown_step(), ShutdownStep::Sent));
    assert!(matches!(p.shutdown_step(), ShutdownStep::Done));
    assert!(matches!(p.take(), Taken::Terminate));
    assert!(matches!(p.shutdown_step(), ShutdownStep::Done));
}

#[test]
fn lost_worker_after_all_signals_changes_nothing() {
    let mut p = pool(1, 1, None);
    assert!(matches!(p.shutdown_step(), ShutdownStep::Sent));
    p.worker_lost();
    assert!(matches!(p.shutdown_step(), ShutdownStep::Done));
    assert_eq!(p.queue_len(), 1);
}
