use std::cell::{Cell, RefCell};
use std::rc::Rc;
use thread_pool::{
    Dequeued, JobQueue, PoolControl, PoolCreationError, PoolState, Worker, WorkerAction,
    WorkerPhase,
};

type Job = Box<dyn FnOnce()>;

/// Lets the workers take turns at the queue until every one of them has left
/// its loop; returns how many jobs each worker ran.
fn run_until_exit(workers: &mut Vec<Worker>, queue: &mut JobQueue<Job>) -> Vec<usize> {
    let mut ran = vec![0; workers.len()];
    let mut live = workers.len();
    while live > 0 {
        for (i, w) in workers.iter_mut().enumerate() {
            if w.phase() != WorkerPhase::WaitingForJob {
                continue;
            }
            match w.poll(queue) {
                WorkerAction::Run(job) => {
                    job();
                    ran[i] += 1;
                    w.finish_job();
                }
                WorkerAction::Wait => {}
                WorkerAction::Exit => live -= 1,
            }
        }
    }
    ran
}

#[test]
fn build_with_zero_workers_fails() {
    assert_eq!(PoolControl::build(0).err(), Some(PoolCreationError));
}

#[test]
fn build_with_positive_size_gives_that_many_workers() {
    for size in [1usize, 2, 4, 17] {
        let pool = PoolControl::build(size).unwrap();
        assert_eq!(pool.size(), size);
        assert_eq!(pool.state(), PoolState::Active);
        let workers = pool.workers();
        assert_eq!(workers.len(), size);
        for (i, w) in workers.iter().enumerate() {
            assert_eq!(w.id(), i);
            assert_eq!(w.phase(), WorkerPhase::WaitingForJob);
        }
    }
}

#[test]
fn new_pool_is_active() {
    let pool = PoolControl::new(3);
    assert_eq!(pool.size(), 3);
    assert_eq!(pool.state(), PoolState::Active);
}

#[test]
fn hundred_jobs_on_four_workers_each_run_once() {
    let pool = PoolControl::build(4).unwrap();
    let mut queue: JobQueue<Job> = JobQueue::new();
    let mut workers = pool.workers();
    let counter = Rc::new(Cell::new(0u32));
    for _ in 0..100 {
        let c = Rc::clone(&counter);
        assert!(pool.execute(&mut queue, Box::new(move || c.set(c.get() + 1))).is_ok());
    }
    assert_eq!(queue.len(), 100);
    let mut pool = pool;
    pool.begin_shutdown(&mut queue);
    let ran = run_until_exit(&mut workers, &mut queue);
    assert_eq!(counter.get(), 100);
    assert_eq!(ran.iter().sum::<usize>(), 100);
    assert_eq!(ran, vec![25, 25, 25, 25]);
    assert_eq!(queue.len(), 0);
    assert!(workers.iter().all(|w| w.phase() == WorkerPhase::Terminated));
}

#[test]
fn single_worker_runs_jobs_in_submission_order() {
    let pool = PoolControl::build(1).unwrap();
    let mut queue: JobQueue<Job> = JobQueue::new();
    let mut workers = pool.workers();
    let log = Rc::new(RefCell::new(Vec::new()));
    for id in [1u32, 2] {
        let l = Rc::clone(&log);
        assert!(pool.execute(&mut queue, Box::new(move || l.borrow_mut().push(id))).is_ok());
    }
    let mut pool = pool;
    pool.begin_shutdown(&mut queue);
    run_until_exit(&mut workers, &mut queue);
    assert_eq!(*log.borrow(), vec![1, 2]);
}

#[test]
fn jobs_submitted_while_workers_poll_are_all_delivered() {
    let pool = PoolControl::build(3).unwrap();
    let mut queue: JobQueue<u32> = JobQueue::new();
    let mut workers = pool.workers();
    let mut taken = Vec::new();
    for job in 0u32..10 {
        assert_eq!(pool.execute(&mut queue, job), Ok(()));
        let w = &mut workers[(job % 3) as usize];
        if let WorkerAction::Run(j) = w.poll(&mut queue) {
            taken.push(j);
            w.finish_job();
        }
        if job % 2 == 0 {
            assert!(pool.execute(&mut queue, 100 + job).is_ok());
        }
    }
    let mut pool = pool;
    pool.begin_shutdown(&mut queue);
    loop {
        match workers[0].poll(&mut queue) {
            WorkerAction::Run(j) => {
                taken.push(j);
                workers[0].finish_job();
            }
            WorkerAction::Wait => panic!("a closed queue never asks to wait"),
            WorkerAction::Exit => break,
        }
    }
    let mut expected: Vec<u32> = (0..10).collect();
    expected.extend([100, 102, 104, 106, 108]);
    let mut sorted = taken.clone();
    sorted.sort();
    assert_eq!(sorted, expected);
    assert_eq!(taken.len(), 15);
}

#[test]
fn queue_is_first_in_first_out() {
    let mut queue: JobQueue<u32> = JobQueue::new();
    assert_eq!(queue.enqueue(7), Ok(()));
    assert_eq!(queue.enqueue(3), Ok(()));
    assert_eq!(queue.enqueue(9), Ok(()));
    assert!(matches!(queue.dequeue(), Dequeued::Job(7)));
    assert!(matches!(queue.dequeue(), Dequeued::Job(3)));
    assert!(matches!(queue.dequeue(), Dequeued::Job(9)));
    assert!(matches!(queue.dequeue(), Dequeued::Empty));
}

#[test]
fn closed_queue_keeps_pending_jobs_and_refuses_new_ones() {
    let mut queue: JobQueue<u32> = JobQueue::new();
    assert_eq!(queue.enqueue(1), Ok(()));
    assert!(!queue.is_closed());
    queue.close();
    assert!(queue.is_closed());
    assert_eq!(queue.enqueue(2), Err(2));
    assert_eq!(queue.len(), 1);
    assert!(matches!(queue.dequeue(), Dequeued::Job(1)));
    assert!(matches!(queue.dequeue(), Dequeued::Closed));
    assert!(matches!(queue.dequeue(), Dequeued::Closed));
}

#[test]
fn execute_after_shutdown_hands_the_job_back() {
    let mut pool = PoolControl::build(2).unwrap();
    let mut queue: JobQueue<u32> = JobQueue::new();
    pool.begin_shutdown(&mut queue);
    assert_eq!(pool.state(), PoolState::ShuttingDown);
    assert_eq!(queue.enqueue(5), Err(5));
}

#[test]
fn worker_waits_on_open_empty_queue_and_exits_on_closed_one() {
    let mut queue: JobQueue<u32> = JobQueue::new();
    let mut w = Worker::new(6);
    assert!(matches!(w.poll(&mut queue), WorkerAction::Wait));
    assert_eq!(w.phase(), WorkerPhase::WaitingForJob);
    assert_eq!(queue.enqueue(11), Ok(()));
    assert!(matches!(w.poll(&mut queue), WorkerAction::Run(11)));
    assert_eq!(w.phase(), WorkerPhase::Executing);
    w.finish_job();
    assert_eq!(w.phase(), WorkerPhase::WaitingForJob);
    queue.close();
    assert!(matches!(w.poll(&mut queue), WorkerAction::Exit));
    assert_eq!(w.phase(), WorkerPhase::Terminated);
    assert_eq!(w.id(), 6);
}

#[test]
fn shutdown_joins_workers_in_id_order_once_each() {
    let mut pool = PoolControl::build(3).unwrap();
    let mut queue: JobQueue<u32> = JobQueue::new();
    pool.begin_shutdown(&mut queue);
    let mut ids = Vec::new();
    while let Some(id) = pool.next_join() {
        assert_eq!(pool.state(), PoolState::ShuttingDown);
        ids.push(id);
    }
    assert_eq!(ids, vec![0, 1, 2]);
    assert_eq!(pool.state(), PoolState::Terminated);
    assert_eq!(pool.next_join(), None);
    assert_eq!(pool.state(), PoolState::Terminated);
}
