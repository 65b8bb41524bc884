use std::cell::Cell;
use std::rc::Rc;
use worker_pool::queue::{Delivery, JobQueue};

fn take_value(q: &mut JobQueue<u32>) -> Option<u32> {
    match q.take() {
        Delivery::Job(v) => Some(v),
        _ => None,
    }
}

#[test]
fn new_queue_is_open_and_empty() {
    let mut q: JobQueue<u32> = JobQueue::new();
    assert!(q.is_open());
    assert_eq!(q.len(), 0);
    assert!(matches!(q.take(), Delivery::Empty));
    assert!(matches!(q.take(), Delivery::Empty));
}

#[test]
fn jobs_come_out_in_submission_order() {
    let mut q: JobQueue<u32> = JobQueue::new();
    for v in [7, 3, 9, 1] {
        assert!(q.submit(v).is_ok());
    }
    assert_eq!(q.len(), 4);
    assert_eq!(take_value(&mut q), Some(7));
    assert!(q.submit(5).is_ok());
    assert_eq!(take_value(&mut q), Some(3));
    assert_eq!(take_value(&mut q), Some(9));
    assert_eq!(take_value(&mut q), Some(1));
    assert_eq!(take_value(&mut q), Some(5));
    assert!(matches!(q.take(), Delivery::Empty));
}

#[test]
fn each_job_is_delivered_exactly_once() {
    let mut q: JobQueue<u32> = JobQueue::new();
    for v in 0..10 {
        assert!(q.submit(v).is_ok());
    }
    let mut seen = Vec::new();
    while let Some(v) = take_value(&mut q) {
        seen.push(v);
    }
    assert_eq!(seen, (0..10).collect::<Vec<u32>>());
}

#[test]
fn submit_after_close_fails_and_hands_job_back() {
    let mut q: JobQueue<u32> = JobQueue::new();
    assert!(q.submit(1).is_ok());
    q.close();
    assert!(!q.is_open());
    assert_eq!(q.submit(2), Err(2));
    assert_eq!(q.submit(3), Err(3));
    assert_eq!(q.len(), 1);
}

#[test]
fn close_keeps_pending_jobs_then_reports_closed() {
    let mut q: JobQueue<u32> = JobQueue::new();
    assert!(q.submit(4).is_ok());
    assert!(q.submit(8).is_ok());
    q.close();
    assert_eq!(take_value(&mut q), Some(4));
    assert_eq!(take_value(&mut q), Some(8));
    assert!(matches!(q.take(), Delivery::Closed));
    assert!(matches!(q.take(), Delivery::Closed));
}

#[test]
fn closed_empty_queue_reports_closed_at_once() {
    let mut q: JobQueue<u32> = JobQueue::new();
    q.close();
    assert!(matches!(q.take(), Delivery::Closed));
}

#[test]
fn two_workers_run_five_counting_jobs() {
    let counter = Rc::new(Cell::new(0u32));
    let mut q: JobQueue<Box<dyn FnOnce()>> = JobQueue::new();
    for _ in 0..5 {
        let c = counter.clone();
        assert!(q.submit(Box::new(move || c.set(c.get() + 1))).is_ok());
    }
    q.close();
    let mut running = [true, true];
    let mut runs = [0u32, 0u32];
    while running.iter().any(|r| *r) {
        for w in 0..2 {
            if running[w] {
                match q.take() {
                    Delivery::Job(job) => {
                        job();
                        runs[w] += 1;
                    }
                    Delivery::Closed => running[w] = false,
                    Delivery::Empty => panic!("a closed queue never asks to wait"),
                }
            }
        }
    }
    assert_eq!(counter.get(), 5);
    assert_eq!(runs[0] + runs[1], 5);
}
