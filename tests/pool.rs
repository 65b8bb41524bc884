use worker_pool::pool::{worker_ids, Lifecycle, Phase};
use worker_pool::queue::{Delivery, JobQueue};

#[test]
fn worker_ids_count_from_one() {
    assert_eq!(worker_ids(4), vec![1, 2, 3, 4]);
    assert_eq!(worker_ids(1), vec![1]);
    assert_eq!(worker_ids(10).len(), 10);
}

#[test]
fn new_lifecycle_is_ready() {
    let l = Lifecycle::new(3);
    assert_eq!(l.phase(), Phase::Ready);
    assert_eq!(l.size(), 3);
    assert!(l.accepts_jobs());
    assert!(!l.is_closed());
}

#[test]
fn teardown_closes_only_after_every_join() {
    let mut l = Lifecycle::new(3);
    l.begin_teardown();
    assert_eq!(l.phase(), Phase::Draining);
    assert!(!l.accepts_jobs());
    l.record_join();
    assert!(!l.is_closed());
    l.record_join();
    assert!(!l.is_closed());
    assert_eq!(l.phase(), Phase::Draining);
    l.record_join();
    assert!(l.is_closed());
    assert_eq!(l.phase(), Phase::Closed);
}

#[test]
fn single_worker_pool_closes_after_one_join() {
    let mut l = Lifecycle::new(1);
    l.begin_teardown();
    assert!(!l.is_closed());
    l.record_join();
    assert!(l.is_closed());
}

#[test]
fn teardown_waits_for_job_in_flight() {
    let mut l = Lifecycle::new(2);
    let mut q: JobQueue<u64> = JobQueue::new();
    assert!(q.submit(5).is_ok());
    l.begin_teardown();
    q.close();
    assert!(q.submit(6).is_err());
    let mut slept = 0u64;
    match q.take() {
        Delivery::Job(units) => slept += units,
        _ => panic!("the queued job must still be delivered"),
    }
    assert!(!l.is_closed());
    for _ in 0..2 {
        assert!(matches!(q.take(), Delivery::Closed));
        l.record_join();
    }
    assert_eq!(slept, 5);
    assert!(l.is_closed());
}
