use scheduler::queue::{JobQueue, JobStatus, QueueError, MAX_ATTEMPTS};

#[test]
fn enqueue_gives_consecutive_ids_and_pending_entries() {
    let mut q = JobQueue::new();
    assert_eq!(q.enqueue(4, 100), Ok(0));
    assert_eq!(q.enqueue(5, 50), Ok(1));
    assert_eq!(q.len(), 2);
    let e = q.get(1).unwrap();
    assert_eq!(e.fetch_id, 5);
    assert_eq!(e.run_at, 50);
    assert_eq!(e.status, JobStatus::Pending);
    assert_eq!(e.attempts, 0);
    assert_eq!(e.max_attempts, MAX_ATTEMPTS);
    assert_eq!(q.get(2), None);
}

#[test]
fn lease_skips_entries_not_yet_due() {
    let mut q = JobQueue::new();
    q.enqueue(1, 500).unwrap();
    assert_eq!(q.lease_next(499), None);
    let e = q.lease_next(500).unwrap();
    assert_eq!(e.id, 0);
    assert_eq!(e.status, JobStatus::Leased);
    assert_eq!(e.attempts, 1);
}

#[test]
fn lease_takes_first_due_entry() {
    let mut q = JobQueue::new();
    q.enqueue(1, 900).unwrap();
    q.enqueue(2, 10).unwrap();
    q.enqueue(3, 20).unwrap();
    assert_eq!(q.lease_next(100).unwrap().fetch_id, 2);
    assert_eq!(q.lease_next(100).unwrap().fetch_id, 3);
    assert_eq!(q.lease_next(100), None);
}

#[test]
fn lease_is_exclusive() {
    let mut q = JobQueue::new();
    q.enqueue(1, 0).unwrap();
    let first = q.lease_next(10);
    let second = q.lease_next(10);
    assert_eq!(first.unwrap().id, 0);
    assert_eq!(second, None);
    assert_eq!(q.get(0).unwrap().status, JobStatus::Leased);
    q.fail(0, 1).unwrap();
    assert_eq!(q.lease_next(10).unwrap().id, 0);
}

#[test]
fn ack_marks_done_and_done_is_never_leased() {
    let mut q = JobQueue::new();
    q.enqueue(1, 0).unwrap();
    q.lease_next(0).unwrap();
    assert_eq!(q.ack(0, 1), Ok(()));
    assert_eq!(q.get(0).unwrap().status, JobStatus::Done);
    assert_eq!(q.lease_next(1000), None);
}

#[test]
fn ack_and_fail_errors() {
    let mut q = JobQueue::new();
    assert_eq!(q.ack(0, 1), Err(QueueError::UnknownJob));
    assert_eq!(q.fail(3, 1), Err(QueueError::UnknownJob));
    q.enqueue(1, 0).unwrap();
    assert_eq!(q.ack(0, 0), Err(QueueError::NotLeased));
    assert_eq!(q.fail(0, 0), Err(QueueError::NotLeased));
    assert_eq!(q.get(0).unwrap().status, JobStatus::Pending);
}

#[test]
fn fail_retries_until_attempts_are_spent() {
    let mut q = JobQueue::new();
    q.enqueue(9, 0).unwrap();
    for k in 1..=MAX_ATTEMPTS {
        let e = q.lease_next(0).unwrap();
        assert_eq!(e.attempts, k);
        let status = q.fail(e.id, e.attempts).unwrap();
        if k < MAX_ATTEMPTS {
            assert_eq!(status, JobStatus::Pending);
            assert_eq!(q.get(0).unwrap().run_at, 0);
        } else {
            assert_eq!(status, JobStatus::Dead);
        }
    }
    assert_eq!(q.get(0).unwrap().status, JobStatus::Dead);
    assert_eq!(q.get(0).unwrap().attempts, 10);
    assert_eq!(q.lease_next(i64::MAX), None);
    assert_eq!(q.fail(0, MAX_ATTEMPTS), Err(QueueError::NotLeased));
}

#[test]
fn expired_lease_is_reclaimed_as_a_failed_attempt() {
    let mut q = JobQueue::new();
    q.enqueue(1, 0).unwrap();
    q.enqueue(2, 0).unwrap();
    let e = q.lease_next(100).unwrap();
    assert_eq!(e.leased_at, 100);
    q.reclaim_expired(159, 60);
    assert_eq!(q.get(0).unwrap().status, JobStatus::Leased);
    assert_eq!(q.get(1).unwrap().status, JobStatus::Pending);
    q.reclaim_expired(160, 60);
    assert_eq!(q.get(0).unwrap().status, JobStatus::Pending);
    assert_eq!(q.get(0).unwrap().attempts, 1);
    assert_eq!(q.get(1).unwrap().attempts, 0);
    assert_eq!(q.lease_next(160).unwrap().id, 0);
}

#[test]
fn reclaim_gives_up_after_last_attempt() {
    let mut q = JobQueue::new();
    q.enqueue(1, 0).unwrap();
    for now in 0..MAX_ATTEMPTS as i64 {
        let e = q.lease_next(now * 10).unwrap();
        assert_eq!(e.id, 0);
        q.reclaim_expired(now * 10 + 5, 5);
    }
    assert_eq!(q.get(0).unwrap().status, JobStatus::Dead);
    assert_eq!(q.lease_next(i64::MAX), None);
}

#[test]
fn reclaimed_lease_cannot_settle_the_new_one() {
    let mut q = JobQueue::new();
    q.enqueue(1, 0).unwrap();
    let old_lease = q.lease_next(0).unwrap();
    q.reclaim_expired(100, 50);
    let new_lease = q.lease_next(100).unwrap();
    assert_eq!(new_lease.attempts, 2);
    assert_eq!(q.ack(old_lease.id, old_lease.attempts), Err(QueueError::StaleLease));
    assert_eq!(q.fail(old_lease.id, old_lease.attempts), Err(QueueError::StaleLease));
    assert_eq!(q.get(0).unwrap().status, JobStatus::Leased);
    assert_eq!(q.ack(new_lease.id, new_lease.attempts), Ok(()));
}
