use bruna_os::kernel::scheduler::{RoundRobinScheduler, Scheduler};
use bruna_os::kernel::thread::ThreadId;

#[test]
fn test_rr_scheduler_new() {
    let scheduler = RoundRobinScheduler::new();
    assert!(scheduler.ready_queue.is_empty(), "New scheduler's ready queue should be empty");
}

#[test]
fn test_rr_add_single_thread() {
    let mut scheduler = RoundRobinScheduler::new();
    let tid1: ThreadId = 1;
    assert!(scheduler.add_thread(tid1).is_ok());
    assert_eq!(scheduler.ready_queue.len(), 1);
    assert_eq!(scheduler.ready_queue.front(), Some(&tid1));
}

#[test]
fn test_rr_add_multiple_threads() {
    let mut scheduler = RoundRobinScheduler::new();
    let tid1: ThreadId = 1;
    let tid2: ThreadId = 2;
    scheduler.add_thread(tid1).unwrap();
    scheduler.add_thread(tid2).unwrap();
    assert_eq!(scheduler.ready_queue.len(), 2);
    assert_eq!(scheduler.ready_queue.get(0), Some(&tid1));
    assert_eq!(scheduler.ready_queue.get(1), Some(&tid2));
}

#[test]
fn test_rr_add_duplicate_thread_is_idempotent() {
    let mut scheduler = RoundRobinScheduler::new();
    let tid1: ThreadId = 1;
    scheduler.add_thread(tid1).unwrap();
    scheduler.add_thread(tid1).unwrap();
    assert_eq!(scheduler.ready_queue.len(), 1, "Duplicate add should be idempotent");
}

#[test]
fn test_rr_schedule_next_empty() {
    let mut scheduler = RoundRobinScheduler::new();
    assert_eq!(scheduler.schedule_next(), None, "schedule_next on empty queue should return None");
}

#[test]
fn test_rr_schedule_next_single_thread_cycles() {
    let mut scheduler = RoundRobinScheduler::new();
    let tid1: ThreadId = 1;
    scheduler.add_thread(tid1).unwrap();

    assert_eq!(scheduler.schedule_next(), Some(tid1), "First schedule_next should return tid1");
    assert_eq!(scheduler.ready_queue.len(), 1, "Queue should still have 1 thread");
    assert_eq!(
        scheduler.ready_queue.front(),
        Some(&tid1),
        "tid1 should be back in queue (at front as it's the only one)"
    );

    assert_eq!(
        scheduler.schedule_next(),
        Some(tid1),
        "Second schedule_next should also return tid1"
    );
}

#[test]
fn test_rr_schedule_next_multiple_threads_round_robin() {
    let mut scheduler = RoundRobinScheduler::new();
    let tid1: ThreadId = 1;
    let tid2: ThreadId = 2;
    let tid3: ThreadId = 3;
    scheduler.add_thread(tid1).unwrap();
    scheduler.add_thread(tid2).unwrap();
    scheduler.add_thread(tid3).unwrap();

    assert_eq!(scheduler.schedule_next(), Some(tid1));
    assert_eq!(scheduler.ready_queue.back(), Some(&tid1));
    assert_eq!(scheduler.schedule_next(), Some(tid2));
    assert_eq!(scheduler.ready_queue.back(), Some(&tid2));
    assert_eq!(scheduler.schedule_next(), Some(tid3));
    assert_eq!(scheduler.ready_queue.back(), Some(&tid3));
    assert_eq!(scheduler.schedule_next(), Some(tid1));
    assert_eq!(scheduler.ready_queue.back(), Some(&tid1));
}

#[test]
fn test_rr_remove_existing_thread() {
    let mut scheduler = RoundRobinScheduler::new();
    let tid1: ThreadId = 1;
    let tid2: ThreadId = 2;
    scheduler.add_thread(tid1).unwrap();
    scheduler.add_thread(tid2).unwrap();

    assert!(scheduler.remove_thread(tid1).is_ok());
    assert_eq!(scheduler.ready_queue.len(), 1);
    assert_eq!(scheduler.ready_queue.front(), Some(&tid2));
    assert!(!scheduler.ready_queue.contains(&tid1));
}

#[test]
fn test_rr_remove_non_existing_thread_is_idempotent() {
    let mut scheduler = RoundRobinScheduler::new();
    let tid1: ThreadId = 1;
    scheduler.add_thread(tid1).unwrap();

    let non_existent_tid: ThreadId = 99;
    assert!(
        scheduler.remove_thread(non_existent_tid).is_ok(),
        "Removing non-existent thread should be Ok"
    );
    assert_eq!(scheduler.ready_queue.len(), 1, "Queue should be unchanged");
}

#[test]
fn test_rr_remove_from_empty_queue() {
    let mut scheduler = RoundRobinScheduler::new();
    let non_existent_tid: ThreadId = 99;
    assert!(scheduler.remove_thread(non_existent_tid).is_ok());
    assert!(scheduler.ready_queue.is_empty());
}

#[test]
fn test_rr_mark_thread_ready_blocked_defaults() {
    let mut scheduler = RoundRobinScheduler::new();
    let tid1: ThreadId = 1;

    scheduler.mark_thread_ready(tid1).unwrap();
    assert_eq!(scheduler.ready_queue.len(), 1);
    assert!(scheduler.ready_queue.contains(&tid1));

    scheduler.mark_thread_blocked(tid1).unwrap();
    assert!(scheduler.ready_queue.is_empty());
}

#[test]
fn test_rr_default_is_empty() {
    let scheduler = RoundRobinScheduler::default();
    assert!(scheduler.ready_queue.is_empty());
}

#[test]
fn test_rr_remove_middle_keeps_order() {
    let mut scheduler = RoundRobinScheduler::new();
    for tid in [10u64, 20, 30, 40] {
        scheduler.add_thread(tid).unwrap();
    }
    scheduler.remove_thread(20).unwrap();
    let queue: Vec<ThreadId> = scheduler.ready_queue.iter().copied().collect();
    assert_eq!(queue, vec![10, 30, 40]);
    assert_eq!(scheduler.schedule_next(), Some(10));
    let queue: Vec<ThreadId> = scheduler.ready_queue.iter().copied().collect();
    assert_eq!(queue, vec![30, 40, 10]);
}

#[test]
fn test_rr_remove_takes_first_occurrence_only() {
    let mut scheduler = RoundRobinScheduler::new();
    scheduler.ready_queue.push_back(7);
    scheduler.ready_queue.push_back(8);
    scheduler.ready_queue.push_back(7);
    scheduler.remove_thread(7).unwrap();
    let queue: Vec<ThreadId> = scheduler.ready_queue.iter().copied().collect();
    assert_eq!(queue, vec![8, 7]);
}

#[test]
fn test_rr_full_cycle_restores_queue() {
    let mut scheduler = RoundRobinScheduler::new();
    let threads: Vec<ThreadId> = vec![5, 9, 2, 11, 3];
    for tid in &threads {
        scheduler.add_thread(*tid).unwrap();
    }
    for round in 0..17usize {
        assert_eq!(scheduler.schedule_next(), Some(threads[round % threads.len()]));
    }
    for _ in 17..20usize {
        scheduler.schedule_next();
    }
    let queue: Vec<ThreadId> = scheduler.ready_queue.iter().copied().collect();
    assert_eq!(queue, threads);
}

#[test]
fn test_rr_add_twice_keeps_position() {
    let mut scheduler = RoundRobinScheduler::new();
    scheduler.add_thread(1).unwrap();
    scheduler.add_thread(2).unwrap();
    scheduler.add_thread(1).unwrap();
    let queue: Vec<ThreadId> = scheduler.ready_queue.iter().copied().collect();
    assert_eq!(queue, vec![1, 2]);
    assert_eq!(queue.iter().filter(|tid| **tid == 1).count(), 1);
}
