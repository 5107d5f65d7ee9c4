use powmine::queue::{RecvError, Task, WorkQueue};
use std::time::Duration;

struct ConstTask(u64);

impl Task for ConstTask {
    type Output = u64;

    fn run(&self) -> Option<u64> {
        Some(self.0)
    }
}

struct SilentTask;

impl Task for SilentTask {
    type Output = u64;

    fn run(&self) -> Option<u64> {
        None
    }
}

#[test]
fn test_outputs_arrive() {
    let mut q: WorkQueue<ConstTask> = WorkQueue::new(3);
    let mut expected: u64 = 0;
    for v in 0..5u64 {
        assert!(q.enqueue(ConstTask(v)).is_ok());
        expected += v;
    }
    let mut sum: u64 = 0;
    for _ in 0..5 {
        sum += q.recv().unwrap();
    }
    assert_eq!(expected, sum);
    q.shutdown();
}

#[test]
fn test_silent_tasks_produce_nothing() {
    let mut q: WorkQueue<SilentTask> = WorkQueue::new(2);
    for _ in 0..4 {
        assert!(q.enqueue(SilentTask).is_ok());
    }
    loop {
        match q.recv_timeout(Duration::from_millis(200)) {
            Ok(_) => panic!("a task that yields no output sent a result"),
            Err(RecvError::Timeout) => break,
            Err(e) => panic!("unexpected receive failure: {:?}", e),
        }
    }
    q.shutdown();
}

#[test]
fn test_enqueue_after_shutdown_fails() {
    let mut q: WorkQueue<ConstTask> = WorkQueue::new(2);
    assert!(q.enqueue(ConstTask(1)).is_ok());
    q.shutdown();
    let r = q.enqueue(ConstTask(9));
    match r {
        Ok(()) => panic!("enqueue after shutdown must not succeed"),
        Err(e) => assert_eq!(9, (e.0).0),
    }
}

#[test]
fn test_shutdown_twice_is_a_no_op() {
    let mut q: WorkQueue<ConstTask> = WorkQueue::new(4);
    for v in 0..8u64 {
        let _ = q.enqueue(ConstTask(v));
    }
    q.shutdown();
    q.shutdown();
    assert!(q.enqueue(ConstTask(0)).is_err());
}

#[test]
fn test_recv_after_shutdown_and_drain_disconnects() {
    let mut q: WorkQueue<ConstTask> = WorkQueue::new(2);
    assert!(q.enqueue(ConstTask(5)).is_ok());
    assert_eq!(5, q.recv().unwrap());
    q.shutdown();
    loop {
        match q.recv() {
            Ok(_) => continue,
            Err(e) => {
                assert_eq!(RecvError::Disconnected, e);
                break;
            }
        }
    }
}

#[test]
fn test_try_recv_on_idle_queue_is_empty() {
    let mut q: WorkQueue<SilentTask> = WorkQueue::new(1);
    match q.try_recv() {
        Ok(_) => panic!("nothing was enqueued"),
        Err(e) => assert!(e == RecvError::Empty || e == RecvError::Disconnected),
    }
    q.shutdown();
}

#[test]
fn test_recv_timeout_on_idle_queue_times_out() {
    let q: WorkQueue<SilentTask> = WorkQueue::new(1);
    match q.recv_timeout(Duration::from_millis(50)) {
        Ok(_) => panic!("nothing was enqueued"),
        Err(e) => assert_eq!(RecvError::Timeout, e),
    }
}

#[test]
fn test_iter_ends_after_shutdown() {
    let mut q: WorkQueue<ConstTask> = WorkQueue::new(2);
    for v in 1..=6u64 {
        assert!(q.enqueue(ConstTask(v)).is_ok());
    }
    let mut got: Vec<u64> = Vec::new();
    for v in q.iter() {
        got.push(v);
        if got.len() == 6 {
            break;
        }
    }
    q.shutdown();
    for v in q.iter() {
        got.push(v);
    }
    got.sort();
    assert_eq!(vec![1, 2, 3, 4, 5, 6], got);
}
