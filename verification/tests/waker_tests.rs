use sshbind::executor::{SshBindWaker, TaskId, WakeRegistry};

#[test]
fn test_waker_creation() {
    let task_id = TaskId(42);
    let waker = SshBindWaker::new(task_id);
    let mut registry = WakeRegistry::new();
    assert_eq!(waker.task_id(), task_id);
    assert!(!waker.is_woken(&mut registry));
}

#[test]
fn test_waker_wake() {
    let task_id = TaskId(42);
    let waker = SshBindWaker::new(task_id);
    let mut registry = WakeRegistry::new();

    waker.wake(&mut registry);
    assert!(waker.is_woken(&mut registry));

    // Second check returns false (the mark is cleared)
    assert!(!waker.is_woken(&mut registry));
}
