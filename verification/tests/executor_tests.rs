use sshbind::async_ssh::{Token, TokenCounter};
use sshbind::executor::io::{ReadyEvent, SourceTable};
use sshbind::executor::reactor::{
    event_for, Interest, PollEvent, ReactorError, RegisterStep, SourceRegistry,
};
use sshbind::executor::schedule::RunQueue;
use sshbind::executor::{SshBindWaker, Task, TaskId, TaskPoll, TaskState};

#[test]
fn task_lifecycle() {
    let mut t = Task::new(TaskId(7));
    assert_eq!(t.id(), TaskId(7));
    assert!(t.is_ready());
    assert_eq!(t.poll(|| false), TaskPoll::Pending);
    assert!(t.is_waiting());
    t.wake();
    assert_eq!(t.state(), TaskState::Ready);
    assert_eq!(t.poll(|| true), TaskPoll::Ready);
    assert!(t.is_completed());
    // A completed task stays completed, and its future is not polled again.
    let mut polled = false;
    assert_eq!(
        t.poll(|| {
            polled = true;
            false
        }),
        TaskPoll::Ready
    );
    assert!(!polled);
    t.wake();
    assert!(t.is_completed());
}

#[test]
fn run_queue_round() {
    let mut q = RunQueue::new();
    assert_eq!(q.next_task(), None);
    q.spawn(TaskId(1));
    q.spawn(TaskId(2));
    q.spawn(TaskId(3));
    q.start_round();
    let mut order = Vec::new();
    while let Some(id) = q.next_task() {
        order.push(id);
        // Task 2 completes; the others stay pending.
        q.report(id, id != TaskId(2));
    }
    assert_eq!(order, vec![TaskId(1), TaskId(2), TaskId(3)]);
    // The next round sees the pending tasks, in order.
    q.start_round();
    let mut next = Vec::new();
    while let Some(id) = q.next_task() {
        next.push(id);
        q.report(id, false);
    }
    assert_eq!(next, vec![TaskId(1), TaskId(3)]);
    q.start_round();
    assert_eq!(q.next_task(), None);
}

#[test]
fn source_table_readiness() {
    let mut t: SourceTable<&str> = SourceTable::new();
    assert!(t.register(3));
    assert!(!t.register(3));
    assert!(t.register(4));
    t.set_readable(3, "reader");
    t.set_writable(4, "writer");

    // A poll that does not wait hands out the wakers of ready sources only.
    let woken = t.poll_events(&vec![
        ReadyEvent { fd: 3, readable: true, writable: false },
        ReadyEvent { fd: 9, readable: true, writable: true },
    ]);
    assert_eq!(woken, vec!["reader"]);
    assert!(t.is_readable(3));
    assert!(!t.is_writable(4));

    // A waker is handed out once.
    let woken = t.poll_events(&vec![ReadyEvent { fd: 3, readable: true, writable: false }]);
    assert!(woken.is_empty());

    // A wait hands out the waker of every source with an event.
    let woken = t.wait_events(&vec![ReadyEvent { fd: 4, readable: false, writable: false }]);
    assert_eq!(woken, vec!["writer"]);

    t.set_readable(3, "again");
    assert!(!t.is_readable(3));
    assert!(t.unregister(3));
    assert!(!t.contains(3));
    assert!(!t.unregister(3));
    assert!(t.contains(4));
}

#[test]
fn interest_events() {
    assert_eq!(event_for(Interest::readable_only()), PollEvent::Readable);
    assert_eq!(event_for(Interest::writable_only()), PollEvent::Writable);
    assert_eq!(event_for(Interest::both()), PollEvent::All);
    assert_eq!(event_for(Interest { readable: false, writable: false }), PollEvent::Nothing);
}

#[test]
fn tokens_are_distinct() {
    let mut c = TokenCounter::new();
    let a = Token::next(&mut c);
    let b = Token::next(&mut c);
    let d = Token::next(&mut c);
    assert_eq!((a, b, d), (Token(1), Token(2), Token(3)));
}

#[test]
fn source_registry_lifecycle() {
    let mut r = SourceRegistry::new();
    let t = match r.register(7, Interest::readable_only()) {
        RegisterStep::Added { token, event } => {
            assert_eq!(event, PollEvent::Readable);
            token
        }
        other => panic!("unexpected step {:?}", other),
    };
    r.confirm_register(7, t);
    assert!(r.is_registered(t));
    assert_eq!(r.source_count(), 1);

    // The same descriptor keeps its token.
    assert_eq!(r.register(7, Interest::both()), RegisterStep::Updated { token: t, event: PollEvent::All });
    assert_eq!(r.modify_interest(t, Interest::writable_only()), Ok((7, PollEvent::Writable)));

    assert_eq!(r.register_waker(t, SshBindWaker::new(TaskId(5))), Ok(()));
    let woken = r.wakers_for(&vec![t.0, 999, t.0]);
    assert_eq!(woken.iter().map(|w| w.task_id()).collect::<Vec<_>>(), vec![TaskId(5), TaskId(5)]);

    assert_eq!(r.unregister(t), Ok(Some(7)));
    assert!(!r.is_registered(t));
    assert_eq!(r.source_count(), 0);
    assert_eq!(r.unregister(t), Err(ReactorError::InvalidToken));
    assert_eq!(r.modify_interest(t, Interest::both()), Err(ReactorError::InvalidToken));
    assert_eq!(r.register_waker(t, SshBindWaker::new(TaskId(1))), Err(ReactorError::InvalidToken));
    assert!(r.wakers_for(&vec![t.0]).is_empty());
}

#[test]
fn source_registry_tokens_and_unconfirmed_sources() {
    let mut r = SourceRegistry::new();
    let a = match r.register(3, Interest::readable_only()) {
        RegisterStep::Added { token, .. } => token,
        other => panic!("unexpected step {:?}", other),
    };
    r.confirm_register(3, a);
    let b = match r.register(4, Interest::writable_only()) {
        RegisterStep::Added { token, .. } => token,
        other => panic!("unexpected step {:?}", other),
    };
    assert_ne!(a, b);
    // The poller did not take descriptor 4: its source stays, with no descriptor.
    assert_eq!(r.modify_interest(b, Interest::both()), Err(ReactorError::TokenNotFound));
    assert_eq!(r.unregister(b), Ok(None));
    assert_eq!(r.source_count(), 1);
    assert_eq!(r.modify_interest(a, Interest::both()), Ok((3, PollEvent::All)));
}
