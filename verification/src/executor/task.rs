//! Tasks: a future's identity and where it stands.
use vstd::prelude::*;

verus! {

/// The identity of a task.
#[derive(Debug, Clone, Copy, PartialEq, Eq, Hash, Structural)]
pub struct TaskId(pub usize);

/// Where a task stands.
#[derive(Debug, Clone, Copy, PartialEq, Eq, Structural)]
pub enum TaskState {
    /// The task is ready to run.
    Ready,
    /// The task waits for I/O or another event.
    Waiting,
    /// The task has completed.
    Completed,
}

/// The result of polling a task.
#[derive(Debug, Clone, Copy, PartialEq, Eq, Structural)]
pub enum TaskPoll {
    /// The task has completed.
    Ready,
    /// The task has more to do.
    Pending,
}

/// A spawned task; its future is held by the caller, who hands a way to poll it
/// to [`Task::poll`].
#[derive(Debug)]
pub struct Task {
    id: TaskId,
    state: TaskState,
}

impl Task {
    /// The task's identity.
    pub closed spec fn spec_id(&self) -> TaskId {
        self.id
    }

    /// Where the task stands.
    pub closed spec fn spec_state(&self) -> TaskState {
        self.state
    }

    /// A new task with the identity `id`, ready to run.
    pub fn new(id: TaskId) -> (r: Self)
        ensures
            r.spec_id() == id,
            r.spec_state() == TaskState::Ready,
    {
        Task { id, state: TaskState::Ready }
    }

    /// The task's identity.
    pub fn id(&self) -> (r: TaskId)
        ensures
            r == self.spec_id(),
    {
        self.id
    }

    /// Where the task stands.
    pub fn state(&self) -> (r: TaskState)
        ensures
            r == self.spec_state(),
    {
        self.state
    }

    /// Polls the task: a completed task stays completed and its future is not
    /// polled again; otherwise `poll_future` polls the future once and says
    /// whether it completed, and the task becomes completed or waiting.
    pub fn poll<P: FnOnce() -> bool>(&mut self, poll_future: P) -> (r: TaskPoll)
        requires
            old(self).spec_state() != TaskState::Completed ==> call_requires(poll_future, ()),
        ensures
            final(self).spec_id() == old(self).spec_id(),
            old(self).spec_state() == TaskState::Completed ==> r == TaskPoll::Ready
                && final(self).spec_state() == TaskState::Completed,
            old(self).spec_state() != TaskState::Completed ==> {
                &&& call_ensures(poll_future, (), r == TaskPoll::Ready)
                &&& final(self).spec_state() == after_poll(old(self).spec_state(), r == TaskPoll::Ready)
            },
    {
        if self.state == TaskState::Completed {
            return TaskPoll::Ready;
        }
        let done = poll_future();
        assert(call_ensures(poll_future, (), done));
        if done {
            self.state = TaskState::Completed;
            TaskPoll::Ready
        } else {
            self.state = TaskState::Waiting;
            TaskPoll::Pending
        }
    }

    /// Wakes the task: a waiting task becomes ready; otherwise nothing changes.
    pub fn wake(&mut self)
        ensures
            final(self).spec_id() == old(self).spec_id(),
            final(self).spec_state() == after_wake(old(self).spec_state()),
    {
        if self.state == TaskState::Waiting {
            self.state = TaskState::Ready;
        }
    }

    /// Whether the task has completed.
    pub fn is_completed(&self) -> (r: bool)
        ensures
            r == (self.spec_state() == TaskState::Completed),
    {
        self.state == TaskState::Completed
    }

    /// Whether the task waits for an event.
    pub fn is_waiting(&self) -> (r: bool)
        ensures
            r == (self.spec_state() == TaskState::Waiting),
    {
        self.state == TaskState::Waiting
    }

    /// Whether the task is ready to run.
    pub fn is_ready(&self) -> (r: bool)
        ensures
            r == (self.spec_state() == TaskState::Ready),
    {
        self.state == TaskState::Ready
    }
}

/// Where a task stands after a poll; `done` tells whether its future completed.
pub open spec fn after_poll(s: TaskState, done: bool) -> TaskState {
    if s == TaskState::Completed || done {
        TaskState::Completed
    } else {
        TaskState::Waiting
    }
}

/// Where a task stands after it is woken.
pub open spec fn after_wake(s: TaskState) -> TaskState {
    if s == TaskState::Waiting {
        TaskState::Ready
    } else {
        s
    }
}

/// An operation on a task: a poll (whose future completes or not), or a wake.
pub enum TaskOp {
    Poll(bool),
    Wake,
}

/// Where a task stands after the operations `ops`, in order.
pub open spec fn after_ops(s: TaskState, ops: Seq<TaskOp>) -> TaskState
    decreases ops.len(),
{
    if ops.len() == 0 {
        s
    } else {
        let t = after_ops(s, ops.drop_last());
        match ops.last() {
            TaskOp::Poll(done) => after_poll(t, done),
            TaskOp::Wake => after_wake(t),
        }
    }
}

/// Completion is final: whatever polls and wakes follow, a completed task stays
/// completed.
pub proof fn law_completion_is_final(ops: Seq<TaskOp>)
    ensures
        after_ops(TaskState::Completed, ops) == TaskState::Completed,
    decreases ops.len(),
{
    if ops.len() > 0 {
        law_completion_is_final(ops.drop_last());
    }
}

/// A task completes only by a poll whose future completes: a task that was not
/// completed and is completed after `ops` saw such a poll.
pub proof fn law_completion_needs_a_finished_poll(s: TaskState, ops: Seq<TaskOp>)
    requires
        s != TaskState::Completed,
        after_ops(s, ops) == TaskState::Completed,
    ensures
        exists|i: int| 0 <= i < ops.len() && ops[i] == TaskOp::Poll(true),
    decreases ops.len(),
{
    let t = after_ops(s, ops.drop_last());
    if t == TaskState::Completed {
        law_completion_needs_a_finished_poll(s, ops.drop_last());
        let i = choose|i: int| 0 <= i < ops.drop_last().len() && ops.drop_last()[i] == TaskOp::Poll(true);
        assert(ops[i] == TaskOp::Poll(true));
    } else {
        assert(ops[ops.len() - 1] == TaskOp::Poll(true));
    }
}

} // verus!
