//! Wakers: a task's handle for being woken, and the record of woken tasks.
use std::collections::HashMap;
use vstd::prelude::*;

use super::task::TaskId;

verus! {

/// The record of the tasks that were woken and not yet noticed, by task number.
pub struct WakeRegistry {
    woken: HashMap<usize, bool>,
}

impl WakeRegistry {
    /// Whether `id` is recorded as woken.
    pub closed spec fn is_marked(&self, id: TaskId) -> bool {
        self.woken@.contains_key(id.0) && self.woken@[id.0]
    }

    /// The record is consistent: only wakes are recorded.
    pub closed spec fn wf(&self) -> bool {
        forall|k: usize| #[trigger] self.woken@.contains_key(k) ==> self.woken@[k]
    }

    /// An empty record.
    pub fn new() -> (r: Self)
        ensures
            r.wf(),
            forall|id: TaskId| !r.is_marked(id),
    {
        WakeRegistry { woken: HashMap::new() }
    }

    /// Records `id` as woken.
    pub fn mark(&mut self, id: TaskId)
        requires
            old(self).wf(),
        ensures
            final(self).wf(),
            final(self).is_marked(id),
            forall|other: TaskId| other != id ==> final(self).is_marked(other) == old(self).is_marked(other),
    {
        broadcast use vstd::std_specs::hash::group_hash_axioms;

        self.woken.insert(id.0, true);
    }

    /// Whether `id` was recorded as woken; the record of it is cleared.
    pub fn take(&mut self, id: TaskId) -> (r: bool)
        requires
            old(self).wf(),
        ensures
            final(self).wf(),
            r == old(self).is_marked(id),
            !final(self).is_marked(id),
            forall|other: TaskId| other != id ==> final(self).is_marked(other) == old(self).is_marked(other),
    {
        broadcast use vstd::std_specs::hash::group_hash_axioms;

        match self.woken.remove(&id.0) {
            Some(b) => b,
            Option::None => false,
        }
    }
}

/// The waker of one task.
#[derive(Debug, Clone, Copy)]
pub struct SshBindWaker {
    task_id: TaskId,
}

impl SshBindWaker {
    /// The task that the waker wakes.
    pub closed spec fn spec_task_id(&self) -> TaskId {
        self.task_id
    }

    /// A waker for the task `task_id`.
    pub fn new(task_id: TaskId) -> (r: Self)
        ensures
            r.spec_task_id() == task_id,
    {
        SshBindWaker { task_id }
    }

    /// The task that the waker wakes.
    pub fn task_id(&self) -> (r: TaskId)
        ensures
            r == self.spec_task_id(),
    {
        self.task_id
    }

    /// Wakes the task: records it as woken.
    pub fn wake(&self, registry: &mut WakeRegistry)
        requires
            old(registry).wf(),
        ensures
            final(registry).wf(),
            final(registry).is_marked(self.spec_task_id()),
            forall|other: TaskId|
                other != self.spec_task_id() ==> final(registry).is_marked(other) == old(registry).is_marked(other),
    {
        registry.mark(self.task_id);
    }

    /// Whether the task was woken since the last check; the check clears the mark.
    pub fn is_woken(&self, registry: &mut WakeRegistry) -> (r: bool)
        requires
            old(registry).wf(),
        ensures
            final(registry).wf(),
            r == old(registry).is_marked(self.spec_task_id()),
            !final(registry).is_marked(self.spec_task_id()),
            forall|other: TaskId|
                other != self.spec_task_id() ==> final(registry).is_marked(other) == old(registry).is_marked(other),
    {
        registry.take(self.task_id)
    }
}

} // verus!
