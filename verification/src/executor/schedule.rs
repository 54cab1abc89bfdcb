//! The order in which the executor polls its tasks.
//!
//! A round of the executor polls the main future (the caller does that), then
//! every task of the ready queue, then each task of the task queue once, in
//! order; a task that is still pending goes to the back of the task queue.
//! [`RunQueue::next_task`] hands out the tasks of a round one by one and
//! [`RunQueue::report`] takes the outcome of each poll.
use std::collections::VecDeque;
use vstd::prelude::*;

use super::task::TaskId;

verus! {

/// Where a round stands.
#[derive(Debug, Clone, Copy, PartialEq, Eq, Structural)]
pub enum RoundPhase {
    /// No round under way.
    Idle,
    /// The ready queue is being emptied.
    DrainReady,
    /// The task queue is being passed through; this many tasks remain.
    Pass(usize),
}

/// The queues of the executor, as mathematics sees them.
pub struct RunQueueView {
    pub ready: Seq<TaskId>,
    pub tasks: Seq<TaskId>,
    pub phase: RoundPhase,
}

/// The queues of the executor.
pub struct RunQueue {
    ready: VecDeque<TaskId>,
    tasks: VecDeque<TaskId>,
    phase: RoundPhase,
}

impl View for RunQueue {
    type V = RunQueueView;

    closed spec fn view(&self) -> RunQueueView {
        RunQueueView { ready: self.ready@, tasks: self.tasks@, phase: self.phase }
    }
}

/// The next task of a round, and the queues after handing it out.
pub open spec fn next_of(q: RunQueueView) -> (RunQueueView, Option<TaskId>) {
    match q.phase {
        RoundPhase::Idle => (q, Option::None),
        RoundPhase::DrainReady => if q.ready.len() > 0 {
            (RunQueueView { ready: q.ready.drop_first(), ..q }, Some(q.ready[0]))
        } else if q.tasks.len() > 0 {
            (
                RunQueueView {
                    tasks: q.tasks.drop_first(),
                    phase: RoundPhase::Pass((q.tasks.len() - 1) as usize),
                    ..q
                },
                Some(q.tasks[0]),
            )
        } else {
            (RunQueueView { phase: RoundPhase::Idle, ..q }, Option::None)
        },
        RoundPhase::Pass(n) => if n > 0 && q.tasks.len() > 0 {
            (
                RunQueueView {
                    tasks: q.tasks.drop_first(),
                    phase: RoundPhase::Pass((n - 1) as usize),
                    ..q
                },
                Some(q.tasks[0]),
            )
        } else {
            (RunQueueView { phase: RoundPhase::Idle, ..q }, Option::None)
        },
    }
}

impl RunQueue {
    /// The queues are consistent: a pass never has more tasks to go than the
    /// task queue holds.
    pub open spec fn wf(&self) -> bool {
        match self@.phase {
            RoundPhase::Pass(n) => n <= self@.tasks.len(),
            _ => true,
        }
    }

    /// Empty queues, no round under way.
    pub fn new() -> (r: Self)
        ensures
            r@.ready == Seq::<TaskId>::empty(),
            r@.tasks == Seq::<TaskId>::empty(),
            r@.phase == RoundPhase::Idle,
            r.wf(),
    {
        RunQueue { ready: VecDeque::new(), tasks: VecDeque::new(), phase: RoundPhase::Idle }
    }

    /// Adds a spawned task to the back of the task queue.
    pub fn spawn(&mut self, id: TaskId)
        requires
            old(self).wf(),
        ensures
            final(self).wf(),
            final(self)@ == (RunQueueView { tasks: old(self)@.tasks.push(id), ..old(self)@ }),
    {
        self.tasks.push_back(id);
    }

    /// Starts a round.
    pub fn start_round(&mut self)
        requires
            old(self).wf(),
        ensures
            final(self).wf(),
            final(self)@ == (RunQueueView { phase: RoundPhase::DrainReady, ..old(self)@ }),
    {
        self.phase = RoundPhase::DrainReady;
    }

    /// The next task to poll in this round: first the ready queue, then one pass
    /// over the task queue as it stands when the pass begins; `None` ends the
    /// round.
    pub fn next_task(&mut self) -> (r: Option<TaskId>)
        requires
            old(self).wf(),
        ensures
            final(self).wf(),
            (final(self)@, r) == next_of(old(self)@),
    {
        match self.phase {
            RoundPhase::Idle => None,
            RoundPhase::DrainReady => {
                if let Some(id) = self.ready.pop_front() {
                    Some(id)
                } else if self.tasks.len() > 0 {
                    let n = self.tasks.len() - 1;
                    let id = self.tasks.pop_front();
                    self.phase = RoundPhase::Pass(n);
                    id
                } else {
                    self.phase = RoundPhase::Idle;
                    None
                }
            },
            RoundPhase::Pass(n) => {
                if n > 0 && self.tasks.len() > 0 {
                    let id = self.tasks.pop_front();
                    self.phase = RoundPhase::Pass(n - 1);
                    id
                } else {
                    self.phase = RoundPhase::Idle;
                    None
                }
            },
        }
    }

    /// Takes the outcome of polling `id`: a task that is still pending goes to
    /// the back of the task queue; a completed one is dropped.
    pub fn report(&mut self, id: TaskId, pending: bool)
        requires
            old(self).wf(),
        ensures
            final(self).wf(),
            pending ==> final(self)@ == (RunQueueView { tasks: old(self)@.tasks.push(id), ..old(self)@ }),
            !pending ==> final(self)@ == old(self)@,
    {
        if pending {
            self.tasks.push_back(id);
        }
    }
}

/// No task is lost or made up: handing out a task takes exactly that one task
/// out of the queues (it was there), and ending a round takes nothing out.
pub proof fn law_tasks_conserved(q: RunQueueView)
    ensures
        ({
            let (t, r) = next_of(q);
            match r {
                Some(id) => {
                    &&& (q.ready + q.tasks).contains(id)
                    &&& (t.ready + t.tasks).to_multiset() == (q.ready + q.tasks).to_multiset().remove(id)
                },
                Option::None => t.ready == q.ready && t.tasks == q.tasks,
            }
        }),
{
    let (t, r) = next_of(q);
    if let Some(id) = r {
        let all = q.ready + q.tasks;
        let k = if q.phase == RoundPhase::DrainReady && q.ready.len() > 0 {
            0
        } else {
            q.ready.len() as int
        };
        assert(all[k] == id);
        assert(t.ready + t.tasks =~= all.remove(k));
        vstd::seq_lib::to_multiset_remove(all, k);
    }
}

} // verus!
