use vstd::prelude::*;

use std::collections::VecDeque;

use crate::ambulance::WORKER_QUEUE_SIZE;
use crate::proxy::ProjectState;

verus! {

/// What a task does to its project.
#[derive(Clone, Copy, Debug, PartialEq, Eq, Structural)]
pub enum TaskKind {
    /// Bring the recorded state in line with the running container.
    Refresh,
    /// Check that a ready project still answers.
    CheckHealth,
    Start,
    Stop,
    Destroy,
}

/// A unit of work for the worker: a step of one project's state machine.
#[derive(Clone, Debug, PartialEq, Eq)]
pub struct Task {
    pub project: String,
    pub kind: TaskKind,
}

/// The worker's bounded queue of tasks, served first in, first out, so that
/// the tasks of one project run in the order they were sent.
#[derive(Debug)]
pub struct WorkerQueue {
    tasks: VecDeque<Task>,
}

impl WorkerQueue {
    /// The queued tasks, oldest first.
    pub closed spec fn view(&self) -> Seq<Task> {
        self.tasks@
    }

    pub open spec fn wf(&self) -> bool {
        self.view().len() <= WORKER_QUEUE_SIZE
    }

    /// An empty queue.
    pub fn new() -> (r: WorkerQueue)
        ensures
            r.wf(),
            r.view() == Seq::<Task>::empty(),
    {
        WorkerQueue { tasks: VecDeque::new() }
    }

    /// Number of queued tasks.
    pub fn len(&self) -> (r: usize)
        ensures
            r == self.view().len(),
    {
        self.tasks.len()
    }

    /// Number of free slots.
    pub fn capacity(&self) -> (r: usize)
        requires
            self.wf(),
        ensures
            r == WORKER_QUEUE_SIZE - self.view().len(),
    {
        WORKER_QUEUE_SIZE - self.tasks.len()
    }

    /// Queues `t` behind the others; a full queue hands it back unchanged.
    pub fn send(&mut self, t: Task) -> (r: Result<(), Task>)
        requires
            old(self).wf(),
        ensures
            final(self).wf(),
            old(self).view().len() < WORKER_QUEUE_SIZE ==> r is Ok && final(self).view()
                == old(self).view().push(t),
            old(self).view().len() == WORKER_QUEUE_SIZE ==> r == Err::<(), Task>(t)
                && final(self).view() == old(self).view(),
    {
        if self.tasks.len() < WORKER_QUEUE_SIZE {
            self.tasks.push_back(t);
            Ok(())
        } else {
            Err(t)
        }
    }

    /// Takes the oldest task, if any.
    pub fn next(&mut self) -> (r: Option<Task>)
        requires
            old(self).wf(),
        ensures
            final(self).wf(),
            old(self).view().len() == 0 ==> r is None && final(self).view() == old(self).view(),
            old(self).view().len() > 0 ==> r == Some(old(self).view()[0]) && final(self).view()
                == old(self).view().drop_first(),
    {
        self.tasks.pop_front()
    }
}

/// What a task's step decided for its project.
#[derive(Clone, Copy, Debug, PartialEq, Eq, Structural)]
pub enum StepOutcome {
    /// Move the project to this state.
    Next(ProjectState),
    /// The step does not apply to the project's current state.
    Refused,
}

/// The project's state after a step, and whether it is to be persisted: a
/// refused step leaves the state as it was and writes nothing.
pub fn apply_step(current: ProjectState, outcome: StepOutcome) -> (r: (ProjectState, bool))
    ensures
        outcome matches StepOutcome::Next(s) ==> r == (s, true),
        outcome is Refused ==> r == (current, false),
{
    match outcome {
        StepOutcome::Next(s) => (s, true),
        StepOutcome::Refused => (current, false),
    }
}

} // verus!
