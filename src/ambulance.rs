use vstd::prelude::*;

verus! {

/// Capacity of the worker's task queue.
pub const WORKER_QUEUE_SIZE: usize = 2048;

/// Number of queued tasks past which the service counts as degraded.
pub const SVC_DEGRADED_THRESHOLD: usize = 128;

/// Whether a health round may be queued when the worker queue has
/// `free_capacity` free slots.
pub open spec fn may_enqueue(free_capacity: usize) -> bool {
    free_capacity >= WORKER_QUEUE_SIZE - SVC_DEGRADED_THRESHOLD
}

/// What one tick of the health-check timer does.
#[derive(Clone, Copy, Debug, PartialEq, Eq, Structural)]
pub enum Tick {
    /// The first, immediate tick: skipped.
    WarmUp,
    /// Too little free room in the worker queue: skipped.
    Degraded,
    /// Run a round of health checks over all projects.
    CheckHealth,
}

/// The periodic health-check scheduler.
#[derive(Clone, Copy, Debug, PartialEq, Eq, Structural)]
pub struct Ambulance {
    /// Whether the first tick has passed.
    pub warmed_up: bool,
}

impl Ambulance {
    /// A scheduler before its first tick.
    pub fn new() -> (r: Ambulance)
        ensures
            !r.warmed_up,
    {
        Ambulance { warmed_up: false }
    }

    /// Decides what a tick does, given the free room in the worker queue.
    /// A round is started only when the free room is at least
    /// `WORKER_QUEUE_SIZE - SVC_DEGRADED_THRESHOLD`, and never on the first tick.
    pub fn tick(&mut self, free_capacity: usize) -> (r: Tick)
        ensures
            final(self).warmed_up,
            !old(self).warmed_up ==> r == Tick::WarmUp,
            old(self).warmed_up ==> (r == Tick::CheckHealth <==> may_enqueue(free_capacity)),
            old(self).warmed_up ==> (r == Tick::Degraded <==> !may_enqueue(free_capacity)),
            r == Tick::CheckHealth ==> may_enqueue(free_capacity),
    {
        if !self.warmed_up {
            self.warmed_up = true;
            Tick::WarmUp
        } else if free_capacity < WORKER_QUEUE_SIZE - SVC_DEGRADED_THRESHOLD {
            Tick::Degraded
        } else {
            Tick::CheckHealth
        }
    }
}

/// One round of health checks over a snapshot of the projects, queued one at
/// a time: the next check is queued only once the previous one completed.
#[derive(Debug)]
pub struct HealthRound {
    pub projects: Vec<String>,
    /// Index of the next project to check.
    pub next: usize,
    /// Whether a queued check has not completed yet.
    pub in_flight: bool,
}

impl HealthRound {
    pub open spec fn wf(&self) -> bool {
        self.next <= self.projects@.len()
    }

    /// A round over `projects`, none checked yet.
    pub fn new(projects: Vec<String>) -> (r: HealthRound)
        ensures
            r.wf(),
            r.projects@ == projects@,
            r.next == 0,
            !r.in_flight,
    {
        HealthRound { projects, next: 0, in_flight: false }
    }

    /// Whether every project of the round has been queued and checked.
    pub fn finished(&self) -> (r: bool)
        requires
            self.wf(),
        ensures
            r == (self.next == self.projects@.len() && !self.in_flight),
    {
        self.next == self.projects.len() && !self.in_flight
    }

    /// The index of the project whose check is to be queued now, if any: none
    /// while a check is in flight or once all were queued.
    pub fn enqueue_next(&mut self) -> (r: Option<usize>)
        requires
            old(self).wf(),
        ensures
            final(self).wf(),
            final(self).projects@ == old(self).projects@,
            old(self).in_flight || old(self).next == old(self).projects@.len() ==> r is None
                && *final(self) == *old(self),
            !old(self).in_flight && old(self).next < old(self).projects@.len() ==> r == Some(
                old(self).next,
            ) && final(self).next == old(self).next + 1 && final(self).in_flight,
    {
        if self.in_flight || self.next == self.projects.len() {
            None
        } else {
            let i = self.next;
            self.next = i + 1;
            self.in_flight = true;
            Some(i)
        }
    }

    /// Records that the check in flight completed.
    pub fn completed(&mut self)
        requires
            old(self).wf(),
        ensures
            final(self).wf(),
            final(self).projects@ == old(self).projects@,
            final(self).next == old(self).next,
            !final(self).in_flight,
    {
        self.in_flight = false;
    }
}

} // verus!
