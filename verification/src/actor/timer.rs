//! The registry of a timer's scheduled jobs.
use vstd::prelude::*;
use std::collections::BTreeMap;

verus! {

broadcast use vstd::std_specs::btree::group_btree_axioms;

/// The identifier of a scheduled job (the 128 bits of a random UUID).
#[derive(Clone, Copy, Debug, PartialEq, Eq, Structural, Hash)]
pub struct ScheduleId(pub u128);

/// What the timer is asked to do; `D` is a duration and `F` what a job does
/// when it fires.
pub enum Job<D, F> {
    /// Fire `send` after `initial_delay`, then every `interval`.
    Interval { id: ScheduleId, initial_delay: D, interval: D, send: F },
    /// Fire `send` once, after `delay`.
    Once { id: ScheduleId, delay: D, send: F },
    /// Stop the job `id`.
    Cancel { id: ScheduleId },
}

/// The running jobs of a timer, by identifier; `H` is the handle of the
/// task that runs a job.
pub struct TimerTasks<H> {
    tasks: BTreeMap<u128, H>,
}

impl<H> TimerTasks<H> {
    pub closed spec fn view(&self) -> Map<u128, H> {
        self.tasks@
    }

    pub fn new() -> (r: Self)
        ensures
            r@ == Map::<u128, H>::empty(),
    {
        TimerTasks { tasks: BTreeMap::new() }
    }

    /// Records the task that runs the job `id`. A task already recorded
    /// under that identifier is forgotten (not stopped), and returned.
    pub fn register(&mut self, id: ScheduleId, handle: H) -> (r: Option<H>)
        ensures
            final(self)@ == old(self)@.insert(id.0, handle),
            match r {
                Some(h) => old(self)@.contains_key(id.0) && h == old(self)@[id.0],
                None => !old(self)@.contains_key(id.0),
            },
    {
        self.tasks.insert(id.0, handle)
    }

    /// The task to stop to cancel the job `id`, if it was ever recorded.
    /// The task stays recorded.
    pub fn cancel(&self, id: ScheduleId) -> (r: Option<&H>)
        ensures
            match r {
                Some(h) => self@.contains_key(id.0) && *h == self@[id.0],
                None => !self@.contains_key(id.0),
            },
    {
        self.tasks.get(&id.0)
    }
}

/// The size of the timer's queue of jobs.
pub const TIMER_QUEUE_CAPACITY: usize = 100;

} // verus!
