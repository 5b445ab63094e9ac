//! The ticker's decisions: its lifecycle, its rate, and when its limiter changes.
use vstd::prelude::*;
use crate::perf::lifecycle::{LifecycleError, TaskState, task_started, task_stopped};

verus! {

/// The ticker's lifecycle and the rate it is told to keep (`0`: unlimited).
#[derive(Clone, Copy, Debug, PartialEq, Eq, Structural)]
pub struct TickerState {
    pub task: TaskState,
    pub rate: u32,
}

impl TickerState {
    pub fn new() -> (r: TickerState)
        ensures
            !r.task.started,
            r.rate == 0,
    {
        TickerState { task: TaskState::new(), rate: 0 }
    }

    pub fn is_started(&self) -> (r: bool)
        ensures
            r == self.task.started,
    {
        self.task.is_started()
    }

    /// Starts the ticker; fails with `AlreadyRunning`, changing nothing, if it is active.
    pub fn start(&mut self) -> (r: Result<(), LifecycleError>)
        ensures
            (r, final(self).task) == task_started(old(self).task),
            final(self).rate == old(self).rate,
    {
        self.task.start()
    }

    /// Stops the ticker; returns whether there was a running loop to join.
    pub fn stop(&mut self) -> (had_task: bool)
        ensures
            (had_task, final(self).task) == task_stopped(old(self).task),
            final(self).rate == old(self).rate,
    {
        self.task.stop()
    }

    pub fn update_rate(&mut self, rate: u32)
        ensures
            *final(self) == (TickerState { rate, ..*old(self) }),
    {
        self.rate = rate;
    }
}

/// What the generation loop does to its limiter on observing a rate.
#[derive(Clone, Copy, Debug, PartialEq, Eq, Structural)]
pub enum PacingChange {
    /// The rate is the one seen before: keep the limiter as it is.
    Keep,
    /// Build a new limiter for this many permits per second.
    Limit(u32),
    /// Drop the limiter: issue without waiting.
    Unlimited,
}

/// The rate the generation loop last built its limiter for.
#[derive(Clone, Copy, Debug, PartialEq, Eq, Structural)]
pub struct RateGate {
    pub current: u32,
}

impl RateGate {
    /// A gate that starts unlimited.
    pub fn new() -> (r: RateGate)
        ensures
            r.current == 0,
    {
        RateGate { current: 0 }
    }

    /// Observes the configured rate at the top of an iteration; the limiter
    /// changes only when the rate differs from the one last observed.
    pub fn observe(&mut self, rate: u32) -> (c: PacingChange)
        ensures
            rate == old(self).current ==> c == PacingChange::Keep,
            rate != old(self).current && rate > 0 ==> c == PacingChange::Limit(rate),
            rate != old(self).current && rate == 0 ==> c == PacingChange::Unlimited,
            final(self).current == rate,
    {
        if rate == self.current {
            PacingChange::Keep
        } else {
            self.current = rate;
            if rate > 0 {
                PacingChange::Limit(rate)
            } else {
                PacingChange::Unlimited
            }
        }
    }
}

} // verus!
