//! Start/stop bookkeeping shared by the workload's tasks.
use vstd::prelude::*;

verus! {

/// A lifecycle call made in a state that does not allow it.
#[derive(Clone, Copy, Debug, PartialEq, Eq, Structural)]
pub enum LifecycleError {
    AlreadyRunning,
}

/// How loudly an event is reported.
#[derive(Clone, Copy, Debug, PartialEq, Eq, Structural)]
pub enum Severity {
    Error,
    Warn,
    Info,
}

/// Whether a task has been started and not stopped since.
#[derive(Clone, Copy, Debug, PartialEq, Eq, Structural)]
pub struct TaskState {
    pub started: bool,
}

/// The outcome of `start` on `t`, and the state after it.
pub open spec fn task_started(t: TaskState) -> (Result<(), LifecycleError>, TaskState) {
    if t.started {
        (Err(LifecycleError::AlreadyRunning), t)
    } else {
        (Ok(()), TaskState { started: true })
    }
}

/// Whether `stop` on `t` has a running task to join, and the state after it.
pub open spec fn task_stopped(t: TaskState) -> (bool, TaskState) {
    (t.started, TaskState { started: false })
}

impl TaskState {
    pub fn new() -> (r: TaskState)
        ensures
            !r.started,
    {
        TaskState { started: false }
    }

    pub fn is_started(&self) -> (r: bool)
        ensures
            r == self.started,
    {
        self.started
    }

    /// Marks the task started; fails, changing nothing, if it already is.
    pub fn start(&mut self) -> (r: Result<(), LifecycleError>)
        ensures
            (r, *final(self)) == task_started(*old(self)),
    {
        if self.started {
            Err(LifecycleError::AlreadyRunning)
        } else {
            self.started = true;
            Ok(())
        }
    }

    /// Marks the task stopped; returns whether there was a running task to join.
    pub fn stop(&mut self) -> (had_task: bool)
        ensures
            (had_task, *final(self)) == task_stopped(*old(self)),
    {
        let had_task = self.started;
        self.started = false;
        had_task
    }
}

/// A second `start` without a `stop` in between fails and changes nothing.
pub proof fn lemma_task_start_twice_fails(t: TaskState)
    ensures
        task_started(task_started(t).1).0 == Err::<(), LifecycleError>(LifecycleError::AlreadyRunning),
        task_started(task_started(t).1).1 == task_started(t).1,
{
}

/// `stop` is idempotent: a second one finds nothing to join and changes nothing.
pub proof fn lemma_task_stop_idempotent(t: TaskState)
    ensures
        !task_stopped(task_stopped(t).1).0,
        task_stopped(task_stopped(t).1).1 == task_stopped(t).1,
{
}

/// How a closed channel is reported: as an error only while its task was
/// still meant to run; otherwise it is the expected end of a shutdown.
pub fn closed_channel_severity(still_running: bool) -> (s: Severity)
    ensures
        still_running ==> s == Severity::Error,
        !still_running ==> s == Severity::Info,
{
    if still_running {
        Severity::Error
    } else {
        Severity::Info
    }
}

} // verus!
