//! The producer worker's own state and the payloads it publishes.
use vstd::prelude::*;
use crate::perf::lifecycle::{LifecycleError, TaskState, task_started, task_stopped};

verus! {

/// Permission for one publish, handed from the ticker to a producer worker.
#[derive(Debug)]
pub struct Message {}

/// Acknowledgement that a permitted publish went through.
#[derive(Debug)]
pub struct MessageReceipt {}

/// The byte every generated payload is filled with.
pub const PAYLOAD_BYTE: u8 = 97;

/// A payload of `message_size` bytes.
pub fn generate_content(message_size: usize) -> (r: Vec<u8>)
    ensures
        r@.len() == message_size,
        forall|i: int| 0 <= i < message_size ==> r@[i] == PAYLOAD_BYTE,
{
    let mut v: Vec<u8> = Vec::with_capacity(message_size);
    let mut i: usize = 0;
    while i < message_size
        invariant
            i <= message_size,
            v@.len() == i,
            forall|j: int| 0 <= j < i ==> v@[j] == PAYLOAD_BYTE,
        decreases message_size - i,
    {
        v.push(PAYLOAD_BYTE);
        i = i + 1;
    }
    v
}

/// Whether a receipt goes back to the ticker after a publish: only after one
/// that succeeded. A failed publish is reported and the worker goes on.
pub fn receipt_owed(published: bool) -> (r: bool)
    ensures
        r == published,
{
    published
}

/// A producer worker's name and lifecycle.
pub struct ProducerWorker {
    name: String,
    task: TaskState,
}

impl View for ProducerWorker {
    type V = (Seq<char>, TaskState);

    closed spec fn view(&self) -> (Seq<char>, TaskState) {
        (self.name@, self.task)
    }
}

impl ProducerWorker {
    pub fn new(name: String) -> (r: ProducerWorker)
        ensures
            r@ == (name@, TaskState { started: false }),
    {
        ProducerWorker { name, task: TaskState::new() }
    }

    pub fn name(&self) -> (r: &String)
        ensures
            r@ == self@.0,
    {
        &self.name
    }

    pub fn is_started(&self) -> (r: bool)
        ensures
            r == self@.1.started,
    {
        self.task.is_started()
    }

    /// Starts the consume loop; fails, changing nothing, if it already runs.
    pub fn start(&mut self) -> (r: Result<(), LifecycleError>)
        ensures
            (r, final(self)@.1) == task_started(old(self)@.1),
            final(self)@.0 == old(self)@.0,
    {
        self.task.start()
    }

    /// Stops the consume loop; returns whether there was a loop to join.
    pub fn stop(&mut self) -> (had_task: bool)
        ensures
            (had_task, final(self)@.1) == task_stopped(old(self)@.1),
            final(self)@.0 == old(self)@.0,
    {
        self.task.stop()
    }
}

} // verus!
