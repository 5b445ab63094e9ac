//! The client worker: one connection and a pool of producer workers.
use vstd::prelude::*;
use crate::perf::config::DynamicConfig;
use crate::perf::pool::{deficit, fill_count, grow_to, make_worker_name, newest_first, shrink_to, worker_name};

verus! {

/// What a client worker holds, as a value.
pub struct ClientView<C, P> {
    pub id: u32,
    pub connection: C,
    pub running: bool,
    pub producers: Seq<P>,
}

/// A client worker: its position `id`, the connection `C` its producers
/// publish through, whether it is meant to run, and its producers `P`,
/// oldest first.
pub struct ClientWorker<C, P> {
    id: u32,
    connection: C,
    running: bool,
    producers: Vec<P>,
}

impl<C, P> View for ClientWorker<C, P> {
    type V = ClientView<C, P>;

    closed spec fn view(&self) -> ClientView<C, P> {
        ClientView { id: self.id, connection: self.connection, running: self.running, producers: self.producers@ }
    }
}

/// How many producers a client in state `c` is meant to own under `config`.
pub open spec fn desired_producers<C, P>(c: ClientView<C, P>, config: DynamicConfig) -> nat {
    if c.running { config.num_producers_per_client as nat } else { 0 }
}

/// The producers a pool `current` holds after reconciling towards `desired`,
/// given the newly built producers `built`.
pub open spec fn reconciled_producers<P>(current: Seq<P>, desired: nat, built: Seq<P>) -> Seq<P> {
    if current.len() > desired {
        current.take(desired as int)
    } else {
        current + built.take(fill_count(current.len(), desired, built.len()) as int)
    }
}

/// The producers a pool `current` retires when reconciling towards `desired`,
/// newest first.
pub open spec fn retired_producers<P>(current: Seq<P>, desired: nat) -> Seq<P> {
    if current.len() > desired {
        newest_first(current, (current.len() - desired) as nat)
    } else {
        Seq::empty()
    }
}

/// The newly built producers a pool `current` does not take when reconciling
/// towards `desired`.
pub open spec fn unused_producers<P>(current: Seq<P>, desired: nat, built: Seq<P>) -> Seq<P> {
    if current.len() > desired {
        built
    } else {
        built.skip(fill_count(current.len(), desired, built.len()) as int)
    }
}

impl<C, P> ClientWorker<C, P> {
    /// A stopped client worker with no producers.
    pub fn new(id: u32, connection: C) -> (r: ClientWorker<C, P>)
        ensures
            r@ == (ClientView::<C, P> { id, connection, running: false, producers: Seq::empty() }),
    {
        let r = ClientWorker { id, connection, running: false, producers: Vec::new() };
        assert(r@.producers =~= Seq::<P>::empty());
        r
    }

    pub fn id(&self) -> (r: u32)
        ensures
            r == self@.id,
    {
        self.id
    }

    pub fn connection(&self) -> (r: &C)
        ensures
            *r == self@.connection,
    {
        &self.connection
    }

    pub fn is_running(&self) -> (r: bool)
        ensures
            r == self@.running,
    {
        self.running
    }

    pub fn producer_count(&self) -> (r: usize)
        ensures
            r == self@.producers.len(),
    {
        self.producers.len()
    }

    pub fn producer(&self, index: usize) -> (r: &P)
        requires
            index < self@.producers.len(),
        ensures
            *r == self@.producers[index as int],
    {
        &self.producers[index]
    }

    /// Marks the client as meant to run; its next reconcile fills its pool.
    pub fn start(&mut self)
        ensures
            final(self)@ == (ClientView { running: true, ..old(self)@ }),
    {
        self.running = true;
    }

    /// Marks the client as stopped; its next reconcile drains its pool.
    pub fn stop(&mut self)
        ensures
            final(self)@ == (ClientView { running: false, ..old(self)@ }),
    {
        self.running = false;
    }

    pub fn desired_producers(&self, config: &DynamicConfig) -> (r: usize)
        ensures
            r == desired_producers(self@, *config),
    {
        if self.running {
            config.num_producers_per_client as usize
        } else {
            0
        }
    }

    /// How many producers must be built for the pool to reach its desired size.
    pub fn producer_deficit(&self, config: &DynamicConfig) -> (r: usize)
        ensures
            r == deficit(self@.producers.len(), desired_producers(self@, *config)),
    {
        let desired = self.desired_producers(config);
        if self.producers.len() >= desired {
            0
        } else {
            desired - self.producers.len()
        }
    }

    /// The name of this client's producer at position `index`.
    pub fn producer_name(&self, index: usize) -> (r: String)
        ensures
            r@ == worker_name(self@.id, index),
    {
        make_worker_name(self.id, index)
    }

    /// Brings the producer pool to its desired size: a surplus is retired
    /// newest first, a shortfall is filled from `built` in order. Returns the
    /// retired producers, to be stopped in that order, and the built ones
    /// that were not needed.
    pub fn reconcile(&mut self, config: &DynamicConfig, built: Vec<P>) -> (r: (Vec<P>, Vec<P>))
        ensures
            final(self)@.id == old(self)@.id,
            final(self)@.connection == old(self)@.connection,
            final(self)@.running == old(self)@.running,
            final(self)@.producers == reconciled_producers(
                old(self)@.producers,
                desired_producers(old(self)@, *config),
                built@,
            ),
            r.0@ == retired_producers(old(self)@.producers, desired_producers(old(self)@, *config)),
            r.1@ == unused_producers(old(self)@.producers, desired_producers(old(self)@, *config), built@),
            built@.len() >= deficit(old(self)@.producers.len(), desired_producers(old(self)@, *config))
                ==> final(self)@.producers.len() == desired_producers(old(self)@, *config),
    {
        let desired = self.desired_producers(config);
        if self.producers.len() > desired {
            let retired = shrink_to(&mut self.producers, desired);
            (retired, built)
        } else {
            let unused = grow_to(&mut self.producers, desired, built);
            (Vec::new(), unused)
        }
    }
}

/// Reconciling a pool down to `desired` producers retires exactly the
/// surplus, newest first, and keeps the producers created first, in order.
pub proof fn lemma_shrink_keeps_oldest<P>(current: Seq<P>, desired: nat, built: Seq<P>)
    requires
        desired < current.len(),
    ensures
        retired_producers(current, desired).len() == current.len() - desired,
        forall|j: int| 0 <= j < current.len() - desired ==> #[trigger] retired_producers(current, desired)[j]
            == current[current.len() - 1 - j],
        reconciled_producers(current, desired, built).len() == desired,
        forall|i: int| 0 <= i < desired ==> #[trigger] reconciled_producers(current, desired, built)[i] == current[i],
{
}

} // verus!
