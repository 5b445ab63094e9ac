//! The control plane: sole owner of the live configuration and of the
//! worker topology, which it reconciles towards that configuration.
use vstd::prelude::*;
use crate::perf::client::{ClientView, ClientWorker, reconciled_producers, retired_producers};
use crate::perf::config::{DynamicConfig, DynamicConfigPatch, patched};
use crate::perf::lifecycle::{LifecycleError, TaskState};
use crate::perf::pool::{deficit, fill_count, shrink_to};
use crate::perf::ticker::TickerState;

verus! {

/// A request to the control loop.
#[derive(Clone, Copy, Debug, PartialEq, Eq, Structural)]
pub enum ControlRequest {
    UpdateConfig(DynamicConfigPatch),
    Stop,
}

/// The control loop's answer to a request.
#[derive(Clone, Copy, Debug, PartialEq, Eq, Structural)]
pub enum ControlReply {
    /// The full configuration after an update.
    Config(DynamicConfig),
    /// The loop ends: run the final reconcile and exit.
    Exit,
}

/// What the ticker task must be made to do after a reconcile.
#[derive(Clone, Copy, Debug, PartialEq, Eq, Structural)]
pub enum TickerAction {
    /// Keep issuing at `rate`; spawn the generation loop first if `start`.
    Run { rate: u32, start: bool },
    /// Stop issuing; join the generation loop if `join`.
    Halt { join: bool },
}

/// What the control plane holds, as a value.
pub struct PlaneView<C, P> {
    pub running: bool,
    pub config: DynamicConfig,
    pub ticker: TickerState,
    pub clients: Seq<ClientView<C, P>>,
}

/// The control plane, generic over the connection `C` of a client worker and
/// the handle `P` of a producer worker.
pub struct ControlPlane<C, P> {
    running: bool,
    config: DynamicConfig,
    ticker: TickerState,
    clients: Vec<ClientWorker<C, P>>,
}

impl<C, P> View for ControlPlane<C, P> {
    type V = PlaneView<C, P>;

    closed spec fn view(&self) -> PlaneView<C, P> {
        PlaneView {
            running: self.running,
            config: self.config,
            ticker: self.ticker,
            clients: self.clients@.map_values(|c: ClientWorker<C, P>| c@),
        }
    }
}

/// Every client sits at the position its id names and is meant to run.
pub open spec fn well_formed<C, P>(v: PlaneView<C, P>) -> bool {
    &&& v.clients.len() <= u32::MAX
    &&& forall|i: int| 0 <= i < v.clients.len() ==> (#[trigger] v.clients[i]).id == i && v.clients[i].running
}

/// How many client workers the plane is meant to have.
pub open spec fn desired_clients<C, P>(v: PlaneView<C, P>) -> nat {
    if v.running { v.config.num_clients as nat } else { 0 }
}

/// How many producers each client worker is meant to have.
pub open spec fn desired_per_client<C, P>(v: PlaneView<C, P>) -> nat {
    if v.running { v.config.num_producers_per_client as nat } else { 0 }
}

/// How many of the current clients survive a reconcile.
pub open spec fn kept_clients<C, P>(v: PlaneView<C, P>) -> nat {
    if v.clients.len() <= desired_clients(v) { v.clients.len() } else { desired_clients(v) }
}

/// The topology matches the configuration: the configured number of
/// clients, each with the configured number of producers, and the ticker
/// running at the configured rate exactly when the system runs.
pub open spec fn converged<C, P>(v: PlaneView<C, P>) -> bool {
    &&& v.clients.len() == desired_clients(v)
    &&& forall|i: int| 0 <= i < v.clients.len() ==> (#[trigger] v.clients[i]).producers.len() == desired_per_client(v)
    &&& v.ticker.task.started == v.running
    &&& v.running ==> v.ticker.rate == v.config.rate
}

/// The outcome of `start` on `v`, and the state after it.
pub open spec fn plane_started<C, P>(v: PlaneView<C, P>) -> (Result<(), LifecycleError>, PlaneView<C, P>) {
    if v.running {
        (Err(LifecycleError::AlreadyRunning), v)
    } else {
        (Ok(()), PlaneView { running: true, ..v })
    }
}

/// Whether `stop` on `v` has a control loop to wake and join, and the state after it.
pub open spec fn plane_stopped<C, P>(v: PlaneView<C, P>) -> (bool, PlaneView<C, P>) {
    (v.running, PlaneView { running: false, ..v })
}

/// The reply to `request` in state `v`, and the state after it.
pub open spec fn plane_handled<C, P>(v: PlaneView<C, P>, request: ControlRequest) -> (ControlReply, PlaneView<C, P>) {
    match request {
        ControlRequest::UpdateConfig(p) => (
            ControlReply::Config(patched(v.config, p)),
            PlaneView { config: patched(v.config, p), ..v },
        ),
        ControlRequest::Stop => (ControlReply::Exit, v),
    }
}

/// The ticker action of a reconcile in state `v`, and the ticker after it.
pub open spec fn reconciled_ticker<C, P>(v: PlaneView<C, P>) -> (TickerAction, TickerState) {
    if v.running {
        (
            TickerAction::Run { rate: v.config.rate, start: !v.ticker.task.started },
            TickerState { task: TaskState { started: true }, rate: v.config.rate },
        )
    } else {
        (
            TickerAction::Halt { join: v.ticker.task.started },
            TickerState { task: TaskState { started: false }, ..v.ticker },
        )
    }
}

/// The producers built for the `i`-th surviving client, if any were.
pub open spec fn built_for<P>(additions: Seq<Vec<P>>, i: int) -> Seq<P> {
    if 0 <= i < additions.len() { additions[i]@ } else { Seq::empty() }
}

/// The inputs of a reconcile in state `v` cover every worker it must build.
pub open spec fn complete_inputs<C, P>(v: PlaneView<C, P>, additions: Seq<Vec<P>>, new_clients: Seq<(C, Vec<P>)>) -> bool {
    &&& forall|i: int| 0 <= i < kept_clients(v) ==>
        #[trigger] built_for(additions, i).len() >= deficit(v.clients[i].producers.len(), desired_per_client(v))
    &&& new_clients.len() >= desired_clients(v) - kept_clients(v)
    &&& forall|j: int| 0 <= j < new_clients.len() ==> (#[trigger] new_clients[j]).1@.len() >= desired_per_client(v)
}

/// What a reconcile plans to build: producers for each surviving client,
/// then whole new clients.
pub struct ReconcilePlan {
    /// For each surviving client, in order, how many producers to build.
    pub producers_needed: Vec<usize>,
    /// How many new clients to connect.
    pub clients_needed: usize,
    /// How many producers to build for each new client.
    pub producers_per_new_client: usize,
}

/// What a reconcile hands back for the caller to carry out.
pub struct Reconciled<C, P> {
    pub ticker: TickerAction,
    /// Clients retired newest first, already marked stopped, each still
    /// holding its producers.
    pub retired_clients: Vec<ClientWorker<C, P>>,
    /// For each surviving client, in order, the producers it retired, newest first.
    pub retired_producers: Vec<Vec<P>>,
}

impl<C, P> ControlPlane<C, P> {
    /// A stopped plane with no workers and the given initial configuration.
    pub fn new(config: DynamicConfig) -> (r: ControlPlane<C, P>)
        ensures
            r@.running == false,
            r@.config == config,
            !r@.ticker.task.started,
            r@.ticker.rate == 0,
            r@.clients.len() == 0,
            well_formed(r@),
    {
        ControlPlane { running: false, config, ticker: TickerState::new(), clients: Vec::new() }
    }

    pub fn is_running(&self) -> (r: bool)
        ensures
            r == self@.running,
    {
        self.running
    }

    /// A snapshot of the live configuration.
    pub fn config(&self) -> (r: DynamicConfig)
        ensures
            r == self@.config,
    {
        self.config
    }

    pub fn ticker(&self) -> (r: TickerState)
        ensures
            r == self@.ticker,
    {
        self.ticker
    }

    pub fn client_count(&self) -> (r: usize)
        ensures
            r == self@.clients.len(),
    {
        self.clients.len()
    }

    pub fn client(&self, index: usize) -> (r: &ClientWorker<C, P>)
        requires
            index < self@.clients.len(),
        ensures
            r@ == self@.clients[index as int],
    {
        &self.clients[index]
    }

    /// The number of producers over all clients.
    pub fn producer_count(&self) -> (r: usize)
        requires
            total_producers(self@.clients) <= usize::MAX,
        ensures
            r == total_producers(self@.clients),
    {
        let mut total: usize = 0;
        let mut i: usize = 0;
        while i < self.clients.len()
            invariant
                i <= self.clients@.len(),
                self@.clients.len() == self.clients@.len(),
                total == total_producers(self@.clients.take(i as int)),
                total_producers(self@.clients) <= usize::MAX,
            decreases self.clients@.len() - i,
        {
            proof {
                lemma_total_producers_take(self@.clients, i as int);
                lemma_total_producers_prefix_bounded(self@.clients, (i + 1) as int);
            }
            total = total + self.clients[i].producer_count();
            i = i + 1;
        }
        assert(self@.clients.take(i as int) =~= self@.clients);
        total
    }

    /// Moves the system to Running; fails with `AlreadyRunning`, changing
    /// nothing, if it already runs.
    pub fn start(&mut self) -> (r: Result<(), LifecycleError>)
        ensures
            (r, final(self)@) == plane_started(old(self)@),
    {
        if self.running {
            Err(LifecycleError::AlreadyRunning)
        } else {
            self.running = true;
            Ok(())
        }
    }

    /// Moves the system to Stopped; returns whether a control loop must be
    /// woken with a `Stop` request and joined.
    pub fn stop(&mut self) -> (r: bool)
        ensures
            (r, final(self)@) == plane_stopped(old(self)@),
    {
        let was_running = self.running;
        self.running = false;
        was_running
    }

    /// Processes one request of the control loop.
    pub fn handle(&mut self, request: ControlRequest) -> (r: ControlReply)
        ensures
            (r, final(self)@) == plane_handled(old(self)@, request),
    {
        match request {
            ControlRequest::UpdateConfig(patch) => {
                self.config.apply(&patch);
                ControlReply::Config(self.config)
            },
            ControlRequest::Stop => ControlReply::Exit,
        }
    }

    pub fn desired_clients(&self) -> (r: usize)
        ensures
            r == desired_clients(self@),
    {
        if self.running {
            self.config.num_clients as usize
        } else {
            0
        }
    }

    /// What the next reconcile needs built.
    pub fn plan(&self) -> (r: ReconcilePlan)
        requires
            well_formed(self@),
        ensures
            r.producers_needed@.len() == kept_clients(self@),
            forall|i: int| 0 <= i < kept_clients(self@) ==> #[trigger] r.producers_needed@[i]
                == deficit(self@.clients[i].producers.len(), desired_per_client(self@)),
            r.clients_needed == desired_clients(self@) - kept_clients(self@),
            r.producers_per_new_client == desired_per_client(self@),
    {
        let desired = self.desired_clients();
        let kept = if self.clients.len() <= desired { self.clients.len() } else { desired };
        let per_client: usize = if self.running { self.config.num_producers_per_client as usize } else { 0 };
        let mut needed: Vec<usize> = Vec::new();
        let mut i: usize = 0;
        while i < kept
            invariant
                kept == kept_clients(self@),
                kept <= self.clients@.len(),
                self@.clients.len() == self.clients@.len(),
                per_client == desired_per_client(self@),
                well_formed(self@),
                i <= kept,
                needed@.len() == i,
                forall|k: int| 0 <= k < i ==> #[trigger] needed@[k]
                    == deficit(self@.clients[k].producers.len(), desired_per_client(self@)),
            decreases kept - i,
        {
            assert(self@.clients[i as int] == self.clients@[i as int]@);
            assert(self@.clients[i as int].running);
            let d = self.clients[i].producer_deficit(&self.config);
            needed.push(d);
            i = i + 1;
        }
        ReconcilePlan { producers_needed: needed, clients_needed: desired - kept, producers_per_new_client: per_client }
    }
}

impl<C, P> ControlPlane<C, P> {
    /// One reconcile pass. The ticker is told the configured rate and started
    /// if the system runs, stopped otherwise. Clients beyond the desired
    /// count are retired newest first; each surviving client reconciles its
    /// producers using the matching entry of `additions`; new clients are
    /// appended from `new_clients` (a connection and its built producers)
    /// up to the desired count. When the inputs cover the plan, the topology
    /// ends converged.
    pub fn reconcile(&mut self, additions: Vec<Vec<P>>, new_clients: Vec<(C, Vec<P>)>) -> (r: Reconciled<C, P>)
        requires
            well_formed(old(self)@),
        ensures
            well_formed(final(self)@),
            final(self)@.running == old(self)@.running,
            final(self)@.config == old(self)@.config,
            (r.ticker, final(self)@.ticker) == reconciled_ticker(old(self)@),
            final(self)@.clients.len() == kept_clients(old(self)@) + fill_count(
                kept_clients(old(self)@),
                desired_clients(old(self)@),
                new_clients@.len(),
            ),
            forall|i: int| 0 <= i < kept_clients(old(self)@) ==> #[trigger] final(self)@.clients[i] == (ClientView {
                producers: reconciled_producers(
                    old(self)@.clients[i].producers,
                    desired_per_client(old(self)@),
                    built_for(additions@, i),
                ),
                ..old(self)@.clients[i]
            }),
            forall|j: int| kept_clients(old(self)@) <= j < final(self)@.clients.len() ==> #[trigger] final(self)@.clients[j] == (ClientView {
                id: j as u32,
                connection: new_clients@[j - kept_clients(old(self)@)].0,
                running: true,
                producers: reconciled_producers(
                    Seq::empty(),
                    desired_per_client(old(self)@),
                    new_clients@[j - kept_clients(old(self)@)].1@,
                ),
            }),
            r.retired_clients@.len() == old(self)@.clients.len() - kept_clients(old(self)@),
            forall|j: int| 0 <= j < r.retired_clients@.len() ==> #[trigger] r.retired_clients@[j]@ == (ClientView {
                running: false,
                ..old(self)@.clients[old(self)@.clients.len() - 1 - j]
            }),
            r.retired_producers@.len() == kept_clients(old(self)@),
            forall|i: int| 0 <= i < kept_clients(old(self)@) ==> #[trigger] r.retired_producers@[i]@
                == retired_producers(old(self)@.clients[i].producers, desired_per_client(old(self)@)),
            !old(self)@.running ==> final(self)@.clients.len() == 0 && !final(self)@.ticker.task.started,
            complete_inputs(old(self)@, additions@, new_clients@) ==> converged(final(self)@),
    {
        let ghost v = self@;
        let desired = self.desired_clients();
        let kept = if self.clients.len() <= desired { self.clients.len() } else { desired };

        let ticker = if self.running {
            self.ticker.update_rate(self.config.rate);
            let start = !self.ticker.is_started();
            if start {
                let _ = self.ticker.start();
            }
            TickerAction::Run { rate: self.config.rate, start }
        } else {
            let join = self.ticker.stop();
            TickerAction::Halt { join }
        };

        let ghost before = self.clients@;
        let mut retiring = shrink_to(&mut self.clients, desired);
        let ghost retiring_start = retiring@;
        assert(forall|k: int| 0 <= k < before.len() ==> #[trigger] before[k]@ == v.clients[k]);
        assert forall|j: int| 0 <= j < retiring_start.len() implies #[trigger] retiring_start[j]@
            == v.clients[v.clients.len() - 1 - j] by {
            assert(retiring_start[j] == before[before.len() - 1 - j]);
        }
        assert forall|k: int| 0 <= k < kept implies #[trigger] self.clients@[k]@ == v.clients[k] by {
            assert(self.clients@[k] == before[k]);
        }
        let mut retired_clients: Vec<ClientWorker<C, P>> = Vec::new();
        while retiring.len() > 0
            invariant
                retiring_start.len() == v.clients.len() - kept,
                forall|j: int| 0 <= j < retiring_start.len() ==> #[trigger] retiring_start[j]@
                    == v.clients[v.clients.len() - 1 - j],
                retiring@ == retiring_start.skip(retired_clients@.len() as int),
                retired_clients@.len() <= retiring_start.len(),
                forall|j: int| 0 <= j < retired_clients@.len() ==> #[trigger] retired_clients@[j]@ == (ClientView {
                    running: false,
                    ..retiring_start[j]@
                }),
            decreases retiring@.len(),
        {
            let mut c = retiring.remove(0);
            c.stop();
            retired_clients.push(c);
            assert(retiring@ =~= retiring_start.skip(retired_clients@.len() as int));
        }

        let mut survivors: Vec<ClientWorker<C, P>> = Vec::new();
        std::mem::swap(&mut survivors, &mut self.clients);
        let ghost surv_start = survivors@;
        let ghost adds = additions@;
        let mut additions = additions;
        let mut retired_lists: Vec<Vec<P>> = Vec::new();
        let mut i: usize = 0;
        while i < kept
            invariant
                surv_start.len() == kept,
                kept == kept_clients(v),
                kept <= v.clients.len(),
                well_formed(v),
                kept > 0 ==> v.running,
                forall|k: int| 0 <= k < kept ==> #[trigger] surv_start[k]@ == v.clients[k],
                i <= kept,
                survivors@ == surv_start.skip(i as int),
                additions@ == adds.skip(if i <= adds.len() { i as int } else { adds.len() as int }),
                self.clients@.len() == i,
                retired_lists@.len() == i,
                self.config == v.config,
                self.running == v.running,
                self.ticker == reconciled_ticker(v).1,
                forall|k: int| 0 <= k < i ==> #[trigger] self.clients@[k]@ == (ClientView {
                    producers: reconciled_producers(v.clients[k].producers, desired_per_client(v), built_for(adds, k)),
                    ..v.clients[k]
                }),
                forall|k: int| 0 <= k < i ==> #[trigger] retired_lists@[k]@
                    == retired_producers(v.clients[k].producers, desired_per_client(v)),
            decreases kept - i,
        {
            let mut c = survivors.remove(0);
            assert(c@ == v.clients[i as int]);
            assert(c@.running);
            let built = if additions.len() > 0 {
                additions.remove(0)
            } else {
                Vec::new()
            };
            assert(built@ == built_for(adds, i as int));
            let (retired, _unused) = c.reconcile(&self.config, built);
            retired_lists.push(retired);
            self.clients.push(c);
            i = i + 1;
            assert(survivors@ =~= surv_start.skip(i as int));
        }

        let ghost nc = new_clients@;
        let mut new_clients = new_clients;
        let mut added: usize = 0;
        while self.clients.len() < desired && new_clients.len() > 0
            invariant
                self.clients@.len() == kept + added,
                added <= fill_count(kept as nat, desired as nat, nc.len()),
                new_clients@ == nc.skip(added as int),
                desired as nat == desired_clients(v),
                self.config == v.config,
                self.running == v.running,
                self.ticker == reconciled_ticker(v).1,
                desired <= u32::MAX,
                forall|k: int| 0 <= k < kept ==> #[trigger] self.clients@[k]@ == (ClientView {
                    producers: reconciled_producers(v.clients[k].producers, desired_per_client(v), built_for(adds, k)),
                    ..v.clients[k]
                }),
                forall|j: int| kept <= j < kept + added ==> #[trigger] self.clients@[j]@ == (ClientView {
                    id: j as u32,
                    connection: nc[j - kept].0,
                    running: true,
                    producers: reconciled_producers(Seq::empty(), desired_per_client(v), nc[j - kept].1@),
                }),
            decreases new_clients@.len(),
        {
            let (connection, built) = new_clients.remove(0);
            let id = self.clients.len() as u32;
            let mut c = ClientWorker::new(id, connection);
            c.start();
            let _ = c.reconcile(&self.config, built);
            self.clients.push(c);
            added = added + 1;
            assert(new_clients@ =~= nc.skip(added as int));
        }
        assert(self@.clients.len() == self.clients@.len());
        Reconciled { ticker, retired_clients, retired_producers: retired_lists }
    }
}

/// The number of producers over `clients`.
pub open spec fn total_producers<C, P>(clients: Seq<ClientView<C, P>>) -> nat
    decreases clients.len(),
{
    if clients.len() == 0 {
        0
    } else {
        total_producers(clients.drop_last()) + clients.last().producers.len()
    }
}

proof fn lemma_total_producers_take<C, P>(clients: Seq<ClientView<C, P>>, i: int)
    requires
        0 <= i < clients.len(),
    ensures
        total_producers(clients.take(i + 1)) == total_producers(clients.take(i)) + clients[i].producers.len(),
{
    assert(clients.take(i + 1).drop_last() =~= clients.take(i));
}

proof fn lemma_total_producers_prefix_bounded<C, P>(clients: Seq<ClientView<C, P>>, i: int)
    requires
        0 <= i <= clients.len(),
    ensures
        total_producers(clients.take(i)) <= total_producers(clients),
    decreases clients.len(),
{
    if i < clients.len() {
        assert(clients.drop_last().take(i) =~= clients.take(i));
        lemma_total_producers_prefix_bounded(clients.drop_last(), i);
    } else {
        assert(clients.take(i) =~= clients);
    }
}


/// A second `start` without a `stop` in between fails with `AlreadyRunning`
/// and leaves the whole state, topology included, as the first left it.
pub proof fn lemma_start_twice_fails<C, P>(v: PlaneView<C, P>)
    ensures
        plane_started(plane_started(v).1).0 == Err::<(), LifecycleError>(LifecycleError::AlreadyRunning),
        plane_started(plane_started(v).1).1 == plane_started(v).1,
{
}

/// `stop` is idempotent: a second one has no loop to join and changes nothing.
pub proof fn lemma_stop_idempotent<C, P>(v: PlaneView<C, P>)
    ensures
        !plane_stopped(plane_stopped(v).1).0,
        plane_stopped(plane_stopped(v).1).1 == plane_stopped(v).1,
{
}

/// An update that sets only the rate yields, and leaves behind, the previous
/// configuration with that rate; the topology and lifecycle are untouched.
pub proof fn lemma_rate_update_then_read<C, P>(v: PlaneView<C, P>, p: DynamicConfigPatch, rate: u32)
    requires
        p.rate == Some(rate),
        p.num_clients is None,
        p.num_producers_per_client is None,
        p.message_size is None,
    ensures
        plane_handled(v, ControlRequest::UpdateConfig(p)).0 == ControlReply::Config(DynamicConfig { rate, ..v.config }),
        plane_handled(v, ControlRequest::UpdateConfig(p)).1.config == (DynamicConfig { rate, ..v.config }),
        plane_handled(v, ControlRequest::UpdateConfig(p)).1.clients == v.clients,
        plane_handled(v, ControlRequest::UpdateConfig(p)).1.running == v.running,
{
}

/// A converged running topology holds `num_clients * num_producers_per_client`
/// producers in all.
pub proof fn lemma_converged_total<C, P>(v: PlaneView<C, P>)
    requires
        converged(v),
        v.running,
    ensures
        total_producers(v.clients) == v.config.num_clients * v.config.num_producers_per_client,
{
    lemma_uniform_total(v.clients, v.config.num_producers_per_client as nat);
}

proof fn lemma_uniform_total<C, P>(clients: Seq<ClientView<C, P>>, n: nat)
    requires
        forall|i: int| 0 <= i < clients.len() ==> (#[trigger] clients[i]).producers.len() == n,
    ensures
        total_producers(clients) == clients.len() * n,
    decreases clients.len(),
{
    if clients.len() > 0 {
        let rest = clients.drop_last();
        assert forall|i: int| 0 <= i < rest.len() implies (#[trigger] rest[i]).producers.len() == n by {
            assert(rest[i] == clients[i]);
        }
        lemma_uniform_total(rest, n);
        assert(clients.last() == clients[clients.len() - 1]);
        assert(total_producers(clients) == rest.len() * n + n);
        assert(clients.len() * n == (rest.len() + 1) * n);
        assert((rest.len() + 1) * n == rest.len() * n + n) by (nonlinear_arith);
    }
}

} // verus!
