use pulsar_smith::perf::config::{DynamicConfig, DynamicConfigPatch};
use pulsar_smith::perf::lifecycle::LifecycleError;
use pulsar_smith::perf::plane::{ControlPlane, ControlReply, ControlRequest, TickerAction};

fn config(rate: u32, num_clients: u32, per_client: u32, message_size: usize) -> DynamicConfig {
    DynamicConfig { rate, num_clients, num_producers_per_client: per_client, message_size }
}

/// Builds what the plan asks for: producers are numbered in creation order,
/// connections are named after the client they serve.
fn converge(plane: &mut ControlPlane<String, u32>, next_producer: &mut u32) -> TickerAction {
    let plan = plane.plan();
    let mut additions = Vec::new();
    for needed in plan.producers_needed.iter() {
        let mut built = Vec::new();
        for _ in 0..*needed {
            built.push(*next_producer);
            *next_producer += 1;
        }
        additions.push(built);
    }
    let mut new_clients = Vec::new();
    for k in 0..plan.clients_needed {
        let mut built = Vec::new();
        for _ in 0..plan.producers_per_new_client {
            built.push(*next_producer);
            *next_producer += 1;
        }
        new_clients.push((format!("conn-{}", plane.client_count() + k), built));
    }
    plane.reconcile(additions, new_clients).ticker
}

fn producers_of(plane: &ControlPlane<String, u32>, client: usize) -> Vec<u32> {
    let c = plane.client(client);
    (0..c.producer_count()).map(|i| *c.producer(i)).collect()
}

#[test]
fn start_twice_fails_and_keeps_topology() {
    let mut plane: ControlPlane<String, u32> = ControlPlane::new(config(10, 2, 2, 100));
    let mut next = 0;
    assert_eq!(plane.start(), Ok(()));
    converge(&mut plane, &mut next);
    assert_eq!(plane.client_count(), 2);
    assert_eq!(plane.start(), Err(LifecycleError::AlreadyRunning));
    assert!(plane.is_running());
    assert_eq!(plane.client_count(), 2);
    assert_eq!(plane.producer_count(), 4);
}

#[test]
fn stop_is_idempotent() {
    let mut plane: ControlPlane<String, u32> = ControlPlane::new(config(10, 1, 1, 100));
    assert!(!plane.stop());
    plane.start().unwrap();
    assert!(plane.stop());
    assert!(!plane.stop());
    assert!(!plane.is_running());
}

#[test]
fn rate_patch_then_read_keeps_other_fields() {
    let before = config(10, 2, 3, 1000);
    let mut plane: ControlPlane<String, u32> = ControlPlane::new(before);
    let mut patch = DynamicConfigPatch::empty();
    patch.rate = Some(50);
    let reply = plane.handle(ControlRequest::UpdateConfig(patch));
    let expected = config(50, 2, 3, 1000);
    assert_eq!(reply, ControlReply::Config(expected));
    assert_eq!(plane.config(), expected);
}

#[test]
fn patch_sets_every_present_field() {
    let mut c = config(1, 2, 3, 4);
    c.apply(&DynamicConfigPatch {
        rate: None,
        num_clients: Some(7),
        num_producers_per_client: None,
        message_size: Some(4096),
    });
    assert_eq!(c, config(1, 7, 3, 4096));
    c.apply(&DynamicConfigPatch::empty());
    assert_eq!(c, config(1, 7, 3, 4096));
}

#[test]
fn stop_request_ends_the_loop_without_change() {
    let mut plane: ControlPlane<String, u32> = ControlPlane::new(config(5, 1, 1, 10));
    assert_eq!(plane.handle(ControlRequest::Stop), ControlReply::Exit);
    assert_eq!(plane.config(), config(5, 1, 1, 10));
}

#[test]
fn single_client_single_producer_after_start() {
    let mut plane: ControlPlane<String, u32> = ControlPlane::new(config(0, 1, 1, 10));
    let mut next = 0;
    plane.start().unwrap();
    let ticker = converge(&mut plane, &mut next);
    assert_eq!(ticker, TickerAction::Run { rate: 0, start: true });
    assert_eq!(plane.client_count(), 1);
    assert_eq!(plane.producer_count(), 1);
    assert!(plane.ticker().is_started());
    assert_eq!(plane.client(0).producer_name(0), "perf-0-0");
    assert_eq!(plane.client(0).connection(), "conn-0");
    let again = converge(&mut plane, &mut next);
    assert_eq!(again, TickerAction::Run { rate: 0, start: false });
    assert_eq!(next, 1);
}

#[test]
fn three_clients_of_two_producers_make_six() {
    let mut plane: ControlPlane<String, u32> = ControlPlane::new(config(100, 1, 2, 10));
    let mut next = 0;
    plane.start().unwrap();
    converge(&mut plane, &mut next);
    assert_eq!(plane.producer_count(), 2);
    let mut patch = DynamicConfigPatch::empty();
    patch.num_clients = Some(3);
    plane.handle(ControlRequest::UpdateConfig(patch));
    converge(&mut plane, &mut next);
    assert_eq!(plane.client_count(), 3);
    assert_eq!(plane.producer_count(), 6);
    for i in 0..3 {
        assert_eq!(plane.client(i).id() as usize, i);
        assert_eq!(plane.client(i).producer_count(), 2);
    }
}

#[test]
fn shrinking_producers_retires_newest_first() {
    let mut plane: ControlPlane<String, u32> = ControlPlane::new(config(0, 1, 4, 10));
    let mut next = 0;
    plane.start().unwrap();
    converge(&mut plane, &mut next);
    assert_eq!(producers_of(&plane, 0), vec![0, 1, 2, 3]);
    let mut patch = DynamicConfigPatch::empty();
    patch.num_producers_per_client = Some(1);
    plane.handle(ControlRequest::UpdateConfig(patch));
    let out = plane.reconcile(vec![], vec![]);
    assert_eq!(out.retired_producers.len(), 1);
    assert_eq!(out.retired_producers[0], vec![3, 2, 1]);
    assert_eq!(producers_of(&plane, 0), vec![0]);
}

#[test]
fn shrinking_clients_retires_newest_first_and_stopped() {
    let mut plane: ControlPlane<String, u32> = ControlPlane::new(config(0, 3, 1, 10));
    let mut next = 0;
    plane.start().unwrap();
    converge(&mut plane, &mut next);
    let mut patch = DynamicConfigPatch::empty();
    patch.num_clients = Some(1);
    plane.handle(ControlRequest::UpdateConfig(patch));
    let out = plane.reconcile(vec![], vec![]);
    assert_eq!(out.retired_clients.len(), 2);
    assert_eq!(out.retired_clients[0].id(), 2);
    assert_eq!(out.retired_clients[1].id(), 1);
    assert!(!out.retired_clients[0].is_running());
    assert_eq!(out.retired_clients[0].producer_count(), 1);
    assert_eq!(plane.client_count(), 1);
}

#[test]
fn stop_during_load_drains_everything() {
    let mut plane: ControlPlane<String, u32> = ControlPlane::new(config(1000, 2, 3, 10));
    let mut next = 0;
    plane.start().unwrap();
    converge(&mut plane, &mut next);
    assert_eq!(plane.producer_count(), 6);
    assert!(plane.stop());
    let mut out = plane.reconcile(vec![], vec![]);
    assert_eq!(out.ticker, TickerAction::Halt { join: true });
    assert_eq!(plane.client_count(), 0);
    assert_eq!(plane.producer_count(), 0);
    assert!(!plane.ticker().is_started());
    assert_eq!(out.retired_clients.len(), 2);
    let mut drained = 0;
    for client in out.retired_clients.iter_mut() {
        let (retired, unused) = client.reconcile(&plane.config(), vec![]);
        assert!(unused.is_empty());
        drained += retired.len();
        assert_eq!(client.producer_count(), 0);
    }
    assert_eq!(drained, 6);
}

#[test]
fn failed_construction_leaves_topology_short_until_next_pass() {
    let mut plane: ControlPlane<String, u32> = ControlPlane::new(config(0, 2, 2, 10));
    plane.start().unwrap();
    let plan = plane.plan();
    assert_eq!(plan.clients_needed, 2);
    assert_eq!(plan.producers_per_new_client, 2);
    plane.reconcile(vec![], vec![("conn-0".to_string(), vec![7])]);
    assert_eq!(plane.client_count(), 1);
    assert_eq!(plane.producer_count(), 1);
    let plan = plane.plan();
    assert_eq!(plan.producers_needed, vec![1]);
    assert_eq!(plan.clients_needed, 1);
    plane.reconcile(vec![vec![8]], vec![("conn-1".to_string(), vec![9, 10])]);
    assert_eq!(plane.producer_count(), 4);
    assert_eq!(producers_of(&plane, 0), vec![7, 8]);
    assert_eq!(producers_of(&plane, 1), vec![9, 10]);
}

#[test]
fn rate_change_reaches_the_ticker() {
    let mut plane: ControlPlane<String, u32> = ControlPlane::new(config(10, 0, 0, 10));
    let mut next = 0;
    plane.start().unwrap();
    converge(&mut plane, &mut next);
    let mut patch = DynamicConfigPatch::empty();
    patch.rate = Some(250);
    plane.handle(ControlRequest::UpdateConfig(patch));
    let action = converge(&mut plane, &mut next);
    assert_eq!(action, TickerAction::Run { rate: 250, start: false });
    assert_eq!(plane.ticker().rate, 250);
}
