use ha_node_agent::connect::{ConnectAction, ConnectEvent};
use ha_node_agent::disconnect::{DisconnectAction, DisconnectEvent, Inspection, NvmeController};
use ha_node_agent::error::{ReplyError, ResourceKind, SvcError};
use ha_node_agent::replace::{ReplaceAction, ReplaceEvent, ReplacePathRequest, ReplaceStep};
use ha_node_agent::service::{Nanos, NodeAgentSvc};

const MS: Nanos = 1_000_000;
const PATH: &str = "nvmf://10.0.0.5:8420/nqn.2023-01.io.example:vol-1";
const NQN: &str = "nqn.2023-01.io.example:vol-1";

fn agent(timeout_ms: Nanos, period_ms: Nanos) -> NodeAgentSvc {
    NodeAgentSvc::new(timeout_ms * MS, period_ms * MS, "nqn.2023-01.io.example".to_owned())
}

fn request(new_path: &str) -> ReplacePathRequest {
    ReplacePathRequest {
        target_nqn: NQN.to_owned(),
        new_path: new_path.to_owned(),
        publish_context: None,
    }
}

fn record(n: u32) -> NvmeController {
    NvmeController {
        path: format!("/sys/class/nvme/nvme{}", n),
        address: "traddr=10.0.0.9,trsvcid=8420".to_owned(),
    }
}

/// Reports the events in turn and gives back what was asked for along the
/// way, and the result if the replacement has ended.
fn replay(
    svc: &NodeAgentSvc,
    first: ReplaceStep,
    events: Vec<ReplaceEvent>,
) -> (Vec<ReplaceAction>, Option<Result<Vec<SvcError>, ReplyError>>) {
    let mut asked = Vec::new();
    let mut step = first;
    for event in events {
        match step {
            ReplaceStep::Next { state, action } => {
                asked.push(action);
                step = svc.replace_path_next(state, event);
            }
            ReplaceStep::Done(result) => return (asked, Some(result)),
        }
    }
    match step {
        ReplaceStep::Next { action, .. } => {
            asked.push(action);
            (asked, None)
        }
        ReplaceStep::Done(result) => (asked, Some(result)),
    }
}

fn lookup() -> ReplaceAction {
    ReplaceAction::Lookup { nqn: NQN.to_owned() }
}

fn resolve() -> ReplaceAction {
    ReplaceAction::Connect(ConnectAction::Resolve {
        host: "10.0.0.5".to_owned(),
        port: 8420,
        nqn: NQN.to_owned(),
    })
}

fn connect() -> ReplaceAction {
    ReplaceAction::Connect(ConnectAction::Connect { uri: PATH.to_owned(), publish_context: None })
}

fn poll(wait_ms: Nanos) -> ReplaceAction {
    ReplaceAction::Connect(ConnectAction::Poll { wait: wait_ms * MS })
}

fn inspect(n: u32) -> ReplaceAction {
    ReplaceAction::Disconnect(DisconnectAction::Inspect {
        path: format!("/sys/class/nvme/nvme{}", n),
        host: "10.0.0.5".to_owned(),
        port: 8420,
    })
}

fn remove() -> ReplaceAction {
    ReplaceAction::Disconnect(DisconnectAction::Disconnect)
}

fn absent() -> ReplaceEvent {
    ReplaceEvent::Connect(ConnectEvent::Resolved(Err("not found".to_owned())))
}

fn present() -> ReplaceEvent {
    ReplaceEvent::Connect(ConnectEvent::Resolved(Ok(())))
}

fn connected() -> ReplaceEvent {
    ReplaceEvent::Connect(ConnectEvent::Connected(Ok(())))
}

fn polled(state: &str, elapsed_ms: Nanos) -> ReplaceEvent {
    ReplaceEvent::Connect(ConnectEvent::Polled {
        state: Some(state.to_owned()),
        elapsed: elapsed_ms * MS,
    })
}

fn inspected(same_address: bool) -> ReplaceEvent {
    ReplaceEvent::Disconnect(DisconnectEvent::Inspected(Inspection::Subsystem {
        nqn: NQN.to_owned(),
        name: "nvme-subsys3".to_owned(),
        same_address,
    }))
}

fn removed(result: Result<(), String>) -> ReplaceEvent {
    ReplaceEvent::Disconnect(DisconnectEvent::Disconnected(result))
}

fn goes_live(controllers: Vec<NvmeController>) -> Vec<ReplaceEvent> {
    vec![
        ReplaceEvent::LookedUp(Some(controllers)),
        absent(),
        connected(),
        present(),
        polled("new", 100),
        polled("connecting", 200),
        polled("live", 300),
    ]
}

#[test]
fn replace_begins_with_the_path_cache() {
    let svc = agent(5000, 100);
    let (asked, result) = replay(&svc, svc.replace_path(request(PATH)), Vec::new());
    assert_eq!(asked, vec![lookup()]);
    assert_eq!(result, None);
}

#[test]
fn replace_fails_when_the_lookup_fails() {
    let svc = agent(5000, 100);
    let (asked, result) =
        replay(&svc, svc.replace_path(request(PATH)), vec![ReplaceEvent::LookedUp(None)]);
    assert_eq!(asked, vec![lookup()]);
    assert_eq!(
        result,
        Some(Err(ReplyError::FailedPrecondition {
            resource: ResourceKind::NvmePath,
            source: "HA Node agent gRPC server".to_owned(),
            extra: "Failed to lookup controller".to_owned(),
        }))
    );
}

#[test]
fn replace_rejects_a_malformed_uri_before_any_kernel_operation() {
    let svc = agent(5000, 100);
    for uri in ["", "nvmf://10.0.0.5/nqn.2023-01.io.example:vol-1", "/nqn.2023-01.io.example:vol-1", "nvmf://[10.0.0.5:8420/x"] {
        let events = vec![ReplaceEvent::LookedUp(Some(vec![record(3)]))];
        let (asked, result) = replay(&svc, svc.replace_path(request(uri)), events);
        assert_eq!(asked, vec![lookup()]);
        assert_eq!(result, Some(Err(ReplyError::Service(SvcError::InvalidArguments {}))));
    }
}

#[test]
fn replace_rejects_a_target_outside_the_namespace() {
    let svc = agent(5000, 100);
    let events = vec![ReplaceEvent::LookedUp(Some(vec![record(3)]))];
    let (asked, result) =
        replay(&svc, svc.replace_path(request("nvmf://10.0.0.5:8420/nqn.other:vol-1")), events);
    assert_eq!(asked, vec![lookup()]);
    assert_eq!(result, Some(Err(ReplyError::Service(SvcError::InvalidArguments {}))));
}

#[test]
fn replace_connects_the_new_path_and_retires_the_stale_one() {
    let svc = agent(5000, 100);
    let mut events = goes_live(vec![record(3)]);
    events.push(inspected(false));
    events.push(removed(Ok(())));
    let (asked, result) = replay(&svc, svc.replace_path(request(PATH)), events);
    assert_eq!(
        asked,
        vec![
            lookup(),
            resolve(),
            connect(),
            resolve(),
            poll(100),
            poll(100),
            poll(100),
            inspect(3),
            remove(),
        ]
    );
    assert_eq!(result, Some(Ok(Vec::new())));
}

#[test]
fn replace_fails_on_timeout_and_removes_what_it_brought() {
    let svc = agent(500, 100);
    let events = vec![
        ReplaceEvent::LookedUp(Some(vec![record(3)])),
        absent(),
        connected(),
        present(),
        polled("connecting", 100),
        polled("connecting", 200),
        polled("connecting", 300),
        polled("connecting", 400),
        polled("connecting", 500),
        present(),
        ReplaceEvent::Connect(ConnectEvent::Disconnected(Ok(()))),
    ];
    let (asked, result) = replay(&svc, svc.replace_path(request(PATH)), events);
    assert_eq!(
        asked,
        vec![
            lookup(),
            resolve(),
            connect(),
            resolve(),
            poll(100),
            poll(100),
            poll(100),
            poll(100),
            poll(100),
            resolve(),
            ReplaceAction::Connect(ConnectAction::Disconnect),
        ]
    );
    assert_eq!(
        result,
        Some(Err(ReplyError::Service(SvcError::NvmeConnectError {
            details: format!(
                "Timeout while connecting to new NVMe target: new path: {}, nqn: {}",
                PATH, NQN
            ),
        })))
    );
}

#[test]
fn replace_touches_no_controller_when_the_connect_fails() {
    let svc = agent(5000, 100);
    let events = vec![
        ReplaceEvent::LookedUp(Some(vec![record(3), record(4)])),
        absent(),
        ReplaceEvent::Connect(ConnectEvent::Connected(Err("refused".to_owned()))),
    ];
    let (asked, result) = replay(&svc, svc.replace_path(request(PATH)), events);
    assert_eq!(asked, vec![lookup(), resolve(), connect()]);
    assert_eq!(
        result,
        Some(Err(ReplyError::Service(SvcError::NvmeConnectError {
            details: format!(
                "Failed to connect to new NVMe target: refused, new path: {}, nqn: {}",
                PATH, NQN
            ),
        })))
    );
}

#[test]
fn replace_succeeds_without_cached_controllers() {
    let svc = agent(5000, 100);
    let (asked, result) = replay(&svc, svc.replace_path(request(PATH)), goes_live(Vec::new()));
    assert_eq!(asked.len(), 7);
    assert_eq!(result, Some(Ok(Vec::new())));
}

#[test]
fn replace_succeeds_though_no_controller_can_be_retired() {
    let svc = agent(5000, 100);
    let mut events = goes_live(vec![record(3), record(4), record(5), record(6)]);
    events.push(ReplaceEvent::Disconnect(DisconnectEvent::Inspected(Inspection::NoPath)));
    events.push(ReplaceEvent::Disconnect(DisconnectEvent::Inspected(Inspection::NoSubsystem)));
    events.push(ReplaceEvent::Disconnect(DisconnectEvent::Inspected(Inspection::Subsystem {
        nqn: "nqn.2023-01.io.example:vol-2".to_owned(),
        name: "nvme-subsys5".to_owned(),
        same_address: false,
    })));
    events.push(inspected(false));
    events.push(removed(Err("busy".to_owned())));
    let (asked, result) = replay(&svc, svc.replace_path(request(PATH)), events);
    assert_eq!(
        asked[7 ..],
        [inspect(3), inspect(4), inspect(5), inspect(6), remove()]
    );
    assert_eq!(
        result,
        Some(Ok(vec![
            SvcError::NotFound {
                kind: ResourceKind::NvmePath,
                id: "/sys/class/nvme/nvme3".to_owned(),
            },
            SvcError::NotFound {
                kind: ResourceKind::NvmeSubsystem,
                id: "/sys/class/nvme/nvme4".to_owned(),
            },
            SvcError::UnexpectedSubsystemNqn {
                nqn: "nqn.2023-01.io.example:vol-2".to_owned(),
                expected_nqn: NQN.to_owned(),
                path: "nvme-subsys5".to_owned(),
            },
            SvcError::Internal {
                details: "Failed to disconnect NVMe controller /sys/class/nvme/nvme6: busy"
                    .to_owned(),
            },
        ]))
    );
}

#[test]
fn replace_keeps_a_cached_controller_that_is_the_new_path() {
    let svc = agent(5000, 100);
    let mut events = goes_live(vec![record(3), record(4)]);
    events.push(inspected(true));
    events.push(inspected(false));
    events.push(removed(Ok(())));
    let (asked, result) = replay(&svc, svc.replace_path(request(PATH)), events);
    assert_eq!(asked[7 ..], [inspect(3), inspect(4), remove()]);
    assert_eq!(result, Some(Ok(Vec::new())));
}

#[test]
fn replace_waits_for_each_disconnect() {
    let svc = agent(5000, 100);
    let mut events = goes_live(vec![record(3), record(4)]);
    events.push(inspected(false));
    let (asked, result) = replay(&svc, svc.replace_path(request(PATH)), events);
    assert_eq!(asked[7 ..], [inspect(3), remove()]);
    assert_eq!(result, None);
}

#[test]
fn replace_ends_on_a_report_it_did_not_wait_for() {
    let svc = agent(5000, 100);
    let stray = Some(Err(ReplyError::Service(SvcError::Internal {
        details: "Unexpected event while replacing NVMe path".to_owned(),
    })));
    let (_, result) = replay(&svc, svc.replace_path(request(PATH)), vec![connected()]);
    assert_eq!(result, stray);
    let events = vec![ReplaceEvent::LookedUp(Some(Vec::new())), inspected(true)];
    let (_, result) = replay(&svc, svc.replace_path(request(PATH)), events);
    assert_eq!(result, stray);
    let mut events = goes_live(vec![record(3)]);
    events.push(present());
    let (_, result) = replay(&svc, svc.replace_path(request(PATH)), events);
    assert_eq!(result, stray);
}
