use ha_node_agent::disconnect::{
    controller_inspected, disconnect_controller, disconnect_controller_next, DisconnectAction,
    DisconnectEvent, DisconnectPhase, DisconnectState, DisconnectStep, Inspection, NvmeController,
};
use ha_node_agent::error::{ResourceKind, SvcError};

const NEW_PATH: &str = "nvmf://10.0.0.5:8420/nqn.2023-01.io.example:vol-1";
const NQN: &str = "nqn.2023-01.io.example:vol-1";

fn cached() -> NvmeController {
    NvmeController {
        path: "/sys/class/nvme/nvme3".to_owned(),
        address: "traddr=10.0.0.9,trsvcid=8420".to_owned(),
    }
}

fn inspecting() -> DisconnectState {
    match disconnect_controller(&cached(), NEW_PATH.to_owned()) {
        DisconnectStep::Next { state, .. } => state,
        other => panic!("{:?}", other),
    }
}

fn subsystem(nqn: &str, same_address: bool) -> Inspection {
    Inspection::Subsystem { nqn: nqn.to_owned(), name: "nvme-subsys3".to_owned(), same_address }
}

fn removing() -> DisconnectState {
    match controller_inspected(inspecting(), subsystem(NQN, false)) {
        DisconnectStep::Next { state, .. } => state,
        other => panic!("{:?}", other),
    }
}

#[test]
fn disconnect_begins_with_a_look_at_the_path() {
    match disconnect_controller(&cached(), NEW_PATH.to_owned()) {
        DisconnectStep::Next { state, action } => {
            assert_eq!(state.phase(), DisconnectPhase::Inspecting);
            assert_eq!(
                action,
                DisconnectAction::Inspect {
                    path: "/sys/class/nvme/nvme3".to_owned(),
                    host: "10.0.0.5".to_owned(),
                    port: 8420,
                }
            );
        }
        other => panic!("{:?}", other),
    }
}

#[test]
fn disconnect_rejects_a_malformed_uri() {
    for uri in ["", "nvmf://10.0.0.5/nqn.a", "/nqn.a", "nvmf://10.0.0.5:8420/"] {
        assert_eq!(
            disconnect_controller(&cached(), uri.to_owned()),
            DisconnectStep::Done(Err(SvcError::InvalidArguments {}))
        );
    }
}

#[test]
fn disconnect_fails_without_a_path_handle() {
    assert_eq!(
        controller_inspected(inspecting(), Inspection::NoPath),
        DisconnectStep::Done(Err(SvcError::NotFound {
            kind: ResourceKind::NvmePath,
            id: "/sys/class/nvme/nvme3".to_owned(),
        }))
    );
}

#[test]
fn disconnect_fails_without_a_subsystem() {
    assert_eq!(
        controller_inspected(inspecting(), Inspection::NoSubsystem),
        DisconnectStep::Done(Err(SvcError::NotFound {
            kind: ResourceKind::NvmeSubsystem,
            id: "/sys/class/nvme/nvme3".to_owned(),
        }))
    );
}

#[test]
fn disconnect_refuses_a_controller_of_another_target() {
    for same_address in [false, true] {
        assert_eq!(
            controller_inspected(inspecting(), subsystem("nqn.2023-01.io.example:vol-2", same_address)),
            DisconnectStep::Done(Err(SvcError::UnexpectedSubsystemNqn {
                nqn: "nqn.2023-01.io.example:vol-2".to_owned(),
                expected_nqn: NQN.to_owned(),
                path: "nvme-subsys3".to_owned(),
            }))
        );
    }
}

#[test]
fn disconnect_leaves_the_new_path_alone() {
    assert_eq!(controller_inspected(inspecting(), subsystem(NQN, true)), DisconnectStep::Done(Ok(())));
}

#[test]
fn disconnect_leaves_the_new_path_alone_every_time() {
    for _ in 0..2 {
        let step = disconnect_controller_next(
            inspecting(),
            DisconnectEvent::Inspected(subsystem(NQN, true)),
        );
        assert_eq!(step, DisconnectStep::Done(Ok(())));
    }
}

#[test]
fn disconnect_removes_a_stale_controller() {
    match disconnect_controller_next(inspecting(), DisconnectEvent::Inspected(subsystem(NQN, false))) {
        DisconnectStep::Next { state, action } => {
            assert_eq!(state.phase(), DisconnectPhase::Removing);
            assert_eq!(action, DisconnectAction::Disconnect);
        }
        other => panic!("{:?}", other),
    }
    assert_eq!(
        disconnect_controller_next(removing(), DisconnectEvent::Disconnected(Ok(()))),
        DisconnectStep::Done(Ok(()))
    );
}

#[test]
fn disconnect_reports_a_failed_removal() {
    assert_eq!(
        disconnect_controller_next(
            removing(),
            DisconnectEvent::Disconnected(Err("FileIoFailed { errno: 16 }".to_owned()))
        ),
        DisconnectStep::Done(Err(SvcError::Internal {
            details: "Failed to disconnect NVMe controller /sys/class/nvme/nvme3: FileIoFailed { errno: 16 }"
                .to_owned(),
        }))
    );
}

#[test]
fn disconnect_ends_on_a_report_it_did_not_wait_for() {
    let stray = DisconnectStep::Done(Err(SvcError::Internal {
        details: "Unexpected event while disconnecting NVMe controller".to_owned(),
    }));
    assert_eq!(
        disconnect_controller_next(inspecting(), DisconnectEvent::Disconnected(Ok(()))),
        stray
    );
    assert_eq!(
        disconnect_controller_next(removing(), DisconnectEvent::Inspected(Inspection::NoPath)),
        stray
    );
}
