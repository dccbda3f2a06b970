use ha_node_agent::error::{ReplyError, ResourceKind, SvcError};
use ha_node_agent::query::{GetControllerRequest, NvmeSubsystem, NvmeSubsystems, QueryStep};
use ha_node_agent::service::NodeAgentSvc;

fn agent() -> NodeAgentSvc {
    NodeAgentSvc::new(5_000_000_000, 100_000_000, "nqn.2023-01.io.example".to_owned())
}

fn none_found() -> ReplyError {
    ReplyError::NotFound {
        resource: ResourceKind::NvmeSubsystem,
        source: "Node agent".to_owned(),
        extra: "Could not find any subsystems for the supplied nqn".to_owned(),
    }
}

#[test]
fn query_asks_for_the_target_of_the_path() {
    let request = GetControllerRequest {
        nvme_path: "nvmf://10.0.0.5:8420/nqn.2023-01.io.example:vol-1".to_owned(),
    };
    assert_eq!(
        agent().get_nvme_controller(&request),
        QueryStep::List { nqn: "nqn.2023-01.io.example:vol-1".to_owned() }
    );
}

#[test]
fn query_does_not_ask_for_the_namespace() {
    let request = GetControllerRequest { nvme_path: "nvmf://h:1/other".to_owned() };
    assert_eq!(agent().get_nvme_controller(&request), QueryStep::List { nqn: "other".to_owned() });
}

#[test]
fn query_rejects_a_malformed_path() {
    for path in ["", "nvmf://10.0.0.5/nqn.a", "/nqn.a", "nvmf://10.0.0.5:8420", "not a uri"] {
        let request = GetControllerRequest { nvme_path: path.to_owned() };
        assert_eq!(
            agent().get_nvme_controller(&request),
            QueryStep::Done(Err(ReplyError::Service(SvcError::InvalidArguments {})))
        );
    }
}

#[test]
fn query_finds_nothing_without_subsystems() {
    assert_eq!(agent().get_nvme_controller_next(Some(Vec::new())), Err(none_found()));
}

#[test]
fn query_finds_nothing_when_the_enumeration_fails() {
    assert_eq!(agent().get_nvme_controller_next(None), Err(none_found()));
}

#[test]
fn query_returns_both_addresses() {
    let listing =
        vec!["traddr=10.0.0.5,trsvcid=8420".to_owned(), "traddr=10.0.0.9,trsvcid=8420".to_owned()];
    let found = agent().get_nvme_controller_next(Some(listing)).unwrap();
    assert_eq!(
        found,
        NvmeSubsystems(vec![
            NvmeSubsystem::new("traddr=10.0.0.5,trsvcid=8420".to_owned()),
            NvmeSubsystem::new("traddr=10.0.0.9,trsvcid=8420".to_owned()),
        ])
    );
}

#[test]
fn query_returns_a_single_address() {
    let found = agent().get_nvme_controller_next(Some(vec!["a".to_owned()])).unwrap();
    assert_eq!(found.0.len(), 1);
    assert_eq!(found.0[0].address, "a");
}

#[test]
fn reply_constructors_keep_their_arguments() {
    assert_eq!(
        ReplyError::not_found(ResourceKind::NvmePath, "s".to_owned(), "e".to_owned()),
        ReplyError::NotFound {
            resource: ResourceKind::NvmePath,
            source: "s".to_owned(),
            extra: "e".to_owned()
        }
    );
    assert_eq!(
        ReplyError::failed_precondition(ResourceKind::NvmeSubsystem, "s".to_owned(), "e".to_owned()),
        ReplyError::FailedPrecondition {
            resource: ResourceKind::NvmeSubsystem,
            source: "s".to_owned(),
            extra: "e".to_owned()
        }
    );
}
