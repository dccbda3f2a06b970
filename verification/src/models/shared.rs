//! Types that several models are made of.

use std::collections::HashMap;
use vstd::prelude::*;

verus! {

/// Identifiers of the REST interface are UUIDs, which are carried through
/// as they come.
#[verifier::external_type_specification]
#[verifier::external_body]
pub struct ExUuid(uuid::Uuid);

/// Trusted: `Uuid` is `Copy` and its `Clone` is derived, so that a clone is
/// the value itself.
pub assume_specification[ <uuid::Uuid as Clone>::clone ](id: &uuid::Uuid) -> (r: uuid::Uuid)
    ensures
        r == *id,
;

/// How far the life of a resource has come.
#[derive(Clone, Copy, Debug, PartialEq, Eq, Structural)]
pub enum SpecState {
    /// The resource is being created.
    Creating,
    /// The resource is in place.
    Created,
    /// The resource is being deleted.
    Deleting,
    /// The resource is gone.
    Deleted,
}

impl Default for SpecState {
    fn default() -> (r: Self)
        ensures
            r == SpecState::Creating,
    {
        SpecState::Creating
    }
}

/// How a nexus is shared.
#[derive(Clone, Copy, Debug, PartialEq, Eq, Structural)]
pub enum Protocol {
    /// Not shared.
    Unshared,
    /// Shared over NVMe-oF.
    Nvmf,
    /// Shared over iSCSI.
    Iscsi,
    /// Shared over NBD.
    Nbd,
}

impl Default for Protocol {
    fn default() -> (r: Self)
        ensures
            r == Protocol::Unshared,
    {
        Protocol::Unshared
    }
}

/// What is being done to a pool.
#[derive(Clone, Copy, Debug, PartialEq, Eq, Structural)]
pub enum PoolOperation {
    Create,
    Destroy,
}

/// An operation on a pool that is under way or has ended.
#[derive(Clone, Copy, Debug, PartialEq, Eq, Structural)]
pub struct PoolSpecOperation {
    /// What is being done.
    pub operation: PoolOperation,
    /// How it ended, once it has.
    pub result: Option<bool>,
}

/// What is being done to a nexus.
#[derive(Clone, Copy, Debug, PartialEq, Eq, Structural)]
pub enum NexusOperation {
    Create,
    Destroy,
    Share,
    Unshare,
    AddChild,
    RemoveChild,
    Shutdown,
}

/// An operation on a nexus that is under way or has ended.
#[derive(Clone, Copy, Debug, PartialEq, Eq, Structural)]
pub struct NexusSpecOperation {
    /// What is being done.
    pub operation: NexusOperation,
    /// How it ended, once it has.
    pub result: Option<bool>,
}

/// A choice by labels: what has to be there and what must not be.
#[derive(Clone, Debug, PartialEq, Eq)]
pub struct LabelledTopology {
    /// Labels that rule a candidate out.
    pub exclusion: HashMap<String, String>,
    /// Labels that a candidate has to carry.
    pub inclusion: HashMap<String, String>,
}

/// A choice of nodes by name.
#[derive(Clone, Debug, PartialEq, Eq)]
pub struct ExplicitNodeTopology {
    /// The nodes that may be used.
    pub allowed_nodes: Vec<String>,
    /// The nodes to use first.
    pub preferred_nodes: Vec<String>,
}

/// How nodes are chosen.
#[derive(Clone, Debug, PartialEq, Eq)]
pub enum NodeTopology {
    Explicit(ExplicitNodeTopology),
    Labelled(LabelledTopology),
}

/// How pools are chosen.
#[derive(Clone, Debug, PartialEq, Eq)]
pub enum PoolTopology {
    Labelled(LabelledTopology),
}

/// Where the replicas of a volume may be placed.
#[derive(Clone, Debug, PartialEq, Eq)]
pub struct Topology {
    /// How nodes are chosen, if that is restricted.
    pub node_topology: Option<NodeTopology>,
    /// How pools are chosen, if that is restricted.
    pub pool_topology: Option<PoolTopology>,
}

} // verus!
