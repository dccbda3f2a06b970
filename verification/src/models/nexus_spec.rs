//! User specification of a nexus.

use crate::models::shared::{NexusSpecOperation, Protocol, SpecState};
use vstd::prelude::*;

verus! {

/// User specification of a nexus.
#[derive(Clone, Debug, PartialEq, Eq)]
pub struct NexusSpec {
    /// List of children.
    pub children: Vec<String>,
    /// Whether the control plane manages the nexus.
    pub managed: bool,
    /// Node where the nexus should live.
    pub node: String,
    /// The operation that is under way, if any.
    pub operation: Option<NexusSpecOperation>,
    /// Volume which owns this nexus, if any.
    pub owner: Option<uuid::Uuid>,
    /// How the nexus is shared.
    pub share: Protocol,
    /// Size of the nexus.
    pub size: i64,
    /// How far the life of the nexus has come.
    pub state: SpecState,
    /// Nexus id.
    pub uuid: uuid::Uuid,
}

impl NexusSpec {
    /// A nexus specification from the required fields only: no operation is
    /// under way and no volume owns the nexus.
    pub fn new(
        children: Vec<String>,
        managed: bool,
        node: String,
        share: Protocol,
        size: i64,
        state: SpecState,
        uuid: uuid::Uuid,
    ) -> (r: NexusSpec)
        ensures
            r == (NexusSpec {
                children,
                managed,
                node,
                operation: None,
                owner: None,
                share,
                size,
                state,
                uuid,
            }),
    {
        NexusSpec {
            children,
            managed,
            node,
            operation: None,
            owner: None,
            share,
            size,
            state,
            uuid,
        }
    }

    /// A nexus specification from all fields.
    pub fn new_all(
        children: Vec<String>,
        managed: bool,
        node: String,
        operation: Option<NexusSpecOperation>,
        owner: Option<uuid::Uuid>,
        share: Protocol,
        size: i64,
        state: SpecState,
        uuid: uuid::Uuid,
    ) -> (r: NexusSpec)
        ensures
            r == (NexusSpec { children, managed, node, operation, owner, share, size, state, uuid }),
    {
        NexusSpec { children, managed, node, operation, owner, share, size, state, uuid }
    }
}

} // verus!
