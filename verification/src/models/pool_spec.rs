//! User specification of a pool.

use crate::models::shared::{PoolSpecOperation, SpecState};
use vstd::prelude::*;

verus! {

/// User specification of a pool.
#[derive(Clone, Debug, PartialEq, Eq)]
pub struct PoolSpec {
    /// Absolute disk paths claimed by the pool.
    pub disks: Vec<String>,
    /// Id of the pool.
    pub id: String,
    /// Pool labels.
    pub labels: Vec<String>,
    /// Id of the storage node that holds the pool.
    pub node: String,
    /// The operation that is under way, if any.
    pub operation: Option<PoolSpecOperation>,
    /// How far the life of the pool has come.
    pub state: SpecState,
}

impl PoolSpec {
    /// A pool specification from the required fields only: no operation is
    /// under way.
    pub fn new(
        disks: Vec<String>,
        id: String,
        labels: Vec<String>,
        node: String,
        state: SpecState,
    ) -> (r: PoolSpec)
        ensures
            r == (PoolSpec { disks, id, labels, node, operation: None, state }),
    {
        PoolSpec { disks, id, labels, node, operation: None, state }
    }

    /// A pool specification from all fields.
    pub fn new_all(
        disks: Vec<String>,
        id: String,
        labels: Vec<String>,
        node: String,
        operation: Option<PoolSpecOperation>,
        state: SpecState,
    ) -> (r: PoolSpec)
        ensures
            r == (PoolSpec { disks, id, labels, node, operation, state }),
    {
        PoolSpec { disks, id, labels, node, operation, state }
    }
}

impl Default for PoolSpec {
    fn default() -> (r: Self)
        ensures
            r.disks@.len() == 0,
            r.id@.len() == 0,
            r.labels@.len() == 0,
            r.node@.len() == 0,
            r.operation is None,
            r.state == SpecState::Creating,
    {
        PoolSpec {
            disks: Vec::new(),
            id: String::new(),
            labels: Vec::new(),
            node: String::new(),
            operation: None,
            state: SpecState::Creating,
        }
    }
}

} // verus!
