//! Volume healing policy: whether and how a replica is replaced.

use crate::models::shared::Topology;
use vstd::prelude::*;

verus! {

/// Volume healing policy: whether and how a replica is replaced.
#[derive(Clone, Debug, PartialEq, Eq)]
pub struct VolumeHealPolicy {
    /// Whether the server heals the volume by itself; a client should not
    /// attempt the same while this is set.
    pub self_heal: bool,
    /// Where to pick a replacement replica from; overrides the topology that
    /// the volume was created with.
    pub topology: Option<Topology>,
}

impl VolumeHealPolicy {
    /// A policy from the required fields only: the topology that the volume
    /// was created with stays in force.
    pub fn new(self_heal: bool) -> (r: VolumeHealPolicy)
        ensures
            r == (VolumeHealPolicy { self_heal, topology: None }),
    {
        VolumeHealPolicy { self_heal, topology: None }
    }

    /// A policy from all fields.
    pub fn new_all(self_heal: bool, topology: Option<Topology>) -> (r: VolumeHealPolicy)
        ensures
            r == (VolumeHealPolicy { self_heal, topology }),
    {
        VolumeHealPolicy { self_heal, topology }
    }
}

impl Default for VolumeHealPolicy {
    fn default() -> (r: Self)
        ensures
            r == (VolumeHealPolicy { self_heal: false, topology: None }),
    {
        VolumeHealPolicy { self_heal: false, topology: None }
    }
}

} // verus!
