//! Data models of the REST interface.

pub mod nexus_spec;
pub mod pool_spec;
pub mod rest_watch;
pub mod shared;
pub mod volume_heal_policy;
