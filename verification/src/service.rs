//! The agent's settings.

use vstd::prelude::*;

verus! {

/// A span of time in nanoseconds.
pub type Nanos = u128;

/// The node agent: the settings that every request is served under.
#[derive(Debug)]
pub struct NodeAgentSvc {
    path_connection_timeout: Nanos,
    subsys_refresh_period: Nanos,
    nqn_prefix: String,
}

/// Mathematical value of a [`NodeAgentSvc`].
pub struct NodeAgentSvcView {
    /// How long a new path may take to become live.
    pub path_connection_timeout: Nanos,
    /// How long to wait between two looks at a subsystem's state.
    pub subsys_refresh_period: Nanos,
    /// What the name of every target has to begin with.
    pub nqn_prefix: Seq<char>,
}

impl View for NodeAgentSvc {
    type V = NodeAgentSvcView;

    closed spec fn view(&self) -> NodeAgentSvcView {
        NodeAgentSvcView {
            path_connection_timeout: self.path_connection_timeout,
            subsys_refresh_period: self.subsys_refresh_period,
            nqn_prefix: self.nqn_prefix@,
        }
    }
}

impl NodeAgentSvc {
    /// The state of a subsystem is looked at more than once before the
    /// deadline can pass.
    #[verifier::type_invariant]
    closed spec fn paced(self) -> bool {
        self.subsys_refresh_period < self.path_connection_timeout
    }

    /// An agent with the given deadline, polling period and target namespace.
    ///
    /// The period has to be strictly shorter than the deadline.
    pub fn new(
        path_connection_timeout: Nanos,
        subsys_refresh_period: Nanos,
        nqn_prefix: String,
    ) -> (svc: Self)
        requires
            subsys_refresh_period < path_connection_timeout,
        ensures
            svc@ == (NodeAgentSvcView {
                path_connection_timeout,
                subsys_refresh_period,
                nqn_prefix: nqn_prefix@,
            }),
    {
        NodeAgentSvc { path_connection_timeout, subsys_refresh_period, nqn_prefix }
    }

    /// How long a new path may take to become live.
    pub fn path_connection_timeout(&self) -> (r: Nanos)
        ensures
            r == self@.path_connection_timeout,
            self@.subsys_refresh_period < r,
    {
        proof {
            use_type_invariant(self);
        }
        self.path_connection_timeout
    }

    /// What the name of every target has to begin with.
    pub fn nqn_prefix(&self) -> (r: &str)
        ensures
            r@ == self@.nqn_prefix,
    {
        self.nqn_prefix.as_str()
    }

    /// How long to wait between two looks at a subsystem's state.
    pub fn subsys_refresh_period(&self) -> (r: Nanos)
        ensures
            r == self@.subsys_refresh_period,
            r < self@.path_connection_timeout,
    {
        proof {
            use_type_invariant(self);
        }
        self.subsys_refresh_period
    }
}

} // verus!
