//! Telling which controllers are bound to a target.

use crate::error::{ReplyError, ReplyErrorView, ResourceKind, SvcError, SvcErrorView};
use crate::service::NodeAgentSvc;
use crate::uri::{parse_uri, parsed_text};
use vstd::prelude::*;
use vstd::string::*;

verus! {

/// One controller of a target, as it is reported to the caller.
#[derive(Clone, Debug, PartialEq, Eq)]
pub struct NvmeSubsystem {
    /// The network address that the controller is connected to.
    pub address: String,
}

impl NvmeSubsystem {
    /// A controller at the given address.
    pub fn new(address: String) -> (r: Self)
        ensures
            r.address == address,
    {
        NvmeSubsystem { address }
    }
}

/// The controllers of a target.
#[derive(Clone, Debug, PartialEq, Eq)]
pub struct NvmeSubsystems(pub Vec<NvmeSubsystem>);

/// A request for the controllers that are bound to the target of a path.
#[derive(Clone, Debug, PartialEq, Eq)]
pub struct GetControllerRequest {
    /// The URI of a path to the target.
    pub nvme_path: String,
}

/// One step of a query: a question to the driver, or its result.
#[derive(Debug, PartialEq, Eq)]
pub enum QueryStep {
    /// The driver enumerates the local subsystems of the target `nqn` and
    /// reports their addresses to [`NodeAgentSvc::get_nvme_controller_next`].
    List { nqn: String },
    /// The query has ended.
    Done(Result<NvmeSubsystems, ReplyError>),
}

/// How a query begins: with the target that the path names, or with
/// `InvalidArguments` where the path is no URI or lacks host, port or
/// target.
pub open spec fn query_start(nvme_path: Seq<char>) -> Result<Seq<char>, ReplyErrorView> {
    match parsed_text(nvme_path) {
        Ok(target) => Ok(target.nqn),
        Err(_) => Err(ReplyErrorView::Service(SvcErrorView::InvalidArguments)),
    }
}

/// The reply for a target without subsystems.
pub open spec fn none_found() -> ReplyErrorView {
    ReplyErrorView::NotFound {
        resource: ResourceKind::NvmeSubsystem,
        source: "Node agent"@,
        extra: "Could not find any subsystems for the supplied nqn"@,
    }
}

/// The addresses that a result holds, in its order.
pub open spec fn addresses(found: NvmeSubsystems) -> Seq<Seq<char>> {
    Seq::new(found.0@.len(), |i: int| found.0@[i].address@)
}

/// The addresses that the driver reported, in its order.
pub open spec fn reported(listing: Seq<String>) -> Seq<Seq<char>> {
    Seq::new(listing.len(), |i: int| listing[i]@)
}

impl NodeAgentSvc {
    /// Begins to answer which controllers are bound to the target of a path.
    ///
    /// Where the path is no URI, or lacks host, port or target, the query
    /// ends with `InvalidArguments` and nothing is asked of the driver.
    /// Otherwise the driver is asked for the subsystems of the target that
    /// the path names.
    pub fn get_nvme_controller(&self, request: &GetControllerRequest) -> (step: QueryStep)
        ensures
            match step {
                QueryStep::List { nqn } => query_start(request.nvme_path@) == Ok::<
                    Seq<char>,
                    ReplyErrorView,
                >(nqn@),
                QueryStep::Done(Err(e)) => query_start(request.nvme_path@) == Err::<
                    Seq<char>,
                    ReplyErrorView,
                >(e@),
                QueryStep::Done(Ok(_)) => false,
            },
    {
        match parse_uri(request.nvme_path.as_str()) {
            Ok(target) => QueryStep::List { nqn: target.nqn() },
            Err(_) => QueryStep::Done(Err(ReplyError::Service(SvcError::InvalidArguments {  }))),
        }
    }

    /// Ends a query with what the driver found.
    ///
    /// `listing` holds the address of each subsystem of the target, or is
    /// `None` where the enumeration failed. A failed enumeration and an
    /// empty one end the query with `NotFound`; else the result holds the
    /// addresses in the order in which they were reported.
    pub fn get_nvme_controller_next(&self, listing: Option<Vec<String>>) -> (r: Result<
        NvmeSubsystems,
        ReplyError,
    >)
        ensures
            match r {
                Ok(found) => listing matches Some(l) && l@.len() > 0 && addresses(found)
                    == reported(l@),
                Err(e) => e@ == none_found() && !(listing matches Some(l) && l@.len() > 0),
            },
    {
        let listing = match listing {
            Some(l) => l,
            None => return Err(none_reply()),
        };
        if listing.len() == 0 {
            return Err(none_reply());
        }
        let mut found: Vec<NvmeSubsystem> = Vec::new();
        let mut i: usize = 0;
        while i < listing.len()
            invariant
                i <= listing.len(),
                found@.len() == i,
                forall|k: int| 0 <= k < i ==> (#[trigger] found@[k]).address@ == listing@[k]@,
            decreases listing.len() - i,
        {
            found.push(NvmeSubsystem::new(listing[i].clone()));
            i = i + 1;
        }
        let found = NvmeSubsystems(found);
        assert(addresses(found) =~= reported(listing@));
        Ok(found)
    }
}

/// The reply for a target without subsystems.
fn none_reply() -> (e: ReplyError)
    ensures
        e@ == none_found(),
{
    ReplyError::not_found(
        ResourceKind::NvmeSubsystem,
        String::from_str("Node agent"),
        String::from_str("Could not find any subsystems for the supplied nqn"),
    )
}

} // verus!
