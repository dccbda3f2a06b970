//! Errors of the node agent and the replies that leave it.

use vstd::prelude::*;

verus! {

/// The kind of resource that an error speaks of.
#[derive(Clone, Copy, Debug, PartialEq, Eq, Structural)]
pub enum ResourceKind {
    /// A local NVMe path, that is one controller.
    NvmePath,
    /// A kernel-visible NVMe subsystem.
    NvmeSubsystem,
}

/// What can go wrong while a path is replaced or queried.
#[derive(Clone, Debug, PartialEq, Eq)]
pub enum SvcError {
    /// The URI is malformed, lacks host or port, names no target, or names a
    /// target outside the required namespace.
    InvalidArguments {  },
    /// A path handle or a subsystem was looked up and is not there.
    NotFound { kind: ResourceKind, id: String },
    /// A cached controller belongs to another target than the one expected.
    UnexpectedSubsystemNqn { nqn: String, expected_nqn: String, path: String },
    /// The new path could not be connected, or did not become live in time.
    NvmeConnectError { details: String },
    /// The connect was reported as done, yet no subsystem shows up locally.
    SubsystemNotFound { nqn: String, details: String },
    /// A subsystem in a state that is not understood, or a failed disconnect.
    Internal { details: String },
}

/// Mathematical value of a [`SvcError`].
pub enum SvcErrorView {
    InvalidArguments,
    NotFound { kind: ResourceKind, id: Seq<char> },
    UnexpectedSubsystemNqn { nqn: Seq<char>, expected_nqn: Seq<char>, path: Seq<char> },
    NvmeConnectError { details: Seq<char> },
    SubsystemNotFound { nqn: Seq<char>, details: Seq<char> },
    Internal { details: Seq<char> },
}

impl View for SvcError {
    type V = SvcErrorView;

    open spec fn view(&self) -> SvcErrorView {
        match *self {
            SvcError::InvalidArguments {  } => SvcErrorView::InvalidArguments,
            SvcError::NotFound { kind, id } => SvcErrorView::NotFound { kind, id: id@ },
            SvcError::UnexpectedSubsystemNqn { nqn, expected_nqn, path } => {
                SvcErrorView::UnexpectedSubsystemNqn {
                    nqn: nqn@,
                    expected_nqn: expected_nqn@,
                    path: path@,
                }
            },
            SvcError::NvmeConnectError { details } => SvcErrorView::NvmeConnectError {
                details: details@,
            },
            SvcError::SubsystemNotFound { nqn, details } => SvcErrorView::SubsystemNotFound {
                nqn: nqn@,
                details: details@,
            },
            SvcError::Internal { details } => SvcErrorView::Internal { details: details@ },
        }
    }
}

/// What a failed request is answered with.
#[derive(Clone, Debug, PartialEq, Eq)]
pub enum ReplyError {
    /// Something that had to hold before the request could be served did not.
    FailedPrecondition { resource: ResourceKind, source: String, extra: String },
    /// Nothing of the given kind answers to the request.
    NotFound { resource: ResourceKind, source: String, extra: String },
    /// An error of the service, handed on as it is.
    Service(SvcError),
}

/// Mathematical value of a [`ReplyError`].
pub enum ReplyErrorView {
    FailedPrecondition { resource: ResourceKind, source: Seq<char>, extra: Seq<char> },
    NotFound { resource: ResourceKind, source: Seq<char>, extra: Seq<char> },
    Service(SvcErrorView),
}

impl View for ReplyError {
    type V = ReplyErrorView;

    open spec fn view(&self) -> ReplyErrorView {
        match *self {
            ReplyError::FailedPrecondition { resource, source, extra } => {
                ReplyErrorView::FailedPrecondition { resource, source: source@, extra: extra@ }
            },
            ReplyError::NotFound { resource, source, extra } => ReplyErrorView::NotFound {
                resource,
                source: source@,
                extra: extra@,
            },
            ReplyError::Service(e) => ReplyErrorView::Service(e@),
        }
    }
}

impl ReplyError {
    /// A reply for a precondition that failed.
    pub fn failed_precondition(resource: ResourceKind, source: String, extra: String) -> (r: Self)
        ensures
            r@ == (ReplyErrorView::FailedPrecondition { resource, source: source@, extra: extra@ }),
    {
        ReplyError::FailedPrecondition { resource, source, extra }
    }

    /// A reply for something that was not found.
    pub fn not_found(resource: ResourceKind, source: String, extra: String) -> (r: Self)
        ensures
            r@ == (ReplyErrorView::NotFound { resource, source: source@, extra: extra@ }),
    {
        ReplyError::NotFound { resource, source, extra }
    }
}

} // verus!
