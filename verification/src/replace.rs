//! Replacing the path to a target: the cached controllers are looked up, the
//! new path is connected, and the cached controllers are retired one by one.
//!
//! Once the new path is live the replacement has done what it is for. A
//! stale controller that cannot be retired is left beside the new path, and
//! the replacement still ends well: its result names the errors of the
//! controllers that were left, for whoever wants to warn about them.

use crate::connect::{
    connect_next, connect_start, ConnectAction, ConnectActionView, ConnectEvent, ConnectEventView,
    ConnectState, ConnectStateView, ConnectStep, ConnectStepView,
};
use crate::disconnect::{
    disconnect_controller, disconnect_controller_next, disconnect_next, disconnect_start,
    DisconnectAction, DisconnectActionView, DisconnectEvent, DisconnectEventView, DisconnectState,
    DisconnectStateView, DisconnectStep, DisconnectStepView, NvmeController,
};
use crate::error::{ReplyError, ReplyErrorView, ResourceKind, SvcError, SvcErrorView};
use crate::service::{NodeAgentSvc, NodeAgentSvcView};
use std::collections::HashMap;
use vstd::prelude::*;
use vstd::string::*;

verus! {

/// A request to replace the failed path to a target.
#[derive(Clone, Debug, PartialEq, Eq)]
pub struct ReplacePathRequest {
    /// The name of the target.
    pub target_nqn: String,
    /// The URI of the path to connect.
    pub new_path: String,
    /// What is handed on to the initiator service with the connect.
    pub publish_context: Option<HashMap<String, String>>,
}

/// What the driver reports back.
#[derive(Debug, PartialEq, Eq)]
pub enum ReplaceEvent {
    /// The path cache was asked for the controllers of the target: these are
    /// they, or `None` where the lookup failed.
    LookedUp(Option<Vec<NvmeController>>),
    /// What came of an action of the connect.
    Connect(ConnectEvent),
    /// What came of an action of a disconnect.
    Disconnect(DisconnectEvent),
}

/// Mathematical value of a [`ReplaceEvent`].
pub enum ReplaceEventView {
    LookedUp(Option<Seq<NvmeController>>),
    Connect(ConnectEventView),
    Disconnect(DisconnectEventView),
}

impl View for ReplaceEvent {
    type V = ReplaceEventView;

    open spec fn view(&self) -> ReplaceEventView {
        match *self {
            ReplaceEvent::LookedUp(Some(found)) => ReplaceEventView::LookedUp(Some(found@)),
            ReplaceEvent::LookedUp(None) => ReplaceEventView::LookedUp(None),
            ReplaceEvent::Connect(e) => ReplaceEventView::Connect(e@),
            ReplaceEvent::Disconnect(e) => ReplaceEventView::Disconnect(e@),
        }
    }
}

/// What the driver is asked to do next.
#[derive(Debug, PartialEq, Eq)]
pub enum ReplaceAction {
    /// Ask the path cache for the controllers of the target `nqn`.
    Lookup { nqn: String },
    /// Perform an action of the connect.
    Connect(ConnectAction),
    /// Perform an action of a disconnect.
    Disconnect(DisconnectAction),
}

/// Mathematical value of a [`ReplaceAction`].
pub enum ReplaceActionView {
    Lookup { nqn: Seq<char> },
    Connect(ConnectActionView),
    Disconnect(DisconnectActionView),
}

impl View for ReplaceAction {
    type V = ReplaceActionView;

    open spec fn view(&self) -> ReplaceActionView {
        match *self {
            ReplaceAction::Lookup { nqn } => ReplaceActionView::Lookup { nqn: nqn@ },
            ReplaceAction::Connect(a) => ReplaceActionView::Connect(a@),
            ReplaceAction::Disconnect(a) => ReplaceActionView::Disconnect(a@),
        }
    }
}

/// A replacement in progress.
#[derive(Debug, PartialEq, Eq)]
pub struct ReplaceState {
    stage: Stage,
}

/// How far a replacement has come.
#[derive(Debug, PartialEq, Eq)]
enum Stage {
    LookingUp { request: ReplacePathRequest },
    Connecting { connect: ConnectState, controllers: Vec<NvmeController>, new_path: String },
    Retiring {
        disconnect: DisconnectState,
        controllers: Vec<NvmeController>,
        next: usize,
        new_path: String,
        failed: Vec<SvcError>,
    },
}

/// Mathematical value of a list of errors.
pub open spec fn errors_view(errors: Seq<SvcError>) -> Seq<SvcErrorView> {
    errors.map_values(|e: SvcError| e@)
}

/// Mathematical value of a [`ReplaceState`].
pub enum ReplaceStateView {
    /// The path cache has been asked for the controllers of the target.
    LookingUp { target_nqn: Seq<char>, new_path: Seq<char>, publish_context: Option<HashMap<String, String>> },
    /// The new path is being connected; `controllers` are to be retired
    /// after it.
    Connecting { connect: ConnectStateView, controllers: Seq<NvmeController>, new_path: Seq<char> },
    /// The new path is live and a controller is being retired; those from
    /// `next` on are still to come, and `failed` holds the errors of those
    /// before it that could not be retired.
    Retiring {
        disconnect: DisconnectStateView,
        controllers: Seq<NvmeController>,
        next: int,
        new_path: Seq<char>,
        failed: Seq<SvcErrorView>,
    },
}

impl View for ReplaceState {
    type V = ReplaceStateView;

    closed spec fn view(&self) -> ReplaceStateView {
        match self.stage {
            Stage::LookingUp { request } => ReplaceStateView::LookingUp {
                target_nqn: request.target_nqn@,
                new_path: request.new_path@,
                publish_context: request.publish_context,
            },
            Stage::Connecting { connect, controllers, new_path } => ReplaceStateView::Connecting {
                connect: connect@,
                controllers: controllers@,
                new_path: new_path@,
            },
            Stage::Retiring { disconnect, controllers, next, new_path, failed } => {
                ReplaceStateView::Retiring {
                    disconnect: disconnect@,
                    controllers: controllers@,
                    next: next as int,
                    new_path: new_path@,
                    failed: errors_view(failed@),
                }
            },
        }
    }
}

/// One step of a replacement: more to do, or its result.
#[derive(Debug, PartialEq, Eq)]
pub enum ReplaceStep {
    /// The driver performs `action` and reports back with `state`.
    Next { state: ReplaceState, action: ReplaceAction },
    /// The replacement has ended: with an error and no new path, or with a
    /// new path and the errors of the stale controllers that are still there.
    Done(Result<Vec<SvcError>, ReplyError>),
}

/// Mathematical value of a [`ReplaceStep`].
pub enum ReplaceStepView {
    Next { state: ReplaceStateView, action: ReplaceActionView },
    Done(Result<Seq<SvcErrorView>, ReplyErrorView>),
}

impl View for ReplaceStep {
    type V = ReplaceStepView;

    open spec fn view(&self) -> ReplaceStepView {
        match *self {
            ReplaceStep::Next { state, action } => ReplaceStepView::Next {
                state: state@,
                action: action@,
            },
            ReplaceStep::Done(Ok(failed)) => ReplaceStepView::Done(Ok(errors_view(failed@))),
            ReplaceStep::Done(Err(e)) => ReplaceStepView::Done(Err(e@)),
        }
    }
}

/// The reply for a path cache that could not be asked.
pub open spec fn lookup_failed() -> ReplyErrorView {
    ReplyErrorView::FailedPrecondition {
        resource: ResourceKind::NvmePath,
        source: "HA Node agent gRPC server"@,
        extra: "Failed to lookup controller"@,
    }
}

/// The text of the error for a report that answers no pending action.
pub open spec fn stray_reply_text() -> Seq<char> {
    "Unexpected event while replacing NVMe path"@
}

/// The result of a replacement that was handed a report it did not wait for.
pub open spec fn stray_reply() -> ReplaceStepView {
    ReplaceStepView::Done(
        Err(ReplyErrorView::Service(SvcErrorView::Internal { details: stray_reply_text() })),
    )
}

/// How a replacement begins: the path cache is asked for the controllers of
/// the target.
pub open spec fn replace_start(
    target_nqn: Seq<char>,
    new_path: Seq<char>,
    publish_context: Option<HashMap<String, String>>,
) -> ReplaceStepView {
    ReplaceStepView::Next {
        state: ReplaceStateView::LookingUp { target_nqn, new_path, publish_context },
        action: ReplaceActionView::Lookup { nqn: target_nqn },
    }
}

/// How a replacement goes on from the controller at `next`, with `failed`
/// for the errors so far: the first controller from there on whose
/// disconnect asks something of the driver is taken up; one whose disconnect
/// ends at once is passed over, and its error, if it ended with one, noted.
/// With no controller left the replacement ends well.
pub open spec fn retire_from(
    controllers: Seq<NvmeController>,
    next: int,
    new_path: Seq<char>,
    failed: Seq<SvcErrorView>,
) -> ReplaceStepView
    decreases controllers.len() - next,
{
    if 0 <= next < controllers.len() {
        match disconnect_start(controllers[next].path@, new_path) {
            DisconnectStepView::Next { state, action } => ReplaceStepView::Next {
                state: ReplaceStateView::Retiring {
                    disconnect: state,
                    controllers,
                    next: next + 1,
                    new_path,
                    failed,
                },
                action: ReplaceActionView::Disconnect(action),
            },
            DisconnectStepView::Done(Err(e)) => retire_from(
                controllers,
                next + 1,
                new_path,
                failed.push(e),
            ),
            DisconnectStepView::Done(Ok(_)) => retire_from(controllers, next + 1, new_path, failed),
        }
    } else {
        ReplaceStepView::Done(Ok(failed))
    }
}

/// How a replacement goes on with a step of its connect. A connect that
/// fails ends the replacement with the connect's error; one that ends well
/// is followed by the retiring of the controllers.
pub open spec fn connect_stepped(
    step: ConnectStepView,
    controllers: Seq<NvmeController>,
    new_path: Seq<char>,
) -> ReplaceStepView {
    match step {
        ConnectStepView::Next { state, action } => ReplaceStepView::Next {
            state: ReplaceStateView::Connecting { connect: state, controllers, new_path },
            action: ReplaceActionView::Connect(action),
        },
        ConnectStepView::Done(Err(e)) => ReplaceStepView::Done(Err(ReplyErrorView::Service(e))),
        ConnectStepView::Done(Ok(_)) => retire_from(controllers, 0, new_path, Seq::empty()),
    }
}

/// How a replacement goes on with a step of a disconnect. However the
/// disconnect ends, the next controller is taken up; an error that it ends
/// with is noted.
pub open spec fn disconnect_stepped(
    step: DisconnectStepView,
    controllers: Seq<NvmeController>,
    next: int,
    new_path: Seq<char>,
    failed: Seq<SvcErrorView>,
) -> ReplaceStepView {
    match step {
        DisconnectStepView::Next { state, action } => ReplaceStepView::Next {
            state: ReplaceStateView::Retiring {
                disconnect: state,
                controllers,
                next,
                new_path,
                failed,
            },
            action: ReplaceActionView::Disconnect(action),
        },
        DisconnectStepView::Done(Err(e)) => retire_from(
            controllers,
            next,
            new_path,
            failed.push(e),
        ),
        DisconnectStepView::Done(Ok(_)) => retire_from(controllers, next, new_path, failed),
    }
}

/// How a replacement goes on once the driver has reported back.
pub open spec fn replace_next(
    svc: NodeAgentSvcView,
    s: ReplaceStateView,
    event: ReplaceEventView,
) -> ReplaceStepView {
    match s {
        ReplaceStateView::LookingUp { target_nqn, new_path, publish_context } => match event {
            ReplaceEventView::LookedUp(Some(controllers)) => connect_stepped(
                connect_start(svc, new_path, target_nqn, publish_context),
                controllers,
                new_path,
            ),
            ReplaceEventView::LookedUp(None) => ReplaceStepView::Done(Err(lookup_failed())),
            _ => stray_reply(),
        },
        ReplaceStateView::Connecting { connect, controllers, new_path } => match event {
            ReplaceEventView::Connect(e) => connect_stepped(
                connect_next(svc, connect, e),
                controllers,
                new_path,
            ),
            _ => stray_reply(),
        },
        ReplaceStateView::Retiring {
            disconnect,
            controllers,
            next,
            new_path,
            failed,
        } => match event {
            ReplaceEventView::Disconnect(e) => disconnect_stepped(
                disconnect_next(disconnect, e),
                controllers,
                next,
                new_path,
                failed,
            ),
            _ => stray_reply(),
        },
    }
}

/// The result of a replacement that was handed a report it did not wait for.
fn stray() -> (step: ReplaceStep)
    ensures
        step@ == stray_reply(),
{
    ReplaceStep::Done(
        Err(
            ReplyError::Service(
                SvcError::Internal {
                    details: String::from_str("Unexpected event while replacing NVMe path"),
                },
            ),
        ),
    )
}

/// Notes an error.
fn note(failed: &mut Vec<SvcError>, e: SvcError)
    ensures
        errors_view(final(failed)@) == errors_view(old(failed)@).push(e@),
{
    failed.push(e);
    assert(errors_view(failed@) =~= errors_view(old(failed)@).push(e@));
}

/// Takes up the first controller from `next` on whose disconnect asks
/// something of the driver.
fn retire(
    controllers: Vec<NvmeController>,
    next: usize,
    new_path: String,
    failed: Vec<SvcError>,
) -> (step: ReplaceStep)
    ensures
        step@ == retire_from(controllers@, next as int, new_path@, errors_view(failed@)),
{
    let mut i = next;
    let mut noted = failed;
    while i < controllers.len()
        invariant
            next <= i,
            retire_from(controllers@, i as int, new_path@, errors_view(noted@)) == retire_from(
                controllers@,
                next as int,
                new_path@,
                errors_view(failed@),
            ),
        decreases controllers.len() - i,
    {
        match disconnect_controller(&controllers[i], new_path.clone()) {
            DisconnectStep::Next { state, action } => {
                return ReplaceStep::Next {
                    state: ReplaceState {
                        stage: Stage::Retiring {
                            disconnect: state,
                            controllers,
                            next: i + 1,
                            new_path,
                            failed: noted,
                        },
                    },
                    action: ReplaceAction::Disconnect(action),
                };
            },
            DisconnectStep::Done(Err(e)) => {
                note(&mut noted, e);
                i = i + 1;
            },
            DisconnectStep::Done(Ok(_)) => {
                i = i + 1;
            },
        }
    }
    ReplaceStep::Done(Ok(noted))
}

/// Goes on with a step of the connect.
fn after_connect(step: ConnectStep, controllers: Vec<NvmeController>, new_path: String) -> (r:
    ReplaceStep)
    ensures
        r@ == connect_stepped(step@, controllers@, new_path@),
{
    match step {
        ConnectStep::Next { state, action } => ReplaceStep::Next {
            state: ReplaceState { stage: Stage::Connecting { connect: state, controllers, new_path } },
            action: ReplaceAction::Connect(action),
        },
        ConnectStep::Done(Err(e)) => ReplaceStep::Done(Err(ReplyError::Service(e))),
        ConnectStep::Done(Ok(_)) => {
            let failed: Vec<SvcError> = Vec::new();
            assert(errors_view(failed@) =~= Seq::<SvcErrorView>::empty());
            retire(controllers, 0, new_path, failed)
        },
    }
}

impl NodeAgentSvc {
    /// Begins to replace the failed path to a target: the path cache is
    /// asked for the controllers of the target.
    pub fn replace_path(&self, request: ReplacePathRequest) -> (step: ReplaceStep)
        ensures
            step@ == replace_start(
                request.target_nqn@,
                request.new_path@,
                request.publish_context,
            ),
    {
        let nqn = request.target_nqn.clone();
        ReplaceStep::Next {
            state: ReplaceState { stage: Stage::LookingUp { request } },
            action: ReplaceAction::Lookup { nqn },
        }
    }

    /// Goes on with a replacement once the driver has reported back.
    ///
    /// A failed lookup ends it with a failed precondition, before anything
    /// is connected or removed. An error of the connect ends it with that
    /// error, and no controller is touched. After a connect that ended well
    /// every cached controller is taken up in turn, and the replacement ends
    /// well whatever comes of each; its result holds the errors of those
    /// that could not be retired, in the order of the controllers. A report
    /// that does not answer the action that `state` waits for ends the
    /// replacement with `Internal`.
    pub fn replace_path_next(&self, state: ReplaceState, event: ReplaceEvent) -> (step: ReplaceStep)
        ensures
            step@ == replace_next(self@, state@, event@),
    {
        match state.stage {
            Stage::LookingUp { request } => match event {
                ReplaceEvent::LookedUp(Some(controllers)) => {
                    let ReplacePathRequest { target_nqn, new_path, publish_context } = request;
                    let step = self.connect_controller(
                        new_path.clone(),
                        target_nqn,
                        publish_context,
                    );
                    after_connect(step, controllers, new_path)
                },
                ReplaceEvent::LookedUp(None) => ReplaceStep::Done(
                    Err(
                        ReplyError::failed_precondition(
                            ResourceKind::NvmePath,
                            String::from_str("HA Node agent gRPC server"),
                            String::from_str("Failed to lookup controller"),
                        ),
                    ),
                ),
                _ => stray(),
            },
            Stage::Connecting { connect, controllers, new_path } => match event {
                ReplaceEvent::Connect(e) => {
                    let step = self.connect_controller_next(connect, e);
                    after_connect(step, controllers, new_path)
                },
                _ => stray(),
            },
            Stage::Retiring { disconnect, controllers, next, new_path, failed } => match event {
                ReplaceEvent::Disconnect(e) => match disconnect_controller_next(disconnect, e) {
                    DisconnectStep::Next { state, action } => ReplaceStep::Next {
                        state: ReplaceState {
                            stage: Stage::Retiring {
                                disconnect: state,
                                controllers,
                                next,
                                new_path,
                                failed,
                            },
                        },
                        action: ReplaceAction::Disconnect(action),
                    },
                    DisconnectStep::Done(Err(e)) => {
                        let mut failed = failed;
                        note(&mut failed, e);
                        retire(controllers, next, new_path, failed)
                    },
                    DisconnectStep::Done(Ok(_)) => retire(controllers, next, new_path, failed),
                },
                _ => stray(),
            },
        }
    }
}

} // verus!
