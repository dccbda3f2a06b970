//! Retiring a cached controller once a new path is in place.
//!
//! A controller is one path to a target. It is removed unless it turns out
//! to be the new path itself, and never where it belongs to another target
//! than the one that the new path leads to.

use crate::connect::answer_view;
use crate::error::{ResourceKind, SvcError, SvcErrorView};
use crate::uri::{parse_uri, parsed_text, ParsedUri, ParsedUriView};
use vstd::prelude::*;
use vstd::string::*;

verus! {

/// A controller that was connected earlier and is kept in the path cache.
#[derive(Clone, Debug, PartialEq, Eq)]
pub struct NvmeController {
    /// The local path that identifies the controller.
    pub path: String,
    /// The address of the target that it was connected to.
    pub address: String,
}

/// What the driver found behind a controller's path.
#[derive(Debug, PartialEq, Eq)]
pub enum Inspection {
    /// There is no handle for the path.
    NoPath,
    /// There is a handle, but no subsystem can be read from it.
    NoSubsystem,
    /// The subsystem behind the handle: the target it belongs to, its local
    /// name, and whether its address is the host and port that were asked
    /// about.
    Subsystem { nqn: String, name: String, same_address: bool },
}

/// Mathematical value of an [`Inspection`].
pub enum InspectionView {
    NoPath,
    NoSubsystem,
    Subsystem { nqn: Seq<char>, name: Seq<char>, same_address: bool },
}

impl View for Inspection {
    type V = InspectionView;

    open spec fn view(&self) -> InspectionView {
        match *self {
            Inspection::NoPath => InspectionView::NoPath,
            Inspection::NoSubsystem => InspectionView::NoSubsystem,
            Inspection::Subsystem { nqn, name, same_address } => InspectionView::Subsystem {
                nqn: nqn@,
                name: name@,
                same_address,
            },
        }
    }
}

/// What the driver reports back.
#[derive(Debug, PartialEq, Eq)]
pub enum DisconnectEvent {
    /// The controller's path was looked at.
    Inspected(Inspection),
    /// The controller was disconnected, or that failed with the given text.
    Disconnected(Result<(), String>),
}

/// Mathematical value of a [`DisconnectEvent`].
pub enum DisconnectEventView {
    Inspected(InspectionView),
    Disconnected(Result<(), Seq<char>>),
}

impl View for DisconnectEvent {
    type V = DisconnectEventView;

    open spec fn view(&self) -> DisconnectEventView {
        match *self {
            DisconnectEvent::Inspected(i) => DisconnectEventView::Inspected(i@),
            DisconnectEvent::Disconnected(r) => DisconnectEventView::Disconnected(answer_view(r)),
        }
    }
}

/// What the driver is asked to do next.
#[derive(Debug, PartialEq, Eq)]
pub enum DisconnectAction {
    /// Find the handle for `path`, read the subsystem behind it, and compare
    /// its address with `host` and `port`.
    Inspect { path: String, host: String, port: u16 },
    /// Disconnect the controller that was inspected.
    Disconnect,
}

/// Mathematical value of a [`DisconnectAction`].
pub enum DisconnectActionView {
    Inspect { path: Seq<char>, host: Seq<char>, port: u16 },
    Disconnect,
}

impl View for DisconnectAction {
    type V = DisconnectActionView;

    open spec fn view(&self) -> DisconnectActionView {
        match *self {
            DisconnectAction::Inspect { path, host, port } => DisconnectActionView::Inspect {
                path: path@,
                host: host@,
                port,
            },
            DisconnectAction::Disconnect => DisconnectActionView::Disconnect,
        }
    }
}

/// What a disconnect in progress is waiting for.
#[derive(Clone, Copy, Debug, PartialEq, Eq, Structural)]
pub enum DisconnectPhase {
    /// What is behind the controller's path.
    Inspecting,
    /// The removal of the controller.
    Removing,
}

/// A disconnect in progress.
#[derive(Debug, PartialEq, Eq)]
pub struct DisconnectState {
    phase: DisconnectPhase,
    path: String,
    target: ParsedUri,
}

/// Mathematical value of a [`DisconnectState`].
pub struct DisconnectStateView {
    /// What is waited for.
    pub phase: DisconnectPhase,
    /// The path of the controller.
    pub path: Seq<char>,
    /// Host, port and target of the new path.
    pub target: ParsedUriView,
}

impl View for DisconnectState {
    type V = DisconnectStateView;

    closed spec fn view(&self) -> DisconnectStateView {
        DisconnectStateView { phase: self.phase, path: self.path@, target: self.target@ }
    }
}

/// One step of a disconnect: more to do, or its result.
#[derive(Debug, PartialEq, Eq)]
pub enum DisconnectStep {
    /// The driver performs `action` and reports back with `state`.
    Next { state: DisconnectState, action: DisconnectAction },
    /// The disconnect has ended.
    Done(Result<(), SvcError>),
}

/// Mathematical value of a [`DisconnectStep`].
pub enum DisconnectStepView {
    Next { state: DisconnectStateView, action: DisconnectActionView },
    Done(Result<(), SvcErrorView>),
}

impl View for DisconnectStep {
    type V = DisconnectStepView;

    open spec fn view(&self) -> DisconnectStepView {
        match *self {
            DisconnectStep::Next { state, action } => DisconnectStepView::Next {
                state: state@,
                action: action@,
            },
            DisconnectStep::Done(Ok(_)) => DisconnectStepView::Done(Ok(())),
            DisconnectStep::Done(Err(e)) => DisconnectStepView::Done(Err(e@)),
        }
    }
}

/// The text of the error for a controller that could not be disconnected.
pub open spec fn not_removed_text(path: Seq<char>, error: Seq<char>) -> Seq<char> {
    "Failed to disconnect NVMe controller "@ + path + ": "@ + error
}

/// The text of the error for a report that answers no pending action.
pub open spec fn stray_report_text() -> Seq<char> {
    "Unexpected event while disconnecting NVMe controller"@
}

/// The result of a disconnect that was handed a report it did not wait for.
pub open spec fn stray_report() -> DisconnectStepView {
    DisconnectStepView::Done(Err(SvcErrorView::Internal { details: stray_report_text() }))
}

/// How a disconnect begins: the URI of the new path is parsed, then the
/// controller's path is looked at.
pub open spec fn disconnect_start(path: Seq<char>, new_path: Seq<char>) -> DisconnectStepView {
    match parsed_text(new_path) {
        Ok(target) => DisconnectStepView::Next {
            state: DisconnectStateView { phase: DisconnectPhase::Inspecting, path, target },
            action: DisconnectActionView::Inspect { path, host: target.host, port: target.port },
        },
        Err(_) => DisconnectStepView::Done(Err(SvcErrorView::InvalidArguments)),
    }
}

/// What is to be done about a controller once it is known what is behind
/// its path.
pub open spec fn inspected(s: DisconnectStateView, found: InspectionView) -> DisconnectStepView {
    match found {
        InspectionView::NoPath => DisconnectStepView::Done(
            Err(SvcErrorView::NotFound { kind: ResourceKind::NvmePath, id: s.path }),
        ),
        InspectionView::NoSubsystem => DisconnectStepView::Done(
            Err(SvcErrorView::NotFound { kind: ResourceKind::NvmeSubsystem, id: s.path }),
        ),
        InspectionView::Subsystem { nqn, name, same_address } => if nqn != s.target.nqn {
            DisconnectStepView::Done(
                Err(
                    SvcErrorView::UnexpectedSubsystemNqn {
                        nqn,
                        expected_nqn: s.target.nqn,
                        path: name,
                    },
                ),
            )
        } else if same_address {
            DisconnectStepView::Done(Ok(()))
        } else {
            DisconnectStepView::Next {
                state: DisconnectStateView { phase: DisconnectPhase::Removing, ..s },
                action: DisconnectActionView::Disconnect,
            }
        },
    }
}

/// How a disconnect goes on once the driver has reported back.
pub open spec fn disconnect_next(
    s: DisconnectStateView,
    event: DisconnectEventView,
) -> DisconnectStepView {
    match s.phase {
        DisconnectPhase::Inspecting => match event {
            DisconnectEventView::Inspected(found) => inspected(s, found),
            _ => stray_report(),
        },
        DisconnectPhase::Removing => match event {
            DisconnectEventView::Disconnected(Ok(_)) => DisconnectStepView::Done(Ok(())),
            DisconnectEventView::Disconnected(Err(error)) => DisconnectStepView::Done(
                Err(SvcErrorView::Internal { details: not_removed_text(s.path, error) }),
            ),
            _ => stray_report(),
        },
    }
}

/// The result of a disconnect that was handed a report it did not wait for.
fn stray() -> (step: DisconnectStep)
    ensures
        step@ == stray_report(),
{
    DisconnectStep::Done(
        Err(
            SvcError::Internal {
                details: String::from_str("Unexpected event while disconnecting NVMe controller"),
            },
        ),
    )
}

impl DisconnectState {
    /// What is waited for.
    pub fn phase(&self) -> (r: DisconnectPhase)
        ensures
            r == self@.phase,
    {
        self.phase
    }
}

/// Begins to disconnect the cached controller `ctrlr`, now that `new_path`
/// leads to its target.
///
/// Where `new_path` does not parse, the disconnect ends with
/// `InvalidArguments` before anything is asked of the driver. Otherwise the
/// driver is asked what is behind the controller's path.
pub fn disconnect_controller(ctrlr: &NvmeController, new_path: String) -> (step: DisconnectStep)
    ensures
        step@ == disconnect_start(ctrlr.path@, new_path@),
{
    let target = match parse_uri(new_path.as_str()) {
        Ok(target) => target,
        Err(_) => return DisconnectStep::Done(Err(SvcError::InvalidArguments {  })),
    };
    let action = DisconnectAction::Inspect {
        path: ctrlr.path.clone(),
        host: target.host().to_owned(),
        port: target.port(),
    };
    let state = DisconnectState {
        phase: DisconnectPhase::Inspecting,
        path: ctrlr.path.clone(),
        target,
    };
    DisconnectStep::Next { state, action }
}

/// Decides what to do about a controller once it is known what is behind
/// its path.
///
/// A missing handle or subsystem ends the disconnect with `NotFound`. A
/// subsystem of another target than the new path's ends it with
/// `UnexpectedSubsystemNqn`, and nothing is removed. A subsystem at the
/// address of the new path is the new path itself: the disconnect ends well
/// and nothing is removed. Any other subsystem is to be disconnected.
pub fn controller_inspected(state: DisconnectState, found: Inspection) -> (step: DisconnectStep)
    ensures
        step@ == inspected(state@, found@),
{
    let mut state = state;
    match found {
        Inspection::NoPath => DisconnectStep::Done(
            Err(SvcError::NotFound { kind: ResourceKind::NvmePath, id: state.path }),
        ),
        Inspection::NoSubsystem => DisconnectStep::Done(
            Err(SvcError::NotFound { kind: ResourceKind::NvmeSubsystem, id: state.path }),
        ),
        Inspection::Subsystem { nqn, name, same_address } => {
            let expected_nqn = state.target.nqn();
            if nqn != expected_nqn {
                DisconnectStep::Done(
                    Err(SvcError::UnexpectedSubsystemNqn { nqn, expected_nqn, path: name }),
                )
            } else if same_address {
                DisconnectStep::Done(Ok(()))
            } else {
                state.phase = DisconnectPhase::Removing;
                DisconnectStep::Next { state, action: DisconnectAction::Disconnect }
            }
        },
    }
}

/// Goes on with a disconnect once the driver has reported back.
///
/// A failed removal ends the disconnect with `Internal`, and so does a
/// report that does not answer the action that `state` waits for.
pub fn disconnect_controller_next(state: DisconnectState, event: DisconnectEvent) -> (step:
    DisconnectStep)
    ensures
        step@ == disconnect_next(state@, event@),
{
    match state.phase {
        DisconnectPhase::Inspecting => match event {
            DisconnectEvent::Inspected(found) => controller_inspected(state, found),
            _ => stray(),
        },
        DisconnectPhase::Removing => match event {
            DisconnectEvent::Disconnected(Ok(_)) => DisconnectStep::Done(Ok(())),
            DisconnectEvent::Disconnected(Err(error)) => {
                let mut details = String::from_str("Failed to disconnect NVMe controller ");
                details.append(state.path.as_str());
                details.append(": ");
                details.append(error.as_str());
                DisconnectStep::Done(Err(SvcError::Internal { details }))
            },
            _ => stray(),
        },
    }
}

} // verus!
