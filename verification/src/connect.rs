//! Connecting a new path and waiting until it serves I/O.
//!
//! The work alternates between this module and whoever drives it. The driver
//! starts with [`NodeAgentSvc::connect_controller`], performs the action it
//! is handed, and reports what came of it to
//! [`NodeAgentSvc::connect_controller_next`], until it is handed a result.

use crate::error::{SvcError, SvcErrorView};
use crate::service::{Nanos, NodeAgentSvc, NodeAgentSvcView};
use crate::text::{str_eq, str_starts_with};
use crate::uri::{parse_uri, parsed_text, ParsedUri, ParsedUriView};
use std::collections::HashMap;
use vstd::prelude::*;
use vstd::string::*;

verus! {

/// The lifecycle state that a subsystem reports.
#[derive(Clone, Copy, Debug, PartialEq, Eq, Structural)]
pub enum SubsystemState {
    /// Just created.
    New,
    /// On its way to serve I/O.
    Connecting,
    /// Serves I/O.
    Live,
    /// Anything else.
    Other,
}

/// The lifecycle state that a reported text stands for.
pub open spec fn state_of(text: Seq<char>) -> SubsystemState {
    if text == "new"@ {
        SubsystemState::New
    } else if text == "connecting"@ {
        SubsystemState::Connecting
    } else if text == "live"@ {
        SubsystemState::Live
    } else {
        SubsystemState::Other
    }
}

/// Tells the lifecycle state that a subsystem reports.
pub fn classify_state(text: &str) -> (r: SubsystemState)
    ensures
        r == state_of(text@),
{
    if str_eq(text, "new") {
        SubsystemState::New
    } else if str_eq(text, "connecting") {
        SubsystemState::Connecting
    } else if str_eq(text, "live") {
        SubsystemState::Live
    } else {
        SubsystemState::Other
    }
}

/// What the driver reports back.
#[derive(Debug, PartialEq, Eq)]
pub enum ConnectEvent {
    /// The subsystem was looked up by host, port and target: it is there, or
    /// the lookup failed with the given text.
    Resolved(Result<(), String>),
    /// The initiator service was asked to connect: it did, or it failed with
    /// the given text.
    Connected(Result<(), String>),
    /// The period was waited out and the subsystem refreshed. `state` is what
    /// it reports now, or `None` where the refresh failed; `elapsed` is the
    /// time since the first such wait began.
    Polled { state: Option<String>, elapsed: Nanos },
    /// The driver was told to give up while it waited for the subsystem.
    Cancelled,
    /// The subsystem that was last looked up was disconnected, or that failed
    /// with the given text.
    Disconnected(Result<(), String>),
}

/// Mathematical value of a [`ConnectEvent`].
pub enum ConnectEventView {
    Resolved(Result<(), Seq<char>>),
    Connected(Result<(), Seq<char>>),
    Polled { state: Option<Seq<char>>, elapsed: Nanos },
    Cancelled,
    Disconnected(Result<(), Seq<char>>),
}

/// Mathematical value of an answer that either is fine or carries a text.
pub open spec fn answer_view(r: Result<(), String>) -> Result<(), Seq<char>> {
    match r {
        Ok(_) => Ok(()),
        Err(text) => Err(text@),
    }
}

impl View for ConnectEvent {
    type V = ConnectEventView;

    open spec fn view(&self) -> ConnectEventView {
        match *self {
            ConnectEvent::Resolved(r) => ConnectEventView::Resolved(answer_view(r)),
            ConnectEvent::Connected(r) => ConnectEventView::Connected(answer_view(r)),
            ConnectEvent::Polled { state, elapsed } => ConnectEventView::Polled {
                state: match state {
                    Some(s) => Some(s@),
                    None => None,
                },
                elapsed,
            },
            ConnectEvent::Cancelled => ConnectEventView::Cancelled,
            ConnectEvent::Disconnected(r) => ConnectEventView::Disconnected(answer_view(r)),
        }
    }
}

/// What the driver is asked to do next.
#[derive(Debug, PartialEq, Eq)]
pub enum ConnectAction {
    /// Look the subsystem up by host, port and target.
    Resolve { host: String, port: u16, nqn: String },
    /// Ask the initiator service to connect to `uri`.
    Connect { uri: String, publish_context: Option<HashMap<String, String>> },
    /// Wait for `wait`, then refresh the subsystem that was looked up after
    /// the connect.
    Poll { wait: Nanos },
    /// Disconnect the subsystem that the last lookup found.
    Disconnect,
}

/// Mathematical value of a [`ConnectAction`].
pub enum ConnectActionView {
    Resolve { host: Seq<char>, port: u16, nqn: Seq<char> },
    Connect { uri: Seq<char>, publish_context: Option<HashMap<String, String>> },
    Poll { wait: Nanos },
    Disconnect,
}

impl View for ConnectAction {
    type V = ConnectActionView;

    open spec fn view(&self) -> ConnectActionView {
        match *self {
            ConnectAction::Resolve { host, port, nqn } => ConnectActionView::Resolve {
                host: host@,
                port,
                nqn: nqn@,
            },
            ConnectAction::Connect { uri, publish_context } => ConnectActionView::Connect {
                uri: uri@,
                publish_context,
            },
            ConnectAction::Poll { wait } => ConnectActionView::Poll { wait },
            ConnectAction::Disconnect => ConnectActionView::Disconnect,
        }
    }
}

/// What a connect in progress is waiting for.
#[derive(Clone, Copy, Debug, PartialEq, Eq, Structural)]
pub enum ConnectPhase {
    /// Whether the subsystem was there before anything was done.
    Probing,
    /// The answer of the initiator service.
    Connecting,
    /// The subsystem that the connect should have brought.
    Resolving,
    /// The next look at the subsystem's state.
    Polling,
    /// The subsystem as it is once the deadline has passed.
    Reviewing,
    /// The removal of a subsystem that did not become live.
    Removing,
}

/// A connect in progress.
#[derive(Debug, PartialEq, Eq)]
pub struct ConnectState {
    phase: ConnectPhase,
    new_path: String,
    nqn: String,
    target: ParsedUri,
    publish_context: Option<HashMap<String, String>>,
    pre_existing: bool,
}

/// Mathematical value of a [`ConnectState`].
pub struct ConnectStateView {
    /// What is waited for.
    pub phase: ConnectPhase,
    /// The URI of the new path, as it was given.
    pub new_path: Seq<char>,
    /// The target's name, as it was given.
    pub nqn: Seq<char>,
    /// Host, port and target that the URI was parsed into.
    pub target: ParsedUriView,
    /// The publish context, until it is handed to the initiator service.
    pub publish_context: Option<HashMap<String, String>>,
    /// Whether the subsystem was there before the connect was asked for.
    pub pre_existing: bool,
}

impl View for ConnectState {
    type V = ConnectStateView;

    closed spec fn view(&self) -> ConnectStateView {
        ConnectStateView {
            phase: self.phase,
            new_path: self.new_path@,
            nqn: self.nqn@,
            target: self.target@,
            publish_context: self.publish_context,
            pre_existing: self.pre_existing,
        }
    }
}

/// One step of a connect: more to do, or its result.
#[derive(Debug, PartialEq, Eq)]
pub enum ConnectStep {
    /// The driver performs `action` and reports back with `state`.
    Next { state: ConnectState, action: ConnectAction },
    /// The connect has ended.
    Done(Result<(), SvcError>),
}

/// Mathematical value of a [`ConnectStep`].
pub enum ConnectStepView {
    Next { state: ConnectStateView, action: ConnectActionView },
    Done(Result<(), SvcErrorView>),
}

impl View for ConnectStep {
    type V = ConnectStepView;

    open spec fn view(&self) -> ConnectStepView {
        match *self {
            ConnectStep::Next { state, action } => ConnectStepView::Next {
                state: state@,
                action: action@,
            },
            ConnectStep::Done(Ok(_)) => ConnectStepView::Done(Ok(())),
            ConnectStep::Done(Err(e)) => ConnectStepView::Done(Err(e@)),
        }
    }
}

/// The lookup of the subsystem that a connect is about.
pub open spec fn resolve_action(target: ParsedUriView) -> ConnectActionView {
    ConnectActionView::Resolve { host: target.host, port: target.port, nqn: target.nqn }
}

/// The text of the error for a connect that the initiator service refused.
pub open spec fn refused_text(error: Seq<char>, new_path: Seq<char>, nqn: Seq<char>) -> Seq<char> {
    "Failed to connect to new NVMe target: "@ + error + ", new path: "@ + new_path + ", nqn: "@
        + nqn
}

/// The text of the error for a path that did not become live in time.
pub open spec fn timeout_text(new_path: Seq<char>, nqn: Seq<char>) -> Seq<char> {
    "Timeout while connecting to new NVMe target: new path: "@ + new_path + ", nqn: "@ + nqn
}

/// The text of the error for a subsystem in a state that is not understood.
pub open spec fn bad_state_text(state: Seq<char>) -> Seq<char> {
    "New NVMe path is in incorrect state: "@ + state
}

/// The text of the error for a report that answers no pending action.
pub open spec fn stray_event_text() -> Seq<char> {
    "Unexpected event while connecting NVMe path"@
}

/// The result of a connect that was handed a report it did not wait for.
pub open spec fn stray_event() -> ConnectStepView {
    ConnectStepView::Done(Err(SvcErrorView::Internal { details: stray_event_text() }))
}

/// How a connect gives up waiting: the subsystem is looked up once more, to
/// see what there is to clean up.
pub open spec fn give_up(s: ConnectStateView) -> ConnectStepView {
    ConnectStepView::Next {
        state: ConnectStateView { phase: ConnectPhase::Reviewing, ..s },
        action: resolve_action(s.target),
    }
}

/// The result of a connect whose path did not become live in time.
pub open spec fn timed_out(s: ConnectStateView) -> ConnectStepView {
    ConnectStepView::Done(
        Err(SvcErrorView::NvmeConnectError { details: timeout_text(s.new_path, s.nqn) }),
    )
}

/// How a connect begins: the URI is checked, then the subsystem is looked up
/// to learn whether it is there already.
pub open spec fn connect_start(
    svc: NodeAgentSvcView,
    new_path: Seq<char>,
    nqn: Seq<char>,
    publish_context: Option<HashMap<String, String>>,
) -> ConnectStepView {
    match parsed_text(new_path) {
        Ok(target) => if svc.nqn_prefix.is_prefix_of(target.nqn) {
            ConnectStepView::Next {
                state: ConnectStateView {
                    phase: ConnectPhase::Probing,
                    new_path,
                    nqn,
                    target,
                    publish_context,
                    pre_existing: false,
                },
                action: resolve_action(target),
            }
        } else {
            ConnectStepView::Done(Err(SvcErrorView::InvalidArguments))
        },
        Err(_) => ConnectStepView::Done(Err(SvcErrorView::InvalidArguments)),
    }
}

/// How a connect goes on once the driver has reported back.
pub open spec fn connect_next(
    svc: NodeAgentSvcView,
    s: ConnectStateView,
    event: ConnectEventView,
) -> ConnectStepView {
    match s.phase {
        ConnectPhase::Probing => match event {
            ConnectEventView::Resolved(found) => ConnectStepView::Next {
                state: ConnectStateView {
                    phase: ConnectPhase::Connecting,
                    pre_existing: found is Ok,
                    publish_context: None,
                    ..s
                },
                action: ConnectActionView::Connect {
                    uri: s.new_path,
                    publish_context: s.publish_context,
                },
            },
            _ => stray_event(),
        },
        ConnectPhase::Connecting => match event {
            ConnectEventView::Connected(Ok(_)) => ConnectStepView::Next {
                state: ConnectStateView { phase: ConnectPhase::Resolving, ..s },
                action: resolve_action(s.target),
            },
            ConnectEventView::Connected(Err(error)) => ConnectStepView::Done(
                Err(
                    SvcErrorView::NvmeConnectError {
                        details: refused_text(error, s.new_path, s.nqn),
                    },
                ),
            ),
            _ => stray_event(),
        },
        ConnectPhase::Resolving => match event {
            ConnectEventView::Resolved(Ok(_)) => ConnectStepView::Next {
                state: ConnectStateView { phase: ConnectPhase::Polling, ..s },
                action: ConnectActionView::Poll { wait: svc.subsys_refresh_period },
            },
            ConnectEventView::Resolved(Err(error)) => ConnectStepView::Done(
                Err(SvcErrorView::SubsystemNotFound { nqn: s.nqn, details: error }),
            ),
            _ => stray_event(),
        },
        ConnectPhase::Polling => match event {
            ConnectEventView::Polled { state: None, .. } => ConnectStepView::Done(Ok(())),
            ConnectEventView::Polled { state: Some(text), elapsed } => match state_of(text) {
                SubsystemState::Live => ConnectStepView::Done(Ok(())),
                SubsystemState::Other => ConnectStepView::Done(
                    Err(SvcErrorView::Internal { details: bad_state_text(text) }),
                ),
                _ => if elapsed >= svc.path_connection_timeout {
                    give_up(s)
                } else {
                    ConnectStepView::Next {
                        state: s,
                        action: ConnectActionView::Poll { wait: svc.subsys_refresh_period },
                    }
                },
            },
            ConnectEventView::Cancelled => give_up(s),
            _ => stray_event(),
        },
        ConnectPhase::Reviewing => match event {
            ConnectEventView::Resolved(Ok(_)) => if s.pre_existing {
                timed_out(s)
            } else {
                ConnectStepView::Next {
                    state: ConnectStateView { phase: ConnectPhase::Removing, ..s },
                    action: ConnectActionView::Disconnect,
                }
            },
            ConnectEventView::Resolved(Err(_)) => timed_out(s),
            _ => stray_event(),
        },
        ConnectPhase::Removing => match event {
            ConnectEventView::Disconnected(_) => timed_out(s),
            _ => stray_event(),
        },
    }
}

/// The error for a connect that the initiator service refused.
fn refused(error: &str, new_path: &str, nqn: &str) -> (e: SvcError)
    ensures
        e@ == (SvcErrorView::NvmeConnectError { details: refused_text(error@, new_path@, nqn@) }),
{
    let mut details = String::from_str("Failed to connect to new NVMe target: ");
    details.append(error);
    details.append(", new path: ");
    details.append(new_path);
    details.append(", nqn: ");
    details.append(nqn);
    SvcError::NvmeConnectError { details }
}

/// The error for a report that answers no pending action.
fn stray() -> (step: ConnectStep)
    ensures
        step@ == stray_event(),
{
    ConnectStep::Done(
        Err(
            SvcError::Internal {
                details: String::from_str("Unexpected event while connecting NVMe path"),
            },
        ),
    )
}

impl ConnectState {
    /// The lookup of the subsystem that this connect is about.
    fn resolve(&self) -> (action: ConnectAction)
        ensures
            action@ == resolve_action(self@.target),
    {
        ConnectAction::Resolve {
            host: self.target.host().to_owned(),
            port: self.target.port(),
            nqn: self.target.nqn(),
        }
    }

    /// Gives up waiting: the subsystem is looked up once more.
    fn give_up(self) -> (step: ConnectStep)
        ensures
            step@ == give_up(self@),
    {
        let mut state = self;
        state.phase = ConnectPhase::Reviewing;
        let action = state.resolve();
        ConnectStep::Next { state, action }
    }

    /// The result of a connect whose path did not become live in time.
    fn timed_out(&self) -> (step: ConnectStep)
        ensures
            step@ == timed_out(self@),
    {
        let mut details = String::from_str(
            "Timeout while connecting to new NVMe target: new path: ",
        );
        details.append(self.new_path.as_str());
        details.append(", nqn: ");
        details.append(self.nqn.as_str());
        ConnectStep::Done(Err(SvcError::NvmeConnectError { details }))
    }

    /// What is waited for.
    pub fn phase(&self) -> (r: ConnectPhase)
        ensures
            r == self@.phase,
    {
        self.phase
    }

    /// Whether the subsystem was there before the connect was asked for.
    /// This is known once the first lookup has been answered.
    pub fn pre_existing(&self) -> (r: bool)
        ensures
            r == self@.pre_existing,
    {
        self.pre_existing
    }
}

impl NodeAgentSvc {
    /// Begins to connect the path `new_path` to the target `nqn`.
    ///
    /// The URI has to parse, and the target it names has to lie in the
    /// agent's namespace; else the connect ends with `InvalidArguments`
    /// before anything is asked of the driver. Otherwise the driver is asked
    /// to look the subsystem up, so that it is known whether it was there
    /// before the connect.
    pub fn connect_controller(
        &self,
        new_path: String,
        nqn: String,
        publish_context: Option<HashMap<String, String>>,
    ) -> (step: ConnectStep)
        ensures
            step@ == connect_start(self@, new_path@, nqn@, publish_context),
    {
        let target = match parse_uri(new_path.as_str()) {
            Ok(target) => target,
            Err(_) => return ConnectStep::Done(Err(SvcError::InvalidArguments {  })),
        };
        let name = target.nqn();
        if !str_starts_with(name.as_str(), self.nqn_prefix()) {
            return ConnectStep::Done(Err(SvcError::InvalidArguments {  }));
        }
        let state = ConnectState {
            phase: ConnectPhase::Probing,
            new_path,
            nqn,
            target,
            publish_context,
            pre_existing: false,
        };
        let action = state.resolve();
        ConnectStep::Next { state, action }
    }

    /// Goes on with a connect once the driver has reported back.
    ///
    /// While the subsystem is waited for, the connect goes by what the
    /// subsystem reports: `live` ends the connect well, and so does a refresh
    /// that failed; `new` and `connecting` make it wait on, or give up once
    /// the deadline has passed; any other state ends it with `Internal`.
    /// Being cancelled counts as a deadline that has passed. A connect that
    /// gives up looks the subsystem up once more and removes it, unless it
    /// was there before the connect, and ends with `NvmeConnectError`.
    ///
    /// A report that does not answer the action that `state` waits for ends
    /// the connect with `Internal`.
    pub fn connect_controller_next(&self, state: ConnectState, event: ConnectEvent) -> (step:
        ConnectStep)
        ensures
            step@ == connect_next(self@, state@, event@),
    {
        let mut state = state;
        match state.phase {
            ConnectPhase::Probing => match event {
                ConnectEvent::Resolved(found) => {
                    state.phase = ConnectPhase::Connecting;
                    state.pre_existing = found.is_ok();
                    let publish_context = state.publish_context.take();
                    let uri = state.new_path.clone();
                    ConnectStep::Next {
                        state,
                        action: ConnectAction::Connect { uri, publish_context },
                    }
                },
                _ => stray(),
            },
            ConnectPhase::Connecting => match event {
                ConnectEvent::Connected(Ok(_)) => {
                    state.phase = ConnectPhase::Resolving;
                    let action = state.resolve();
                    ConnectStep::Next { state, action }
                },
                ConnectEvent::Connected(Err(error)) => ConnectStep::Done(
                    Err(refused(error.as_str(), state.new_path.as_str(), state.nqn.as_str())),
                ),
                _ => stray(),
            },
            ConnectPhase::Resolving => match event {
                ConnectEvent::Resolved(Ok(_)) => {
                    state.phase = ConnectPhase::Polling;
                    ConnectStep::Next {
                        state,
                        action: ConnectAction::Poll { wait: self.subsys_refresh_period() },
                    }
                },
                ConnectEvent::Resolved(Err(error)) => ConnectStep::Done(
                    Err(SvcError::SubsystemNotFound { nqn: state.nqn, details: error }),
                ),
                _ => stray(),
            },
            ConnectPhase::Polling => match event {
                ConnectEvent::Polled { state: None, .. } => ConnectStep::Done(Ok(())),
                ConnectEvent::Polled { state: Some(text), elapsed } => {
                    match classify_state(text.as_str()) {
                        SubsystemState::Live => ConnectStep::Done(Ok(())),
                        SubsystemState::Other => {
                            let mut details = String::from_str(
                                "New NVMe path is in incorrect state: ",
                            );
                            details.append(text.as_str());
                            ConnectStep::Done(Err(SvcError::Internal { details }))
                        },
                        _ => if elapsed >= self.path_connection_timeout() {
                            state.give_up()
                        } else {
                            ConnectStep::Next {
                                state,
                                action: ConnectAction::Poll { wait: self.subsys_refresh_period() },
                            }
                        },
                    }
                },
                ConnectEvent::Cancelled => state.give_up(),
                _ => stray(),
            },
            ConnectPhase::Reviewing => match event {
                ConnectEvent::Resolved(Ok(_)) => if state.pre_existing {
                    state.timed_out()
                } else {
                    state.phase = ConnectPhase::Removing;
                    ConnectStep::Next { state, action: ConnectAction::Disconnect }
                },
                ConnectEvent::Resolved(Err(_)) => state.timed_out(),
                _ => stray(),
            },
            ConnectPhase::Removing => match event {
                ConnectEvent::Disconnected(_) => state.timed_out(),
                _ => stray(),
            },
        }
    }
}

} // verus!
