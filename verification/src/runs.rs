//! What holds of whole runs: the steps that follow one another while the
//! driver reports one event after the other.

use crate::connect::{
    bad_state_text, connect_next, connect_start, give_up, resolve_action, state_of, timed_out,
    ConnectActionView, ConnectEventView, ConnectPhase, ConnectStateView, ConnectStepView,
    SubsystemState,
};
use crate::disconnect::{
    disconnect_next, disconnect_start, DisconnectActionView, DisconnectEventView,
    DisconnectStepView, InspectionView, NvmeController,
};
use crate::error::{ReplyErrorView, SvcErrorView};
use crate::query::query_start;
use crate::replace::{
    replace_next, replace_start, retire_from, ReplaceActionView, ReplaceEventView,
    ReplaceStateView, ReplaceStepView,
};
use crate::service::{Nanos, NodeAgentSvcView};
use crate::uri::{http_uri, parsed_text};
use std::collections::HashMap;
use vstd::prelude::*;

verus! {

/// Where a connect stands once the driver has reported `events` in turn.
/// A connect that has ended stays as it is.
pub open spec fn connect_run(
    svc: NodeAgentSvcView,
    step: ConnectStepView,
    events: Seq<ConnectEventView>,
) -> ConnectStepView
    decreases events.len(),
{
    if events.len() == 0 {
        step
    } else {
        match step {
            ConnectStepView::Next { state, action } => connect_run(
                svc,
                connect_next(svc, state, events[0]),
                events.drop_first(),
            ),
            ConnectStepView::Done(_) => step,
        }
    }
}

/// The actions that a connect asks of the driver from `step` on, while the
/// driver reports `events` in turn.
pub open spec fn connect_asked(
    svc: NodeAgentSvcView,
    step: ConnectStepView,
    events: Seq<ConnectEventView>,
) -> Seq<ConnectActionView>
    decreases events.len(),
{
    match step {
        ConnectStepView::Next { state, action } => if events.len() == 0 {
            seq![action]
        } else {
            seq![action] + connect_asked(
                svc,
                connect_next(svc, state, events[0]),
                events.drop_first(),
            )
        },
        ConnectStepView::Done(_) => Seq::empty(),
    }
}

/// Where a disconnect stands once the driver has reported `events` in turn.
pub open spec fn disconnect_run(
    step: DisconnectStepView,
    events: Seq<DisconnectEventView>,
) -> DisconnectStepView
    decreases events.len(),
{
    if events.len() == 0 {
        step
    } else {
        match step {
            DisconnectStepView::Next { state, action } => disconnect_run(
                disconnect_next(state, events[0]),
                events.drop_first(),
            ),
            DisconnectStepView::Done(_) => step,
        }
    }
}

/// The actions that a disconnect asks of the driver from `step` on, while
/// the driver reports `events` in turn.
pub open spec fn disconnect_asked(
    step: DisconnectStepView,
    events: Seq<DisconnectEventView>,
) -> Seq<DisconnectActionView>
    decreases events.len(),
{
    match step {
        DisconnectStepView::Next { state, action } => if events.len() == 0 {
            seq![action]
        } else {
            seq![action] + disconnect_asked(
                disconnect_next(state, events[0]),
                events.drop_first(),
            )
        },
        DisconnectStepView::Done(_) => Seq::empty(),
    }
}

/// Where a replacement stands once the driver has reported `events` in turn.
pub open spec fn replace_run(
    svc: NodeAgentSvcView,
    step: ReplaceStepView,
    events: Seq<ReplaceEventView>,
) -> ReplaceStepView
    decreases events.len(),
{
    if events.len() == 0 {
        step
    } else {
        match step {
            ReplaceStepView::Next { state, action } => replace_run(
                svc,
                replace_next(svc, state, events[0]),
                events.drop_first(),
            ),
            ReplaceStepView::Done(_) => step,
        }
    }
}

/// The actions that a replacement asks of the driver from `step` on, while
/// the driver reports `events` in turn.
pub open spec fn replace_asked(
    svc: NodeAgentSvcView,
    step: ReplaceStepView,
    events: Seq<ReplaceEventView>,
) -> Seq<ReplaceActionView>
    decreases events.len(),
{
    match step {
        ReplaceStepView::Next { state, action } => if events.len() == 0 {
            seq![action]
        } else {
            seq![action] + replace_asked(
                svc,
                replace_next(svc, state, events[0]),
                events.drop_first(),
            )
        },
        ReplaceStepView::Done(_) => Seq::empty(),
    }
}

/// A text that is no URI, or a URI without host or without port.
pub open spec fn malformed(text: Seq<char>) -> bool {
    http_uri(text) matches Some(parts) ==> parts.host is None || parts.port is None
}

/// A look at a subsystem that is on its way and has not run out of time.
pub open spec fn waiting(svc: NodeAgentSvcView, event: ConnectEventView) -> bool {
    event matches ConnectEventView::Polled { state: Some(text), elapsed } && (state_of(text)
        == SubsystemState::New || state_of(text) == SubsystemState::Connecting) && elapsed
        < svc.path_connection_timeout
}

/// The names of the three states that a subsystem on its way to serve I/O
/// goes through stand for those states.
pub proof fn known_states()
    ensures
        state_of("new"@) == SubsystemState::New,
        state_of("connecting"@) == SubsystemState::Connecting,
        state_of("live"@) == SubsystemState::Live,
{
    reveal_strlit("new");
    reveal_strlit("connecting");
    reveal_strlit("live");
    assert("new"@.len() == 3);
    assert("connecting"@.len() == 10);
    assert("live"@.len() == 4);
}

/// A replacement with a malformed path ends with `InvalidArguments` as soon
/// as the path cache has answered, and the path cache is all that was asked:
/// nothing is looked up in the kernel, connected or removed.
pub proof fn malformed_path_is_not_replaced(
    svc: NodeAgentSvcView,
    target_nqn: Seq<char>,
    new_path: Seq<char>,
    publish_context: Option<HashMap<String, String>>,
    controllers: Seq<NvmeController>,
)
    requires
        malformed(new_path),
    ensures
        replace_run(
            svc,
            replace_start(target_nqn, new_path, publish_context),
            seq![ReplaceEventView::LookedUp(Some(controllers))],
        ) == ReplaceStepView::Done(Err(ReplyErrorView::Service(SvcErrorView::InvalidArguments))),
        replace_asked(
            svc,
            replace_start(target_nqn, new_path, publish_context),
            seq![ReplaceEventView::LookedUp(Some(controllers))],
        ) == seq![ReplaceActionView::Lookup { nqn: target_nqn }],
{
    let events = seq![ReplaceEventView::LookedUp(Some(controllers))];
    let start = replace_start(target_nqn, new_path, publish_context);
    let state = start->Next_state;
    let end = replace_next(svc, state, events[0]);
    assert(end == ReplaceStepView::Done(
        Err(ReplyErrorView::Service(SvcErrorView::InvalidArguments)),
    ));
    assert(events.drop_first().len() == 0);
    assert(replace_run(svc, end, events.drop_first()) == end);
    assert(replace_asked(svc, end, events.drop_first()) == Seq::<ReplaceActionView>::empty());
    assert(replace_asked(svc, start, events) =~= seq![
        ReplaceActionView::Lookup { nqn: target_nqn },
    ]);
}

/// A query with a malformed path ends with `InvalidArguments`, and nothing
/// is asked of the driver.
pub proof fn malformed_path_is_not_queried(nvme_path: Seq<char>)
    requires
        malformed(nvme_path),
    ensures
        query_start(nvme_path) == Err::<Seq<char>, ReplyErrorView>(
            ReplyErrorView::Service(SvcErrorView::InvalidArguments),
        ),
{
}

/// A connect to a target outside the agent's namespace ends with
/// `InvalidArguments` before anything is asked of the driver.
pub proof fn foreign_target_is_not_connected(
    svc: NodeAgentSvcView,
    new_path: Seq<char>,
    nqn: Seq<char>,
    publish_context: Option<HashMap<String, String>>,
    events: Seq<ConnectEventView>,
)
    requires
        parsed_text(new_path) matches Ok(target) && !svc.nqn_prefix.is_prefix_of(target.nqn),
    ensures
        connect_start(svc, new_path, nqn, publish_context) == ConnectStepView::Done(
            Err(SvcErrorView::InvalidArguments),
        ),
        connect_asked(svc, connect_start(svc, new_path, nqn, publish_context), events)
            == Seq::<ConnectActionView>::empty(),
{
}

/// A controller whose subsystem sits at the address of the new path is the
/// new path itself. Its disconnect ends well and asks for no removal,
/// however often it is run.
pub proof fn new_path_is_kept(path: Seq<char>, new_path: Seq<char>, name: Seq<char>)
    requires
        parsed_text(new_path) is Ok,
    ensures
        ({
            let found = InspectionView::Subsystem {
                nqn: parsed_text(new_path)->Ok_0.nqn,
                name,
                same_address: true,
            };
            let events = seq![DisconnectEventView::Inspected(found)];
            let start = disconnect_start(path, new_path);
            &&& disconnect_run(start, events) == DisconnectStepView::Done(Ok(()))
            &&& disconnect_asked(start, events) == seq![
                DisconnectActionView::Inspect {
                    path,
                    host: parsed_text(new_path)->Ok_0.host,
                    port: parsed_text(new_path)->Ok_0.port,
                },
            ]
        }),
{
    let target = parsed_text(new_path)->Ok_0;
    let found = InspectionView::Subsystem { nqn: target.nqn, name, same_address: true };
    let events = seq![DisconnectEventView::Inspected(found)];
    let start = disconnect_start(path, new_path);
    let end = disconnect_next(start->Next_state, events[0]);
    assert(end == DisconnectStepView::Done(Ok(())));
    assert(events.drop_first().len() == 0);
    assert(disconnect_run(end, events.drop_first()) == end);
    assert(disconnect_asked(end, events.drop_first()) == Seq::<DisconnectActionView>::empty());
    assert(disconnect_asked(start, events) =~= seq![
        DisconnectActionView::Inspect { path, host: target.host, port: target.port },
    ]);
}

/// A controller whose subsystem belongs to another target than the new
/// path's is not removed: its disconnect ends with `UnexpectedSubsystemNqn`
/// and asks for no removal.
pub proof fn foreign_controller_is_kept(
    path: Seq<char>,
    new_path: Seq<char>,
    nqn: Seq<char>,
    name: Seq<char>,
    same_address: bool,
)
    requires
        parsed_text(new_path) matches Ok(target) && target.nqn != nqn,
    ensures
        ({
            let found = InspectionView::Subsystem { nqn, name, same_address };
            let events = seq![DisconnectEventView::Inspected(found)];
            let start = disconnect_start(path, new_path);
            &&& disconnect_run(start, events) == DisconnectStepView::Done(
                Err(
                    SvcErrorView::UnexpectedSubsystemNqn {
                        nqn,
                        expected_nqn: parsed_text(new_path)->Ok_0.nqn,
                        path: name,
                    },
                ),
            )
            &&& disconnect_asked(start, events) == seq![
                DisconnectActionView::Inspect {
                    path,
                    host: parsed_text(new_path)->Ok_0.host,
                    port: parsed_text(new_path)->Ok_0.port,
                },
            ]
        }),
{
    let target = parsed_text(new_path)->Ok_0;
    let found = InspectionView::Subsystem { nqn, name, same_address };
    let events = seq![DisconnectEventView::Inspected(found)];
    let start = disconnect_start(path, new_path);
    let end = disconnect_next(start->Next_state, events[0]);
    assert(end is Done);
    assert(events.drop_first().len() == 0);
    assert(disconnect_run(end, events.drop_first()) == end);
    assert(disconnect_asked(end, events.drop_first()) == Seq::<DisconnectActionView>::empty());
    assert(disconnect_asked(start, events) =~= seq![
        DisconnectActionView::Inspect { path, host: target.host, port: target.port },
    ]);
}

/// A subsystem that is found on its way at every look within the deadline,
/// and live at the next look, makes the connect end well.
pub proof fn live_in_time_connects(
    svc: NodeAgentSvcView,
    s: ConnectStateView,
    action: ConnectActionView,
    looks: Seq<ConnectEventView>,
    live: Seq<char>,
    elapsed: Nanos,
)
    requires
        s.phase == ConnectPhase::Polling,
        forall|i: int| 0 <= i < looks.len() ==> waiting(svc, #[trigger] looks[i]),
        state_of(live) == SubsystemState::Live,
    ensures
        connect_run(
            svc,
            ConnectStepView::Next { state: s, action },
            looks + seq![ConnectEventView::Polled { state: Some(live), elapsed }],
        ) == ConnectStepView::Done(Ok(())),
    decreases looks.len(),
{
    let last = ConnectEventView::Polled { state: Some(live), elapsed };
    let events = looks + seq![last];
    let step = ConnectStepView::Next { state: s, action };
    if looks.len() == 0 {
        assert(events[0] == last);
        assert(events.drop_first().len() == 0);
        let end = connect_next(svc, s, last);
        assert(end == ConnectStepView::Done(Ok(())));
        assert(connect_run(svc, end, events.drop_first()) == end);
    } else {
        assert(events[0] == looks[0]);
        assert(waiting(svc, looks[0]));
        assert(events.drop_first() =~= looks.drop_first() + seq![last]);
        let next = connect_next(svc, s, looks[0]);
        let wait = ConnectActionView::Poll { wait: svc.subsys_refresh_period };
        assert(next == ConnectStepView::Next { state: s, action: wait });
        assert forall|i: int| 0 <= i < looks.drop_first().len() implies waiting(
            svc,
            #[trigger] looks.drop_first()[i],
        ) by {
            assert(looks.drop_first()[i] == looks[i + 1]);
        }
        live_in_time_connects(svc, s, wait, looks.drop_first(), live, elapsed);
    }
}

/// A connect whose subsystem goes from `new` over `connecting` to `live`
/// within the deadline ends well, whether or not the subsystem was there
/// before.
pub proof fn new_connecting_live_connects(
    svc: NodeAgentSvcView,
    new_path: Seq<char>,
    nqn: Seq<char>,
    publish_context: Option<HashMap<String, String>>,
    before: Result<(), Seq<char>>,
    first: Nanos,
    second: Nanos,
    third: Nanos,
)
    requires
        connect_start(svc, new_path, nqn, publish_context) is Next,
        first < svc.path_connection_timeout,
        second < svc.path_connection_timeout,
    ensures
        connect_run(
            svc,
            connect_start(svc, new_path, nqn, publish_context),
            seq![
                ConnectEventView::Resolved(before),
                ConnectEventView::Connected(Ok(())),
                ConnectEventView::Resolved(Ok(())),
                ConnectEventView::Polled { state: Some("new"@), elapsed: first },
                ConnectEventView::Polled { state: Some("connecting"@), elapsed: second },
                ConnectEventView::Polled { state: Some("live"@), elapsed: third },
            ],
        ) == ConnectStepView::Done(Ok(())),
{
    known_states();
    let live = ConnectEventView::Polled { state: Some("live"@), elapsed: third };
    let looks = seq![
        ConnectEventView::Polled { state: Some("new"@), elapsed: first },
        ConnectEventView::Polled { state: Some("connecting"@), elapsed: second },
    ];
    let e0 = seq![
        ConnectEventView::Resolved(before),
        ConnectEventView::Connected(Ok(())),
        ConnectEventView::Resolved(Ok(())),
        ConnectEventView::Polled { state: Some("new"@), elapsed: first },
        ConnectEventView::Polled { state: Some("connecting"@), elapsed: second },
        live,
    ];
    let step0 = connect_start(svc, new_path, nqn, publish_context);
    let step1 = connect_next(svc, step0->Next_state, e0[0]);
    let e1 = e0.drop_first();
    let step2 = connect_next(svc, step1->Next_state, e1[0]);
    let e2 = e1.drop_first();
    let step3 = connect_next(svc, step2->Next_state, e2[0]);
    let e3 = e2.drop_first();
    assert(step3 is Next && step3->Next_state.phase == ConnectPhase::Polling);
    assert(e3 =~= looks + seq![live]);
    live_in_time_connects(svc, step3->Next_state, step3->Next_action, looks, "live"@, third);
    assert(connect_run(svc, step3, e3) == ConnectStepView::Done(Ok(())));
    assert(connect_run(svc, step2, e2) == connect_run(svc, step3, e3));
    assert(connect_run(svc, step1, e1) == connect_run(svc, step2, e2));
    assert(connect_run(svc, step0, e0) == connect_run(svc, step1, e1));
}

/// A connect ends well only at a look at the subsystem, and only where that
/// look found the subsystem live or could not refresh it.
pub proof fn success_needs_live_or_lost(
    svc: NodeAgentSvcView,
    s: ConnectStateView,
    event: ConnectEventView,
)
    requires
        connect_next(svc, s, event) == ConnectStepView::Done(Ok(())),
    ensures
        s.phase == ConnectPhase::Polling,
        event matches ConnectEventView::Polled { state, .. } && (state matches Some(text)
            ==> state_of(text) == SubsystemState::Live),
{
}

/// A subsystem in a state that is not understood ends the connect with
/// `Internal` at the look that finds it, before or after the deadline, and
/// nothing more is asked of the driver.
pub proof fn unknown_state_fails_at_once(
    svc: NodeAgentSvcView,
    s: ConnectStateView,
    text: Seq<char>,
    elapsed: Nanos,
)
    requires
        s.phase == ConnectPhase::Polling,
        state_of(text) == SubsystemState::Other,
    ensures
        connect_next(svc, s, ConnectEventView::Polled { state: Some(text), elapsed })
            == ConnectStepView::Done(
            Err(SvcErrorView::Internal { details: bad_state_text(text) }),
        ),
{
}

/// A connect that is cancelled while it waits goes on as one whose deadline
/// has passed: with the same lookup, and so with the same cleanup after it.
pub proof fn cancelled_is_late(
    svc: NodeAgentSvcView,
    s: ConnectStateView,
    text: Seq<char>,
    elapsed: Nanos,
)
    requires
        s.phase == ConnectPhase::Polling,
        state_of(text) == SubsystemState::New || state_of(text) == SubsystemState::Connecting,
        elapsed >= svc.path_connection_timeout,
    ensures
        connect_next(svc, s, ConnectEventView::Cancelled) == give_up(s),
        connect_next(svc, s, ConnectEventView::Cancelled) == connect_next(
            svc,
            s,
            ConnectEventView::Polled { state: Some(text), elapsed },
        ),
{
}

/// The deadline passes on a subsystem that was there before the connect:
/// the subsystem is looked up once more, and whatever the lookup finds the
/// connect ends with `NvmeConnectError` and has asked for no removal.
pub proof fn late_and_pre_existing_is_kept(
    svc: NodeAgentSvcView,
    s: ConnectStateView,
    action: ConnectActionView,
    text: Seq<char>,
    elapsed: Nanos,
    found: Result<(), Seq<char>>,
)
    requires
        s.phase == ConnectPhase::Polling,
        s.pre_existing,
        state_of(text) == SubsystemState::New || state_of(text) == SubsystemState::Connecting,
        elapsed >= svc.path_connection_timeout,
    ensures
        ({
            let events = seq![
                ConnectEventView::Polled { state: Some(text), elapsed },
                ConnectEventView::Resolved(found),
            ];
            let step = ConnectStepView::Next { state: s, action };
            &&& connect_run(svc, step, events) == timed_out(s)
            &&& connect_asked(svc, step, events) == seq![action, resolve_action(s.target)]
        }),
{
    let e0 = seq![
        ConnectEventView::Polled { state: Some(text), elapsed },
        ConnectEventView::Resolved(found),
    ];
    let step0 = ConnectStepView::Next { state: s, action };
    let step1 = connect_next(svc, s, e0[0]);
    let e1 = e0.drop_first();
    let step2 = connect_next(svc, step1->Next_state, e1[0]);
    let e2 = e1.drop_first();
    assert(e1.len() == 1 && e1[0] == ConnectEventView::Resolved(found));
    assert(e2.len() == 0);
    assert(step2 == timed_out(s));
    assert(connect_run(svc, step2, e2) == step2);
    assert(connect_run(svc, step1, e1) == step2);
    assert(connect_asked(svc, step2, e2) == Seq::<ConnectActionView>::empty());
    assert(connect_asked(svc, step1, e1) =~= seq![resolve_action(s.target)]);
    assert(connect_asked(svc, step0, e0) =~= seq![action, resolve_action(s.target)]);
}

/// The deadline passes on a subsystem that the connect itself brought: the
/// subsystem is looked up once more and, being found, removed. Whatever
/// comes of the removal, the connect ends with `NvmeConnectError`.
pub proof fn late_and_new_is_removed(
    svc: NodeAgentSvcView,
    s: ConnectStateView,
    action: ConnectActionView,
    text: Seq<char>,
    elapsed: Nanos,
    removed: Result<(), Seq<char>>,
)
    requires
        s.phase == ConnectPhase::Polling,
        !s.pre_existing,
        state_of(text) == SubsystemState::New || state_of(text) == SubsystemState::Connecting,
        elapsed >= svc.path_connection_timeout,
    ensures
        ({
            let events = seq![
                ConnectEventView::Polled { state: Some(text), elapsed },
                ConnectEventView::Resolved(Ok(())),
                ConnectEventView::Disconnected(removed),
            ];
            let step = ConnectStepView::Next { state: s, action };
            &&& connect_run(svc, step, events) == timed_out(s)
            &&& connect_asked(svc, step, events) == seq![
                action,
                resolve_action(s.target),
                ConnectActionView::Disconnect,
            ]
        }),
{
    let e0 = seq![
        ConnectEventView::Polled { state: Some(text), elapsed },
        ConnectEventView::Resolved(Ok(())),
        ConnectEventView::Disconnected(removed),
    ];
    let step0 = ConnectStepView::Next { state: s, action };
    let step1 = connect_next(svc, s, e0[0]);
    let e1 = e0.drop_first();
    let step2 = connect_next(svc, step1->Next_state, e1[0]);
    let e2 = e1.drop_first();
    let step3 = connect_next(svc, step2->Next_state, e2[0]);
    let e3 = e2.drop_first();
    assert(e1.len() == 2 && e1[0] == ConnectEventView::Resolved(Ok(())));
    assert(e2.len() == 1 && e2[0] == ConnectEventView::Disconnected(removed));
    assert(e3.len() == 0);
    assert(step3 == timed_out(s));
    assert(connect_run(svc, step3, e3) == step3);
    assert(connect_run(svc, step2, e2) == step3);
    assert(connect_run(svc, step1, e1) == step3);
    assert(connect_asked(svc, step3, e3) == Seq::<ConnectActionView>::empty());
    assert(connect_asked(svc, step2, e2) =~= seq![ConnectActionView::Disconnect]);
    assert(connect_asked(svc, step1, e1) =~= seq![
        resolve_action(s.target),
        ConnectActionView::Disconnect,
    ]);
    assert(connect_asked(svc, step0, e0) =~= seq![
        action,
        resolve_action(s.target),
        ConnectActionView::Disconnect,
    ]);
}

/// A subsystem that was there before the connect is never removed by it,
/// whatever the driver reports.
pub proof fn pre_existing_is_never_removed(
    svc: NodeAgentSvcView,
    s: ConnectStateView,
    action: ConnectActionView,
    events: Seq<ConnectEventView>,
)
    requires
        s.pre_existing,
        s.phase != ConnectPhase::Probing,
        s.phase != ConnectPhase::Removing,
        action != ConnectActionView::Disconnect,
    ensures
        !connect_asked(svc, ConnectStepView::Next { state: s, action }, events).contains(
            ConnectActionView::Disconnect,
        ),
    decreases events.len(),
{
    let step = ConnectStepView::Next { state: s, action };
    let asked = connect_asked(svc, step, events);
    if events.len() == 0 {
        assert(asked =~= seq![action]);
    } else {
        let next = connect_next(svc, s, events[0]);
        let rest = connect_asked(svc, next, events.drop_first());
        assert(asked =~= seq![action] + rest);
        match next {
            ConnectStepView::Next { state, action: then } => {
                pre_existing_is_never_removed(svc, state, then, events.drop_first());
            },
            ConnectStepView::Done(_) => {
                assert(rest =~= Seq::<ConnectActionView>::empty());
            },
        }
        assert forall|i: int| 0 <= i < asked.len() implies asked[i]
            != ConnectActionView::Disconnect by {
            if i > 0 {
                assert(asked[i] == rest[i - 1]);
                assert(rest.contains(rest[i - 1]));
            }
        }
    }
}

/// A connect that finds the subsystem in place at its first lookup never
/// asks for a removal, whatever the driver reports after that.
pub proof fn found_before_is_never_removed(
    svc: NodeAgentSvcView,
    new_path: Seq<char>,
    nqn: Seq<char>,
    publish_context: Option<HashMap<String, String>>,
    events: Seq<ConnectEventView>,
)
    ensures
        !connect_asked(
            svc,
            connect_start(svc, new_path, nqn, publish_context),
            seq![ConnectEventView::Resolved(Ok(()))] + events,
        ).contains(ConnectActionView::Disconnect),
{
    let first = ConnectEventView::Resolved(Ok(()));
    let all = seq![first] + events;
    let start = connect_start(svc, new_path, nqn, publish_context);
    let asked = connect_asked(svc, start, all);
    match start {
        ConnectStepView::Next { state, action } => {
            assert(all[0] == first);
            assert(all.drop_first() =~= events);
            let next = connect_next(svc, state, first);
            let rest = connect_asked(svc, next, events);
            assert(asked =~= seq![action] + rest);
            pre_existing_is_never_removed(svc, next->Next_state, next->Next_action, events);
            assert forall|i: int| 0 <= i < asked.len() implies asked[i]
                != ConnectActionView::Disconnect by {
                if i > 0 {
                    assert(asked[i] == rest[i - 1]);
                    assert(rest.contains(rest[i - 1]));
                }
            }
        },
        ConnectStepView::Done(_) => {
            assert(asked =~= Seq::<ConnectActionView>::empty());
        },
    }
}

/// No stale controller is taken up before the connect of the new path has
/// ended well, and a connect that fails ends the replacement with its error.
pub proof fn nothing_is_retired_before_the_connect(
    svc: NodeAgentSvcView,
    connect: ConnectStateView,
    controllers: Seq<NvmeController>,
    new_path: Seq<char>,
    event: ConnectEventView,
)
    ensures
        ({
            let state = ReplaceStateView::Connecting { connect, controllers, new_path };
            let then = replace_next(svc, state, ReplaceEventView::Connect(event));
            let connected = connect_next(svc, connect, event);
            &&& then matches ReplaceStepView::Next { action: ReplaceActionView::Disconnect(_), .. }
                ==> connected == ConnectStepView::Done(Ok(()))
            &&& connected matches ConnectStepView::Done(Err(e)) ==> then == ReplaceStepView::Done(
                Err(ReplyErrorView::Service(e)),
            )
        }),
{
}

/// Once the new path is live, the replacement cannot fail any more: while
/// the driver reports what comes of the disconnects, whatever that is, the
/// replacement goes on or ends well.
pub proof fn retiring_ends_well(
    svc: NodeAgentSvcView,
    step: ReplaceStepView,
    events: Seq<ReplaceEventView>,
)
    requires
        step matches ReplaceStepView::Next { state, .. } ==> state is Retiring,
        step matches ReplaceStepView::Done(r) ==> r is Ok,
        forall|i: int| 0 <= i < events.len() ==> #[trigger] events[i] is Disconnect,
    ensures
        replace_run(svc, step, events) matches ReplaceStepView::Done(r) ==> r is Ok,
    decreases events.len(),
{
    if events.len() > 0 {
        match step {
            ReplaceStepView::Next { state, action } => {
                let next = replace_next(svc, state, events[0]);
                assert(events[0] is Disconnect);
                match state {
                    ReplaceStateView::Retiring {
                        disconnect,
                        controllers,
                        next: at,
                        new_path,
                        failed,
                    } => {
                        match disconnect_next(disconnect, events[0]->Disconnect_0) {
                            DisconnectStepView::Done(Err(e)) => {
                                retire_from_ends_well(controllers, at, new_path, failed.push(e));
                            },
                            DisconnectStepView::Done(Ok(_)) => {
                                retire_from_ends_well(controllers, at, new_path, failed);
                            },
                            _ => {},
                        }
                    },
                    _ => {},
                }
                assert forall|i: int| 0 <= i < events.drop_first().len() implies (
                #[trigger] events.drop_first()[i]) is Disconnect by {
                    assert(events.drop_first()[i] == events[i + 1]);
                }
                retiring_ends_well(svc, next, events.drop_first());
            },
            ReplaceStepView::Done(_) => {},
        }
    }
}

/// Taking up the controllers from `next` on either asks something of the
/// driver for one of them or ends well.
pub proof fn retire_from_ends_well(
    controllers: Seq<NvmeController>,
    next: int,
    new_path: Seq<char>,
    failed: Seq<SvcErrorView>,
)
    ensures
        retire_from(controllers, next, new_path, failed) matches ReplaceStepView::Next {
            state,
            ..
        } ==> state is Retiring,
        retire_from(controllers, next, new_path, failed) matches ReplaceStepView::Done(r)
            ==> r is Ok,
    decreases controllers.len() - next,
{
    if 0 <= next < controllers.len() {
        match disconnect_start(controllers[next].path@, new_path) {
            DisconnectStepView::Done(Err(e)) => {
                retire_from_ends_well(controllers, next + 1, new_path, failed.push(e));
            },
            DisconnectStepView::Done(Ok(_)) => {
                retire_from_ends_well(controllers, next + 1, new_path, failed);
            },
            _ => {},
        }
    }
}

} // verus!
