//! What holds of the session as a state machine.

use vstd::prelude::*;

use crate::decode::decodes;
use crate::feedback::FeedbackView;
use crate::message::InboundMessageView;
use crate::message::RequestIdView;
use crate::negotiate::handshake;
use crate::outbound::OutboundView;
use crate::publish::file_notification;
use crate::publish::message_notification;
use crate::publish::published_feedback;
use crate::router::notification_operation;
use crate::router::request_operation;
use crate::router::route;
use crate::router::Route;
use crate::router::COMPLETION;
use crate::router::DEFINITION;
use crate::router::DID_CHANGE;
use crate::router::DID_CHANGE_WATCHED_FILES;
use crate::router::DID_CLOSE;
use crate::router::DID_OPEN;
use crate::router::DID_SAVE;
use crate::router::FORMATTING;
use crate::router::HOVER;
use crate::router::SHUTDOWN;
use crate::session::sends;
use crate::session::shifted;
use crate::session::ActionView;
use crate::session::EventView;
use crate::session::PendingView;
use crate::session::Phase;
use crate::session::SessionView;

verus! {

/// A session begins by sending the handshake and asking for one analysis of
/// the whole project, and then waits for nothing but that analysis.
pub proof fn lemma_session_begins_with_analysis(session: SessionView)
    requires
        session.fresh(),
    ensures
        session.started().1 == sends(handshake(session.params)).push(ActionView::Analyse),
        session.started().0.phase == Phase::Starting,
        forall|message: InboundMessageView|
            !(#[trigger] session.started().0.accepts(EventView::Received(message))),
        forall|feedback: FeedbackView| #[trigger]
            session.started().0.accepts(EventView::Finished { feedback })
                && session.started().0.step(EventView::Finished { feedback }).0.idle()
                && session.started().0.step(EventView::Finished { feedback }).1 == sends(
                published_feedback(feedback),
            ),
{
}

/// The names do not clash: the notification of a configuration change
/// names no document operation, and the shutdown request is none of the
/// requests that an operation serves.
pub proof fn lemma_methods_differ()
    ensures
        notification_operation(DID_CHANGE_WATCHED_FILES@) is None,
        request_operation(SHUTDOWN@) is None,
        forall|method: Seq<char>| request_operation(method) is Some ==> method != SHUTDOWN@,
{
    reveal_strlit("shutdown");
    reveal_strlit("textDocument/formatting");
    reveal_strlit("textDocument/hover");
    reveal_strlit("textDocument/definition");
    reveal_strlit("textDocument/completion");
    reveal_strlit("textDocument/didOpen");
    reveal_strlit("textDocument/didSave");
    reveal_strlit("textDocument/didClose");
    reveal_strlit("textDocument/didChange");
    reveal_strlit("workspace/didChangeWatchedFiles");
    assert(DID_CHANGE_WATCHED_FILES@[0] == 'w');
    assert(DID_OPEN@[0] == 't');
    assert(DID_SAVE@[0] == 't');
    assert(DID_CLOSE@[0] == 't');
    assert(DID_CHANGE@[0] == 't');
    assert(SHUTDOWN@[0] == 's');
    assert(FORMATTING@[0] == 't');
    assert(HOVER@[0] == 't');
    assert(DEFINITION@[0] == 't');
    assert(COMPLETION@[0] == 't');
}

/// Events that follow one another are taken one after the other: where
/// none of the front of a queue is refused, draining the queue is draining
/// its front, then its back from where the front left the session.
pub proof fn lemma_drained_in_turn(
    session: SessionView,
    first: Seq<EventView>,
    second: Seq<EventView>,
)
    requires
        session.refused(first) is None,
    ensures
        session.drained(first + second) == ({
            let (between, early) = session.drained(first);
            let (last, late) = between.drained(second);
            (last, early + late)
        }),
        session.refused(first + second) == shifted(
            session.drained(first).0.refused(second),
            first.len() as int,
        ),
    decreases first.len(),
{
    let (between, early) = session.drained(first);
    let (last, late) = between.drained(second);
    if first.len() == 0 {
        assert(first + second =~= second);
        assert(early + late =~= late);
    } else if session.phase == Phase::Terminated {
        assert(early + late =~= Seq::empty());
    } else {
        let (next, head) = session.step(first[0]);
        assert((first + second)[0] == first[0]);
        assert((first + second).drop_first() =~= first.drop_first() + second);
        lemma_drained_in_turn(next, first.drop_first(), second);
        let tail = next.drained(first.drop_first()).1;
        assert(head + (tail + late) =~= (head + tail) + late);
    }
}

/// Once the session has ended nothing is routed any more, whatever is
/// still queued.
pub proof fn lemma_nothing_after_end(session: SessionView, queued: Seq<EventView>)
    requires
        session.phase == Phase::Terminated,
    ensures
        session.drained(queued) == (session, Seq::<ActionView>::empty()),
        session.refused(queued) is None,
        forall|event: EventView| !session.accepts(event),
{
}

/// A shutdown request always ends the session: it is answered, nothing
/// else is done, and no message queued behind it is ever routed.
pub proof fn lemma_shutdown_ends_session(
    session: SessionView,
    id: RequestIdView,
    params: Seq<char>,
    queued: Seq<EventView>,
)
    requires
        session.idle(),
    ensures
        ({
            let shutdown = EventView::Received(
                InboundMessageView::Request { id, method: SHUTDOWN@, params },
            );
            &&& session.accepts(shutdown)
            &&& session.refused(seq![shutdown] + queued) is None
            &&& session.drained(seq![shutdown] + queued) == (
                session.ended(),
                seq![ActionView::Shutdown { id }],
            )
        }),
{
    let shutdown = EventView::Received(
        InboundMessageView::Request { id, method: SHUTDOWN@, params },
    );
    let events = seq![shutdown] + queued;
    assert(events[0] == shutdown);
    assert(events.drop_first() =~= queued);
    lemma_nothing_after_end(session.ended(), queued);
    assert(seq![ActionView::Shutdown { id }] + Seq::<ActionView>::empty() =~= seq![
        ActionView::Shutdown { id },
    ]);
}

/// The same, in the middle of a session: wherever a shutdown request finds
/// the session serving the client with the engine idle, the session ends
/// there, and what is queued behind the request changes nothing.
pub proof fn lemma_shutdown_ends_session_anywhere(
    session: SessionView,
    earlier: Seq<EventView>,
    id: RequestIdView,
    params: Seq<char>,
    queued: Seq<EventView>,
)
    requires
        session.refused(earlier) is None,
        session.drained(earlier).0.idle(),
    ensures
        ({
            let shutdown = EventView::Received(
                InboundMessageView::Request { id, method: SHUTDOWN@, params },
            );
            let (reached, actions) = session.drained(earlier);
            &&& session.refused(earlier + (seq![shutdown] + queued)) is None
            &&& session.drained(earlier + (seq![shutdown] + queued)) == (
                reached.ended(),
                actions.push(ActionView::Shutdown { id }),
            )
        }),
{
    let shutdown = EventView::Received(
        InboundMessageView::Request { id, method: SHUTDOWN@, params },
    );
    let (reached, actions) = session.drained(earlier);
    lemma_drained_in_turn(session, earlier, seq![shutdown] + queued);
    lemma_shutdown_ends_session(reached, id, params, queued);
    assert(actions + seq![ActionView::Shutdown { id }] =~= actions.push(
        ActionView::Shutdown { id },
    ));
}

/// A change of the project configuration always has the engine rebuilt
/// and then the whole project analysed, and until that analysis has ended
/// no message is taken up. When it ends its feedback is published and the
/// session serves the client again.
pub proof fn lemma_configuration_change_reloads(
    session: SessionView,
    params: Seq<char>,
    feedback: FeedbackView,
)
    requires
        session.idle(),
    ensures
        ({
            let changed = EventView::Received(
                InboundMessageView::Notification { method: DID_CHANGE_WATCHED_FILES@, params },
            );
            let reloading = session.step(changed).0;
            let analysed = EventView::Finished { feedback };
            &&& session.accepts(changed)
            &&& session.step(changed).1 == seq![ActionView::RebuildEngine, ActionView::Analyse]
            &&& reloading == session.awaiting(PendingView::Analysis)
            &&& forall|message: InboundMessageView|
                !(#[trigger] reloading.accepts(EventView::Received(message)))
            &&& reloading.accepts(analysed)
            &&& reloading.step(analysed) == (session, sends(published_feedback(feedback)))
        }),
{
    lemma_methods_differ();
}

/// Whether `action` sends a response.
pub open spec fn responds(action: ActionView) -> bool {
    action matches ActionView::Send(OutboundView::Response { .. })
}

/// A request gets exactly one response, and it is the last thing sent for
/// it: the operation is invoked, its feedback is published, then the
/// response goes out with the request's own identifier and the engine's
/// result. The session is then as it was before the request.
pub proof fn lemma_request_gets_its_response(
    session: SessionView,
    id: RequestIdView,
    method: Seq<char>,
    params: Seq<char>,
    payload: Seq<char>,
    feedback: FeedbackView,
)
    requires
        session.idle(),
        request_operation(method) matches Some(operation) && decodes(operation, params),
    ensures
        ({
            let request = EventView::Received(InboundMessageView::Request { id, method, params });
            let answer = EventView::Answered { payload, feedback };
            let operation = request_operation(method)->0;
            &&& session.accepts(request)
            &&& session.step(request) == (
                session.awaiting(PendingView::Request(id)),
                seq![ActionView::Invoke { operation, params }],
            )
            &&& forall|message: InboundMessageView|
                !(#[trigger] session.step(request).0.accepts(EventView::Received(message)))
            &&& session.step(request).0.accepts(answer)
            &&& session.step(request).0.step(answer) == (
                session,
                sends(published_feedback(feedback)).push(
                    ActionView::Send(OutboundView::Response { id, result: payload }),
                ),
            )
            &&& forall|i: int|
                0 <= i < sends(published_feedback(feedback)).len() ==> !responds(
                    #[trigger] sends(published_feedback(feedback))[i],
                )
        }),
{
    lemma_methods_differ();
    let sent = published_feedback(feedback);
    assert forall|i: int| 0 <= i < sends(sent).len() implies !responds(#[trigger] sends(sent)[i]) by {
        if i < feedback.files.len() {
            assert(sent[i] == file_notification(feedback.files[i]));
        } else {
            assert(sent[i] == message_notification(feedback.messages[i - feedback.files.len()]));
        }
    }
}

/// A notification about a document invokes its operation, and nothing is
/// sent for it but what the engine's feedback calls for: no response.
pub proof fn lemma_notification_gets_no_response(
    session: SessionView,
    method: Seq<char>,
    params: Seq<char>,
    feedback: FeedbackView,
)
    requires
        session.idle(),
        notification_operation(method) matches Some(operation) && decodes(operation, params),
    ensures
        ({
            let notification = EventView::Received(
                InboundMessageView::Notification { method, params },
            );
            let done = EventView::Finished { feedback };
            let operation = notification_operation(method)->0;
            &&& session.accepts(notification)
            &&& session.step(notification) == (
                session.awaiting(PendingView::Notification),
                seq![ActionView::Invoke { operation, params }],
            )
            &&& session.step(notification).0.accepts(done)
            &&& session.step(notification).0.step(done) == (
                session,
                sends(published_feedback(feedback)),
            )
        }),
{
}

/// A notification this layer does not know, and any response, is dropped:
/// nothing is sent, the engine is not touched, the session stays as it is.
pub proof fn lemma_unknown_messages_are_dropped(session: SessionView, message: InboundMessageView)
    requires
        session.idle(),
        route(message) == Route::Ignore,
    ensures
        session.accepts(EventView::Received(message)),
        session.step(EventView::Received(message)) == (session, Seq::<ActionView>::empty()),
        message is Response || (message matches InboundMessageView::Notification { method, .. }
            && notification_operation(method) is None && method != DID_CHANGE_WATCHED_FILES@),
{
    lemma_methods_differ();
}

/// The rank of a phase in the life of a session.
pub open spec fn rank(phase: Phase) -> int {
    match phase {
        Phase::Starting => 0,
        Phase::Ready => 1,
        Phase::Terminated => 2,
    }
}

/// Whatever happens, a session stays well-formed and never goes back to an
/// earlier phase.
pub proof fn lemma_step_keeps_order(session: SessionView, event: EventView)
    requires
        session.wf(),
    ensures
        session.step(event).0.wf(),
        rank(session.phase) <= rank(session.step(event).0.phase),
        session.step(event).0.params == session.params,
{
}

/// The same of any run of events.
pub proof fn lemma_events_keep_order(session: SessionView, events: Seq<EventView>)
    requires
        session.wf(),
    ensures
        session.drained(events).0.wf(),
        rank(session.phase) <= rank(session.drained(events).0.phase),
        session.drained(events).0.params == session.params,
    decreases events.len(),
{
    if events.len() > 0 && session.phase != Phase::Terminated {
        lemma_step_keeps_order(session, events[0]);
        lemma_events_keep_order(session.step(events[0]).0, events.drop_first());
    }
}

/// The same of a whole session, from its first step on.
pub proof fn lemma_session_keeps_order(session: SessionView, events: Seq<EventView>)
    requires
        session.fresh(),
    ensures
        session.wf(),
        session.ran(events).0.wf(),
        session.ran(events).0.params == session.params,
{
    lemma_events_keep_order(session.started().0, events);
}

} // verus!
