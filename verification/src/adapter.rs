//! The adapter: one session between a client and the analysis engine.

use vstd::prelude::*;

use crate::capabilities::InitializeParams;
use crate::decode::decodes;
use crate::decode::is_admissible;
use crate::feedback::Feedback;
use crate::message::InboundMessage;
use crate::message::RequestId;
use crate::outbound::Outbound;
use crate::router::classify_notification_method;
use crate::router::classify_request_method;
use crate::router::is_shutdown;
use crate::router::is_watched_files_change;
use crate::router::notification_operation;
use crate::router::request_operation;
use crate::session::sends;
use crate::session::shifted;
use crate::session::Action;
use crate::session::ActionView;
use crate::session::Event;
use crate::session::EventView;
use crate::session::Pending;
use crate::session::PendingView;
use crate::session::Phase;
use crate::session::SessionView;

verus! {

/// An event that could not happen when its turn came.
#[derive(Debug, PartialEq, Eq)]
pub struct Refused {
    /// The index of the event.
    pub at: usize,
    /// The actions called for by the events before it.
    pub actions: Vec<Action>,
}

/// Speaks the language server protocol on behalf of the analysis engine.
///
/// It keeps the client's capabilities as declared at initialisation, the
/// phase of the session, and the engine work that is under way. The engine
/// handle itself stays with the driver.
#[derive(Debug)]
pub struct LanguageServerProtocolAdapter {
    initialise_params: InitializeParams,
    phase: Phase,
    pending: Pending,
}

impl View for LanguageServerProtocolAdapter {
    type V = SessionView;

    closed spec fn view(&self) -> SessionView {
        SessionView { params: self.initialise_params, phase: self.phase, pending: self.pending@ }
    }
}

impl LanguageServerProtocolAdapter {
    #[verifier::type_invariant]
    spec fn well_formed(self) -> bool {
        self@.wf()
    }

    /// An adapter for a client that declared `initialise_params`, at the
    /// start of its session.
    pub fn new(initialise_params: InitializeParams) -> (adapter: Self)
        ensures
            adapter@ == (SessionView {
                params: initialise_params,
                phase: Phase::Starting,
                pending: PendingView::Nothing,
            }),
    {
        LanguageServerProtocolAdapter {
            initialise_params,
            phase: Phase::Starting,
            pending: Pending::Nothing,
        }
    }

    /// The client's initialisation parameters.
    pub fn initialise_params(&self) -> (params: InitializeParams)
        ensures
            params == self@.params,
    {
        self.initialise_params
    }

    /// The phase of the session.
    pub fn phase(&self) -> (phase: Phase)
        ensures
            phase == self@.phase,
            self@.wf(),
    {
        proof {
            use_type_invariant(self);
        }
        self.phase
    }

    /// Whether the session has ended.
    pub fn is_terminated(&self) -> (terminated: bool)
        ensures
            terminated == (self@.phase == Phase::Terminated),
    {
        match self.phase {
            Phase::Terminated => true,
            _ => false,
        }
    }

    /// Whether the session is ready and the engine idle, so that the next
    /// event is a message from the transport.
    pub fn is_idle(&self) -> (idle: bool)
        ensures
            idle == self@.idle(),
    {
        match (self.phase, &self.pending) {
            (Phase::Ready, Pending::Nothing) => true,
            _ => false,
        }
    }

    /// Whether `event` can happen now. The driver asks this of every event
    /// before it hands it over.
    pub fn accepts(&self, event: &Event) -> (accepted: bool)
        ensures
            accepted == self@.accepts(event@),
    {
        match event {
            Event::Received(message) => self.is_idle() && is_admissible(message),
            Event::Answered { .. } => match (self.phase, &self.pending) {
                (Phase::Ready, Pending::Request(_)) => true,
                _ => false,
            },
            Event::Finished { .. } => match (self.phase, &self.pending) {
                (Phase::Starting, Pending::Analysis) => true,
                (Phase::Ready, Pending::Analysis) => true,
                (Phase::Ready, Pending::Notification) => true,
                _ => false,
            },
        }
    }

    /// Begins the session: the handshake goes out, then the whole project
    /// is analysed once, so that the client sees the errors there are from
    /// the start.
    pub fn start(&mut self) -> (actions: Vec<Action>)
        requires
            old(self)@.fresh(),
        ensures
            (final(self)@, actions.deep_view()) == old(self)@.started(),
    {
        let mut actions = send_all(self.negotiate());
        let ghost sent = actions.deep_view();
        actions.push(Action::Analyse);
        self.pending = Pending::Analysis;
        proof {
            assert(actions.deep_view() =~= sent.push(ActionView::Analyse));
        }
        actions
    }

    /// Takes up one message from the client.
    ///
    /// The shutdown request ends the session. Any other request must be
    /// one this layer serves, and parameters handed to the engine must
    /// decode.
    pub fn handle_message(&mut self, message: &InboundMessage) -> (actions: Vec<Action>)
        requires
            old(self)@.accepts(EventView::Received(message@)),
        ensures
            (final(self)@, actions.deep_view()) == old(self)@.routed(message@),
    {
        match message {
            InboundMessage::Request { id, method, params } => {
                if is_shutdown(method) {
                    self.phase = Phase::Terminated;
                    let actions = vec![Action::Shutdown { id: id.duplicate() }];
                    proof {
                        assert(actions.deep_view() =~= seq![ActionView::Shutdown { id: id@ }]);
                    }
                    actions
                } else {
                    self.handle_request(id, method, params)
                }
            },
            InboundMessage::Notification { method, params } => self.handle_notification(
                method,
                params,
            ),
            InboundMessage::Response => {
                let actions: Vec<Action> = Vec::new();
                proof {
                    assert(actions.deep_view() =~= Seq::empty());
                }
                actions
            },
        }
    }

    /// Takes up a request that is not the shutdown request: names the engine
    /// operation that serves it and remembers the identifier for the
    /// response. The method must be one of the four this layer serves, and
    /// the parameters must have the shape its operation expects.
    pub fn handle_request(&mut self, id: &RequestId, method: &String, params: &String) -> (actions:
        Vec<Action>)
        requires
            old(self)@.idle(),
            request_operation(method@) matches Some(operation) && decodes(operation, params@),
        ensures
            (final(self)@, actions.deep_view()) == old(self)@.dispatched_request(
                id@,
                method@,
                params@,
            ),
    {
        match classify_request_method(method) {
            Some(operation) => {
                self.pending = Pending::Request(id.duplicate());
                let actions = vec![Action::Invoke { operation, params: params.clone() }];
                proof {
                    assert(actions.deep_view() =~= seq![
                        ActionView::Invoke { operation, params: params@ },
                    ]);
                }
                actions
            },
            None => Vec::new(),
        }
    }

    /// Takes up a notification. One about a document names the engine
    /// operation that serves it. A change of the project configuration
    /// throws the engine's state away whole: the engine is rebuilt and the
    /// project analysed anew. Any other notification is dropped. Where an
    /// operation is named the parameters must have the shape it expects.
    pub fn handle_notification(&mut self, method: &String, params: &String) -> (actions: Vec<
        Action,
    >)
        requires
            old(self)@.idle(),
            notification_operation(method@) matches Some(operation) ==> decodes(
                operation,
                params@,
            ),
        ensures
            (final(self)@, actions.deep_view()) == old(self)@.dispatched_notification(
                method@,
                params@,
            ),
    {
        match classify_notification_method(method) {
            Some(operation) => {
                self.pending = Pending::Notification;
                let actions = vec![Action::Invoke { operation, params: params.clone() }];
                proof {
                    assert(actions.deep_view() =~= seq![
                        ActionView::Invoke { operation, params: params@ },
                    ]);
                }
                actions
            },
            None => {
                if is_watched_files_change(method) {
                    self.pending = Pending::Analysis;
                    let actions = vec![Action::RebuildEngine, Action::Analyse];
                    proof {
                        assert(actions.deep_view() =~= seq![
                            ActionView::RebuildEngine,
                            ActionView::Analyse,
                        ]);
                    }
                    actions
                } else {
                    let actions: Vec<Action> = Vec::new();
                    proof {
                        assert(actions.deep_view() =~= Seq::empty());
                    }
                    actions
                }
            },
        }
    }

    /// Concludes the request under way: publishes the feedback, then gives
    /// the one response, which carries the request's identifier and the
    /// engine's result.
    pub fn answer(&mut self, payload: &String, feedback: &Feedback) -> (actions: Vec<Action>)
        requires
            old(self)@.accepts(EventView::Answered { payload: payload@, feedback: feedback@ }),
        ensures
            (final(self)@, actions.deep_view()) == old(self)@.answered(
                old(self)@.pending->Request_0,
                payload@,
                feedback@,
            ),
    {
        let mut pending = Pending::Nothing;
        core::mem::swap(&mut self.pending, &mut pending);
        match pending {
            Pending::Request(id) => {
                let mut actions = send_all(self.publish_feedback(feedback));
                let ghost sent = actions.deep_view();
                let response = Outbound::Response { id, result: payload.clone() };
                let ghost response_view = response@;
                actions.push(Action::Send(response));
                proof {
                    assert(actions.deep_view() =~= sent.push(ActionView::Send(response_view)));
                }
                actions
            },
            _ => Vec::new(),
        }
    }

    /// Concludes the analysis, or the operation behind a notification, that
    /// is under way: publishes the feedback. Nothing else is sent.
    pub fn finish(&mut self, feedback: &Feedback) -> (actions: Vec<Action>)
        requires
            old(self)@.accepts(EventView::Finished { feedback: feedback@ }),
        ensures
            (final(self)@, actions.deep_view()) == old(self)@.finished(feedback@),
    {
        self.phase = Phase::Ready;
        self.pending = Pending::Nothing;
        send_all(self.publish_feedback(feedback))
    }

    /// Advances the session by one event and says what the driver is to do
    /// next.
    pub fn handle_event(&mut self, event: &Event) -> (actions: Vec<Action>)
        requires
            old(self)@.accepts(event@),
        ensures
            (final(self)@, actions.deep_view()) == old(self)@.step(event@),
    {
        match event {
            Event::Received(message) => self.handle_message(message),
            Event::Answered { payload, feedback } => self.answer(payload, feedback),
            Event::Finished { feedback } => self.finish(feedback),
        }
    }

    /// Runs the session over `events`: begins it, then takes the events one
    /// by one until they run out or the session ends. Events after the end
    /// are left untouched. Gives every action called for, in order.
    ///
    /// Fails at the first event that cannot happen when its turn comes,
    /// with its index and the actions called for up to there. The session
    /// is then as the events before that one left it.
    pub fn run(&mut self, events: &Vec<Event>) -> (result: Result<Vec<Action>, Refused>)
        requires
            old(self)@.fresh(),
        ensures
            final(self)@ == old(self)@.ran(events.deep_view()).0,
            match result {
                Ok(actions) => {
                    &&& old(self)@.started().0.refused(events.deep_view()) is None
                    &&& actions.deep_view() == old(self)@.ran(events.deep_view()).1
                },
                Err(refused) => {
                    &&& old(self)@.started().0.refused(events.deep_view()) == Some(
                        refused.at as int,
                    )
                    &&& refused.actions.deep_view() == old(self)@.ran(events.deep_view()).1
                },
            },
    {
        let ghost all = events.deep_view();
        let mut actions = self.start();
        let ghost begun = self@;
        let ghost first = actions.deep_view();
        let mut i: usize = 0;
        proof {
            assert(all.skip(0) =~= all);
            assert(actions.deep_view() + begun.drained(all).1 =~= first + begun.drained(all).1);
        }
        while i < events.len() && !self.is_terminated()
            invariant
                0 <= i <= events.len(),
                all == events.deep_view(),
                (begun, first) == old(self)@.started(),
                begun.refused(all) == shifted(self@.refused(all.skip(i as int)), i as int),
                begun.drained(all).0 == self@.drained(all.skip(i as int)).0,
                first + begun.drained(all).1 == actions.deep_view() + self@.drained(
                    all.skip(i as int),
                ).1,
            decreases events.len() - i,
        {
            let ghost before = self@;
            let ghost done = actions.deep_view();
            let ghost rest = all.skip(i as int);
            proof {
                assert(rest[0] == events[i as int]@);
                assert(rest.drop_first() =~= all.skip(i as int + 1));
            }
            if !self.accepts(&events[i]) {
                proof {
                    assert(!before.accepts(rest[0]));
                    assert(before.refused(rest) == Some(0int));
                    assert(before.drained(rest) == (before, Seq::<ActionView>::empty()));
                    assert(done + Seq::<ActionView>::empty() =~= done);
                }
                return Err(Refused { at: i, actions });
            }
            let mut more = self.handle_event(&events[i]);
            let ghost stepped = more.deep_view();
            actions.append(&mut more);
            i += 1;
            proof {
                assert(actions.deep_view() =~= done + stepped);
                assert(before.drained(rest).1 == stepped + self@.drained(all.skip(i as int)).1);
                assert(done + (stepped + self@.drained(all.skip(i as int)).1) =~= (done + stepped)
                    + self@.drained(all.skip(i as int)).1);
            }
        }
        proof {
            assert(self@.drained(all.skip(i as int)).1 =~= Seq::empty());
            assert(actions.deep_view() + Seq::<ActionView>::empty() =~= actions.deep_view());
        }
        Ok(actions)
    }
}

/// The actions that send `messages`, in order.
pub fn send_all(messages: Vec<Outbound>) -> (actions: Vec<Action>)
    ensures
        actions.deep_view() == sends(messages.deep_view()),
{
    let ghost all = messages.deep_view();
    let ghost raw = messages@;
    let mut actions: Vec<Action> = Vec::new();
    for message in iter: messages
        invariant
            iter.seq() == raw,
            all == Seq::new(raw.len(), |k: int| raw[k]@),
            actions.deep_view() == sends(all.take(iter.index() as int)),
    {
        let ghost before = actions.deep_view();
        actions.push(Action::Send(message));
        proof {
            assert(actions.deep_view() =~= before.push(ActionView::Send(message@)));
            assert(actions.deep_view() =~= sends(all.take(iter.index() + 1)));
        }
    }
    proof {
        assert(all.take(all.len() as int) =~= all);
    }
    actions
}

} // verus!
