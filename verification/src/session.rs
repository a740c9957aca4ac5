//! The session as a state machine: its states, what can happen to it, and
//! what it asks of the driver in return.

use vstd::prelude::*;

use crate::capabilities::InitializeParams;
use crate::decode::admissible;
use crate::feedback::Feedback;
use crate::feedback::FeedbackView;
use crate::message::InboundMessage;
use crate::message::InboundMessageView;
use crate::message::RequestId;
use crate::message::RequestIdView;
use crate::outbound::Outbound;
use crate::outbound::OutboundView;
use crate::publish::published_feedback;
use crate::negotiate::handshake;
use crate::router::notification_operation;
use crate::router::request_operation;
use crate::router::Operation;
use crate::router::DID_CHANGE_WATCHED_FILES;
use crate::router::SHUTDOWN;

verus! {

/// The stage of the session's life.
#[derive(Clone, Copy, Debug, PartialEq, Eq, Structural)]
pub enum Phase {
    /// Before the first analysis has been published.
    Starting,
    /// Serving the client.
    Ready,
    /// Shut down. Nothing is routed any more.
    Terminated,
}

/// The engine work that is under way and must end before anything else
/// is taken up.
#[derive(Clone, Debug, PartialEq, Eq)]
pub enum Pending {
    /// The engine is idle.
    Nothing,
    /// An analysis of the whole project.
    Analysis,
    /// An operation on behalf of a notification. No reply is due.
    Notification,
    /// An operation on behalf of the request with this identifier.
    Request(RequestId),
}

/// What a [`Pending`] stands for in contracts.
pub ghost enum PendingView {
    Nothing,
    Analysis,
    Notification,
    Request(RequestIdView),
}

impl View for Pending {
    type V = PendingView;

    open spec fn view(&self) -> PendingView {
        match self {
            Pending::Nothing => PendingView::Nothing,
            Pending::Analysis => PendingView::Analysis,
            Pending::Notification => PendingView::Notification,
            Pending::Request(id) => PendingView::Request(id@),
        }
    }
}

/// Something the driver reports to the session.
#[derive(Debug, PartialEq, Eq)]
pub enum Event {
    /// The transport delivered a message.
    Received(InboundMessage),
    /// The engine finished the operation behind a request. `payload` is its
    /// result as JSON text.
    Answered { payload: String, feedback: Feedback },
    /// The engine finished an analysis, or the operation behind a
    /// notification.
    Finished { feedback: Feedback },
}

/// What an [`Event`] stands for in contracts.
pub ghost enum EventView {
    Received(InboundMessageView),
    Answered { payload: Seq<char>, feedback: FeedbackView },
    Finished { feedback: FeedbackView },
}

impl View for Event {
    type V = EventView;

    open spec fn view(&self) -> EventView {
        match self {
            Event::Received(message) => EventView::Received(message@),
            Event::Answered { payload, feedback } => EventView::Answered {
                payload: payload@,
                feedback: feedback@,
            },
            Event::Finished { feedback } => EventView::Finished { feedback: feedback@ },
        }
    }
}

impl DeepView for Event {
    type V = EventView;

    open spec fn deep_view(&self) -> EventView {
        self@
    }
}

/// Something the session asks the driver to do. The driver performs the
/// actions of one step in order. After `Invoke` or `Analyse` it reports the
/// engine's result as the next event; otherwise it reports the next message
/// from the transport.
#[derive(Clone, Debug, PartialEq, Eq)]
pub enum Action {
    /// Send a message to the client.
    Send(Outbound),
    /// Decode `params` for `operation` and have the engine perform it.
    Invoke { operation: Operation, params: String },
    /// Discard the engine handle and build a new one from the project
    /// configuration as it is now.
    RebuildEngine,
    /// Have the engine analyse the whole project.
    Analyse,
    /// Answer the shutdown request `id` and wait for the client to leave.
    Shutdown { id: RequestId },
}

/// What an [`Action`] stands for in contracts.
pub ghost enum ActionView {
    Send(OutboundView),
    Invoke { operation: Operation, params: Seq<char> },
    RebuildEngine,
    Analyse,
    Shutdown { id: RequestIdView },
}

impl View for Action {
    type V = ActionView;

    open spec fn view(&self) -> ActionView {
        match self {
            Action::Send(message) => ActionView::Send(message@),
            Action::Invoke { operation, params } => ActionView::Invoke {
                operation: *operation,
                params: params@,
            },
            Action::RebuildEngine => ActionView::RebuildEngine,
            Action::Analyse => ActionView::Analyse,
            Action::Shutdown { id } => ActionView::Shutdown { id: id@ },
        }
    }
}

impl DeepView for Action {
    type V = ActionView;

    open spec fn deep_view(&self) -> ActionView {
        self@
    }
}

/// The state of a session in contracts.
pub ghost struct SessionView {
    pub params: InitializeParams,
    pub phase: Phase,
    pub pending: PendingView,
}

/// A state together with the actions that led to it.
pub type Outcome = (SessionView, Seq<ActionView>);

/// The index `at`, counted from `from`.
pub open spec fn shifted(at: Option<int>, from: int) -> Option<int> {
    match at {
        Some(at) => Some(at + from),
        None => None,
    }
}

/// The actions that send `messages`, in order.
pub open spec fn sends(messages: Seq<OutboundView>) -> Seq<ActionView> {
    messages.map_values(|message: OutboundView| ActionView::Send(message))
}

impl SessionView {
    /// At the very start: nothing has been sent or asked of the engine.
    pub open spec fn fresh(self) -> bool {
        self.phase == Phase::Starting && self.pending is Nothing
    }

    /// Serving the client, with the engine idle: the next thing to happen
    /// is a message from the transport.
    pub open spec fn idle(self) -> bool {
        self.phase == Phase::Ready && self.pending is Nothing
    }

    /// What holds of every state a session can be in: before it is ready the
    /// only engine work is the first analysis, and once it has ended there is
    /// none.
    pub open spec fn wf(self) -> bool {
        match self.phase {
            Phase::Starting => self.pending is Nothing || self.pending is Analysis,
            Phase::Ready => true,
            Phase::Terminated => self.pending is Nothing,
        }
    }

    /// This state with other engine work under way.
    pub open spec fn awaiting(self, pending: PendingView) -> SessionView {
        SessionView { params: self.params, phase: self.phase, pending }
    }

    /// This state once the engine work under way has ended. From then on
    /// the session serves the client.
    pub open spec fn settled(self) -> SessionView {
        SessionView { params: self.params, phase: Phase::Ready, pending: PendingView::Nothing }
    }

    /// This state after shutdown.
    pub open spec fn ended(self) -> SessionView {
        SessionView {
            params: self.params,
            phase: Phase::Terminated,
            pending: PendingView::Nothing,
        }
    }

    /// The first step of a session: the handshake goes out and the first
    /// analysis of the whole project is asked for.
    pub open spec fn started(self) -> Outcome {
        (
            self.awaiting(PendingView::Analysis),
            sends(handshake(self.params)).push(ActionView::Analyse),
        )
    }

    /// Taking up a request that is not the shutdown request: the one
    /// operation that serves `method` is invoked on the raw parameters, and
    /// the identifier is kept for the response.
    pub open spec fn dispatched_request(
        self,
        id: RequestIdView,
        method: Seq<char>,
        params: Seq<char>,
    ) -> Outcome {
        match request_operation(method) {
            Some(operation) => (
                self.awaiting(PendingView::Request(id)),
                seq![ActionView::Invoke { operation, params }],
            ),
            None => (self, Seq::empty()),
        }
    }

    /// Taking up a notification: a document notification invokes its
    /// operation; a change of the project configuration has the engine
    /// rebuilt and the whole project analysed anew; any other is dropped.
    pub open spec fn dispatched_notification(self, method: Seq<char>, params: Seq<char>) -> Outcome {
        match notification_operation(method) {
            Some(operation) => (
                self.awaiting(PendingView::Notification),
                seq![ActionView::Invoke { operation, params }],
            ),
            None => if method == DID_CHANGE_WATCHED_FILES@ {
                (
                    self.awaiting(PendingView::Analysis),
                    seq![ActionView::RebuildEngine, ActionView::Analyse],
                )
            } else {
                (self, Seq::empty())
            },
        }
    }

    /// Taking up a message: the shutdown request ends the session; other
    /// requests and notifications are dispatched; responses are dropped.
    pub open spec fn routed(self, message: InboundMessageView) -> Outcome {
        match message {
            InboundMessageView::Request { id, method, params } => if method == SHUTDOWN@ {
                (self.ended(), seq![ActionView::Shutdown { id }])
            } else {
                self.dispatched_request(id, method, params)
            },
            InboundMessageView::Notification { method, params } => self.dispatched_notification(
                method,
                params,
            ),
            InboundMessageView::Response => (self, Seq::empty()),
        }
    }

    /// The end of the operation behind the request `id`: the feedback is
    /// published, then the one response goes out, carrying `id` and the
    /// payload.
    pub open spec fn answered(
        self,
        id: RequestIdView,
        payload: Seq<char>,
        feedback: FeedbackView,
    ) -> Outcome {
        (
            self.settled(),
            sends(published_feedback(feedback)).push(
                ActionView::Send(OutboundView::Response { id, result: payload }),
            ),
        )
    }

    /// The end of an analysis or of the operation behind a notification:
    /// the feedback is published and nothing else is sent.
    pub open spec fn finished(self, feedback: FeedbackView) -> Outcome {
        (self.settled(), sends(published_feedback(feedback)))
    }

    /// Whether `event` can happen in this state. A message can arrive only
    /// while the engine is idle; a request must be one this layer serves;
    /// and where an operation is to be invoked the parameters must decode.
    /// An engine result can arrive only for the work under way, with a
    /// payload exactly where a request is waiting for it.
    pub open spec fn accepts(self, event: EventView) -> bool {
        match event {
            EventView::Received(message) => self.idle() && admissible(message),
            EventView::Answered { .. } => self.phase == Phase::Ready && self.pending is Request,
            EventView::Finished { .. } => {
                ||| self.phase == Phase::Starting && self.pending is Analysis
                ||| self.phase == Phase::Ready && self.pending is Analysis
                ||| self.phase == Phase::Ready && self.pending is Notification
            },
        }
    }

    /// The state after `event` and the actions it calls for. An event that
    /// cannot happen changes nothing and calls for nothing.
    pub open spec fn step(self, event: EventView) -> Outcome {
        if !self.accepts(event) {
            (self, Seq::empty())
        } else {
            match event {
                EventView::Received(message) => self.routed(message),
                EventView::Answered { payload, feedback } => self.answered(
                    self.pending->Request_0,
                    payload,
                    feedback,
                ),
                EventView::Finished { feedback } => self.finished(feedback),
            }
        }
    }

    /// The index of the first of `events` that cannot happen when its turn
    /// comes, if there is one. Events after the end of the session never
    /// get a turn.
    pub open spec fn refused(self, events: Seq<EventView>) -> Option<int>
        decreases events.len(),
    {
        if events.len() == 0 || self.phase == Phase::Terminated {
            None
        } else if !self.accepts(events[0]) {
            Some(0)
        } else {
            match self.step(events[0]).0.refused(events.drop_first()) {
                Some(at) => Some(at + 1),
                None => None,
            }
        }
    }

    /// The state after `events`, taken one by one until they run out, the
    /// session ends, or one of them cannot happen, and the actions called
    /// for on the way.
    pub open spec fn drained(self, events: Seq<EventView>) -> Outcome
        decreases events.len(),
    {
        if events.len() == 0 || self.phase == Phase::Terminated || !self.accepts(events[0]) {
            (self, Seq::empty())
        } else {
            let (next, first) = self.step(events[0]);
            let (last, rest) = next.drained(events.drop_first());
            (last, first + rest)
        }
    }

    /// A whole session: the first step, then `events`.
    pub open spec fn ran(self, events: Seq<EventView>) -> Outcome {
        let (next, first) = self.started();
        let (last, rest) = next.drained(events);
        (last, first + rest)
    }
}

} // verus!
