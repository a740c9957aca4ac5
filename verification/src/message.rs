//! Messages arriving from the client.

use vstd::prelude::*;

verus! {

/// The identifier that ties a response to its request: a number or a string.
#[derive(Clone, Debug, PartialEq, Eq)]
pub enum RequestId {
    Number(i32),
    Text(String),
}

/// What a [`RequestId`] stands for in contracts.
pub ghost enum RequestIdView {
    Number(i32),
    Text(Seq<char>),
}

impl View for RequestId {
    type V = RequestIdView;

    open spec fn view(&self) -> RequestIdView {
        match self {
            RequestId::Number(n) => RequestIdView::Number(*n),
            RequestId::Text(s) => RequestIdView::Text(s@),
        }
    }
}

impl DeepView for RequestId {
    type V = RequestIdView;

    open spec fn deep_view(&self) -> RequestIdView {
        self@
    }
}

impl RequestId {
    /// A copy of this identifier.
    pub fn duplicate(&self) -> (copy: RequestId)
        ensures
            copy@ == self@,
    {
        match self {
            RequestId::Number(n) => RequestId::Number(*n),
            RequestId::Text(s) => RequestId::Text(s.clone()),
        }
    }
}

/// One message from the client. `params` holds the raw parameters as JSON
/// text; this layer hands them on without looking inside.
#[derive(Clone, Debug, PartialEq, Eq)]
pub enum InboundMessage {
    Request { id: RequestId, method: String, params: String },
    Notification { method: String, params: String },
    /// A reply to something the server sent. Its contents play no role here.
    Response,
}

/// What an [`InboundMessage`] stands for in contracts.
pub ghost enum InboundMessageView {
    Request { id: RequestIdView, method: Seq<char>, params: Seq<char> },
    Notification { method: Seq<char>, params: Seq<char> },
    Response,
}

impl View for InboundMessage {
    type V = InboundMessageView;

    open spec fn view(&self) -> InboundMessageView {
        match self {
            InboundMessage::Request { id, method, params } => InboundMessageView::Request {
                id: id@,
                method: method@,
                params: params@,
            },
            InboundMessage::Notification { method, params } => InboundMessageView::Notification {
                method: method@,
                params: params@,
            },
            InboundMessage::Response => InboundMessageView::Response,
        }
    }
}

impl DeepView for InboundMessage {
    type V = InboundMessageView;

    open spec fn deep_view(&self) -> InboundMessageView {
        self@
    }
}

} // verus!
