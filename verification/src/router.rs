//! Classification of inbound messages by kind and method name.

use vstd::prelude::*;

use crate::message::InboundMessage;
use crate::message::InboundMessageView;

verus! {

pub const SHUTDOWN: &'static str = "shutdown";

pub const FORMATTING: &'static str = "textDocument/formatting";

pub const HOVER: &'static str = "textDocument/hover";

pub const DEFINITION: &'static str = "textDocument/definition";

pub const COMPLETION: &'static str = "textDocument/completion";

pub const DID_OPEN: &'static str = "textDocument/didOpen";

pub const DID_SAVE: &'static str = "textDocument/didSave";

pub const DID_CLOSE: &'static str = "textDocument/didClose";

pub const DID_CHANGE: &'static str = "textDocument/didChange";

pub const DID_CHANGE_WATCHED_FILES: &'static str = "workspace/didChangeWatchedFiles";

/// An operation of the analysis engine that takes decoded parameters.
#[derive(Clone, Copy, Debug, PartialEq, Eq, Structural)]
pub enum Operation {
    Format,
    Hover,
    GotoDefinition,
    Completion,
    DidOpen,
    DidSave,
    DidClose,
    DidChange,
}

impl Operation {
    /// Whether the operation serves a request, and so yields a payload for
    /// the response, rather than a notification.
    pub open spec fn answers_request(self) -> bool {
        self is Format || self is Hover || self is GotoDefinition || self is Completion
    }

    /// Computes [`Self::answers_request`].
    pub fn is_request(&self) -> (b: bool)
        ensures
            b == self.answers_request(),
    {
        match self {
            Operation::Format | Operation::Hover | Operation::GotoDefinition
            | Operation::Completion => true,
            _ => false,
        }
    }
}

/// Where an inbound message goes.
#[derive(Clone, Copy, Debug, PartialEq, Eq, Structural)]
pub enum Route {
    /// The shutdown request: answer it and end the session.
    Shutdown,
    /// A request or notification served by one engine operation.
    Engine(Operation),
    /// The project configuration changed: rebuild the engine, analyse anew.
    Reload,
    /// Nothing to do: a response, or a notification this layer does not know.
    Ignore,
    /// A request this layer does not serve. The session cannot go on.
    Unsupported,
}

impl Route {
    /// Whether a message that goes this way can be taken up. `decoded` says
    /// whether its parameters have the shape its operation expects, which
    /// matters only where an operation is to be invoked.
    pub open spec fn admits(self, decoded: bool) -> bool {
        match self {
            Route::Unsupported => false,
            Route::Engine(_) => decoded,
            _ => true,
        }
    }

    /// Computes [`Self::admits`].
    pub fn is_admitted(&self, decoded: bool) -> (admitted: bool)
        ensures
            admitted == self.admits(decoded),
    {
        match self {
            Route::Unsupported => false,
            Route::Engine(_) => decoded,
            _ => true,
        }
    }
}

/// The operation that serves a request with this method, if any.
pub open spec fn request_operation(method: Seq<char>) -> Option<Operation> {
    if method == FORMATTING@ {
        Some(Operation::Format)
    } else if method == HOVER@ {
        Some(Operation::Hover)
    } else if method == DEFINITION@ {
        Some(Operation::GotoDefinition)
    } else if method == COMPLETION@ {
        Some(Operation::Completion)
    } else {
        None
    }
}

/// The operation that serves a notification with this method, if any.
pub open spec fn notification_operation(method: Seq<char>) -> Option<Operation> {
    if method == DID_OPEN@ {
        Some(Operation::DidOpen)
    } else if method == DID_SAVE@ {
        Some(Operation::DidSave)
    } else if method == DID_CLOSE@ {
        Some(Operation::DidClose)
    } else if method == DID_CHANGE@ {
        Some(Operation::DidChange)
    } else {
        None
    }
}

/// Where a request with this method goes. Shutdown is looked for first.
pub open spec fn route_request(method: Seq<char>) -> Route {
    if method == SHUTDOWN@ {
        Route::Shutdown
    } else {
        match request_operation(method) {
            Some(operation) => Route::Engine(operation),
            None => Route::Unsupported,
        }
    }
}

/// Where a notification with this method goes.
pub open spec fn route_notification(method: Seq<char>) -> Route {
    match notification_operation(method) {
        Some(operation) => Route::Engine(operation),
        None => if method == DID_CHANGE_WATCHED_FILES@ {
            Route::Reload
        } else {
            Route::Ignore
        },
    }
}

/// Where a message goes.
pub open spec fn route(message: InboundMessageView) -> Route {
    match message {
        InboundMessageView::Request { method, .. } => route_request(method),
        InboundMessageView::Notification { method, .. } => route_notification(method),
        InboundMessageView::Response => Route::Ignore,
    }
}

fn same_text(text: &String, name: &'static str) -> (same: bool)
    ensures
        same == (text@ == name@),
{
    *text == String::from_str(name)
}

/// Whether `method` names the shutdown request.
pub fn is_shutdown(method: &String) -> (shutdown: bool)
    ensures
        shutdown == (method@ == SHUTDOWN@),
{
    same_text(method, SHUTDOWN)
}

/// Whether `method` names the notification of a change to a watched file.
pub fn is_watched_files_change(method: &String) -> (changed: bool)
    ensures
        changed == (method@ == DID_CHANGE_WATCHED_FILES@),
{
    same_text(method, DID_CHANGE_WATCHED_FILES)
}

/// Computes [`request_operation`].
pub fn classify_request_method(method: &String) -> (operation: Option<Operation>)
    ensures
        operation == request_operation(method@),
{
    if same_text(method, FORMATTING) {
        Some(Operation::Format)
    } else if same_text(method, HOVER) {
        Some(Operation::Hover)
    } else if same_text(method, DEFINITION) {
        Some(Operation::GotoDefinition)
    } else if same_text(method, COMPLETION) {
        Some(Operation::Completion)
    } else {
        None
    }
}

/// Computes [`notification_operation`].
pub fn classify_notification_method(method: &String) -> (operation: Option<Operation>)
    ensures
        operation == notification_operation(method@),
{
    if same_text(method, DID_OPEN) {
        Some(Operation::DidOpen)
    } else if same_text(method, DID_SAVE) {
        Some(Operation::DidSave)
    } else if same_text(method, DID_CLOSE) {
        Some(Operation::DidClose)
    } else if same_text(method, DID_CHANGE) {
        Some(Operation::DidChange)
    } else {
        None
    }
}

/// Computes [`route`].
pub fn classify(message: &InboundMessage) -> (destination: Route)
    ensures
        destination == route(message@),
{
    match message {
        InboundMessage::Request { method, .. } => {
            if is_shutdown(method) {
                Route::Shutdown
            } else {
                match classify_request_method(method) {
                    Some(operation) => Route::Engine(operation),
                    None => Route::Unsupported,
                }
            }
        },
        InboundMessage::Notification { method, .. } => {
            match classify_notification_method(method) {
                Some(operation) => Route::Engine(operation),
                None => if is_watched_files_change(method) {
                    Route::Reload
                } else {
                    Route::Ignore
                },
            }
        },
        InboundMessage::Response => Route::Ignore,
    }
}

} // verus!
