//! Messages this layer asks the driver to send to the client.

use vstd::prelude::*;

use crate::diagnostic::Level;
use crate::diagnostic::Range;
use crate::message::RequestId;
use crate::message::RequestIdView;

verus! {

/// The protocol's number for an error, as a severity and as a message type.
pub const ERROR: i32 = 1;

/// The protocol's number for a warning, as a severity and as a message type.
pub const WARNING: i32 = 2;

/// The severity of a diagnostic, as the protocol numbers it.
#[derive(Clone, Copy, Debug, PartialEq, Eq, Structural)]
pub struct DiagnosticSeverity {
    pub code: i32,
}

impl DiagnosticSeverity {
    /// The severity that stands for `level`: an error stays an error, a
    /// warning a warning.
    pub open spec fn of(level: Level) -> DiagnosticSeverity {
        match level {
            Level::Error => DiagnosticSeverity { code: ERROR },
            Level::Warning => DiagnosticSeverity { code: WARNING },
        }
    }

    /// Computes [`Self::of`].
    pub fn from_level(level: Level) -> (severity: DiagnosticSeverity)
        ensures
            severity == Self::of(level),
    {
        match level {
            Level::Error => DiagnosticSeverity { code: ERROR },
            Level::Warning => DiagnosticSeverity { code: WARNING },
        }
    }
}

/// The type of a message shown to the user, as the protocol numbers it.
#[derive(Clone, Copy, Debug, PartialEq, Eq, Structural)]
pub struct MessageType {
    pub code: i32,
}

impl MessageType {
    /// The message type that stands for `level`: an error stays an error, a
    /// warning a warning.
    pub open spec fn of(level: Level) -> MessageType {
        match level {
            Level::Error => MessageType { code: ERROR },
            Level::Warning => MessageType { code: WARNING },
        }
    }

    /// Computes [`Self::of`].
    pub fn from_level(level: Level) -> (typ: MessageType)
        ensures
            typ == Self::of(level),
    {
        match level {
            Level::Error => MessageType { code: ERROR },
            Level::Warning => MessageType { code: WARNING },
        }
    }
}

/// A diagnostic in the form the protocol carries: always tied to a range.
#[derive(Clone, Debug, PartialEq, Eq)]
pub struct LspDiagnostic {
    pub range: Range,
    pub severity: DiagnosticSeverity,
    pub message: String,
}

/// What an [`LspDiagnostic`] stands for in contracts.
pub ghost struct LspDiagnosticView {
    pub range: Range,
    pub severity: DiagnosticSeverity,
    pub message: Seq<char>,
}

impl View for LspDiagnostic {
    type V = LspDiagnosticView;

    open spec fn view(&self) -> LspDiagnosticView {
        LspDiagnosticView { range: self.range, severity: self.severity, message: self.message@ }
    }
}

impl DeepView for LspDiagnostic {
    type V = LspDiagnosticView;

    open spec fn deep_view(&self) -> LspDiagnosticView {
        self@
    }
}

/// The kind of file event a watcher reports.
#[derive(Clone, Copy, Debug, PartialEq, Eq, Structural)]
pub enum WatchKind {
    Create,
    Change,
    Delete,
}

impl WatchKind {
    /// The protocol's flag for this kind.
    pub open spec fn flag(self) -> u8 {
        match self {
            WatchKind::Create => 1,
            WatchKind::Change => 2,
            WatchKind::Delete => 4,
        }
    }

    /// Computes [`Self::flag`].
    pub fn bits(&self) -> (bits: u8)
        ensures
            bits == self.flag(),
    {
        match self {
            WatchKind::Create => 1,
            WatchKind::Change => 2,
            WatchKind::Delete => 4,
        }
    }
}

/// A request that the client watch files matching one glob pattern and
/// report events of one kind through the notification named by `method`.
#[derive(Clone, Debug, PartialEq, Eq)]
pub struct WatcherRegistration {
    pub id: String,
    pub method: String,
    pub glob_pattern: String,
    pub kind: WatchKind,
}

/// What a [`WatcherRegistration`] stands for in contracts.
pub ghost struct WatcherRegistrationView {
    pub id: Seq<char>,
    pub method: Seq<char>,
    pub glob_pattern: Seq<char>,
    pub kind: WatchKind,
}

impl View for WatcherRegistration {
    type V = WatcherRegistrationView;

    open spec fn view(&self) -> WatcherRegistrationView {
        WatcherRegistrationView {
            id: self.id@,
            method: self.method@,
            glob_pattern: self.glob_pattern@,
            kind: self.kind,
        }
    }
}

impl DeepView for WatcherRegistration {
    type V = WatcherRegistrationView;

    open spec fn deep_view(&self) -> WatcherRegistrationView {
        self@
    }
}

/// One message for the client, before it is put on the wire.
#[derive(Clone, Debug, PartialEq, Eq)]
pub enum Outbound {
    /// Reserve `token` for later progress reports.
    CreateProgressToken { id: RequestId, token: String },
    /// Ask the client to watch files.
    RegisterCapability { id: RequestId, registration: WatcherRegistration },
    /// The complete current diagnostics of the file at `path`.
    PublishDiagnostics { path: String, diagnostics: Vec<LspDiagnostic> },
    /// A message to show to the user.
    ShowMessage { typ: MessageType, message: String },
    /// The successful answer to the request `id`; `result` is JSON text.
    Response { id: RequestId, result: String },
}

/// What an [`Outbound`] stands for in contracts.
pub ghost enum OutboundView {
    CreateProgressToken { id: RequestIdView, token: Seq<char> },
    RegisterCapability { id: RequestIdView, registration: WatcherRegistrationView },
    PublishDiagnostics { path: Seq<char>, diagnostics: Seq<LspDiagnosticView> },
    ShowMessage { typ: MessageType, message: Seq<char> },
    Response { id: RequestIdView, result: Seq<char> },
}

impl View for Outbound {
    type V = OutboundView;

    open spec fn view(&self) -> OutboundView {
        match self {
            Outbound::CreateProgressToken { id, token } => OutboundView::CreateProgressToken {
                id: id@,
                token: token@,
            },
            Outbound::RegisterCapability { id, registration } => OutboundView::RegisterCapability {
                id: id@,
                registration: registration@,
            },
            Outbound::PublishDiagnostics { path, diagnostics } => OutboundView::PublishDiagnostics {
                path: path@,
                diagnostics: diagnostics.deep_view(),
            },
            Outbound::ShowMessage { typ, message } => OutboundView::ShowMessage {
                typ: *typ,
                message: message@,
            },
            Outbound::Response { id, result } => OutboundView::Response {
                id: id@,
                result: result@,
            },
        }
    }
}

impl DeepView for Outbound {
    type V = OutboundView;

    open spec fn deep_view(&self) -> OutboundView {
        self@
    }
}

} // verus!
