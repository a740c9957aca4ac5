//! Turning the engine's feedback into messages for the client.

use vstd::prelude::*;

use crate::adapter::LanguageServerProtocolAdapter;
use crate::diagnostic::Diagnostic;
use crate::diagnostic::DiagnosticView;
use crate::feedback::Feedback;
use crate::feedback::FeedbackView;
use crate::feedback::FileDiagnostics;
use crate::feedback::FileDiagnosticsView;
use crate::outbound::DiagnosticSeverity;
use crate::outbound::LspDiagnostic;
use crate::outbound::LspDiagnosticView;
use crate::outbound::MessageType;
use crate::outbound::Outbound;
use crate::outbound::OutboundView;

verus! {

/// The protocol form of a diagnostic. The protocol ties every diagnostic to
/// a range, so one without a location has no protocol form.
pub open spec fn lsp_form(diagnostic: DiagnosticView) -> Option<LspDiagnosticView> {
    match diagnostic.location {
        Some(range) => Some(
            LspDiagnosticView {
                range,
                severity: DiagnosticSeverity::of(diagnostic.level),
                message: diagnostic.text,
            },
        ),
        None => None,
    }
}

/// The protocol forms of those diagnostics that have one, in the order given.
pub open spec fn lsp_forms(diagnostics: Seq<DiagnosticView>) -> Seq<LspDiagnosticView> {
    diagnostics.filter_map(|diagnostic: DiagnosticView| lsp_form(diagnostic))
}

/// The notification that publishes one file's diagnostics.
pub open spec fn file_notification(file: FileDiagnosticsView) -> OutboundView {
    OutboundView::PublishDiagnostics { path: file.path, diagnostics: lsp_forms(file.diagnostics) }
}

/// One notification per entry, in entry order.
pub open spec fn published_diagnostics(files: Seq<FileDiagnosticsView>) -> Seq<OutboundView> {
    files.map_values(|file: FileDiagnosticsView| file_notification(file))
}

/// The notification that shows one message to the user. Its type is the
/// message's level; a location, if the message has one, plays no role.
pub open spec fn message_notification(message: DiagnosticView) -> OutboundView {
    OutboundView::ShowMessage { typ: MessageType::of(message.level), message: message.text }
}

/// One notification per message, in message order.
pub open spec fn published_messages(messages: Seq<DiagnosticView>) -> Seq<OutboundView> {
    messages.map_values(|message: DiagnosticView| message_notification(message))
}

/// Everything a feedback makes the adapter send: first the diagnostics of
/// each file, then the messages.
pub open spec fn published_feedback(feedback: FeedbackView) -> Seq<OutboundView> {
    published_diagnostics(feedback.files) + published_messages(feedback.messages)
}

/// The protocol form of `diagnostic`, or `None` where it has no location.
pub fn diagnostic_to_lsp(diagnostic: &Diagnostic) -> (converted: Option<LspDiagnostic>)
    ensures
        converted.deep_view() == lsp_form(diagnostic@),
{
    match diagnostic.location {
        Some(range) => Some(
            LspDiagnostic {
                range,
                severity: DiagnosticSeverity::from_level(diagnostic.level),
                message: diagnostic.text.clone(),
            },
        ),
        None => None,
    }
}

/// The protocol forms of `diagnostics`, leaving out those that have none.
pub fn diagnostics_to_lsp(diagnostics: &Vec<Diagnostic>) -> (converted: Vec<LspDiagnostic>)
    ensures
        converted.deep_view() == lsp_forms(diagnostics.deep_view()),
{
    let ghost source = diagnostics.deep_view();
    let ghost convert = |diagnostic: DiagnosticView| lsp_form(diagnostic);
    let mut converted: Vec<LspDiagnostic> = Vec::new();
    let mut i: usize = 0;
    proof {
        assert(source.take(0).filter_map(convert) =~= Seq::empty());
    }
    while i < diagnostics.len()
        invariant
            0 <= i <= diagnostics.len(),
            source == diagnostics.deep_view(),
            convert == |diagnostic: DiagnosticView| lsp_form(diagnostic),
            converted.deep_view() == source.take(i as int).filter_map(convert),
        decreases diagnostics.len() - i,
    {
        let ghost before = converted.deep_view();
        proof {
            source.lemma_filter_map_take_succ(convert, i as int);
        }
        match diagnostic_to_lsp(&diagnostics[i]) {
            Some(diagnostic) => {
                converted.push(diagnostic);
                proof {
                    assert(converted.deep_view() =~= before + seq![diagnostic@]);
                }
            },
            None => {},
        }
        i += 1;
    }
    proof {
        assert(source.take(i as int) =~= source);
    }
    converted
}

impl LanguageServerProtocolAdapter {
    /// The notifications that publish `diagnostics`: one per file, each
    /// with that file's diagnostics in the order given, less those without a
    /// protocol form. A file that is not listed gets no notification.
    pub fn publish_diagnostics(&self, diagnostics: &Vec<FileDiagnostics>) -> (notifications: Vec<
        Outbound,
    >)
        ensures
            notifications.deep_view() == published_diagnostics(diagnostics.deep_view()),
    {
        let mut notifications: Vec<Outbound> = Vec::new();
        let mut i: usize = 0;
        while i < diagnostics.len()
            invariant
                0 <= i <= diagnostics.len(),
                notifications.deep_view() == published_diagnostics(
                    diagnostics.deep_view().take(i as int),
                ),
            decreases diagnostics.len() - i,
        {
            let ghost before = notifications.deep_view();
            let file = &diagnostics[i];
            let converted = diagnostics_to_lsp(&file.diagnostics);
            notifications.push(
                Outbound::PublishDiagnostics { path: file.path.clone(), diagnostics: converted },
            );
            i += 1;
            proof {
                assert(notifications.deep_view() =~= before.push(file_notification(file@)));
                assert(notifications.deep_view() =~= published_diagnostics(
                    diagnostics.deep_view().take(i as int),
                ));
            }
        }
        proof {
            assert(diagnostics.deep_view().take(i as int) =~= diagnostics.deep_view());
        }
        notifications
    }

    /// The notifications that show `messages` to the user: one per message,
    /// in the order given, each with the message's own level.
    pub fn publish_notifications(&self, messages: &Vec<Diagnostic>) -> (notifications: Vec<
        Outbound,
    >)
        ensures
            notifications.deep_view() == published_messages(messages.deep_view()),
    {
        let mut notifications: Vec<Outbound> = Vec::new();
        let mut i: usize = 0;
        while i < messages.len()
            invariant
                0 <= i <= messages.len(),
                notifications.deep_view() == published_messages(
                    messages.deep_view().take(i as int),
                ),
            decreases messages.len() - i,
        {
            let ghost before = notifications.deep_view();
            let message = &messages[i];
            notifications.push(
                Outbound::ShowMessage {
                    typ: MessageType::from_level(message.level),
                    message: message.text.clone(),
                },
            );
            i += 1;
            proof {
                assert(notifications.deep_view() =~= before.push(message_notification(message@)));
                assert(notifications.deep_view() =~= published_messages(
                    messages.deep_view().take(i as int),
                ));
            }
        }
        proof {
            assert(messages.deep_view().take(i as int) =~= messages.deep_view());
        }
        notifications
    }

    /// Everything `feedback` makes the adapter send: the diagnostics of each
    /// file, then the messages.
    pub fn publish_feedback(&self, feedback: &Feedback) -> (notifications: Vec<Outbound>)
        ensures
            notifications.deep_view() == published_feedback(feedback@),
    {
        let mut notifications = self.publish_diagnostics(feedback.files());
        let mut shown = self.publish_notifications(feedback.messages());
        let ghost first = notifications.deep_view();
        let ghost second = shown.deep_view();
        notifications.append(&mut shown);
        proof {
            assert(notifications.deep_view() =~= first + second);
        }
        notifications
    }
}

} // verus!
