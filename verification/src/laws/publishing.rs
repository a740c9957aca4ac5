//! What holds of publishing: which notifications a feedback leads to, and
//! what the client shows after them.

use vstd::prelude::*;

use crate::diagnostic::DiagnosticView;
use crate::feedback::distinct_paths;
use crate::feedback::FeedbackView;
use crate::feedback::FileDiagnosticsView;
use crate::outbound::LspDiagnosticView;
use crate::outbound::OutboundView;
use crate::publish::file_notification;
use crate::publish::lsp_form;
use crate::publish::lsp_forms;
use crate::publish::message_notification;
use crate::publish::published_diagnostics;
use crate::publish::published_feedback;
use crate::publish::published_messages;

verus! {

/// Whether `message` publishes the diagnostics of the file at `path`.
pub open spec fn publishes(message: OutboundView, path: Seq<char>) -> bool {
    message matches OutboundView::PublishDiagnostics { path: published, .. } && published == path
}

/// Every file that a feedback speaks of gets exactly one notification, and
/// that notification carries the protocol forms of exactly that file's
/// diagnostics.
pub proof fn lemma_one_notification_per_file(feedback: FeedbackView, path: Seq<char>)
    requires
        feedback.wf(),
        feedback.mentions(path),
    ensures
        0 <= feedback.position(path) < published_feedback(feedback).len(),
        published_feedback(feedback)[feedback.position(path)]
            == (OutboundView::PublishDiagnostics {
            path,
            diagnostics: lsp_forms(feedback.diagnostics()[path]),
        }),
        forall|j: int|
            0 <= j < published_feedback(feedback).len() && publishes(
                #[trigger] published_feedback(feedback)[j],
                path,
            ) ==> j == feedback.position(path),
{
    let sent = published_feedback(feedback);
    let at = feedback.position(path);
    assert forall|j: int| 0 <= j < sent.len() && publishes(#[trigger] sent[j], path) implies j
        == at by {
        if j < feedback.files.len() {
            assert(sent[j] == file_notification(feedback.files[j]));
            assert(feedback.files[j].path == path);
        } else {
            assert(sent[j] == message_notification(
                feedback.messages[j - feedback.files.len()],
            ));
        }
    }
}

/// A file that a feedback does not speak of gets no notification: its
/// diagnostics are not published, and not cleared either.
pub proof fn lemma_unmentioned_file_gets_nothing(feedback: FeedbackView, path: Seq<char>)
    requires
        !feedback.mentions(path),
    ensures
        forall|j: int|
            0 <= j < published_feedback(feedback).len() ==> !publishes(
                #[trigger] published_feedback(feedback)[j],
                path,
            ),
{
    let sent = published_feedback(feedback);
    assert forall|j: int| 0 <= j < sent.len() implies !publishes(#[trigger] sent[j], path) by {
        if j < feedback.files.len() {
            assert(sent[j] == file_notification(feedback.files[j]));
            assert(feedback.files[j].path != path);
        } else {
            assert(sent[j] == message_notification(
                feedback.messages[j - feedback.files.len()],
            ));
        }
    }
}

/// A feedback without diagnostics for any file makes the adapter publish
/// no diagnostics at all, and one with `n` files makes it publish `n` times.
pub proof fn lemma_notifications_count(feedback: FeedbackView)
    ensures
        published_diagnostics(feedback.files).len() == feedback.files.len(),
        published_messages(feedback.messages).len() == feedback.messages.len(),
        published_feedback(feedback).len() == feedback.files.len() + feedback.messages.len(),
        feedback.files.len() == 0 ==> forall|j: int|
            0 <= j < published_feedback(feedback).len() ==> !(
            #[trigger] published_feedback(feedback)[j] is PublishDiagnostics),
{
    let sent = published_feedback(feedback);
    assert forall|j: int| 0 <= j < sent.len() && feedback.files.len() == 0 implies !(
    #[trigger] sent[j] is PublishDiagnostics) by {
        assert(sent[j] == message_notification(feedback.messages[j]));
    }
}

/// Within a file the published diagnostics keep the order in which the
/// engine gave them: any two of them stem from two diagnostics that stood in
/// the same order.
pub proof fn lemma_order_within_file(diagnostics: Seq<DiagnosticView>, a: int, b: int)
    requires
        0 <= a < b < lsp_forms(diagnostics).len(),
    ensures
        exists|i: int, j: int|
            0 <= i < j < diagnostics.len() && lsp_form(#[trigger] diagnostics[i]) == Some(
                lsp_forms(diagnostics)[a],
            ) && lsp_form(#[trigger] diagnostics[j]) == Some(lsp_forms(diagnostics)[b]),
    decreases diagnostics.len(),
{
    let convert = |diagnostic: DiagnosticView| lsp_form(diagnostic);
    let rest = diagnostics.drop_last();
    let last = diagnostics.len() - 1;
    assert(diagnostics.len() > 0) by {
        if diagnostics.len() == 0 {
            assert(diagnostics.filter_map(convert).len() == 0);
        }
    }
    let before = lsp_forms(rest);
    assert(lsp_forms(diagnostics) == match lsp_form(diagnostics.last()) {
        Some(form) => before + seq![form],
        None => before,
    });
    if b < before.len() {
        lemma_order_within_file(rest, a, b);
        let (i, j) = choose|i: int, j: int|
            0 <= i < j < rest.len() && lsp_form(#[trigger] rest[i]) == Some(before[a]) && lsp_form(
                #[trigger] rest[j],
            ) == Some(before[b]);
        assert(diagnostics[i] == rest[i] && diagnostics[j] == rest[j]);
    } else {
        lemma_form_has_source(rest, a);
        let i = choose|i: int|
            0 <= i < rest.len() && lsp_form(#[trigger] rest[i]) == Some(before[a]);
        assert(diagnostics[i] == rest[i]);
        assert(lsp_form(diagnostics[last]) == Some(lsp_forms(diagnostics)[b]));
    }
}

/// Every published diagnostic is the protocol form of one the engine gave.
pub proof fn lemma_form_has_source(diagnostics: Seq<DiagnosticView>, a: int)
    requires
        0 <= a < lsp_forms(diagnostics).len(),
    ensures
        exists|i: int|
            0 <= i < diagnostics.len() && lsp_form(#[trigger] diagnostics[i]) == Some(
                lsp_forms(diagnostics)[a],
            ),
    decreases diagnostics.len(),
{
    let convert = |diagnostic: DiagnosticView| lsp_form(diagnostic);
    let rest = diagnostics.drop_last();
    let last = diagnostics.len() - 1;
    assert(diagnostics.len() > 0) by {
        if diagnostics.len() == 0 {
            assert(diagnostics.filter_map(convert).len() == 0);
        }
    }
    let before = lsp_forms(rest);
    assert(lsp_forms(diagnostics) == match lsp_form(diagnostics.last()) {
        Some(form) => before + seq![form],
        None => before,
    });
    if a < before.len() {
        lemma_form_has_source(rest, a);
        let i = choose|i: int|
            0 <= i < rest.len() && lsp_form(#[trigger] rest[i]) == Some(before[a]);
        assert(diagnostics[i] == rest[i]);
    } else {
        assert(lsp_form(diagnostics[last]) == Some(lsp_forms(diagnostics)[a]));
    }
}

/// A diagnostic is published exactly when it has a location: the number of
/// published diagnostics is the number of those with one.
pub proof fn lemma_forms_of_located(diagnostics: Seq<DiagnosticView>)
    ensures
        lsp_forms(diagnostics).len() == diagnostics.filter(
            |diagnostic: DiagnosticView| diagnostic.location is Some,
        ).len(),
        (forall|i: int| 0 <= i < diagnostics.len() ==> (#[trigger] diagnostics[i]).location is Some)
            ==> lsp_forms(diagnostics) == diagnostics.map_values(
            |diagnostic: DiagnosticView| lsp_form(diagnostic)->0,
        ),
    decreases diagnostics.len(),
{
    reveal(Seq::filter);
    if diagnostics.len() > 0 {
        let rest = diagnostics.drop_last();
        lemma_forms_of_located(rest);
        if forall|i: int| 0 <= i < diagnostics.len() ==> (#[trigger] diagnostics[i]).location is Some {
            assert forall|i: int| 0 <= i < rest.len() implies (#[trigger] rest[i]).location is Some by {
                assert(rest[i] == diagnostics[i]);
            }
            assert(lsp_forms(diagnostics) =~= diagnostics.map_values(
                |diagnostic: DiagnosticView| lsp_form(diagnostic)->0,
            ));
        }
    } else {
        assert(lsp_forms(diagnostics) =~= diagnostics.map_values(
            |diagnostic: DiagnosticView| lsp_form(diagnostic)->0,
        ));
    }
}

/// The diagnostics that the client shows per file.
pub type Display = Map<Seq<char>, Seq<LspDiagnosticView>>;

/// What the client shows after it has received `messages`, one after the
/// other, when it showed `display` before: each publication of diagnostics
/// takes the place of what was shown for that file.
pub open spec fn displayed(display: Display, messages: Seq<OutboundView>) -> Display
    decreases messages.len(),
{
    if messages.len() == 0 {
        display
    } else {
        let before = displayed(display, messages.drop_last());
        match messages.last() {
            OutboundView::PublishDiagnostics { path, diagnostics } => before.insert(
                path,
                diagnostics,
            ),
            _ => before,
        }
    }
}

proof fn lemma_displayed_files(display: Display, files: Seq<FileDiagnosticsView>, path: Seq<char>)
    requires
        distinct_paths(files),
    ensures
        ({
            let feedback = FeedbackView { files, messages: Seq::empty() };
            let after = displayed(display, published_diagnostics(files));
            if feedback.mentions(path) {
                after.dom().contains(path) && after[path] == lsp_forms(
                    feedback.diagnostics()[path],
                )
            } else {
                after.dom().contains(path) == display.dom().contains(path) && after[path]
                    == display[path]
            }
        }),
    decreases files.len(),
{
    let feedback = FeedbackView { files, messages: Seq::empty() };
    if files.len() > 0 {
        let rest = files.drop_last();
        let shorter = FeedbackView { files: rest, messages: Seq::empty() };
        let last = files.len() - 1;
        assert(published_diagnostics(files).drop_last() =~= published_diagnostics(rest));
        assert(published_diagnostics(files).last() == file_notification(files.last()));
        assert forall|i: int, j: int| 0 <= i < j < rest.len() implies rest[i].path
            != rest[j].path by {
            assert(rest[i] == files[i] && rest[j] == files[j]);
        }
        lemma_displayed_files(display, rest, path);
        if files.last().path == path {
            assert(feedback.mentions(path)) by {
                assert(feedback.files[last].path == path);
            }
            assert(feedback.position(path) == last);
        } else if shorter.mentions(path) {
            let at = shorter.position(path);
            assert(feedback.files[at].path == path);
            assert(feedback.mentions(path));
            assert(feedback.position(path) == at);
        } else {
            if feedback.mentions(path) {
                let at = feedback.position(path);
                assert(shorter.files[at].path == path);
            }
        }
    }
}

proof fn lemma_displayed_messages(display: Display, messages: Seq<DiagnosticView>)
    ensures
        displayed(display, published_messages(messages)) == display,
    decreases messages.len(),
{
    if messages.len() > 0 {
        let rest = messages.drop_last();
        assert(published_messages(messages).drop_last() =~= published_messages(rest));
        assert(published_messages(messages).last() == message_notification(messages.last()));
        lemma_displayed_messages(display, rest);
    }
}

proof fn lemma_displayed_in_turn(
    display: Display,
    first: Seq<OutboundView>,
    second: Seq<OutboundView>,
)
    ensures
        displayed(display, first + second) == displayed(displayed(display, first), second),
    decreases second.len(),
{
    if second.len() == 0 {
        assert(first + second =~= first);
    } else {
        assert((first + second).drop_last() =~= first + second.drop_last());
        assert((first + second).last() == second.last());
        lemma_displayed_in_turn(display, first, second.drop_last());
    }
}

/// Publishing replaces and never merges: after the client has received what
/// a feedback makes the adapter send, it shows for every file the feedback
/// speaks of exactly that file's diagnostics, whatever it showed before.
pub proof fn lemma_publishing_replaces(display: Display, feedback: FeedbackView, path: Seq<char>)
    requires
        feedback.wf(),
        feedback.mentions(path),
    ensures
        displayed(display, published_feedback(feedback)).dom().contains(path),
        displayed(display, published_feedback(feedback))[path] == lsp_forms(
            feedback.diagnostics()[path],
        ),
{
    let files_only = FeedbackView { files: feedback.files, messages: Seq::empty() };
    lemma_displayed_in_turn(
        display,
        published_diagnostics(feedback.files),
        published_messages(feedback.messages),
    );
    lemma_displayed_messages(
        displayed(display, published_diagnostics(feedback.files)),
        feedback.messages,
    );
    lemma_displayed_files(display, feedback.files, path);
    assert(files_only.mentions(path)) by {
        assert(files_only.files[feedback.position(path)].path == path);
    }
    assert(files_only.position(path) == feedback.position(path));
}

/// Publishing never clears: for a file the feedback does not speak of, the
/// client goes on showing what it showed before, stale or not.
pub proof fn lemma_publishing_leaves_other_files(
    display: Display,
    feedback: FeedbackView,
    path: Seq<char>,
)
    requires
        feedback.wf(),
        !feedback.mentions(path),
    ensures
        displayed(display, published_feedback(feedback)).dom().contains(path)
            == display.dom().contains(path),
        displayed(display, published_feedback(feedback))[path] == display[path],
{
    let files_only = FeedbackView { files: feedback.files, messages: Seq::empty() };
    lemma_displayed_in_turn(
        display,
        published_diagnostics(feedback.files),
        published_messages(feedback.messages),
    );
    lemma_displayed_messages(
        displayed(display, published_diagnostics(feedback.files)),
        feedback.messages,
    );
    lemma_displayed_files(display, feedback.files, path);
    if files_only.mentions(path) {
        assert(feedback.files[files_only.position(path)].path == path);
    }
}

} // verus!
