//! What the analysis engine reports alongside the result of every operation.

use vstd::prelude::*;

use crate::diagnostic::Diagnostic;
use crate::diagnostic::DiagnosticView;

verus! {

/// The complete current diagnostics of one file.
#[derive(Clone, Debug, PartialEq, Eq)]
pub struct FileDiagnostics {
    pub path: String,
    pub diagnostics: Vec<Diagnostic>,
}

/// What a [`FileDiagnostics`] stands for in contracts.
pub ghost struct FileDiagnosticsView {
    pub path: Seq<char>,
    pub diagnostics: Seq<DiagnosticView>,
}

impl View for FileDiagnostics {
    type V = FileDiagnosticsView;

    open spec fn view(&self) -> FileDiagnosticsView {
        FileDiagnosticsView { path: self.path@, diagnostics: self.diagnostics.deep_view() }
    }
}

impl DeepView for FileDiagnostics {
    type V = FileDiagnosticsView;

    open spec fn deep_view(&self) -> FileDiagnosticsView {
        self@
    }
}

/// Diagnostics per file, and messages for the user that belong to no file.
///
/// The files form a mapping: no path occurs twice. An entry is the whole
/// truth about its file, so an empty list says the file is clean, while a
/// file without an entry is not spoken of at all.
#[derive(Debug, PartialEq, Eq)]
pub struct Feedback {
    files: Vec<FileDiagnostics>,
    messages: Vec<Diagnostic>,
}

/// What a [`Feedback`] stands for in contracts: its entries in the order in
/// which their paths were first set, and its messages in the order given.
pub ghost struct FeedbackView {
    pub files: Seq<FileDiagnosticsView>,
    pub messages: Seq<DiagnosticView>,
}

/// No path occurs twice among `files`.
pub open spec fn distinct_paths(files: Seq<FileDiagnosticsView>) -> bool {
    forall|i: int, j: int| 0 <= i < j < files.len() ==> files[i].path != files[j].path
}

impl FeedbackView {
    /// The entries form a mapping: no path occurs twice.
    pub open spec fn wf(self) -> bool {
        distinct_paths(self.files)
    }

    /// Whether the feedback speaks of the file at `path`.
    pub open spec fn mentions(self, path: Seq<char>) -> bool {
        exists|i: int| 0 <= i < self.files.len() && #[trigger] self.files[i].path == path
    }

    /// The index of the entry for `path`, where there is one.
    pub open spec fn position(self, path: Seq<char>) -> int {
        choose|i: int| 0 <= i < self.files.len() && #[trigger] self.files[i].path == path
    }

    /// The entries as a mapping from path to diagnostics.
    pub open spec fn diagnostics(self) -> Map<Seq<char>, Seq<DiagnosticView>> {
        Map::new(
            |path: Seq<char>| self.mentions(path),
            |path: Seq<char>| self.files[self.position(path)].diagnostics,
        )
    }

    /// This feedback with the entry for `path` set to `diagnostics`: the old
    /// entry is replaced where it stands, a new one goes to the end.
    pub open spec fn with_diagnostics(
        self,
        path: Seq<char>,
        diagnostics: Seq<DiagnosticView>,
    ) -> FeedbackView {
        let entry = FileDiagnosticsView { path, diagnostics };
        FeedbackView {
            files: if self.mentions(path) {
                self.files.update(self.position(path), entry)
            } else {
                self.files.push(entry)
            },
            messages: self.messages,
        }
    }
}

impl View for Feedback {
    type V = FeedbackView;

    closed spec fn view(&self) -> FeedbackView {
        FeedbackView { files: self.files.deep_view(), messages: self.messages.deep_view() }
    }
}

impl DeepView for Feedback {
    type V = FeedbackView;

    open spec fn deep_view(&self) -> FeedbackView {
        self@
    }
}

impl Feedback {
    #[verifier::type_invariant]
    spec fn paths_distinct(self) -> bool {
        self@.wf()
    }

    /// Feedback that says nothing.
    pub fn new() -> (feedback: Feedback)
        ensures
            feedback@.files.len() == 0,
            feedback@.messages.len() == 0,
            feedback@.wf(),
    {
        Feedback { files: Vec::new(), messages: Vec::new() }
    }

    /// The entries, one per file.
    pub fn files(&self) -> (files: &Vec<FileDiagnostics>)
        ensures
            files.deep_view() == self@.files,
            self@.wf(),
    {
        proof {
            use_type_invariant(self);
        }
        &self.files
    }

    /// The messages for the user.
    pub fn messages(&self) -> (messages: &Vec<Diagnostic>)
        ensures
            messages.deep_view() == self@.messages,
    {
        &self.messages
    }

    /// Sets the diagnostics of the file at `path`, replacing what was
    /// recorded for it before. Nothing is merged.
    pub fn set_diagnostics(&mut self, path: String, diagnostics: Vec<Diagnostic>)
        ensures
            final(self)@ == old(self)@.with_diagnostics(path@, diagnostics.deep_view()),
            final(self)@.wf(),
    {
        proof {
            use_type_invariant(&*self);
        }
        let ghost before = self@;
        let ghost entry = FileDiagnosticsView { path: path@, diagnostics: diagnostics.deep_view() };
        let mut files: Vec<FileDiagnostics> = Vec::new();
        core::mem::swap(&mut self.files, &mut files);
        let mut i: usize = 0;
        while i < files.len() && !(files[i].path == path)
            invariant
                0 <= i <= files.len(),
                files.deep_view() == before.files,
                forall|k: int| 0 <= k < i ==> before.files[k].path != path@,
            decreases files.len() - i,
        {
            i += 1;
        }
        if i < files.len() {
            proof {
                assert(before.files[i as int].path == path@);
                assert(before.mentions(path@));
                assert(before.position(path@) == i as int);
            }
            files.set(i, FileDiagnostics { path, diagnostics });
            proof {
                assert(files.deep_view() =~= before.files.update(i as int, entry));
            }
        } else {
            proof {
                assert(!before.mentions(path@));
            }
            files.push(FileDiagnostics { path, diagnostics });
            proof {
                assert(files.deep_view() =~= before.files.push(entry));
            }
        }
        self.files = files;
    }

    /// Adds a message for the user after those already there.
    pub fn push_message(&mut self, message: Diagnostic)
        ensures
            final(self)@.files == old(self)@.files,
            final(self)@.messages == old(self)@.messages.push(message@),
            final(self)@.wf(),
    {
        proof {
            use_type_invariant(&*self);
        }
        let ghost before = self@;
        let mut messages: Vec<Diagnostic> = Vec::new();
        core::mem::swap(&mut self.messages, &mut messages);
        messages.push(message);
        proof {
            assert(messages.deep_view() =~= before.messages.push(message@));
        }
        self.messages = messages;
    }
}

} // verus!
