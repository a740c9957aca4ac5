//! Diagnostics as the analysis engine reports them.

use vstd::prelude::*;

verus! {

/// How serious a finding is.
#[derive(Clone, Copy, Debug, PartialEq, Eq, Structural)]
pub enum Level {
    Error,
    Warning,
}

/// A zero-based line and character offset in a document.
#[derive(Clone, Copy, Debug, PartialEq, Eq, Structural)]
pub struct Position {
    pub line: u32,
    pub character: u32,
}

/// A span of a document, from `start` up to but excluding `end`.
#[derive(Clone, Copy, Debug, PartialEq, Eq, Structural)]
pub struct Range {
    pub start: Position,
    pub end: Position,
}

/// A finding of the engine: a level, free text, and the place in a source
/// file it is about, where there is one.
#[derive(Clone, Debug, PartialEq, Eq)]
pub struct Diagnostic {
    pub level: Level,
    pub text: String,
    pub location: Option<Range>,
}

/// What a [`Diagnostic`] stands for in contracts.
pub ghost struct DiagnosticView {
    pub level: Level,
    pub text: Seq<char>,
    pub location: Option<Range>,
}

impl View for Diagnostic {
    type V = DiagnosticView;

    open spec fn view(&self) -> DiagnosticView {
        DiagnosticView { level: self.level, text: self.text@, location: self.location }
    }
}

impl DeepView for Diagnostic {
    type V = DiagnosticView;

    open spec fn deep_view(&self) -> DiagnosticView {
        self@
    }
}

impl Diagnostic {
    /// A copy of this diagnostic.
    pub fn duplicate(&self) -> (copy: Diagnostic)
        ensures
            copy@ == self@,
    {
        Diagnostic { level: self.level, text: self.text.clone(), location: self.location }
    }
}

} // verus!
