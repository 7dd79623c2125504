//! Diagnostics reported by the analysis.

use vstd::prelude::*;
use crate::ast::Span;

verus! {

#[derive(Debug, PartialEq, Eq, Structural, Hash, Clone, Copy)]
pub enum Severity {
    Bug,
    Error,
    Warning,
    Note,
    Help,
}

#[derive(Debug, PartialEq, Eq, Structural, Hash, Clone, Copy)]
pub enum LabelStyle {
    Primary,
    Secondary,
}

/// A message attached to a span of source.
#[derive(Debug, PartialEq, Eq, Hash, Clone)]
pub struct Label {
    pub style: LabelStyle,
    pub span: Span,
    pub message: String,
}

/// A diagnostic: its severity, its message, the labelled spans and notes.
#[derive(Debug, PartialEq, Eq, Hash, Clone)]
pub struct Diagnostic {
    pub severity: Severity,
    pub message: String,
    pub labels: Vec<Label>,
    pub notes: Vec<String>,
}

/// `d` is an error with the given message and one primary label.
pub open spec fn is_error_diagnostic(d: Diagnostic, message: Seq<char>, span: Span, label: Seq<char>) -> bool {
    &&& d.severity == Severity::Error
    &&& d.message@ == message
    &&& d.labels@.len() == 1
    &&& d.labels@[0].style == LabelStyle::Primary
    &&& d.labels@[0].span == span
    &&& d.labels@[0].message@ == label
    &&& d.notes@.len() == 0
}

/// An error with a message and a primary label on `span`.
pub fn error(message: &str, span: Span, label: &str) -> (d: Diagnostic)
    ensures
        is_error_diagnostic(d, message@, span, label@),
{
    let mut labels: Vec<Label> = Vec::new();
    labels.push(Label { style: LabelStyle::Primary, span, message: label.to_owned() });
    Diagnostic { severity: Severity::Error, message: message.to_owned(), labels, notes: Vec::new() }
}

/// A label as a mathematical value.
pub struct LabelView {
    pub style: LabelStyle,
    pub span: Span,
    pub message: Seq<char>,
}

/// A diagnostic as a mathematical value.
pub struct DiagnosticView {
    pub severity: Severity,
    pub message: Seq<char>,
    pub labels: Seq<LabelView>,
    pub notes: Seq<Seq<char>>,
}

impl View for Label {
    type V = LabelView;

    open spec fn view(&self) -> LabelView {
        LabelView { style: self.style, span: self.span, message: self.message@ }
    }
}

impl View for Diagnostic {
    type V = DiagnosticView;

    open spec fn view(&self) -> DiagnosticView {
        DiagnosticView {
            severity: self.severity,
            message: self.message@,
            labels: self.labels@.map_values(|l: Label| l@),
            notes: self.notes@.map_values(|n: String| n@),
        }
    }
}

/// The views of a sequence of diagnostics.
pub open spec fn diagnostics_view(s: Seq<Diagnostic>) -> Seq<DiagnosticView> {
    s.map_values(|d: Diagnostic| d@)
}

/// The view of an error with a message and one primary label.
pub open spec fn error_view(message: Seq<char>, span: Span, label: Seq<char>) -> DiagnosticView {
    DiagnosticView {
        severity: Severity::Error,
        message,
        labels: seq![LabelView { style: LabelStyle::Primary, span, message: label }],
        notes: Seq::empty(),
    }
}

pub proof fn lemma_error_view(d: Diagnostic, message: Seq<char>, span: Span, label: Seq<char>)
    requires
        is_error_diagnostic(d, message, span, label),
    ensures
        d@ == error_view(message, span, label),
{
    assert(d@.labels =~= error_view(message, span, label).labels);
    assert(d@.notes =~= Seq::<Seq<char>>::empty());
}

/// A copy of a diagnostic.
pub fn copy_diagnostic(d: &Diagnostic) -> (c: Diagnostic)
    ensures
        c@ == d@,
{
    let mut labels: Vec<Label> = Vec::new();
    let mut i: usize = 0;
    while i < d.labels.len()
        invariant
            i <= d.labels@.len(),
            labels@.len() == i,
            forall|j: int| 0 <= j < i ==> (#[trigger] labels@[j])@ == d.labels@[j]@,
        decreases d.labels@.len() - i,
    {
        let l = &d.labels[i];
        labels.push(Label { style: l.style, span: l.span, message: l.message.clone() });
        i = i + 1;
    }
    let mut notes: Vec<String> = Vec::new();
    let mut k: usize = 0;
    while k < d.notes.len()
        invariant
            k <= d.notes@.len(),
            notes@.len() == k,
            forall|j: int| 0 <= j < k ==> (#[trigger] notes@[j])@ == d.notes@[j]@,
        decreases d.notes@.len() - k,
    {
        notes.push(d.notes[k].clone());
        k = k + 1;
    }
    let c = Diagnostic { severity: d.severity, message: d.message.clone(), labels, notes };
    assert(c@.labels =~= d@.labels);
    assert(c@.notes =~= d@.notes);
    c
}

} // verus!
