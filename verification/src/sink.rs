//! Where diagnostics are collected.

use vstd::prelude::*;
use crate::diagnostics::{copy_diagnostic, diagnostics_view, Diagnostic, DiagnosticView};

verus! {

/// A collector of diagnostics.
pub trait DiagnosticSink {
    /// The diagnostics pushed so far, in order.
    spec fn reported(&self) -> Seq<DiagnosticView>;

    fn push(&mut self, diag: &Diagnostic)
        ensures
            final(self).reported() == old(self).reported().push(diag@),
    ;

    fn push_all(&mut self, diags: &[Diagnostic])
        ensures
            final(self).reported() == old(self).reported() + diagnostics_view(diags@),
    {
        let ghost start = self.reported();
        let mut i: usize = 0;
        while i < diags.len()
            invariant
                i <= diags@.len(),
                self.reported() == start + diagnostics_view(diags@.take(i as int)),
            decreases diags@.len() - i,
        {
            self.push(&diags[i]);
            i = i + 1;
            assert(diagnostics_view(diags@.take(i as int)) =~= diagnostics_view(
                diags@.take((i - 1) as int),
            ).push(diags@[i - 1]@));
        }
        assert(diags@.take(i as int) =~= diags@);
    }
}

impl DiagnosticSink for Vec<Diagnostic> {
    open spec fn reported(&self) -> Seq<DiagnosticView> {
        diagnostics_view(self@)
    }

    fn push(&mut self, diag: &Diagnostic) {
        let c = copy_diagnostic(diag);
        Vec::push(self, c);
        assert(diagnostics_view(self@) =~= diagnostics_view(old(self)@).push(diag@));
    }
}

} // verus!
