//! Results of the analysis that later passes consult.

use vstd::prelude::*;
use std::rc::Rc;
use crate::ast::Span;
use crate::diagnostics::Diagnostic;
use crate::items::EventId;
use crate::types::FixedSize;

verus! {

/// The value a query computed, with the diagnostics it reported on the way.
pub struct Analysis<T> {
    pub value: T,
    pub diagnostics: Rc<Vec<Diagnostic>>,
}

/// What the analysis of a function body records.
pub struct FunctionBody {
    /// The event emitted at each `emit` statement.
    pub emits: Vec<(Span, EventId)>,
    /// The string literals the body uses.
    pub string_literals: Vec<String>,
    /// The type of each declared variable.
    pub var_decl_types: Vec<(Span, FixedSize)>,
}

/// What the analysis of a module hands to the passes that follow it: for each
/// analysed expression, the span it covers.
pub struct Context {
    pub expressions: Vec<Span>,
}

impl Context {
    pub fn new() -> (c: Context)
        ensures
            c.expressions@.len() == 0,
    {
        Context { expressions: Vec::new() }
    }
}

} // verus!
