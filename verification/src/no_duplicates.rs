//! The import-duplication rule registered beside the display-name one. Its
//! per-node entry point accepts any node and reports nothing.

use vstd::prelude::*;
use crate::ast::Expr;
use crate::rule::Diagnostic;

verus! {

/// The import-duplication rule.
#[derive(Debug, Clone)]
pub struct NoDuplicates;

impl Default for NoDuplicates {
    fn default() -> (r: Self)
        ensures
            r == (NoDuplicates {  }),
    {
        NoDuplicates
    }
}

impl NoDuplicates {
    /// Runs the rule on one node. No node shape yields a diagnostic.
    pub fn run(&self, _node: &Expr) -> (r: Option<Diagnostic>)
        ensures
            r is None,
    {
        None
    }
}

} // verus!
