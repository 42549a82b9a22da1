//! The semantic model the rule reads: a symbol, its declaring binding, and
//! every syntactic reference to it within the file. The external semantic
//! pass owns and supplies these; the rule never mutates them.

use vstd::prelude::*;
use crate::ast::{Expr, Span};

verus! {

/// A declaration site for a name: variable declarator, function or class
/// declaration, object property, assignment target, or default-export
/// expression.
#[derive(Debug)]
pub struct Binding {
    /// The identifier the site binds, if it binds one (`var Hello = ...`
    /// carries `Some("Hello")`; a default-export expression carries `None`).
    pub name: Option<String>,
    /// The bound value, when the declaration carries one (`let x;` does not).
    pub init: Option<Expr>,
    /// The declaring node's source range, where a diagnostic is placed.
    pub span: Span,
}

/// How one reference uses its symbol.
#[derive(Debug)]
pub enum RefUsage {
    /// The reference is the target of an assignment `sym = <expr>`; carries
    /// the assigned expression.
    Write(Expr),
    /// The reference is the object of a member assignment
    /// `sym.<name> = ...`; carries the statically known member name.
    MemberAssign(String),
    /// A read or any other use.
    Other,
}

/// The semantic identity of a binding: its declaration and the uses of its
/// name. A well-formed symbol from the semantic pass always has at least one
/// reference (its declaration); classification does not depend on that.
#[derive(Debug)]
pub struct Symbol {
    pub declaration: Binding,
    /// All references to the symbol, in source order. Classification treats
    /// them as a set: a qualifying use counts whether it textually precedes
    /// or follows the declaration.
    pub references: Vec<RefUsage>,
}

} // verus!
