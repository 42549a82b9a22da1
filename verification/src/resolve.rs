//! The name resolver: turns a chained member/identifier expression into one
//! canonical dotted name, used wherever a callee or base class is compared
//! against a known or configured name.

use vstd::prelude::*;
use vstd::string::StringExecFns;
use crate::ast::Expr;

verus! {

/// The canonical dotted name of an identifier or member chain: an identifier
/// resolves to its own name; a member access with a statically known property
/// resolves to `<object>.<property>` when its object resolves; everything
/// else has no name.
pub open spec fn spec_resolve(e: Expr) -> Option<Seq<char>>
    decreases e,
{
    match e {
        Expr::Identifier(name) => Some(name@),
        Expr::Member(obj, prop) => match prop {
            Some(p) => match spec_resolve(*obj) {
                Some(o) => Some(o + "."@ + p@),
                None => None,
            },
            None => None,
        },
        _ => None,
    }
}

/// Resolves an expression to its canonical dotted name.
pub fn resolve(e: &Expr) -> (r: Option<String>)
    ensures
        r is Some <==> spec_resolve(*e) is Some,
        r matches Some(s) ==> spec_resolve(*e) == Some(s@),
    decreases *e,
{
    match e {
        Expr::Identifier(name) => Some(name.clone()),
        Expr::Member(obj, prop) => match prop {
            Some(p) => match resolve(&**obj) {
                Some(o) => Some(o.concat(".").concat(p.as_str())),
                None => None,
            },
            None => None,
        },
        _ => None,
    }
}

} // verus!
