//! The render-body detector: decides syntactically whether a function is
//! render-returning, without flow analysis. A function qualifies when one of
//! the returns of its own body yields a UI-element literal, a call to the
//! pragma's element factory, or a call to a named same-file function that is
//! itself render-returning — the last one level deep at most, so that
//! mutually recursive render helpers cannot loop the detector.

use vstd::prelude::*;
use vstd::string::StringExecFns;
use crate::ast::{Expr, FnBody, FunctionDef, ScopeFn};
use crate::config::{dotted, dotted_string, pragma_string, spec_pragma, RuleConfig};
use crate::resolve::resolve;
use crate::wrapper::callee_name;

verus! {

/// How many levels of same-file delegation a `return <helper>()` may add.
pub const DELEGATION_LIMIT: u64 = 1;

/// Whether `e` is a call to the pragma's element factory, under its dotted
/// name or as the bare imported name.
pub open spec fn is_render_call(e: Expr, c: RuleConfig) -> bool {
    match e {
        Expr::Call(call) => match callee_name(call) {
            Some(n) => n == dotted(spec_pragma(c), "createElement"@) || n == "createElement"@,
            None => false,
        },
        _ => false,
    }
}

/// The first function of the scope named `n`, looking from index `k` on.
pub open spec fn scope_lookup_from(scope: Seq<ScopeFn>, n: Seq<char>, k: int) -> Option<
    FunctionDef,
>
    decreases scope.len() - k,
{
    if k < 0 || k >= scope.len() {
        None
    } else if scope[k].name@ == n {
        Some(scope[k].def)
    } else {
        scope_lookup_from(scope, n, k + 1)
    }
}

/// The first function of the scope named `n`.
pub open spec fn scope_lookup(scope: Seq<ScopeFn>, n: Seq<char>) -> Option<FunctionDef> {
    scope_lookup_from(scope, n, 0)
}

/// The expressions a function returns: the bare expression body of an arrow,
/// or the arguments of the `return` statements of a block body.
pub open spec fn returned_exprs(f: FunctionDef) -> Seq<Expr> {
    match f.body {
        FnBody::Expr(e) => seq![*e],
        FnBody::Block(rs) => rs@,
    }
}

/// Whether a returned expression yields a rendering: a UI-element literal, a
/// call to the element factory, or — while `depth` allows — a call to a named
/// same-file function that is itself render-returning.
pub open spec fn return_yields_render(
    e: Expr,
    c: RuleConfig,
    scope: Seq<ScopeFn>,
    depth: nat,
) -> bool
    decreases depth, 0int,
{
    if e is JsxElement {
        true
    } else if is_render_call(e, c) {
        true
    } else if depth > 0 {
        match e {
            Expr::Call(call) => match *call.callee {
                Expr::Identifier(id) => match scope_lookup(scope, id@) {
                    Some(g) => spec_render_returning(g, c, scope, (depth - 1) as nat),
                    None => false,
                },
                _ => false,
            },
            _ => false,
        }
    } else {
        false
    }
}

/// Whether at least one return of the function's own body yields a rendering.
pub open spec fn spec_render_returning(
    f: FunctionDef,
    c: RuleConfig,
    scope: Seq<ScopeFn>,
    depth: nat,
) -> bool
    decreases depth, 1int,
{
    exists|i: int|
        0 <= i < returned_exprs(f).len() && return_yields_render(
            returned_exprs(f)[i],
            c,
            scope,
            depth,
        )
}

/// Whether `e` is a call to the pragma's element factory.
pub fn is_render_call_exec(e: &Expr, c: &RuleConfig) -> (r: bool)
    ensures
        r == is_render_call(*e, *c),
{
    match e {
        Expr::Call(call) => match resolve(&call.callee) {
            Some(n) => {
                let pr = pragma_string(c);
                n.eq(&dotted_string(pr.as_str(), "createElement"))
                    || n.eq(&"createElement".to_owned())
            },
            None => false,
        },
        _ => false,
    }
}

/// Finds the first function of the scope named `n`.
#[verifier::loop_isolation(false)]
pub fn scope_lookup_exec<'a>(scope: &'a Vec<ScopeFn>, n: &String) -> (r: Option<
    &'a FunctionDef,
>)
    ensures
        r is Some <==> scope_lookup(scope@, n@) is Some,
        r matches Some(g) ==> scope_lookup(scope@, n@) == Some(*g),
{
    let mut i: usize = 0;
    while i < scope.len()
        invariant
            i <= scope@.len(),
            scope_lookup(scope@, n@) == scope_lookup_from(scope@, n@, i as int),
        decreases scope@.len() - i,
    {
        if scope[i].name.eq(n) {
            return Some(&scope[i].def);
        }
        i += 1;
    }
    None
}

/// Whether a returned expression yields a rendering.
pub fn yields_render(e: &Expr, c: &RuleConfig, scope: &Vec<ScopeFn>, depth: u64) -> (r: bool)
    ensures
        r == return_yields_render(*e, *c, scope@, depth as nat),
    decreases depth, 0int,
{
    match e {
        Expr::JsxElement => true,
        _ => {
            if is_render_call_exec(e, c) {
                true
            } else if depth > 0 {
                match e {
                    Expr::Call(call) => match &*call.callee {
                        Expr::Identifier(id) => match scope_lookup_exec(scope, id) {
                            Some(g) => is_render_returning(g, c, scope, depth - 1),
                            None => false,
                        },
                        _ => false,
                    },
                    _ => false,
                }
            } else {
                false
            }
        },
    }
}

/// Whether at least one return of the function's own body yields a rendering.
#[verifier::loop_isolation(false)]
pub fn is_render_returning(
    f: &FunctionDef,
    c: &RuleConfig,
    scope: &Vec<ScopeFn>,
    depth: u64,
) -> (r: bool)
    ensures
        r == spec_render_returning(*f, *c, scope@, depth as nat),
    decreases depth, 1int,
{
    match &f.body {
        FnBody::Expr(e) => {
            let y = yields_render(&**e, c, scope, depth);
            proof {
                assert(returned_exprs(*f)[0] == **e);
            }
            y
        },
        FnBody::Block(rs) => {
            let mut j: usize = 0;
            while j < rs.len()
                invariant
                    j <= rs@.len(),
                    f.body matches FnBody::Block(rs2) && rs2@ == rs@,
                    forall|k: int|
                        0 <= k < j ==> !return_yields_render(rs@[k], *c, scope@, depth as nat),
                decreases rs@.len() - j,
            {
                if yields_render(&rs[j], c, scope, depth) {
                    proof {
                        assert(returned_exprs(*f)[j as int] == rs@[j as int]);
                    }
                    return true;
                }
                j += 1;
            }
            false
        },
    }
}

} // verus!
