//! The wrapper unwrapper: recognizes a call to a higher-order component
//! wrapper (the pragma's memoization or ref-forwarding helpers, or a
//! configured bare name) and extracts the wrapped value, recursing while the
//! first argument is itself a wrapper call.

use vstd::prelude::*;
use crate::ast::{CallExpr, Expr};
use crate::config::{dotted, dotted_string, pragma_string, spec_pragma, RuleConfig};
use crate::resolve::{resolve, spec_resolve};

verus! {

/// Whether `n` is the pragma's ref-forwarding wrapper name.
pub open spec fn is_forward_ref_name(n: Seq<char>, c: RuleConfig) -> bool {
    n == dotted(spec_pragma(c), "forwardRef"@)
}

/// Whether `n` is listed among the configured wrapper names.
pub open spec fn in_wrapper_list(n: Seq<char>, c: RuleConfig) -> bool {
    exists|i: int|
        0 <= i < c.component_wrapper_functions@.len()
            && c.component_wrapper_functions@[i]@ == n
}

/// Whether `n` names a higher-order component wrapper: the pragma's
/// memoization or ref-forwarding helper, or a configured bare name.
pub open spec fn is_wrapper_name(n: Seq<char>, c: RuleConfig) -> bool {
    n == dotted(spec_pragma(c), "memo"@) || is_forward_ref_name(n, c) || in_wrapper_list(n, c)
}

/// The canonical dotted name of a call's callee.
pub open spec fn callee_name(call: CallExpr) -> Option<Seq<char>> {
    spec_resolve(*call.callee)
}

/// Whether `call` is a wrapper call: its callee resolves to a wrapper name
/// and it has at least one argument.
pub open spec fn is_wrapper_call(call: CallExpr, c: RuleConfig) -> bool {
    &&& callee_name(call) matches Some(n) && is_wrapper_name(n, c)
    &&& call.args@.len() >= 1
}

/// The value a chain of wrapper calls wraps, together with whether the
/// innermost wrapper — the one whose argument is returned — is the
/// ref-forwarding one. A call that is not a wrapper call wraps nothing.
pub open spec fn spec_unwrap(call: CallExpr, c: RuleConfig) -> Option<(Expr, bool)>
    decreases call,
{
    match callee_name(call) {
        Some(n) => if is_wrapper_name(n, c) && call.args@.len() >= 1 {
            match call.args@[0] {
                Expr::Call(inner) => if is_wrapper_call(inner, c) {
                    spec_unwrap(inner, c)
                } else {
                    Some((call.args@[0], is_forward_ref_name(n, c)))
                },
                _ => Some((call.args@[0], is_forward_ref_name(n, c))),
            }
        } else {
            None
        },
        None => None,
    }
}

/// Whether `n` is listed among the configured wrapper names.
fn in_wrapper_list_exec(n: &String, c: &RuleConfig) -> (r: bool)
    ensures
        r == in_wrapper_list(n@, *c),
{
    let mut i: usize = 0;
    while i < c.component_wrapper_functions.len()
        invariant
            i <= c.component_wrapper_functions@.len(),
            forall|k: int| 0 <= k < i ==> c.component_wrapper_functions@[k]@ != n@,
        decreases c.component_wrapper_functions@.len() - i,
    {
        if c.component_wrapper_functions[i].eq(n) {
            proof {
                assert(c.component_wrapper_functions@[i as int]@ == n@);
            }
            return true;
        }
        i += 1;
    }
    false
}

/// Whether `n` is the pragma's ref-forwarding wrapper name.
pub fn is_forward_ref_name_exec(n: &String, c: &RuleConfig) -> (r: bool)
    ensures
        r == is_forward_ref_name(n@, *c),
{
    let pr = pragma_string(c);
    *n == dotted_string(pr.as_str(), "forwardRef")
}

/// Whether `n` names a higher-order component wrapper.
pub fn is_wrapper_name_exec(n: &String, c: &RuleConfig) -> (r: bool)
    ensures
        r == is_wrapper_name(n@, *c),
{
    let pr = pragma_string(c);
    if *n == dotted_string(pr.as_str(), "memo") {
        return true;
    }
    if is_forward_ref_name_exec(n, c) {
        return true;
    }
    in_wrapper_list_exec(n, c)
}

/// Whether `call` is a wrapper call.
pub fn is_wrapper_call_exec(call: &CallExpr, c: &RuleConfig) -> (r: bool)
    ensures
        r == is_wrapper_call(*call, *c),
{
    match resolve(&call.callee) {
        Some(n) => is_wrapper_name_exec(&n, c) && call.args.len() >= 1,
        None => false,
    }
}

/// Extracts the value a chain of wrapper calls wraps, and whether the
/// innermost wrapper is the ref-forwarding one.
pub fn unwrap_call<'a>(call: &'a CallExpr, c: &RuleConfig) -> (r: Option<(&'a Expr, bool)>)
    ensures
        r is Some <==> spec_unwrap(*call, *c) is Some,
        r matches Some(p) ==> spec_unwrap(*call, *c) == Some((*p.0, p.1)),
    decreases *call,
{
    match resolve(&call.callee) {
        Some(n) => {
            if is_wrapper_name_exec(&n, c) && call.args.len() >= 1 {
                let fwd = is_forward_ref_name_exec(&n, c);
                match &call.args[0] {
                    Expr::Call(inner) => {
                        if is_wrapper_call_exec(inner, c) {
                            unwrap_call(inner, c)
                        } else {
                            Some((&call.args[0], fwd))
                        }
                    },
                    _ => Some((&call.args[0], fwd)),
                }
            } else {
                None
            }
        },
        None => None,
    }
}

} // verus!
