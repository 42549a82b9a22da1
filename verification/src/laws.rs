//! The properties the rule is held to, stated and proved over the spec
//! functions that the public contracts use.

use vstd::prelude::*;
use crate::ast::{CallExpr, Expr, FunctionDef, ScopeFn};
use crate::classify::{
    first_write, has_display_name_assign, is_context_name, is_factory_name, spec_classify,
    spec_classify_function, spec_classify_value, spec_innermost, ComponentType,
};
use crate::config::{version_before, RuleConfig, Version};
use crate::render::{
    return_yields_render, returned_exprs, scope_lookup, spec_render_returning, DELEGATION_LIMIT,
};
use crate::rule::{spec_run, Diagnostic};
use crate::semantic::{RefUsage, Symbol};
use crate::wrapper::{callee_name, is_wrapper_call, spec_unwrap};

verus! {

/// The same configuration with the reporting switch set to `b`.
pub open spec fn with_toggle(c: RuleConfig, b: bool) -> RuleConfig {
    RuleConfig { ignore_transpiler_name: b, ..c }
}

/// Whether two configurations agree on everything classification reads —
/// that is, on everything but the reporting switch.
pub open spec fn same_classify_config(c1: RuleConfig, c2: RuleConfig) -> bool {
    &&& c1.check_context_objects == c2.check_context_objects
    &&& c1.component_wrapper_functions == c2.component_wrapper_functions
    &&& c1.create_class_alias == c2.create_class_alias
    &&& c1.pragma == c2.pragma
}

proof fn lemma_unwrap_config(call: CallExpr, c1: RuleConfig, c2: RuleConfig)
    requires
        same_classify_config(c1, c2),
    ensures
        spec_unwrap(call, c1) == spec_unwrap(call, c2),
    decreases call,
{
    match callee_name(call) {
        Some(n) => {
            if call.args@.len() >= 1 {
                match call.args@[0] {
                    Expr::Call(inner) => {
                        if is_wrapper_call(inner, c1) {
                            lemma_unwrap_config(inner, c1, c2);
                        }
                    },
                    _ => {},
                }
            }
        },
        None => {},
    }
}

proof fn lemma_render_config(
    f: FunctionDef,
    c1: RuleConfig,
    c2: RuleConfig,
    scope: Seq<ScopeFn>,
    depth: nat,
)
    requires
        same_classify_config(c1, c2),
    ensures
        spec_render_returning(f, c1, scope, depth) == spec_render_returning(f, c2, scope, depth),
    decreases depth, 1int,
{
    if spec_render_returning(f, c1, scope, depth) {
        let i = choose|i: int|
            0 <= i < returned_exprs(f).len() && return_yields_render(
                returned_exprs(f)[i],
                c1,
                scope,
                depth,
            );
        lemma_yields_config(returned_exprs(f)[i], c1, c2, scope, depth);
        assert(return_yields_render(returned_exprs(f)[i], c2, scope, depth));
    }
    if spec_render_returning(f, c2, scope, depth) {
        let i = choose|i: int|
            0 <= i < returned_exprs(f).len() && return_yields_render(
                returned_exprs(f)[i],
                c2,
                scope,
                depth,
            );
        lemma_yields_config(returned_exprs(f)[i], c1, c2, scope, depth);
        assert(return_yields_render(returned_exprs(f)[i], c1, scope, depth));
    }
}

proof fn lemma_yields_config(
    e: Expr,
    c1: RuleConfig,
    c2: RuleConfig,
    scope: Seq<ScopeFn>,
    depth: nat,
)
    requires
        same_classify_config(c1, c2),
    ensures
        return_yields_render(e, c1, scope, depth) == return_yields_render(e, c2, scope, depth),
    decreases depth, 0int,
{
    if depth > 0 {
        match e {
            Expr::Call(call) => match *call.callee {
                Expr::Identifier(id) => match scope_lookup(scope, id@) {
                    Some(g) => {
                        lemma_render_config(g, c1, c2, scope, (depth - 1) as nat);
                    },
                    None => {},
                },
                _ => {},
            },
            _ => {},
        }
    }
}

proof fn lemma_classify_function_config(
    f: FunctionDef,
    binding_name: Option<String>,
    refs: Seq<RefUsage>,
    scope: Seq<ScopeFn>,
    c1: RuleConfig,
    c2: RuleConfig,
    version: Option<Version>,
    unwrapped: bool,
    via_forward_ref: bool,
)
    requires
        same_classify_config(c1, c2),
    ensures
        spec_classify_function(f, binding_name, refs, scope, c1, version, unwrapped,
            via_forward_ref,
        ) == spec_classify_function(f, binding_name, refs, scope, c2, version, unwrapped,
            via_forward_ref,
        ),
{
    if !unwrapped {
        lemma_render_config(spec_innermost(f).0, c1, c2, scope, DELEGATION_LIMIT as nat);
    }
}

proof fn lemma_classify_value_config(
    binding_name: Option<String>,
    value: Expr,
    refs: Seq<RefUsage>,
    scope: Seq<ScopeFn>,
    c1: RuleConfig,
    c2: RuleConfig,
    version: Option<Version>,
)
    requires
        same_classify_config(c1, c2),
    ensures
        spec_classify_value(binding_name, value, refs, scope, c1, version) == spec_classify_value(
            binding_name,
            value,
            refs,
            scope,
            c2,
            version,
        ),
{
    match value {
        Expr::Call(call) => {
            lemma_unwrap_config(call, c1, c2);
            match spec_unwrap(call, c1) {
                Some((Expr::Function(f), fwd)) => {
                    lemma_classify_function_config(
                        f,
                        binding_name,
                        refs,
                        scope,
                        c1,
                        c2,
                        version,
                        true,
                        fwd,
                    );
                },
                _ => {},
            }
        },
        Expr::Function(f) => {
            lemma_classify_function_config(
                f,
                binding_name,
                refs,
                scope,
                c1,
                c2,
                version,
                false,
                false,
            );
        },
        _ => {},
    }
}

/// Classification never reads the reporting switch: two configurations that
/// agree on everything else classify every symbol alike.
pub proof fn lemma_classify_config(
    sym: Symbol,
    scope: Seq<ScopeFn>,
    c1: RuleConfig,
    c2: RuleConfig,
    version: Option<Version>,
)
    requires
        same_classify_config(c1, c2),
    ensures
        spec_classify(sym, scope, c1, version) == spec_classify(sym, scope, c2, version),
{
    match sym.declaration.init {
        Some(v) => {
            lemma_classify_value_config(
                sym.declaration.name,
                v,
                sym.references@,
                scope,
                c1,
                c2,
                version,
            );
        },
        None => match first_write(sym.references@) {
            Some(v) => {
                lemma_classify_value_config(
                    sym.declaration.name,
                    v,
                    sym.references@,
                    scope,
                    c1,
                    c2,
                    version,
                );
            },
            None => {},
        },
    }
}

/// Law: a symbol classified `Named` is never reported, whatever
/// `ignore_transpiler_name` is set to.
pub proof fn lemma_named_never_reported(
    sym: Symbol,
    scope: Seq<ScopeFn>,
    c: RuleConfig,
    version: Option<Version>,
    toggle: bool,
)
    requires
        spec_classify(sym, scope, c, version) == Some(ComponentType::Named),
    ensures
        spec_run(sym, scope, with_toggle(c, toggle), version) is None,
{
    lemma_classify_config(sym, scope, c, with_toggle(c, toggle), version);
}

/// Law: a symbol classified `Unnamed` is always reported, at the declaring
/// node's range, whatever `ignore_transpiler_name` is set to.
pub proof fn lemma_unnamed_always_reported(
    sym: Symbol,
    scope: Seq<ScopeFn>,
    c: RuleConfig,
    version: Option<Version>,
    toggle: bool,
)
    requires
        spec_classify(sym, scope, c, version) == Some(ComponentType::Unnamed),
    ensures
        spec_run(sym, scope, with_toggle(c, toggle), version) == Some(
            Diagnostic { span: sym.declaration.span },
        ),
{
    lemma_classify_config(sym, scope, c, with_toggle(c, toggle), version);
}

/// Law: reporting of a `TranspilerNamed` symbol toggles exactly with
/// `ignore_transpiler_name`: off reports at the declaring node's range, on is
/// silent.
pub proof fn lemma_transpiler_named_toggles(
    sym: Symbol,
    scope: Seq<ScopeFn>,
    c: RuleConfig,
    version: Option<Version>,
)
    requires
        spec_classify(sym, scope, c, version) == Some(ComponentType::TranspilerNamed),
    ensures
        spec_run(sym, scope, with_toggle(c, false), version) == Some(
            Diagnostic { span: sym.declaration.span },
        ),
        spec_run(sym, scope, with_toggle(c, true), version) is None,
{
    lemma_classify_config(sym, scope, c, with_toggle(c, false), version);
    lemma_classify_config(sym, scope, c, with_toggle(c, true), version);
}

/// Law: the later-assignment search is order-independent — reference lists
/// holding the same references in any order find a display-name assignment
/// alike.
pub proof fn lemma_assign_search_order_independent(r1: Seq<RefUsage>, r2: Seq<RefUsage>)
    requires
        r1.to_multiset() == r2.to_multiset(),
    ensures
        has_display_name_assign(r1) == has_display_name_assign(r2),
{
    r1.to_multiset_ensures();
    r2.to_multiset_ensures();
    if has_display_name_assign(r1) {
        let i = choose|i: int|
            0 <= i < r1.len() && #[trigger] crate::classify::ref_is_display_name_assign(r1[i]);
        assert(r1.contains(r1[i]));
        assert(r1.to_multiset().count(r1[i]) > 0);
        assert(r2.to_multiset().count(r1[i]) > 0);
        assert(r2.contains(r1[i]));
        let j = choose|j: int| 0 <= j < r2.len() && r2[j] == r1[i];
        assert(crate::classify::ref_is_display_name_assign(r2[j]));
    }
    if has_display_name_assign(r2) {
        let i = choose|i: int|
            0 <= i < r2.len() && #[trigger] crate::classify::ref_is_display_name_assign(r2[i]);
        assert(r2.contains(r2[i]));
        assert(r2.to_multiset().count(r2[i]) > 0);
        assert(r1.to_multiset().count(r2[i]) > 0);
        assert(r1.contains(r2[i]));
        let j = choose|j: int| 0 <= j < r1.len() && r1[j] == r2[i];
        assert(crate::classify::ref_is_display_name_assign(r1[j]));
    }
}

/// Law: unwrapping is transitive — a wrapper call whose first argument is
/// itself a wrapper call wraps exactly what the inner call wraps, with the
/// same innermost wrapper.
pub proof fn lemma_unwrap_transitive(outer: CallExpr, inner: CallExpr, c: RuleConfig)
    requires
        is_wrapper_call(outer, c),
        outer.args@[0] == Expr::Call(inner),
        is_wrapper_call(inner, c),
    ensures
        spec_unwrap(outer, c) == spec_unwrap(inner, c),
{
}

/// Law: a value wrapped twice classifies exactly as the inner wrapper call
/// alone does, provided neither callee is also a factory or context name.
pub proof fn lemma_wrapped_classification_agrees(
    binding_name: Option<String>,
    outer: CallExpr,
    inner: CallExpr,
    refs: Seq<RefUsage>,
    scope: Seq<ScopeFn>,
    c: RuleConfig,
    version: Option<Version>,
)
    requires
        is_wrapper_call(outer, c),
        outer.args@[0] == Expr::Call(inner),
        is_wrapper_call(inner, c),
        callee_name(outer) matches Some(n) && !is_factory_name(n, c) && !is_context_name(n, c),
        callee_name(inner) matches Some(n) && !is_factory_name(n, c) && !is_context_name(n, c),
    ensures
        spec_classify_value(binding_name, Expr::Call(outer), refs, scope, c, version)
            == spec_classify_value(binding_name, Expr::Call(inner), refs, scope, c, version),
{
    lemma_unwrap_transitive(outer, inner, c);
}

/// Law: the version-gated exception holds exactly below 16.13.0 — an
/// otherwise anonymous function handed directly to the ref-forwarding
/// wrapper classifies `Named` when the framework version is known and below
/// that boundary, and `Unnamed` at the boundary, above it, or when the
/// version is unknown.
pub proof fn lemma_forward_ref_version_boundary(
    binding_name: Option<String>,
    call: CallExpr,
    f: FunctionDef,
    refs: Seq<RefUsage>,
    scope: Seq<ScopeFn>,
    c: RuleConfig,
    version: Option<Version>,
)
    requires
        callee_name(call) matches Some(n) && !is_factory_name(n, c) && !is_context_name(n, c),
        spec_unwrap(call, c) == Some((Expr::Function(f), true)),
        f.name is None,
        !has_display_name_assign(refs),
    ensures
        (version matches Some(v) && version_before(v, 16, 13, 0)) ==> spec_classify_value(
            binding_name,
            Expr::Call(call),
            refs,
            scope,
            c,
            version,
        ) == Some(ComponentType::Named),
        (version matches Some(v) && !version_before(v, 16, 13, 0)) || version is None
            ==> spec_classify_value(binding_name, Expr::Call(call), refs, scope, c, version)
            == Some(ComponentType::Unnamed),
{
}

} // verus!
