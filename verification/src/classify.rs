//! The component classifier: given a symbol's declaring binding and its
//! references, decides whether the bound value is component-like and, if so,
//! how its display name can be derived.
//!
//! A component is `Named` when an explicit display name is statically
//! derivable, `TranspilerNamed` when only a surrounding binding name could be
//! inferred for it at build time, and `Unnamed` when nothing names it.

use vstd::prelude::*;
use vstd::string::StringExecFns;
use crate::ast::{CallExpr, ClassDef, ClassMember, Expr, FnBody, FunctionDef, ObjectProp, ScopeFn};
use crate::config::{
    dotted, dotted_string, pragma_string, spec_pragma, version_before, RuleConfig, Version,
};
use crate::render::{is_render_returning, spec_render_returning, DELEGATION_LIMIT};
use crate::resolve::{resolve, spec_resolve};
use crate::semantic::{RefUsage, Symbol};
use crate::wrapper::{callee_name, spec_unwrap, unwrap_call};

verus! {

/// How a component's display name can be derived, if at all.
#[derive(Debug, Clone, Copy, PartialEq, Eq, Structural)]
pub enum ComponentType {
    /// An explicit display name is statically derivable.
    Named,
    /// Only the name of a surrounding binding could be inferred at build time.
    TranspilerNamed,
    /// No name can be derived.
    Unnamed,
}

/// Whether `n` names the class factory: the pragma's `createClass`, the bare
/// well-known factory name, or the configured alias.
pub open spec fn is_factory_name(n: Seq<char>, c: RuleConfig) -> bool {
    n == dotted(spec_pragma(c), "createClass"@) || n == "createReactClass"@ || (match c
        .create_class_alias {
        Some(a) => n == a@,
        None => false,
    })
}

/// Whether `n` names the context factory, under the pragma or as the bare
/// imported name.
pub open spec fn is_context_name(n: Seq<char>, c: RuleConfig) -> bool {
    n == dotted(spec_pragma(c), "createContext"@) || n == "createContext"@
}

/// Whether one object property is literally keyed `displayName`.
pub open spec fn prop_is_display_name(p: ObjectProp) -> bool {
    p.name matches Some(nm) && nm@ == "displayName"@
}

/// Whether an object literal has a property literally keyed `displayName`.
pub open spec fn has_display_name_prop(props: Seq<ObjectProp>) -> bool {
    exists|i: int| 0 <= i < props.len() && #[trigger] prop_is_display_name(props[i])
}

/// Whether some reference of the symbol is the object of a member assignment
/// literally named `displayName`. The references may textually precede or
/// follow the declaration; only membership matters.
pub open spec fn ref_is_display_name_assign(r: RefUsage) -> bool {
    r matches RefUsage::MemberAssign(p) && p@ == "displayName"@
}

pub open spec fn has_display_name_assign(refs: Seq<RefUsage>) -> bool {
    exists|i: int| 0 <= i < refs.len() && #[trigger] ref_is_display_name_assign(refs[i])
}

/// The expression of the first write reference `sym = <expr>`, looking from
/// index `k` on.
pub open spec fn first_write_from(refs: Seq<RefUsage>, k: int) -> Option<Expr>
    decreases refs.len() - k,
{
    if k < 0 || k >= refs.len() {
        None
    } else {
        match refs[k] {
            RefUsage::Write(e) => Some(e),
            _ => first_write_from(refs, k + 1),
        }
    }
}

/// The expression of the first write reference, if any.
pub open spec fn first_write(refs: Seq<RefUsage>) -> Option<Expr> {
    first_write_from(refs, 0)
}

/// Whether one class member is an instance method named `render`.
pub open spec fn member_is_render(m: ClassMember) -> bool {
    !m.is_static && m.kind is Method && (m.name matches Some(nm) && nm@ == "render"@)
}

/// Whether the class defines an instance method named `render`.
pub open spec fn has_render_method(members: Seq<ClassMember>) -> bool {
    exists|i: int| 0 <= i < members.len() && #[trigger] member_is_render(members[i])
}

/// Whether one class member is a static `displayName` field or accessor.
pub open spec fn member_is_static_display_name(m: ClassMember) -> bool {
    m.is_static && !(m.kind is Method) && (m.name matches Some(nm) && nm@ == "displayName"@)
}

/// Whether the class has a static `displayName` field or accessor.
pub open spec fn has_static_display_name(members: Seq<ClassMember>) -> bool {
    exists|i: int| 0 <= i < members.len() && #[trigger] member_is_static_display_name(members[i])
}

/// Whether the class extends a name resolving to the pragma's component base
/// classes.
pub open spec fn extends_component(cls: ClassDef, c: RuleConfig) -> bool {
    match cls.super_class {
        Some(sup) => match spec_resolve(*sup) {
            Some(n) => n == dotted(spec_pragma(c), "Component"@) || n == dotted(
                spec_pragma(c),
                "PureComponent"@,
            ),
            None => false,
        },
        None => false,
    }
}

/// Whether the class is component-like: it extends the pragma's component
/// base classes or defines an instance `render` method.
pub open spec fn is_component_class(cls: ClassDef, c: RuleConfig) -> bool {
    extends_component(cls, c) || has_render_method(cls.members@)
}

/// The innermost function literal a chain of expression-bodied arrows defers
/// to, and whether any deferral happened. An arrow whose sole expression body
/// is itself a function literal is not the component; the inner literal is.
pub open spec fn spec_innermost(f: FunctionDef) -> (FunctionDef, bool)
    decreases f,
{
    match f.body {
        FnBody::Expr(e) => match *e {
            Expr::Function(g) => (spec_innermost(g).0, true),
            _ => (f, false),
        },
        FnBody::Block(_) => (f, false),
    }
}

/// Classifies a function value bound to a binding. `unwrapped` says the
/// function came out of a wrapper call, and `via_forward_ref` that the
/// innermost wrapper was the ref-forwarding one — which, before framework
/// version 16.13.0, names the render function itself, so an otherwise
/// anonymous direct render argument is exempt there. An unknown version is
/// not exempt.
pub open spec fn spec_classify_function(
    f: FunctionDef,
    binding_name: Option<String>,
    refs: Seq<RefUsage>,
    scope: Seq<ScopeFn>,
    c: RuleConfig,
    version: Option<Version>,
    unwrapped: bool,
    via_forward_ref: bool,
) -> Option<ComponentType> {
    let inner = if unwrapped {
        f
    } else {
        spec_innermost(f).0
    };
    let drilled = !unwrapped && spec_innermost(f).1;
    if !unwrapped && !spec_render_returning(inner, c, scope, DELEGATION_LIMIT as nat) {
        None
    } else {
        let exempt = unwrapped && via_forward_ref && inner.name is None && (match version {
            Some(v) => version_before(v, 16, 13, 0),
            None => false,
        });
        if exempt {
            Some(ComponentType::Named)
        } else if inner.name is Some || has_display_name_assign(refs) {
            Some(ComponentType::Named)
        } else if !drilled && !unwrapped && binding_name is Some {
            Some(ComponentType::TranspilerNamed)
        } else {
            Some(ComponentType::Unnamed)
        }
    }
}

/// Classifies the value bound by a declaration: a class-factory call whose
/// sole argument is an object literal, a context-factory call, a wrapped or
/// plain function value, or a component-like class. Anything else is not a
/// component.
pub open spec fn spec_classify_value(
    binding_name: Option<String>,
    value: Expr,
    refs: Seq<RefUsage>,
    scope: Seq<ScopeFn>,
    c: RuleConfig,
    version: Option<Version>,
) -> Option<ComponentType> {
    match value {
        Expr::Call(call) => match callee_name(call) {
            Some(n) => if is_factory_name(n, c) {
                if call.args@.len() == 1 {
                    match call.args@[0] {
                        Expr::ObjectLit(props) => if has_display_name_prop(props@) {
                            Some(ComponentType::Named)
                        } else if binding_name is Some {
                            Some(ComponentType::TranspilerNamed)
                        } else {
                            Some(ComponentType::Unnamed)
                        },
                        _ => None,
                    }
                } else {
                    None
                }
            } else if is_context_name(n, c) {
                if c.check_context_objects {
                    if has_display_name_assign(refs) {
                        Some(ComponentType::Named)
                    } else {
                        Some(ComponentType::Unnamed)
                    }
                } else {
                    None
                }
            } else {
                match spec_unwrap(call, c) {
                    Some((Expr::Function(f), fwd)) => spec_classify_function(
                        f,
                        binding_name,
                        refs,
                        scope,
                        c,
                        version,
                        true,
                        fwd,
                    ),
                    _ => None,
                }
            },
            None => None,
        },
        Expr::Class(cls) => if is_component_class(cls, c) {
            if has_static_display_name(cls.members@) || has_display_name_assign(refs) {
                Some(ComponentType::Named)
            } else if cls.name is Some || binding_name is Some {
                Some(ComponentType::TranspilerNamed)
            } else {
                Some(ComponentType::Unnamed)
            }
        } else {
            None
        },
        Expr::Function(f) => spec_classify_function(
            f,
            binding_name,
            refs,
            scope,
            c,
            version,
            false,
            false,
        ),
        _ => None,
    }
}

/// Classifies a symbol: dispatches on the declaration's bound value, or — for
/// a declaration without one, as in a reassignment-before-declaration
/// pattern — on the first write among the symbol's references.
pub open spec fn spec_classify(
    sym: Symbol,
    scope: Seq<ScopeFn>,
    c: RuleConfig,
    version: Option<Version>,
) -> Option<ComponentType> {
    match sym.declaration.init {
        Some(v) => spec_classify_value(sym.declaration.name, v, sym.references@, scope, c, version),
        None => match first_write(sym.references@) {
            Some(v) => spec_classify_value(
                sym.declaration.name,
                v,
                sym.references@,
                scope,
                c,
                version,
            ),
            None => None,
        },
    }
}

/// Whether `n` names the class factory.
pub fn is_factory_name_exec(n: &String, c: &RuleConfig) -> (r: bool)
    ensures
        r == is_factory_name(n@, *c),
{
    let pr = pragma_string(c);
    n.eq(&dotted_string(pr.as_str(), "createClass")) || n.eq(&"createReactClass".to_owned()) || (
    match &c.create_class_alias {
        Some(a) => n.eq(a),
        None => false,
    })
}

/// Whether `n` names the context factory.
pub fn is_context_name_exec(n: &String, c: &RuleConfig) -> (r: bool)
    ensures
        r == is_context_name(n@, *c),
{
    let pr = pragma_string(c);
    n.eq(&dotted_string(pr.as_str(), "createContext")) || n.eq(&"createContext".to_owned())
}

/// Whether an object literal has a property literally keyed `displayName`.
#[verifier::loop_isolation(false)]
pub fn has_display_name_prop_exec(props: &Vec<ObjectProp>) -> (r: bool)
    ensures
        r == has_display_name_prop(props@),
{
    let key = "displayName".to_owned();
    let mut i: usize = 0;
    while i < props.len()
        invariant
            i <= props@.len(),
            forall|k: int| 0 <= k < i ==> !prop_is_display_name(props@[k]),
        decreases props@.len() - i,
    {
        match &props[i].name {
            Some(p) => if p.eq(&key) {
                proof {
                    assert(prop_is_display_name(props@[i as int]));
                }
                return true;
            },
            None => {},
        }
        i += 1;
    }
    false
}

/// Whether some reference is the object of a `displayName` member assignment.
#[verifier::loop_isolation(false)]
pub fn has_display_name_assign_exec(refs: &Vec<RefUsage>) -> (r: bool)
    ensures
        r == has_display_name_assign(refs@),
{
    let key = "displayName".to_owned();
    let mut i: usize = 0;
    while i < refs.len()
        invariant
            i <= refs@.len(),
            forall|k: int| 0 <= k < i ==> !ref_is_display_name_assign(refs@[k]),
        decreases refs@.len() - i,
    {
        match &refs[i] {
            RefUsage::MemberAssign(p) => if p.eq(&key) {
                proof {
                    assert(ref_is_display_name_assign(refs@[i as int]));
                }
                return true;
            },
            _ => {},
        }
        i += 1;
    }
    false
}

/// Finds the expression of the first write reference, if any.
#[verifier::loop_isolation(false)]
pub fn first_write_exec<'a>(refs: &'a Vec<RefUsage>) -> (r: Option<&'a Expr>)
    ensures
        r is Some <==> first_write(refs@) is Some,
        r matches Some(e) ==> first_write(refs@) == Some(*e),
{
    let mut i: usize = 0;
    while i < refs.len()
        invariant
            i <= refs@.len(),
            first_write(refs@) == first_write_from(refs@, i as int),
        decreases refs@.len() - i,
    {
        match &refs[i] {
            RefUsage::Write(e) => {
                return Some(e);
            },
            _ => {},
        }
        i += 1;
    }
    None
}

/// Whether the class defines an instance method named `render`.
#[verifier::loop_isolation(false)]
pub fn has_render_method_exec(members: &Vec<ClassMember>) -> (r: bool)
    ensures
        r == has_render_method(members@),
{
    let key = "render".to_owned();
    let mut i: usize = 0;
    while i < members.len()
        invariant
            i <= members@.len(),
            forall|k: int| 0 <= k < i ==> !member_is_render(members@[k]),
        decreases members@.len() - i,
    {
        let m = &members[i];
        if !m.is_static && matches!(m.kind, crate::ast::MemberKind::Method) {
            match &m.name {
                Some(nm) => if nm.eq(&key) {
                    proof {
                        assert(member_is_render(members@[i as int]));
                    }
                    return true;
                },
                None => {},
            }
        }
        i += 1;
    }
    false
}

/// Whether the class has a static `displayName` field or accessor.
#[verifier::loop_isolation(false)]
pub fn has_static_display_name_exec(members: &Vec<ClassMember>) -> (r: bool)
    ensures
        r == has_static_display_name(members@),
{
    let key = "displayName".to_owned();
    let mut i: usize = 0;
    while i < members.len()
        invariant
            i <= members@.len(),
            forall|k: int| 0 <= k < i ==> !member_is_static_display_name(members@[k]),
        decreases members@.len() - i,
    {
        let m = &members[i];
        if m.is_static && !matches!(m.kind, crate::ast::MemberKind::Method) {
            match &m.name {
                Some(nm) => if nm.eq(&key) {
                    proof {
                        assert(member_is_static_display_name(members@[i as int]));
                    }
                    return true;
                },
                None => {},
            }
        }
        i += 1;
    }
    false
}

/// Whether the class is component-like.
pub fn is_component_class_exec(cls: &ClassDef, c: &RuleConfig) -> (r: bool)
    ensures
        r == is_component_class(*cls, *c),
{
    let ext = match &cls.super_class {
        Some(sup) => match resolve(&**sup) {
            Some(n) => {
                let pr = pragma_string(c);
                n.eq(&dotted_string(pr.as_str(), "Component")) || n.eq(
                    &dotted_string(pr.as_str(), "PureComponent"),
                )
            },
            None => false,
        },
        None => false,
    };
    ext || has_render_method_exec(&cls.members)
}

/// Finds the innermost function literal a chain of expression-bodied arrows
/// defers to, and whether any deferral happened.
pub fn innermost<'a>(f: &'a FunctionDef) -> (r: (&'a FunctionDef, bool))
    ensures
        *r.0 == spec_innermost(*f).0,
        r.1 == spec_innermost(*f).1,
    decreases *f,
{
    match &f.body {
        FnBody::Expr(e) => match &**e {
            Expr::Function(g) => {
                let p = innermost(g);
                (p.0, true)
            },
            _ => (f, false),
        },
        FnBody::Block(_) => (f, false),
    }
}

/// Classifies a function value bound to a binding.
pub fn classify_function(
    f: &FunctionDef,
    binding_name: &Option<String>,
    refs: &Vec<RefUsage>,
    scope: &Vec<ScopeFn>,
    c: &RuleConfig,
    version: &Option<Version>,
    unwrapped: bool,
    via_forward_ref: bool,
) -> (r: Option<ComponentType>)
    ensures
        r == spec_classify_function(
            *f,
            *binding_name,
            refs@,
            scope@,
            *c,
            *version,
            unwrapped,
            via_forward_ref,
        ),
{
    let (inner, drilled) = if unwrapped {
        (f, false)
    } else {
        innermost(f)
    };
    if !unwrapped && !is_render_returning(inner, c, scope, DELEGATION_LIMIT) {
        return None;
    }
    let exempt = unwrapped && via_forward_ref && inner.name.is_none() && (match version {
        Some(v) => v.is_before(16, 13, 0),
        None => false,
    });
    if exempt {
        Some(ComponentType::Named)
    } else if inner.name.is_some() || has_display_name_assign_exec(refs) {
        Some(ComponentType::Named)
    } else if !drilled && !unwrapped && binding_name.is_some() {
        Some(ComponentType::TranspilerNamed)
    } else {
        Some(ComponentType::Unnamed)
    }
}

/// Classifies the value bound by a declaration.
pub fn classify_value(
    binding_name: &Option<String>,
    value: &Expr,
    refs: &Vec<RefUsage>,
    scope: &Vec<ScopeFn>,
    c: &RuleConfig,
    version: &Option<Version>,
) -> (r: Option<ComponentType>)
    ensures
        r == spec_classify_value(*binding_name, *value, refs@, scope@, *c, *version),
{
    match value {
        Expr::Call(call) => match resolve(&call.callee) {
            Some(n) => {
                if is_factory_name_exec(&n, c) {
                    if call.args.len() == 1 {
                        match &call.args[0] {
                            Expr::ObjectLit(props) => {
                                if has_display_name_prop_exec(props) {
                                    Some(ComponentType::Named)
                                } else if binding_name.is_some() {
                                    Some(ComponentType::TranspilerNamed)
                                } else {
                                    Some(ComponentType::Unnamed)
                                }
                            },
                            _ => None,
                        }
                    } else {
                        None
                    }
                } else if is_context_name_exec(&n, c) {
                    if c.check_context_objects {
                        if has_display_name_assign_exec(refs) {
                            Some(ComponentType::Named)
                        } else {
                            Some(ComponentType::Unnamed)
                        }
                    } else {
                        None
                    }
                } else {
                    match unwrap_call(call, c) {
                        Some((e, fwd)) => match e {
                            Expr::Function(f) => classify_function(
                                f,
                                binding_name,
                                refs,
                                scope,
                                c,
                                version,
                                true,
                                fwd,
                            ),
                            _ => None,
                        },
                        None => None,
                    }
                }
            },
            None => None,
        },
        Expr::Class(cls) => {
            if is_component_class_exec(cls, c) {
                if has_static_display_name_exec(&cls.members) || has_display_name_assign_exec(
                    refs,
                ) {
                    Some(ComponentType::Named)
                } else if cls.name.is_some() || binding_name.is_some() {
                    Some(ComponentType::TranspilerNamed)
                } else {
                    Some(ComponentType::Unnamed)
                }
            } else {
                None
            }
        },
        Expr::Function(f) => classify_function(
            f,
            binding_name,
            refs,
            scope,
            c,
            version,
            false,
            false,
        ),
        _ => None,
    }
}

/// Classifies a symbol's declaration.
pub fn classify(
    sym: &Symbol,
    scope: &Vec<ScopeFn>,
    c: &RuleConfig,
    version: &Option<Version>,
) -> (r: Option<ComponentType>)
    ensures
        r == spec_classify(*sym, scope@, *c, *version),
{
    match &sym.declaration.init {
        Some(v) => classify_value(&sym.declaration.name, v, &sym.references, scope, c, version),
        None => match first_write_exec(&sym.references) {
            Some(v) => classify_value(
                &sym.declaration.name,
                v,
                &sym.references,
                scope,
                c,
                version,
            ),
            None => None,
        },
    }
}

} // verus!
