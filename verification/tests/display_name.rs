use display_name_lint::ast::{
    CallExpr, ClassDef, ClassMember, Expr, FnBody, FunctionDef, MemberKind, ObjectProp, ScopeFn,
    Span,
};
use display_name_lint::classify::{classify, ComponentType};
use display_name_lint::config::{RuleConfig, Version};
use display_name_lint::rule::DisplayName;
use display_name_lint::semantic::{Binding, RefUsage, Symbol};

fn ident(name: &str) -> Expr {
    Expr::Identifier(String::from(name))
}

fn member(object: Expr, prop: &str) -> Expr {
    Expr::Member(Box::new(object), Some(String::from(prop)))
}

fn call(callee: Expr, args: Vec<Expr>) -> Expr {
    Expr::Call(CallExpr { callee: Box::new(callee), args })
}

fn object_with_keys(keys: &[&str]) -> Expr {
    Expr::ObjectLit(
        keys.iter().map(|k| ObjectProp { name: Some(String::from(*k)) }).collect(),
    )
}

/// A function whose block body returns one UI-element literal.
fn render_fn(name: Option<&str>) -> Expr {
    Expr::Function(FunctionDef {
        name: name.map(String::from),
        body: FnBody::Block(vec![Expr::JsxElement]),
    })
}

fn decl_span() -> Span {
    Span { start: 3, end: 57 }
}

fn symbol(name: Option<&str>, init: Option<Expr>, references: Vec<RefUsage>) -> Symbol {
    Symbol {
        declaration: Binding { name: name.map(String::from), init, span: decl_span() },
        references,
    }
}

fn default_rule() -> DisplayName {
    DisplayName::default()
}

fn ignore_transpiler_rule() -> DisplayName {
    let mut rule = DisplayName::default();
    rule.config.ignore_transpiler_name = true;
    rule
}

fn classify_default(sym: &Symbol) -> Option<ComponentType> {
    classify(sym, &Vec::new(), &RuleConfig::default(), &None)
}

// --- class-factory calls ---

#[test]
fn factory_with_display_name_is_silent() {
    // var Hello = createReactClass({ displayName: 'Hello', render() {...} })
    let sym = symbol(
        Some("Hello"),
        Some(call(ident("createReactClass"), vec![object_with_keys(&["displayName", "render"])])),
        vec![RefUsage::Other],
    );
    assert_eq!(classify_default(&sym), Some(ComponentType::Named));
    assert!(default_rule().run_on_symbol(&sym, &Vec::new(), &None).is_none());
    assert!(ignore_transpiler_rule().run_on_symbol(&sym, &Vec::new(), &None).is_none());
}

#[test]
fn factory_without_display_name_reports_at_declarator() {
    // var Hello = createReactClass({ render() {...} })
    let sym = symbol(
        Some("Hello"),
        Some(call(ident("createReactClass"), vec![object_with_keys(&["render"])])),
        vec![RefUsage::Other],
    );
    let diag = default_rule().run_on_symbol(&sym, &Vec::new(), &None);
    assert_eq!(diag.map(|d| d.span), Some(decl_span()));
}

#[test]
fn factory_under_pragma_name() {
    // var Hello = React.createClass({ render() {...} })
    let sym = symbol(
        Some("Hello"),
        Some(call(member(ident("React"), "createClass"), vec![object_with_keys(&["render"])])),
        vec![RefUsage::Other],
    );
    assert_eq!(classify_default(&sym), Some(ComponentType::TranspilerNamed));
}

#[test]
fn factory_on_unnamed_binding_is_unnamed() {
    // module.exports = createReactClass({ render() {...} })
    let sym = symbol(
        None,
        Some(call(ident("createReactClass"), vec![object_with_keys(&["render"])])),
        vec![RefUsage::Other],
    );
    assert_eq!(classify_default(&sym), Some(ComponentType::Unnamed));
    // an Unnamed component is reported under either switch setting
    assert!(default_rule().run_on_symbol(&sym, &Vec::new(), &None).is_some());
    assert!(ignore_transpiler_rule().run_on_symbol(&sym, &Vec::new(), &None).is_some());
}

#[test]
fn factory_alias_and_pragma_are_honored() {
    // settings: pragma Foo, class factory alias createClass
    let mut config = RuleConfig::default();
    config.pragma = Some(String::from("Foo"));
    config.create_class_alias = Some(String::from("createClass"));
    let via_pragma = symbol(
        Some("Hello"),
        Some(call(member(ident("Foo"), "createClass"), vec![object_with_keys(&["render"])])),
        vec![RefUsage::Other],
    );
    let via_alias = symbol(
        Some("Hello"),
        Some(call(ident("createClass"), vec![object_with_keys(&["displayName", "render"])])),
        vec![RefUsage::Other],
    );
    assert_eq!(
        classify(&via_pragma, &Vec::new(), &config, &None),
        Some(ComponentType::TranspilerNamed)
    );
    assert_eq!(classify(&via_alias, &Vec::new(), &config, &None), Some(ComponentType::Named));
    // under the default pragma the Foo-qualified factory is not recognized
    assert_eq!(classify_default(&via_pragma), None);
}

#[test]
fn factory_without_object_argument_is_not_a_component() {
    let no_args = symbol(Some("Hello"), Some(call(ident("createReactClass"), vec![])), vec![]);
    let two_args = symbol(
        Some("Hello"),
        Some(call(
            ident("createReactClass"),
            vec![object_with_keys(&["render"]), object_with_keys(&["render"])],
        )),
        vec![],
    );
    assert_eq!(classify_default(&no_args), None);
    assert_eq!(classify_default(&two_args), None);
}

// --- classes ---

fn render_method() -> ClassMember {
    ClassMember { is_static: false, kind: MemberKind::Method, name: Some(String::from("render")) }
}

fn class_expr(
    name: Option<&str>,
    super_class: Option<Expr>,
    members: Vec<ClassMember>,
) -> Expr {
    Expr::Class(ClassDef {
        name: name.map(String::from),
        super_class: super_class.map(Box::new),
        members,
    })
}

#[test]
fn named_class_toggles_with_the_switch() {
    // class Hello extends React.Component { render() {...} }
    let make = || {
        symbol(
            Some("Hello"),
            Some(class_expr(
                Some("Hello"),
                Some(member(ident("React"), "Component")),
                vec![render_method()],
            )),
            vec![RefUsage::Other],
        )
    };
    let sym = make();
    assert_eq!(classify_default(&sym), Some(ComponentType::TranspilerNamed));
    // ignoreTranspilerName on: silent; off (the default): reported
    assert!(ignore_transpiler_rule().run_on_symbol(&sym, &Vec::new(), &None).is_none());
    let diag = default_rule().run_on_symbol(&make(), &Vec::new(), &None);
    assert_eq!(diag.map(|d| d.span), Some(decl_span()));
}

#[test]
fn class_with_static_display_name_is_named() {
    // class Hello extends React.Component { static displayName = 'Widget'; render() {...} }
    let sym = symbol(
        Some("Hello"),
        Some(class_expr(
            Some("Hello"),
            Some(member(ident("React"), "Component")),
            vec![
                ClassMember {
                    is_static: true,
                    kind: MemberKind::Field,
                    name: Some(String::from("displayName")),
                },
                render_method(),
            ],
        )),
        vec![RefUsage::Other],
    );
    assert_eq!(classify_default(&sym), Some(ComponentType::Named));
}

#[test]
fn class_with_static_display_name_accessor_is_named() {
    // class Hello extends React.Component { static get displayName() {...} render() {...} }
    let sym = symbol(
        Some("Hello"),
        Some(class_expr(
            Some("Hello"),
            Some(member(ident("React"), "Component")),
            vec![
                ClassMember {
                    is_static: true,
                    kind: MemberKind::Accessor,
                    name: Some(String::from("displayName")),
                },
                render_method(),
            ],
        )),
        vec![RefUsage::Other],
    );
    assert_eq!(classify_default(&sym), Some(ComponentType::Named));
}

#[test]
fn class_with_later_assignment_is_named() {
    // class Hello extends React.Component { render() {...} }
    // Hello.displayName = 'Hello'
    let sym = symbol(
        Some("Hello"),
        Some(class_expr(
            Some("Hello"),
            Some(member(ident("React"), "Component")),
            vec![render_method()],
        )),
        vec![RefUsage::Other, RefUsage::MemberAssign(String::from("displayName"))],
    );
    assert_eq!(classify_default(&sym), Some(ComponentType::Named));
}

#[test]
fn class_without_render_or_component_base_is_not_a_component() {
    // class Hello { method; }
    let sym = symbol(
        Some("Hello"),
        Some(class_expr(
            Some("Hello"),
            None,
            vec![ClassMember {
                is_static: false,
                kind: MemberKind::Field,
                name: Some(String::from("method")),
            }],
        )),
        vec![RefUsage::Other],
    );
    assert_eq!(classify_default(&sym), None);
}

#[test]
fn class_with_render_method_alone_is_a_component() {
    // class Hello { render() {...} } — no base class needed
    let sym = symbol(
        Some("Hello"),
        Some(class_expr(Some("Hello"), None, vec![render_method()])),
        vec![RefUsage::Other],
    );
    assert_eq!(classify_default(&sym), Some(ComponentType::TranspilerNamed));
}

#[test]
fn anonymous_default_export_class_is_unnamed() {
    // export default class extends React.Component { render() {...} }
    let sym = symbol(
        None,
        Some(class_expr(None, Some(member(ident("React"), "Component")), vec![render_method()])),
        vec![RefUsage::Other],
    );
    assert_eq!(classify_default(&sym), Some(ComponentType::Unnamed));
}

// --- plain functions and arrows ---

#[test]
fn function_bound_to_named_variable_is_transpiler_named() {
    // var Hello = function() { return <div/>; }
    let sym = symbol(Some("Hello"), Some(render_fn(None)), vec![RefUsage::Other]);
    assert_eq!(classify_default(&sym), Some(ComponentType::TranspilerNamed));
}

#[test]
fn named_function_expression_is_named() {
    // module.exports = function Hello() { return <div/>; }
    let sym = symbol(None, Some(render_fn(Some("Hello"))), vec![RefUsage::Other]);
    assert_eq!(classify_default(&sym), Some(ComponentType::Named));
}

#[test]
fn function_with_later_assignment_is_named() {
    // var Hello = function() { return <div/>; }; Hello.displayName = 'Hello';
    let sym = symbol(
        Some("Hello"),
        Some(render_fn(None)),
        vec![RefUsage::Other, RefUsage::MemberAssign(String::from("displayName"))],
    );
    assert_eq!(classify_default(&sym), Some(ComponentType::Named));
}

#[test]
fn function_not_returning_elements_is_not_a_component() {
    // const f = (a) => { ... return null; return 1; }
    let sym = symbol(
        Some("f"),
        Some(Expr::Function(FunctionDef {
            name: None,
            body: FnBody::Block(vec![Expr::Other, Expr::Other]),
        })),
        vec![RefUsage::Other],
    );
    assert_eq!(classify_default(&sym), None);
}

#[test]
fn arrow_chain_defers_to_innermost_function() {
    // const renderer = a => listItem => (<div/>)
    // the innermost anonymous arrow is the component; the outer binding name
    // does not attach to it
    let inner = FunctionDef { name: None, body: FnBody::Expr(Box::new(Expr::JsxElement)) };
    let sym = symbol(
        Some("renderer"),
        Some(Expr::Function(FunctionDef {
            name: None,
            body: FnBody::Expr(Box::new(Expr::Function(inner))),
        })),
        vec![RefUsage::Other],
    );
    assert_eq!(classify_default(&sym), Some(ComponentType::Unnamed));
    assert!(default_rule().run_on_symbol(&sym, &Vec::new(), &None).is_some());
    assert!(ignore_transpiler_rule().run_on_symbol(&sym, &Vec::new(), &None).is_some());
}

#[test]
fn arrow_chain_with_named_inner_function_is_named() {
    // const renderer = a => function Component(listItem) { return <div/>; }
    let inner = FunctionDef {
        name: Some(String::from("Component")),
        body: FnBody::Block(vec![Expr::JsxElement]),
    };
    let sym = symbol(
        Some("renderer"),
        Some(Expr::Function(FunctionDef {
            name: None,
            body: FnBody::Expr(Box::new(Expr::Function(inner))),
        })),
        vec![RefUsage::Other],
    );
    assert_eq!(classify_default(&sym), Some(ComponentType::Named));
}

#[test]
fn arrow_chain_not_rendering_is_not_a_component() {
    // demo = () => () => null
    let inner = FunctionDef { name: None, body: FnBody::Expr(Box::new(Expr::Other)) };
    let sym = symbol(
        Some("demo"),
        Some(Expr::Function(FunctionDef {
            name: None,
            body: FnBody::Expr(Box::new(Expr::Function(inner))),
        })),
        vec![RefUsage::Other],
    );
    assert_eq!(classify_default(&sym), None);
}

#[test]
fn element_factory_call_counts_as_rendering() {
    // export default (props) => { return createElement("div", {}, "hello"); }
    let body = FnBody::Block(vec![call(ident("createElement"), vec![Expr::Other])]);
    let sym = symbol(
        None,
        Some(Expr::Function(FunctionDef { name: None, body })),
        vec![RefUsage::Other],
    );
    assert_eq!(classify_default(&sym), Some(ComponentType::Unnamed));
}

#[test]
fn delegation_to_a_render_helper_is_followed_one_level() {
    // function Hello() { return renderGreeting(); }
    // function renderGreeting() { return <div/>; }
    let scope = vec![ScopeFn {
        name: String::from("renderGreeting"),
        def: FunctionDef { name: None, body: FnBody::Block(vec![Expr::JsxElement]) },
    }];
    let sym = symbol(
        Some("Hello"),
        Some(Expr::Function(FunctionDef {
            name: None,
            body: FnBody::Block(vec![call(ident("renderGreeting"), vec![])]),
        })),
        vec![RefUsage::Other],
    );
    assert_eq!(
        classify(&sym, &scope, &RuleConfig::default(), &None),
        Some(ComponentType::TranspilerNamed)
    );
    // without the helper in scope the same binding is not a component
    assert_eq!(classify_default(&sym), None);
}

#[test]
fn delegation_is_depth_limited() {
    // function Hello() { return stepOne(); }
    // stepOne delegates again to stepTwo, one level past the limit
    let scope = vec![
        ScopeFn {
            name: String::from("stepOne"),
            def: FunctionDef {
                name: None,
                body: FnBody::Block(vec![call(ident("stepTwo"), vec![])]),
            },
        },
        ScopeFn {
            name: String::from("stepTwo"),
            def: FunctionDef { name: None, body: FnBody::Block(vec![Expr::JsxElement]) },
        },
    ];
    let sym = symbol(
        Some("Hello"),
        Some(Expr::Function(FunctionDef {
            name: None,
            body: FnBody::Block(vec![call(ident("stepOne"), vec![])]),
        })),
        vec![RefUsage::Other],
    );
    assert_eq!(classify(&sym, &scope, &RuleConfig::default(), &None), None);
}

// --- wrappers ---

#[test]
fn memo_of_anonymous_function_is_unnamed() {
    // const ComponentWithMemo = React.memo(({ world }) => { return <div/>; })
    let sym = symbol(
        Some("ComponentWithMemo"),
        Some(call(member(ident("React"), "memo"), vec![render_fn(None)])),
        vec![RefUsage::Other],
    );
    assert_eq!(classify_default(&sym), Some(ComponentType::Unnamed));
}

#[test]
fn memo_of_named_function_is_named() {
    // const ComponentWithMemo = React.memo(function Component({ world }) {...})
    let sym = symbol(
        Some("ComponentWithMemo"),
        Some(call(member(ident("React"), "memo"), vec![render_fn(Some("Component"))])),
        vec![RefUsage::Other],
    );
    assert_eq!(classify_default(&sym), Some(ComponentType::Named));
}

#[test]
fn memo_of_an_identifier_is_not_a_component() {
    // React.memo(MyComponent, (prev, next) => ...) wraps no function literal
    let sym = symbol(
        Some("MemoizedMyComponent"),
        Some(call(
            member(ident("React"), "memo"),
            vec![ident("MyComponent"), Expr::Other],
        )),
        vec![RefUsage::Other],
    );
    assert_eq!(classify_default(&sym), None);
}

#[test]
fn configured_wrapper_functions_are_recognized() {
    // export const Component = observer(() => {...})
    let mut config = RuleConfig::default();
    config.component_wrapper_functions = vec![String::from("observer")];
    let sym = symbol(
        Some("Component"),
        Some(call(ident("observer"), vec![render_fn(None)])),
        vec![RefUsage::Other],
    );
    assert_eq!(classify(&sym, &Vec::new(), &config, &None), Some(ComponentType::Unnamed));
    // without the configuration the call is not recognized at all
    assert_eq!(classify_default(&sym), None);
}

#[test]
fn wrapper_unwrapping_is_transitive() {
    // React.memo(React.forwardRef(fn)) classifies exactly as
    // React.forwardRef(fn) alone, for the same fn
    let wrapped_twice = |name: Option<&str>| {
        symbol(
            Some("MemoizedForwardRefComponentLike"),
            Some(call(
                member(ident("React"), "memo"),
                vec![call(member(ident("React"), "forwardRef"), vec![render_fn(name)])],
            )),
            vec![RefUsage::Other],
        )
    };
    let wrapped_once = |name: Option<&str>| {
        symbol(
            Some("MemoizedForwardRefComponentLike"),
            Some(call(member(ident("React"), "forwardRef"), vec![render_fn(name)])),
            vec![RefUsage::Other],
        )
    };
    let config = RuleConfig::default();
    let old = Some(Version { major: 15, minor: 7, patch: 1 });
    for version in [None, old] {
        for name in [None, Some("ComponentLike")] {
            assert_eq!(
                classify(&wrapped_twice(name), &Vec::new(), &config, &version),
                classify(&wrapped_once(name), &Vec::new(), &config, &version),
            );
        }
    }
}

#[test]
fn forward_ref_version_exception_boundary() {
    // an anonymous forwardRef render function is exempt strictly below 16.13.0
    let anon = |version: Option<Version>| {
        let sym = symbol(
            Some("ForwardRefComponentLike"),
            Some(call(member(ident("React"), "forwardRef"), vec![render_fn(None)])),
            vec![RefUsage::Other],
        );
        classify(&sym, &Vec::new(), &RuleConfig::default(), &version)
    };
    let v = |major, minor, patch| Some(Version { major, minor, patch });
    assert_eq!(anon(v(15, 7, 1)), Some(ComponentType::Named));
    assert_eq!(anon(v(0, 14, 11)), Some(ComponentType::Named));
    assert_eq!(anon(v(16, 12, 1)), Some(ComponentType::Named));
    assert_eq!(anon(v(16, 13, 0)), Some(ComponentType::Unnamed));
    assert_eq!(anon(v(16, 14, 0)), Some(ComponentType::Unnamed));
    // an unknown version is not exempt
    assert_eq!(anon(None), Some(ComponentType::Unnamed));
}

#[test]
fn memo_does_not_carry_the_forward_ref_exception() {
    // the innermost wrapper decides: a bare memo argument is not exempt even
    // below the version boundary
    let sym = symbol(
        Some("ComponentWithMemo"),
        Some(call(member(ident("React"), "memo"), vec![render_fn(None)])),
        vec![RefUsage::Other],
    );
    let old = Some(Version { major: 15, minor: 7, patch: 1 });
    assert_eq!(
        classify(&sym, &Vec::new(), &RuleConfig::default(), &old),
        Some(ComponentType::Unnamed)
    );
}

// --- context factories ---

fn check_context_rule() -> DisplayName {
    let mut rule = DisplayName::default();
    rule.config.check_context_objects = true;
    rule
}

#[test]
fn context_without_later_assignment_reports() {
    // import { createContext } from 'react'; const Hello = createContext();
    let sym = symbol(
        Some("Hello"),
        Some(call(ident("createContext"), vec![])),
        vec![RefUsage::Other],
    );
    let rule = check_context_rule();
    assert_eq!(
        classify(&sym, &Vec::new(), &rule.config, &None),
        Some(ComponentType::Unnamed)
    );
    let diag = rule.run_on_symbol(&sym, &Vec::new(), &None);
    assert_eq!(diag.map(|d| d.span), Some(decl_span()));
}

#[test]
fn context_with_later_assignment_is_silent() {
    // const Hello = createContext(); Hello.displayName = "HelloContext"
    let sym = symbol(
        Some("Hello"),
        Some(call(ident("createContext"), vec![])),
        vec![RefUsage::Other, RefUsage::MemberAssign(String::from("displayName"))],
    );
    let rule = check_context_rule();
    assert_eq!(classify(&sym, &Vec::new(), &rule.config, &None), Some(ComponentType::Named));
    assert!(rule.run_on_symbol(&sym, &Vec::new(), &None).is_none());
}

#[test]
fn context_is_ignored_when_not_checked() {
    // the same declaration under the default configuration
    let sym = symbol(
        Some("Hello"),
        Some(call(member(ident("React"), "createContext"), vec![])),
        vec![RefUsage::Other],
    );
    assert_eq!(classify_default(&sym), None);
    assert!(default_rule().run_on_symbol(&sym, &Vec::new(), &None).is_none());
}

#[test]
fn context_assignment_search_is_order_independent() {
    // let Hello; Hello = createContext(); Hello.displayName = "HelloContext";
    // and the same references in the reverse order classify alike
    let forward = symbol(
        Some("Hello"),
        None,
        vec![
            RefUsage::Write(call(ident("createContext"), vec![])),
            RefUsage::MemberAssign(String::from("displayName")),
        ],
    );
    let reversed = symbol(
        Some("Hello"),
        None,
        vec![
            RefUsage::MemberAssign(String::from("displayName")),
            RefUsage::Write(call(ident("createContext"), vec![])),
        ],
    );
    let rule = check_context_rule();
    assert_eq!(
        classify(&forward, &Vec::new(), &rule.config, &None),
        Some(ComponentType::Named)
    );
    assert_eq!(
        classify(&forward, &Vec::new(), &rule.config, &None),
        classify(&reversed, &Vec::new(), &rule.config, &None),
    );
    assert!(rule.run_on_symbol(&forward, &Vec::new(), &None).is_none());
}

#[test]
fn reassigned_context_without_assignment_reports() {
    // let Hello; Hello = createContext();
    let sym = symbol(
        Some("Hello"),
        None,
        vec![RefUsage::Write(call(ident("createContext"), vec![])), RefUsage::Other],
    );
    let rule = check_context_rule();
    assert!(rule.run_on_symbol(&sym, &Vec::new(), &None).is_some());
}

// --- declarations without a component-shaped value ---

#[test]
fn unrelated_declarations_are_not_components() {
    let plain_object = symbol(Some("obj"), Some(object_with_keys(&["pouf"])), vec![]);
    let no_value = symbol(Some("x"), None, vec![RefUsage::Other]);
    let other_call = symbol(
        Some("x"),
        Some(call(ident("someFactory"), vec![object_with_keys(&["render"])])),
        vec![],
    );
    assert_eq!(classify_default(&plain_object), None);
    assert_eq!(classify_default(&no_value), None);
    assert_eq!(classify_default(&other_call), None);
    assert!(default_rule().run_on_symbol(&plain_object, &Vec::new(), &None).is_none());
}
