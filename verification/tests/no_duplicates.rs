use display_name_lint::ast::Expr;
use display_name_lint::no_duplicates::NoDuplicates;

#[test]
fn no_duplicates_test() {
    // The rule reports nothing on any input: an empty source has no nodes to
    // visit, and no node shape it is handed yields a diagnostic.
    let rule = NoDuplicates::default();
    assert!(rule.run(&Expr::Other).is_none());
    assert!(rule.run(&Expr::JsxElement).is_none());
    assert!(rule.run(&Expr::Identifier(String::from("createReactClass"))).is_none());
}
