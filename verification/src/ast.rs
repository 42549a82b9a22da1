//! The syntactic model the rule works over.
//!
//! The surrounding engine owns the full syntax tree; the rule only reads the
//! shapes below. A conversion at the boundary keeps, for each node, exactly
//! what classification consumes: callee chains, call arguments, object
//! property keys, class member heads, and the expressions yielded by the
//! `return` statements of a function's own body (without descending into
//! nested function literals).

use vstd::prelude::*;

verus! {

/// A half-open source range, measured in bytes of the original source text.
#[derive(Debug, Clone, Copy, PartialEq, Eq, Structural)]
pub struct Span {
    pub start: u32,
    pub end: u32,
}

/// One property of an object literal: its statically known key, if any.
/// A computed key (`{ [x]: ... }`) has no static name.
#[derive(Debug)]
pub struct ObjectProp {
    pub name: Option<String>,
}

/// The syntactic flavor of a class member.
#[derive(Debug, Clone, Copy, PartialEq, Eq, Structural)]
pub enum MemberKind {
    Method,
    Field,
    Accessor,
}

/// The head of one class member: whether it is static, its flavor, and its
/// statically known name, if any.
#[derive(Debug)]
pub struct ClassMember {
    pub is_static: bool,
    pub kind: MemberKind,
    pub name: Option<String>,
}

/// A class declaration or expression.
#[derive(Debug)]
pub struct ClassDef {
    /// The class's own name (`class Hello ...`), if it has one.
    pub name: Option<String>,
    /// The `extends` clause expression, if present.
    pub super_class: Option<Box<Expr>>,
    pub members: Vec<ClassMember>,
}

/// What a function-like node returns.
#[derive(Debug)]
pub enum FnBody {
    /// An arrow function whose body is a bare expression: that expression is
    /// its single implicit return.
    Expr(Box<Expr>),
    /// A block body: the argument expressions of the `return` statements that
    /// appear in the function's own body. Returns inside nested function
    /// literals are not included, and a bare `return;` contributes nothing.
    Block(Vec<Expr>),
}

/// A function declaration, function expression, or arrow function.
#[derive(Debug)]
pub struct FunctionDef {
    /// The function literal's own name (`function Hello() ...`), if any.
    pub name: Option<String>,
    pub body: FnBody,
}

/// A call expression: its callee and its argument expressions.
#[derive(Debug)]
pub struct CallExpr {
    pub callee: Box<Expr>,
    pub args: Vec<Expr>,
}

/// An expression, reduced to the shapes classification distinguishes.
#[derive(Debug)]
pub enum Expr {
    /// A plain identifier reference.
    Identifier(String),
    /// A member access: the object and the statically known property name
    /// (`a.b` carries `Some("b")`; a computed access `a[b]` carries `None`).
    Member(Box<Expr>, Option<String>),
    Call(CallExpr),
    /// An object literal, reduced to its property keys.
    ObjectLit(Vec<ObjectProp>),
    Function(FunctionDef),
    Class(ClassDef),
    /// A UI-element literal.
    JsxElement,
    /// Any expression shape the rule does not distinguish.
    Other,
}

/// A named function in the surrounding file scope. The render detector may
/// consult these when a `return` delegates to another function by name.
#[derive(Debug)]
pub struct ScopeFn {
    pub name: String,
    pub def: FunctionDef,
}

} // verus!
