//! Syntax trees of source fragments, as the host's parser hands them over.
//!
//! A tree holds what inference reads and nothing else: names, byte spans,
//! paths, the shapes of types, patterns and expressions, and the headers of
//! items.  Bodies of functions are not part of it.

use vstd::prelude::*;

verus! {

/// A half-open range of byte positions.
#[derive(Clone, Copy, Debug, PartialEq, Eq, Structural)]
pub struct Span {
    pub lo: usize,
    pub hi: usize,
}

impl Span {
    /// Whether `point` lies in the span.
    pub open spec fn holds(self, point: int) -> bool {
        self.lo <= point < self.hi
    }
}

/// Whether `point` lies in `span`.
pub fn point_is_in_span(point: usize, span: &Span) -> (r: bool)
    ensures
        r == span.holds(point as int),
{
    point >= span.lo && point < span.hi
}

/// A type as written in the source.
#[derive(Debug, PartialEq, Eq)]
pub enum TypeExpr {
    /// `(A, B, ..)`
    Tup(Vec<TypeExpr>),
    /// `&T` or `&mut T`
    Rptr(Box<TypeExpr>),
    /// A named type.
    Path(PathExpr),
    /// Anything else: function types, slices, trait objects, `_`.
    Other,
}

/// One segment of a written path, with its type arguments.
#[derive(Debug, PartialEq, Eq)]
pub struct PathExprSegment {
    pub name: String,
    pub types: Vec<TypeExpr>,
}

/// A path as written in the source.
#[derive(Debug, PartialEq, Eq)]
pub struct PathExpr {
    pub global: bool,
    pub segments: Vec<PathExprSegment>,
}

/// The shape of a pattern.
#[derive(Debug, PartialEq, Eq)]
pub enum PatKind {
    /// A binding; `name_span` is the span of the name alone.
    Ident { name: String, name_span: Span },
    /// `(p0, p1, ..)`; the elements are the pattern's children.
    Tup,
    /// `Name(p0, p1, ..)`; the payload patterns are the pattern's children.
    Enum { path: PathExpr },
    /// Any other pattern.
    Other,
}

/// A pattern with its span and its sub-patterns in source order.
#[derive(Debug, PartialEq, Eq)]
pub struct Pat {
    pub span: Span,
    pub kind: PatKind,
    pub children: Vec<Pat>,
}

/// The shape of an expression.
#[derive(Debug, PartialEq, Eq)]
pub enum ExprKind {
    /// A path; no children.
    Path(PathExpr),
    /// A call; the first child is the callee, the others the arguments.
    Call,
    /// A struct literal; the children are the field values.
    Struct(PathExpr),
    /// A method call; the first child is the receiver.
    MethodCall { method: String },
    /// A named field; the first child is the base.
    Field { name: String },
    /// A positional field; the first child is the base.
    TupField { index: usize },
    /// A tuple; the children are its elements.
    Tup,
    /// A literal.
    Lit,
    /// `if let pat = e { .. }`; the first child is `e`.
    IfLet { pat: Pat },
    /// Any other expression; the children are its sub-expressions.
    Other,
}

/// An expression with its sub-expressions in source order.
#[derive(Debug, PartialEq, Eq)]
pub struct Expr {
    pub kind: ExprKind,
    pub children: Vec<Expr>,
}

/// A `let` statement.
#[derive(Debug, PartialEq, Eq)]
pub struct Local {
    pub pat: Pat,
    pub ty: Option<TypeExpr>,
    pub init: Option<Expr>,
}

/// One declared parameter of a function.
#[derive(Debug, PartialEq, Eq)]
pub struct Arg {
    pub pat: Pat,
    pub ty: TypeExpr,
}

/// The header of a function.
#[derive(Debug, PartialEq, Eq)]
pub struct FnDecl {
    pub generics: Vec<String>,
    pub inputs: Vec<Arg>,
    /// The written return type; `None` where there is no arrow.
    pub output: Option<TypeExpr>,
}

/// A function declared in an `impl` or a trait.
#[derive(Debug, PartialEq, Eq)]
pub struct Method {
    pub name: String,
    pub decl: FnDecl,
}

/// A field of a struct; `name` is `None` for a positional field.
#[derive(Debug, PartialEq, Eq)]
pub struct StructField {
    pub name: Option<String>,
    pub span: Span,
    pub ty: TypeExpr,
}

/// A variant of an enum.
#[derive(Debug, PartialEq, Eq)]
pub struct Variant {
    pub name: String,
    pub span: Span,
}

/// The shape of an item.
#[derive(Debug, PartialEq, Eq)]
pub enum ItemKind {
    Fn(FnDecl),
    Struct { generics: Vec<String>, fields: Vec<StructField> },
    Enum { generics: Vec<String>, variants: Vec<Variant> },
    Impl { generics: Vec<String>, trait_path: Option<PathExpr>, self_ty: TypeExpr, methods: Vec<Method> },
    Trait { generics: Vec<String>, methods: Vec<Method> },
    Mod,
    TypeAlias { generics: Vec<String>, ty: TypeExpr },
    Other,
}

/// An item: its name, its whole span, and its shape.
#[derive(Debug, PartialEq, Eq)]
pub struct Item {
    pub name: String,
    pub span: Span,
    pub kind: ItemKind,
}

/// A statement.
#[derive(Debug, PartialEq, Eq)]
pub enum Stmt {
    Let(Local),
    Expr(Expr),
    Item(Item),
}

/// One entry of a braced import list.
#[derive(Debug, PartialEq, Eq)]
pub enum PathListItem {
    /// A listed name; the name `self` stands for the module itself.
    Ident(String),
    /// The module itself.
    Mod,
}

/// What a `use` names.
#[derive(Debug, PartialEq, Eq)]
pub enum ViewPath {
    /// `use a::b;` or `use a::b as alias;`
    Simple { alias: String, path: PathExpr },
    /// `use a::b::{c, d};`
    List { base: PathExpr, items: Vec<PathListItem> },
    /// `use a::b::*;`
    Glob { base: PathExpr },
}

/// An import or an `extern crate`.
#[derive(Debug, PartialEq, Eq)]
pub enum ViewItem {
    Use(ViewPath),
    /// `extern crate name;` or with the crate's own name as `source`.
    ExternCrate { name: String, source: Option<String> },
}

/// A whole file, as far as its imports go.
#[derive(Debug, PartialEq, Eq)]
pub struct Crate {
    pub view_items: Vec<ViewItem>,
}

/// What a fragment is parsed as.
#[derive(Clone, Copy, Debug, PartialEq, Eq, Structural)]
pub enum ParseKind {
    Expression,
    Item,
    Statement,
    Crate,
}

/// The parser gave up on the fragment, or ended abnormally.
#[derive(Clone, Copy, Debug, PartialEq, Eq, Structural)]
pub struct ParseFailure;

} // verus!
