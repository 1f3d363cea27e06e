//! The parts of the BMB syntax tree that diagnostics and derive support read:
//! source spans, spanned nodes, attributes and type definitions.

use vstd::prelude::*;

verus! {

/// A byte range in the source text.
#[derive(Debug, Clone, Copy, PartialEq, Eq, Structural)]
pub struct Span {
    pub start: usize,
    pub end: usize,
}

impl Span {
    /// A span covering `start..end`.
    pub fn new(start: usize, end: usize) -> (s: Span)
        ensures
            s.start == start,
            s.end == end,
    {
        Span { start, end }
    }
}

/// A syntax node together with its source span.
#[derive(Debug, Clone)]
pub struct Spanned<T> {
    pub node: T,
    pub span: Span,
}

impl<T> Spanned<T> {
    /// Wraps `node` with `span`.
    pub fn new(node: T, span: Span) -> (s: Spanned<T>)
        ensures
            s.node == node,
            s.span == span,
    {
        Spanned { node, span }
    }
}

/// Expressions, as far as attribute arguments use them.
#[derive(Debug, Clone)]
pub enum Expr {
    /// Integer literal
    IntLit(i64),
    /// Boolean literal
    BoolLit(bool),
    /// String literal
    StringLit(String),
    /// Variable reference (also a bare identifier in attribute arguments)
    Var(String),
}

/// An attribute such as `@inline`, `@derive(Debug, Clone)` or
/// `@trust("reason")`.
#[derive(Debug, Clone)]
pub enum Attribute {
    /// `@name`
    Simple { name: Spanned<String>, span: Span },
    /// `@name(arg, ...)`
    WithArgs { name: Spanned<String>, args: Vec<Spanned<Expr>>, span: Span },
    /// `@name("reason")`
    WithReason { name: Spanned<String>, reason: Spanned<String>, span: Span },
}

/// The name an attribute is written with.
pub open spec fn attribute_name(a: Attribute) -> Seq<char> {
    match a {
        Attribute::Simple { name, .. } => name.node@,
        Attribute::WithArgs { name, .. } => name.node@,
        Attribute::WithReason { name, .. } => name.node@,
    }
}

impl Attribute {
    /// The attribute's name.
    pub fn name(&self) -> (r: &str)
        ensures
            r@ == attribute_name(*self),
    {
        match self {
            Attribute::Simple { name, .. } => name.node.as_str(),
            Attribute::WithArgs { name, .. } => name.node.as_str(),
            Attribute::WithReason { name, .. } => name.node.as_str(),
        }
    }
}

/// Item visibility.
#[derive(Debug, Clone, Copy, PartialEq, Eq, Structural)]
pub enum Visibility {
    Private,
    Public,
}

/// A generic type parameter.
#[derive(Debug, Clone)]
pub struct TypeParam {
    pub name: String,
}

/// A struct field: its name and the name of its type.
#[derive(Debug, Clone)]
pub struct StructField {
    pub name: Spanned<String>,
    pub ty: Spanned<String>,
}

/// An enum variant with the type names of its fields.
#[derive(Debug, Clone)]
pub struct EnumVariant {
    pub name: Spanned<String>,
    pub fields: Vec<Spanned<String>>,
}

/// A struct definition.
#[derive(Debug, Clone)]
pub struct StructDef {
    pub attributes: Vec<Attribute>,
    pub visibility: Visibility,
    pub name: Spanned<String>,
    pub type_params: Vec<TypeParam>,
    pub fields: Vec<StructField>,
    pub span: Span,
}

/// An enum definition.
#[derive(Debug, Clone)]
pub struct EnumDef {
    pub attributes: Vec<Attribute>,
    pub visibility: Visibility,
    pub name: Spanned<String>,
    pub type_params: Vec<TypeParam>,
    pub variants: Vec<EnumVariant>,
    pub span: Span,
}

} // verus!
