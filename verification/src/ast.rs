//! The module-tree model the rewriter works on.
//!
//! Only the node kinds the rewrite inspects are distinguished: import
//! declarations with their specifiers, empty statements, bare identifiers,
//! string literals, `new` (construction) expressions, and two-level property
//! accesses. Every other statement or expression is an `Other` node that
//! carries just its expression subtrees, in order; the rewrite leaves its
//! shape unchanged and only descends into those subtrees.
//!
//! Each executable node kind has a mathematical mirror (`SpecExpr`,
//! `SpecSpecifier`, `SpecItem`) over `Seq`, which the contracts speak of.

use vstd::prelude::*;

verus! {

/// Mathematical mirror of an expression subtree.
#[verifier::ext_equal]
pub enum SpecExpr {
    Ident { name: Seq<char> },
    StrLit { value: Seq<char> },
    New { callee: Box<SpecExpr>, args: Seq<SpecExpr> },
    Member { obj: Box<SpecExpr>, prop: Seq<char> },
    Other { children: Seq<SpecExpr> },
}

/// Mathematical mirror of an import specifier.
#[verifier::ext_equal]
pub enum SpecSpecifier {
    DefaultImport { local: Seq<char> },
    Other,
}

/// Mathematical mirror of a top-level module item.
#[verifier::ext_equal]
pub enum SpecItem {
    Import { src: Seq<char>, specifiers: Seq<SpecSpecifier> },
    EmptyStmt,
    Other { exprs: Seq<SpecExpr> },
}

/// An expression subtree.
#[derive(Debug, PartialEq, Eq)]
pub enum Expr {
    /// A bare identifier reference, e.g. the callee in `new X()`.
    Ident { name: String },
    /// A string literal.
    StrLit { value: String },
    /// A construction expression `new <callee>(<args>)`.
    New { callee: Box<Expr>, args: Vec<Expr> },
    /// A property access `<obj>.<prop>`.
    Member { obj: Box<Expr>, prop: String },
    /// Any other expression form, carrying its subexpressions in order.
    Other { children: Vec<Expr> },
}

/// One specifier of an import declaration.
#[derive(Debug, PartialEq, Eq)]
pub enum ImportSpecifier {
    /// `import Local from "..."` — the only form that produces a binding.
    DefaultImport { local: String },
    /// A named or namespace specifier; never produces a binding.
    Other,
}

/// One top-level item of a module.
#[derive(Debug, PartialEq, Eq)]
pub enum ModuleItem {
    /// An import declaration with its source path and specifiers.
    Import { src: String, specifiers: Vec<ImportSpecifier> },
    /// A statement with no semantic content.
    EmptyStmt,
    /// Any other statement or declaration, carrying its expression
    /// subtrees in order.
    Other { exprs: Vec<Expr> },
}

pub open spec fn view_expr(e: Expr) -> SpecExpr
    decreases e,
{
    match e {
        Expr::Ident { name } => SpecExpr::Ident { name: name@ },
        Expr::StrLit { value } => SpecExpr::StrLit { value: value@ },
        Expr::New { callee, args } => SpecExpr::New {
            callee: Box::new(view_expr(*callee)),
            args: view_exprs(args@),
        },
        Expr::Member { obj, prop } => SpecExpr::Member {
            obj: Box::new(view_expr(*obj)),
            prop: prop@,
        },
        Expr::Other { children } => SpecExpr::Other { children: view_exprs(children@) },
    }
}

pub open spec fn view_exprs(es: Seq<Expr>) -> Seq<SpecExpr>
    decreases es,
{
    Seq::new(
        es.len(),
        |i: int|
            if 0 <= i < es.len() {
                view_expr(es[i])
            } else {
                SpecExpr::Other { children: Seq::empty() }
            },
    )
}

pub open spec fn view_specifier(s: ImportSpecifier) -> SpecSpecifier {
    match s {
        ImportSpecifier::DefaultImport { local } => SpecSpecifier::DefaultImport { local: local@ },
        ImportSpecifier::Other => SpecSpecifier::Other,
    }
}

pub open spec fn view_specifiers(ss: Seq<ImportSpecifier>) -> Seq<SpecSpecifier> {
    Seq::new(ss.len(), |i: int| view_specifier(ss[i]))
}

pub open spec fn view_item(it: ModuleItem) -> SpecItem {
    match it {
        ModuleItem::Import { src, specifiers } => SpecItem::Import {
            src: src@,
            specifiers: view_specifiers(specifiers@),
        },
        ModuleItem::EmptyStmt => SpecItem::EmptyStmt,
        ModuleItem::Other { exprs } => SpecItem::Other { exprs: view_exprs(exprs@) },
    }
}

pub open spec fn view_items(items: Seq<ModuleItem>) -> Seq<SpecItem> {
    Seq::new(items.len(), |i: int| view_item(items[i]))
}

impl View for Expr {
    type V = SpecExpr;

    open spec fn view(&self) -> SpecExpr {
        view_expr(*self)
    }
}

impl View for ImportSpecifier {
    type V = SpecSpecifier;

    open spec fn view(&self) -> SpecSpecifier {
        view_specifier(*self)
    }
}

impl View for ModuleItem {
    type V = SpecItem;

    open spec fn view(&self) -> SpecItem {
        view_item(*self)
    }
}

} // verus!
