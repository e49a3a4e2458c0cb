//! Syntax tree of expressions. Every node records the span it covers.
use vstd::prelude::*;
use crate::token::{NumberKind, Span};

verus! {

/// Binary operators, from loosest to tightest:
/// `|| < && < is < == != < < > <= >= < + - < * / % < ??`.
#[derive(Debug, Clone, Copy, PartialEq, Eq, Structural)]
pub enum BinOp {
    Or,
    And,
    Eq,
    Neq,
    Lt,
    Gt,
    Lte,
    Gte,
    Add,
    Sub,
    Mul,
    Div,
    Rem,
    Coalesce,
}

/// Assignment operators.
#[derive(Debug, Clone, Copy, PartialEq, Eq, Structural)]
pub enum AssignOp {
    Assign,
    AddAssign,
    SubAssign,
    MulAssign,
    DivAssign,
}

/// Unary operators.
#[derive(Debug, Clone, Copy, PartialEq, Eq, Structural)]
pub enum UnaryOp {
    Not,
    Neg,
    BorrowRef,
}

/// An expression.
#[derive(Debug)]
#[allow(inconsistent_fields)]
pub enum Expr {
    /// A variable or an item path such as `a::b`, with the span of each
    /// component.
    Path { span: Span, segments: Vec<Span> },
    /// A number literal.
    LitNumber { span: Span, kind: NumberKind },
    /// A string literal.
    LitStr { span: Span },
    /// A character literal.
    LitChar { span: Span },
    /// A template string.
    LitTemplate { span: Span },
    /// `true` or `false`.
    LitBool { span: Span, value: bool },
    /// `()`.
    LitUnit { span: Span },
    /// `[a, b, ...]`.
    LitVec { span: Span, items: Vec<Expr> },
    /// `(e)`.
    ExprGroup { span: Span, expr: Box<Expr> },
    /// `{ e; e; ... }`.
    ExprBlock { span: Span, exprs: Vec<Expr> },
    /// `let name = e`.
    ExprLet { span: Span, name: Span, expr: Box<Expr> },
    /// `target = e`, `target += e`, ...
    ExprAssign { span: Span, op: AssignOp, target: Box<Expr>, value: Box<Expr> },
    /// `lhs op rhs`.
    ExprBinary { span: Span, op: BinOp, lhs: Box<Expr>, rhs: Box<Expr> },
    /// `op e`.
    ExprUnary { span: Span, op: UnaryOp, expr: Box<Expr> },
    /// `e is path` or `e is not path`.
    ExprIs { span: Span, negated: bool, expr: Box<Expr>, path: Span },
    /// `callee(args)`.
    ExprCall { span: Span, callee: Box<Expr>, args: Vec<Expr> },
    /// `e.field`.
    ExprFieldAccess { span: Span, expr: Box<Expr>, field: Span },
    /// `target[index]`.
    ExprIndexGet { span: Span, target: Box<Expr>, index: Box<Expr> },
    /// `if cond { ... } else ...`.
    ExprIf { span: Span, cond: Box<Expr>, then_block: Box<Expr>, else_branch: Option<Box<Expr>> },
    /// `while cond { ... }`.
    ExprWhile { span: Span, cond: Box<Expr>, body: Box<Expr> },
    /// `loop { ... }`.
    ExprLoop { span: Span, body: Box<Expr> },
    /// `for var in iter { ... }`.
    ExprFor { span: Span, var: Span, iter: Box<Expr>, body: Box<Expr> },
    /// `e?`.
    ExprTry { span: Span, expr: Box<Expr> },
    /// `e.await`.
    ExprAwait { span: Span, expr: Box<Expr> },
    /// `return` or `return e`.
    ExprReturn { span: Span, value: Option<Box<Expr>> },
    /// `break`.
    ExprBreak { span: Span },
}

/// The span an expression covers.
pub open spec fn span_of(e: Expr) -> Span {
    match e {
        Expr::Path { span, .. } => span,
        Expr::LitNumber { span, .. } => span,
        Expr::LitStr { span } => span,
        Expr::LitChar { span } => span,
        Expr::LitTemplate { span } => span,
        Expr::LitBool { span, .. } => span,
        Expr::LitUnit { span } => span,
        Expr::LitVec { span, .. } => span,
        Expr::ExprGroup { span, .. } => span,
        Expr::ExprBlock { span, .. } => span,
        Expr::ExprLet { span, .. } => span,
        Expr::ExprAssign { span, .. } => span,
        Expr::ExprBinary { span, .. } => span,
        Expr::ExprUnary { span, .. } => span,
        Expr::ExprIs { span, .. } => span,
        Expr::ExprCall { span, .. } => span,
        Expr::ExprFieldAccess { span, .. } => span,
        Expr::ExprIndexGet { span, .. } => span,
        Expr::ExprIf { span, .. } => span,
        Expr::ExprWhile { span, .. } => span,
        Expr::ExprLoop { span, .. } => span,
        Expr::ExprFor { span, .. } => span,
        Expr::ExprTry { span, .. } => span,
        Expr::ExprAwait { span, .. } => span,
        Expr::ExprReturn { span, .. } => span,
        Expr::ExprBreak { span } => span,
    }
}

/// Whether an expression may stand on the left of an assignment.
pub open spec fn is_lvalue(e: Expr) -> bool {
    match e {
        Expr::Path { .. } => true,
        Expr::ExprFieldAccess { .. } => true,
        Expr::ExprIndexGet { .. } => true,
        _ => false,
    }
}

impl Expr {
    /// The span this expression covers.
    pub fn span(&self) -> (r: Span)
        ensures
            r == span_of(*self),
    {
        match self {
            Expr::Path { span, .. } => *span,
            Expr::LitNumber { span, .. } => *span,
            Expr::LitStr { span } => *span,
            Expr::LitChar { span } => *span,
            Expr::LitTemplate { span } => *span,
            Expr::LitBool { span, .. } => *span,
            Expr::LitUnit { span } => *span,
            Expr::LitVec { span, .. } => *span,
            Expr::ExprGroup { span, .. } => *span,
            Expr::ExprBlock { span, .. } => *span,
            Expr::ExprLet { span, .. } => *span,
            Expr::ExprAssign { span, .. } => *span,
            Expr::ExprBinary { span, .. } => *span,
            Expr::ExprUnary { span, .. } => *span,
            Expr::ExprIs { span, .. } => *span,
            Expr::ExprCall { span, .. } => *span,
            Expr::ExprFieldAccess { span, .. } => *span,
            Expr::ExprIndexGet { span, .. } => *span,
            Expr::ExprIf { span, .. } => *span,
            Expr::ExprWhile { span, .. } => *span,
            Expr::ExprLoop { span, .. } => *span,
            Expr::ExprFor { span, .. } => *span,
            Expr::ExprTry { span, .. } => *span,
            Expr::ExprAwait { span, .. } => *span,
            Expr::ExprReturn { span, .. } => *span,
            Expr::ExprBreak { span } => *span,
        }
    }

    /// Whether this expression may stand on the left of an assignment.
    pub fn is_lvalue(&self) -> (r: bool)
        ensures
            r == is_lvalue(*self),
    {
        match self {
            Expr::Path { .. } => true,
            Expr::ExprFieldAccess { .. } => true,
            Expr::ExprIndexGet { .. } => true,
            _ => false,
        }
    }
}

} // verus!
