//! The expressions that lowering consumes, as the parser produces them.
use vstd::prelude::*;
use crate::ir::VarId;
use crate::loc::Span;
use crate::types::TypeId;
use crate::value::Op;

verus! {

/// An expression of the source program with its span.
#[derive(Debug)]
pub struct Expr {
    pub span: Span,
    pub kind: ExprKind,
}

/// The forms of source expressions.
#[derive(Debug)]
pub enum ExprKind {
    /// An integer literal of the given integer type.
    Integer(u64, TypeId),
    /// A boolean literal.
    Bool(bool),
    /// The unit value.
    Unit,
    /// A reference to a declared variable.
    Var(VarId),
    /// A binary operator applied to two operands.
    Bin(Box<Expr>, Op, Box<Expr>),
    /// A unary operator applied to one operand.
    Unary(Op, Box<Expr>),
}

/// Depth of the expression tree; leaves have depth zero.
pub open spec fn height(e: Expr) -> nat
    decreases e,
{
    match e.kind {
        ExprKind::Bin(l, _, r) => {
            let hl = height(*l);
            let hr = height(*r);
            1 + if hl >= hr { hl } else { hr }
        },
        ExprKind::Unary(_, x) => 1 + height(*x),
        _ => 0,
    }
}

/// Number of nodes of the expression tree.
pub open spec fn size(e: Expr) -> nat
    decreases e,
{
    match e.kind {
        ExprKind::Bin(l, _, r) => 1 + size(*l) + size(*r),
        ExprKind::Unary(_, x) => 1 + size(*x),
        _ => 1,
    }
}

} // verus!
