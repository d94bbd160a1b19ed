//! Typed IR expressions and the operators they apply.
use vstd::prelude::*;
use crate::ir::VarId;
use crate::loc::Span;
use crate::types::TypeId;

verus! {

/// Operators of the source language.
#[derive(Clone, Copy, Debug, PartialEq, Eq, Structural)]
pub enum Op {
    Add,
    Sub,
    Star,
    Div,
    Mod,
    Eq,
    Greater,
    GreaterEq,
    Less,
    LessEq,
    ShLeft,
    ShRight,
    LogicalAnd,
    LogicalOr,
    LogicalNot,
    AND,
    OR,
    XOR,
    NOT,
    Assign,
}

/// How an operator is written in source text.
pub open spec fn op_text(op: Op) -> Seq<char> {
    match op {
        Op::Add => seq!['+'],
        Op::Sub => seq!['-'],
        Op::Star => seq!['*'],
        Op::Div => seq!['/'],
        Op::Mod => seq!['%'],
        Op::Eq => seq!['=', '='],
        Op::Greater => seq!['>'],
        Op::GreaterEq => seq!['>', '='],
        Op::Less => seq!['<'],
        Op::LessEq => seq!['<', '='],
        Op::ShLeft => seq!['<', '<'],
        Op::ShRight => seq!['>', '>'],
        Op::LogicalAnd => seq!['&', '&'],
        Op::LogicalOr => seq!['|', '|'],
        Op::LogicalNot => seq!['!'],
        Op::AND => seq!['&'],
        Op::OR => seq!['|'],
        Op::XOR => seq!['^'],
        Op::NOT => seq!['~'],
        Op::Assign => seq!['='],
    }
}

impl Op {
    /// How this operator is written in source text.
    pub fn text(&self) -> (r: &'static str)
        ensures
            r@ == op_text(*self),
    {
        match self {
            Op::Add => { proof { reveal_strlit("+"); } "+" },
            Op::Sub => { proof { reveal_strlit("-"); } "-" },
            Op::Star => { proof { reveal_strlit("*"); } "*" },
            Op::Div => { proof { reveal_strlit("/"); } "/" },
            Op::Mod => { proof { reveal_strlit("%"); } "%" },
            Op::Eq => { proof { reveal_strlit("=="); } "==" },
            Op::Greater => { proof { reveal_strlit(">"); } ">" },
            Op::GreaterEq => { proof { reveal_strlit(">="); } ">=" },
            Op::Less => { proof { reveal_strlit("<"); } "<" },
            Op::LessEq => { proof { reveal_strlit("<="); } "<=" },
            Op::ShLeft => { proof { reveal_strlit("<<"); } "<<" },
            Op::ShRight => { proof { reveal_strlit(">>"); } ">>" },
            Op::LogicalAnd => { proof { reveal_strlit("&&"); } "&&" },
            Op::LogicalOr => { proof { reveal_strlit("||"); } "||" },
            Op::LogicalNot => { proof { reveal_strlit("!"); } "!" },
            Op::AND => { proof { reveal_strlit("&"); } "&" },
            Op::OR => { proof { reveal_strlit("|"); } "|" },
            Op::XOR => { proof { reveal_strlit("^"); } "^" },
            Op::NOT => { proof { reveal_strlit("~"); } "~" },
            Op::Assign => { proof { reveal_strlit("="); } "=" },
        }
    }
}

/// What an expression computes.
#[derive(Debug)]
pub enum IrExprKind {
    /// The current value of a variable.
    Var(VarId),
    /// An integer constant.
    Integer(u64),
    /// A boolean constant.
    Bool(bool),
    /// The unit value.
    Unit,
    /// A binary operator applied to two operands.
    Binary(Box<IrExpr>, Op, Box<IrExpr>),
    /// A unary operator applied to one operand.
    Unary(Op, Box<IrExpr>),
}

/// An expression with its source span and its resolved type.
#[derive(Debug)]
pub struct IrExpr {
    pub span: Span,
    pub ty: TypeId,
    pub kind: IrExprKind,
}

/// A value that statements and terminators consume.
pub type IrAnyValue = IrExpr;

} // verus!
