//! Lowering of source expressions into typed IR expressions: operands
//! bottom-up, then each operator's typing rule, which states the operand
//! types it accepts, the type it yields, and the diagnostic for a mismatch.
use vstd::prelude::*;
use crate::ast::{Expr, ExprKind, height, size};
use crate::diagnostic::{Diagnostic, Label, LabelStyle, Severity, contains, count_style};
use crate::ir::{
    BOOL, IrContext, IrVar, N_PRIMITIVES, UNIT, lemma_extend_refl, lemma_extend_trans, lemma_insert_extends,
    types_extend,
};
use crate::loc::{FileId, Span};
use crate::typename::type_text;
use crate::types::{IrType, TypeId, refs_below};
use crate::value::{IrExpr, IrExprKind, Op, op_text};

verus! {

/// Operators that combine two booleans into a boolean.
pub open spec fn bool_op(op: Op) -> bool {
    op is LogicalAnd || op is LogicalOr || op is LogicalNot || op is Eq
}

/// Operators that combine two integers.
pub open spec fn int_op(op: Op) -> bool {
    op is Eq || op is Greater || op is GreaterEq || op is Less || op is LessEq || op is Star
        || op is Div || op is Add || op is Sub || op is ShLeft || op is ShRight
}

/// Operators that combine two floats.
pub open spec fn float_op(op: Op) -> bool {
    op is Eq || op is Greater || op is GreaterEq || op is Less || op is LessEq || op is Star
        || op is Div || op is Add || op is Sub
}

/// The type of `l op r` where `l` has type `lt` stored under `lty` and `r`
/// has type `rt` stored under `rty`; `None` where the operator does not
/// accept these operands. Integer operands must have the same handle.
pub open spec fn bin_type(lt: IrType, lty: TypeId, op: Op, rt: IrType, rty: TypeId) -> Option<TypeId> {
    if lt is Bool && rt is Bool && bool_op(op) {
        Some(BOOL)
    } else if lt is Integer && rt is Integer && lty == rty && int_op(op) {
        Some(lty)
    } else if lt is Float && rt is Float && float_op(op) {
        Some(lty)
    } else if lt is Ptr && rt is Integer && (op is ShLeft || op is ShRight) {
        Some(lty)
    } else if lt is Ptr && (rt is Ptr || rt is Integer) && (op is Add || op is Sub) {
        Some(lty)
    } else {
        None
    }
}

/// The type of `op e` where `e` has type `t` stored under `ty`, for every
/// operator but address-of; `None` where the operator does not accept it.
pub open spec fn unary_type(op: Op, t: IrType, ty: TypeId) -> Option<TypeId> {
    if op is Star && t is Ptr {
        Some(t->Ptr_0)
    } else if op is Sub && (t is Integer || t is Float) {
        Some(ty)
    } else if op is NOT && (t is Integer || t is Ptr) {
        Some(ty)
    } else {
        None
    }
}

/// The message of a binary operator mismatch.
pub open spec fn bin_message(op: Op, lname: Seq<char>, rname: Seq<char>) -> Seq<char> {
    "Cannot apply binary operator "@ + op_text(op) + " to operand types "@ + lname + " and "@
        + rname
}

/// The message of a unary operator mismatch.
pub open spec fn unary_message(op: Op, name: Seq<char>) -> Seq<char> {
    "Cannot apply unary operator "@ + op_text(op) + " to expression of type "@ + name
}

/// `d` reports that `op` does not accept operands `lhs` and `rhs` of `file`:
/// an error naming the operator and both operand types, labelled with the
/// whole expression (primary), then each operand with its type (secondary).
pub open spec fn is_bin_mismatch(
    d: Diagnostic,
    types: Seq<IrType>,
    file: FileId,
    lhs: (TypeId, Span),
    op: Op,
    rhs: (TypeId, Span),
) -> bool {
    let lname = type_text(types, lhs.0 as nat);
    let rname = type_text(types, rhs.0 as nat);
    &&& d.severity == Severity::Error
    &&& d.message@ == bin_message(op, lname, rname)
    &&& d.labels@.len() == 3
    &&& d.labels@[0].style == LabelStyle::Primary
    &&& d.labels@[0].file_id == file
    &&& d.labels@[0].span == (Span { from: lhs.1.from, to: rhs.1.to })
    &&& d.labels@[0].message@ == Seq::<char>::empty()
    &&& d.labels@[1].style == LabelStyle::Secondary
    &&& d.labels@[1].file_id == file
    &&& d.labels@[1].span == lhs.1
    &&& d.labels@[1].message@ == "LHS of type "@ + lname + " appears here"@
    &&& d.labels@[2].style == LabelStyle::Secondary
    &&& d.labels@[2].file_id == file
    &&& d.labels@[2].span == rhs.1
    &&& d.labels@[2].message@ == "RHS of type "@ + rname + " appears here"@
}

/// `d` reports that `op` does not accept operand `e` of `file`: an error
/// naming the operator and the operand's type, labelled with the operand.
pub open spec fn is_unary_mismatch(
    d: Diagnostic,
    types: Seq<IrType>,
    file: FileId,
    op: Op,
    e: (TypeId, Span),
) -> bool {
    &&& d.severity == Severity::Error
    &&& d.message@ == unary_message(op, type_text(types, e.0 as nat))
    &&& d.labels@.len() == 1
    &&& d.labels@[0].style == LabelStyle::Primary
    &&& d.labels@[0].file_id == file
    &&& d.labels@[0].span == e.1
    &&& d.labels@[0].message@ == Seq::<char>::empty()
}

/// What lowering an expression comes to: the typed expression, or the
/// first operator mismatch met, bottom-up and left to right.
pub enum Outcome {
    Typed(IrExpr),
    BinMismatch((TypeId, Span), Op, (TypeId, Span)),
    UnaryMismatch(Op, (TypeId, Span)),
}

/// Every type and variable that `e` names is stored: types below `ntypes`,
/// variables in `vars`.
pub open spec fn expr_valid(e: Expr, ntypes: nat, vars: Seq<IrVar>) -> bool
    decreases e,
{
    match e.kind {
        ExprKind::Integer(_, t) => t < ntypes,
        ExprKind::Var(v) => v < vars.len() && vars[v as int].ty < ntypes,
        ExprKind::Bin(l, _, r) => expr_valid(*l, ntypes, vars) && expr_valid(*r, ntypes, vars),
        ExprKind::Unary(_, x) => expr_valid(*x, ntypes, vars),
        _ => true,
    }
}

/// The type store after lowering `e` from `types`, and the outcome.
pub open spec fn lower_expr_spec(types: Seq<IrType>, vars: Seq<IrVar>, e: Expr) -> (Seq<IrType>, Outcome)
    decreases height(e), 1nat,
{
    match e.kind {
        ExprKind::Integer(v, t) => (types, Outcome::Typed(IrExpr { span: e.span, ty: t, kind: IrExprKind::Integer(v) })),
        ExprKind::Bool(b) => (types, Outcome::Typed(IrExpr { span: e.span, ty: BOOL, kind: IrExprKind::Bool(b) })),
        ExprKind::Unit => (types, Outcome::Typed(IrExpr { span: e.span, ty: UNIT, kind: IrExprKind::Unit })),
        ExprKind::Var(v) => (types, Outcome::Typed(IrExpr { span: e.span, ty: vars[v as int].ty, kind: IrExprKind::Var(v) })),
        ExprKind::Bin(l, op, r) => lower_bin_spec(types, vars, *l, op, *r),
        ExprKind::Unary(op, x) => lower_unary_spec(types, vars, op, *x),
    }
}

/// Lowering `lhs op rhs`: the left operand first, then the right one, then
/// the operator's typing rule.
pub open spec fn lower_bin_spec(types: Seq<IrType>, vars: Seq<IrVar>, lhs: Expr, op: Op, rhs: Expr) -> (Seq<IrType>, Outcome)
    decreases 1 + if height(lhs) >= height(rhs) { height(lhs) } else { height(rhs) }, 0nat,
{
    let (t1, o1) = lower_expr_spec(types, vars, lhs);
    match o1 {
        Outcome::Typed(l) => {
            let (t2, o2) = lower_expr_spec(t1, vars, rhs);
            match o2 {
                Outcome::Typed(r) => match bin_type(t2[l.ty as int], l.ty, op, t2[r.ty as int], r.ty) {
                    Some(t) => (t2, Outcome::Typed(IrExpr {
                        span: Span { from: l.span.from, to: r.span.to },
                        ty: t,
                        kind: IrExprKind::Binary(Box::new(l), op, Box::new(r)),
                    })),
                    None => (t2, Outcome::BinMismatch((l.ty, l.span), op, (r.ty, r.span))),
                },
                _ => (t2, o2),
            }
        },
        _ => (t1, o1),
    }
}

/// Lowering `op expr`: the operand first, then the operator's typing rule;
/// address-of stores a new pointer type.
pub open spec fn lower_unary_spec(types: Seq<IrType>, vars: Seq<IrVar>, op: Op, expr: Expr) -> (Seq<IrType>, Outcome)
    decreases 1 + height(expr), 0nat,
{
    let (t1, o1) = lower_expr_spec(types, vars, expr);
    match o1 {
        Outcome::Typed(x) => if op is AND {
            (t1.push(IrType::Ptr(x.ty)), Outcome::Typed(IrExpr {
                span: x.span,
                ty: t1.len() as TypeId,
                kind: IrExprKind::Unary(op, Box::new(x)),
            }))
        } else {
            match unary_type(op, t1[x.ty as int], x.ty) {
                Some(u) => (t1, Outcome::Typed(IrExpr {
                    span: x.span,
                    ty: u,
                    kind: IrExprKind::Unary(op, Box::new(x)),
                })),
                None => (t1, Outcome::UnaryMismatch(op, (x.ty, x.span))),
            }
        },
        _ => (t1, o1),
    }
}

/// `r` is what lowering hands back for outcome `o`, with `types` the store
/// that lowering left.
pub open spec fn lowered_as(r: Result<IrExpr, Diagnostic>, types: Seq<IrType>, file: FileId, o: Outcome) -> bool {
    match o {
        Outcome::Typed(x) => r matches Ok(e) && e == x,
        Outcome::BinMismatch(l, op, rr) => r matches Err(d) && is_bin_mismatch(d, types, file, l, op, rr),
        Outcome::UnaryMismatch(op, x) => r matches Err(d) && is_unary_mismatch(d, types, file, op, x),
    }
}

/// A typed outcome names a stored type.
pub open spec fn outcome_valid(o: Outcome, ntypes: nat) -> bool {
    o matches Outcome::Typed(x) ==> x.ty < ntypes
}

proof fn lemma_valid_mono(e: Expr, n: nat, m: nat, vars: Seq<IrVar>)
    requires
        expr_valid(e, n, vars),
        n <= m,
    ensures
        expr_valid(e, m, vars),
    decreases e,
{
    match e.kind {
        ExprKind::Bin(l, _, r) => {
            lemma_valid_mono(*l, n, m, vars);
            lemma_valid_mono(*r, n, m, vars);
        },
        ExprKind::Unary(_, x) => lemma_valid_mono(*x, n, m, vars),
        _ => {},
    }
}

/// Lowers typed expressions into a context.
pub struct IrLowerer {
    pub ctx: IrContext,
}

impl IrLowerer {
    /// A lowerer over `ctx`.
    pub fn new(ctx: IrContext) -> (r: Self)
        ensures
            r.ctx == ctx,
    {
        IrLowerer { ctx }
    }

    /// Lowers `e`: operands bottom-up and left to right, each operator typed
    /// as soon as its operands are; the first mismatch is returned.
    pub fn lower_expr(&mut self, file: FileId, e: &Expr) -> (r: Result<IrExpr, Diagnostic>)
        requires
            old(self).ctx.wf(),
            expr_valid(*e, old(self).ctx.types@.len(), old(self).ctx.vars@),
            old(self).ctx.types@.len() + size(*e) < usize::MAX,
        ensures
            final(self).ctx.wf(),
            final(self).ctx.funs@ == old(self).ctx.funs@,
            final(self).ctx.bbs@ == old(self).ctx.bbs@,
            final(self).ctx.vars@ == old(self).ctx.vars@,
            final(self).ctx.types@.len() <= old(self).ctx.types@.len() + size(*e),
            types_extend(old(self).ctx.types@, final(self).ctx.types@),
            ({
                let (types, o) = lower_expr_spec(old(self).ctx.types@, old(self).ctx.vars@, *e);
                &&& final(self).ctx.types@ == types
                &&& lowered_as(r, types, file, o)
                &&& outcome_valid(o, types.len())
            }),
        decreases height(*e), 1nat,
    {
        proof {
            lemma_extend_refl(self.ctx.types@);
        }
        match &e.kind {
            ExprKind::Integer(v, t) => Ok(IrExpr { span: e.span, ty: *t, kind: IrExprKind::Integer(*v) }),
            ExprKind::Bool(b) => Ok(IrExpr { span: e.span, ty: BOOL, kind: IrExprKind::Bool(*b) }),
            ExprKind::Unit => Ok(IrExpr { span: e.span, ty: UNIT, kind: IrExprKind::Unit }),
            ExprKind::Var(v) => {
                let ty = self.ctx.var(*v).ty;
                Ok(IrExpr { span: e.span, ty, kind: IrExprKind::Var(*v) })
            },
            ExprKind::Bin(l, op, r) => self.lower_bin(file, l, *op, r),
            ExprKind::Unary(op, x) => self.lower_unary(file, *op, x),
        }
    }

    /// Lowers `lhs op rhs`: both operands first, left to right, then the
    /// operator's typing rule ([IrLowerer::type_bin]).
    pub fn lower_bin(&mut self, file: FileId, lhs: &Expr, op: Op, rhs: &Expr) -> (r: Result<IrExpr, Diagnostic>)
        requires
            old(self).ctx.wf(),
            expr_valid(*lhs, old(self).ctx.types@.len(), old(self).ctx.vars@),
            expr_valid(*rhs, old(self).ctx.types@.len(), old(self).ctx.vars@),
            old(self).ctx.types@.len() + size(*lhs) + size(*rhs) < usize::MAX,
        ensures
            final(self).ctx.wf(),
            final(self).ctx.funs@ == old(self).ctx.funs@,
            final(self).ctx.bbs@ == old(self).ctx.bbs@,
            final(self).ctx.vars@ == old(self).ctx.vars@,
            final(self).ctx.types@.len() <= old(self).ctx.types@.len() + size(*lhs) + size(*rhs),
            types_extend(old(self).ctx.types@, final(self).ctx.types@),
            ({
                let (types, o) = lower_bin_spec(old(self).ctx.types@, old(self).ctx.vars@, *lhs, op, *rhs);
                &&& final(self).ctx.types@ == types
                &&& lowered_as(r, types, file, o)
                &&& outcome_valid(o, types.len())
            }),
            r matches Ok(e) ==> e.kind matches IrExprKind::Binary(_, o, _) && o == op,
        decreases 1 + if height(*lhs) >= height(*rhs) { height(*lhs) } else { height(*rhs) }, 0nat,
    {
        let ghost types0 = self.ctx.types@;
        let ghost vars = self.ctx.vars@;
        let l = match self.lower_expr(file, lhs) {
            Ok(l) => l,
            Err(d) => return Err(d),
        };
        let ghost types1 = self.ctx.types@;
        proof {
            lemma_valid_mono(*rhs, types0.len(), self.ctx.types@.len(), vars);
        }
        let rr = self.lower_expr(file, rhs);
        let ghost types2 = self.ctx.types@;
        proof {
            lemma_extend_trans(types0, types1, types2);
        }
        let r = match rr {
            Ok(r) => r,
            Err(d) => return Err(d),
        };
        let res = self.type_bin(file, l, op, r);
        proof {
            if res is Ok {
                assert(types2.len() >= N_PRIMITIVES);
            }
        }
        res
    }

    /// Lowers `op expr`: the operand first, then the operator's typing rule
    /// ([IrLowerer::type_unary]).
    pub fn lower_unary(&mut self, file: FileId, op: Op, expr: &Expr) -> (r: Result<IrExpr, Diagnostic>)
        requires
            old(self).ctx.wf(),
            expr_valid(*expr, old(self).ctx.types@.len(), old(self).ctx.vars@),
            old(self).ctx.types@.len() + size(*expr) < usize::MAX,
        ensures
            final(self).ctx.wf(),
            final(self).ctx.funs@ == old(self).ctx.funs@,
            final(self).ctx.bbs@ == old(self).ctx.bbs@,
            final(self).ctx.vars@ == old(self).ctx.vars@,
            final(self).ctx.types@.len() <= old(self).ctx.types@.len() + size(*expr) + 1,
            types_extend(old(self).ctx.types@, final(self).ctx.types@),
            ({
                let (types, o) = lower_unary_spec(old(self).ctx.types@, old(self).ctx.vars@, op, *expr);
                &&& final(self).ctx.types@ == types
                &&& lowered_as(r, types, file, o)
                &&& outcome_valid(o, types.len())
            }),
            r matches Ok(e) ==> e.kind matches IrExprKind::Unary(o, _) && o == op,
        decreases 1 + height(*expr), 0nat,
    {
        let x = match self.lower_expr(file, expr) {
            Ok(x) => x,
            Err(d) => return Err(d),
        };
        let ghost types0 = old(self).ctx.types@;
        let ghost types1 = self.ctx.types@;
        proof {
            assert(refs_below(types1[x.ty as int], x.ty as nat));
            lemma_insert_extends(types1, IrType::Ptr(x.ty));
            lemma_extend_trans(types0, types1, types1.push(IrType::Ptr(x.ty)));
            lemma_extend_refl(types1);
            lemma_extend_trans(types0, types1, types1);
        }
        self.type_unary(file, op, x)
    }

    /// Types `lhs op rhs` from its lowered operands. On success the result
    /// spans from the start of `lhs` to the end of `rhs`; otherwise a
    /// mismatch diagnostic is returned.
    pub fn type_bin(&self, file: FileId, lhs: IrExpr, op: Op, rhs: IrExpr) -> (r: Result<IrExpr, Diagnostic>)
        requires
            self.ctx.wf(),
            self.ctx.valid_type(lhs.ty),
            self.ctx.valid_type(rhs.ty),
        ensures
            ({
                let types = self.ctx.types@;
                match bin_type(types[lhs.ty as int], lhs.ty, op, types[rhs.ty as int], rhs.ty) {
                    Some(t) => r matches Ok(e) && e.ty == t && e.span == (Span {
                        from: lhs.span.from,
                        to: rhs.span.to,
                    }) && e.kind == IrExprKind::Binary(Box::new(lhs), op, Box::new(rhs)),
                    None => r matches Err(d) && is_bin_mismatch(d, types, file, (lhs.ty, lhs.span), op, (rhs.ty, rhs.span)),
                }
            }),
    {
        let ghost types = self.ctx.types@;
        let lt = self.ctx.ty(lhs.ty);
        let rt = self.ctx.ty(rhs.ty);
        let ty: Option<TypeId> = match (lt, op, rt) {
            (IrType::Bool, Op::LogicalAnd | Op::LogicalOr | Op::LogicalNot | Op::Eq, IrType::Bool) => Some(BOOL),
            (
                IrType::Integer(_),
                Op::Eq | Op::Greater | Op::GreaterEq | Op::Less | Op::LessEq | Op::Star | Op::Div
                | Op::Add | Op::Sub | Op::ShLeft | Op::ShRight,
                IrType::Integer(_),
            ) => if lhs.ty == rhs.ty {
                Some(lhs.ty)
            } else {
                None
            },
            (
                IrType::Float(_),
                Op::Eq | Op::Greater | Op::GreaterEq | Op::Less | Op::LessEq | Op::Star | Op::Div
                | Op::Add | Op::Sub,
                IrType::Float(_),
            ) => Some(lhs.ty),
            (IrType::Ptr(_), Op::ShRight | Op::ShLeft, IrType::Integer(_)) => Some(lhs.ty),
            (IrType::Ptr(_), Op::Add | Op::Sub, IrType::Ptr(_) | IrType::Integer(_)) => Some(lhs.ty),
            _ => None,
        };
        assert(ty == bin_type(types[lhs.ty as int], lhs.ty, op, types[rhs.ty as int], rhs.ty));
        match ty {
            Some(ty) => {
                let span = Span { from: lhs.span.from, to: rhs.span.to };
                Ok(IrExpr { span, ty, kind: IrExprKind::Binary(Box::new(lhs), op, Box::new(rhs)) })
            },
            None => {
                let lname = self.ctx.typename(lhs.ty);
                let rname = self.ctx.typename(rhs.ty);
                let mut message = String::from_str("Cannot apply binary operator ");
                message.append(op.text());
                message.append(" to operand types ");
                message.append(lname.as_str());
                message.append(" and ");
                message.append(rname.as_str());
                let mut lmsg = String::from_str("LHS of type ");
                lmsg.append(lname.as_str());
                lmsg.append(" appears here");
                let mut rmsg = String::from_str("RHS of type ");
                rmsg.append(rname.as_str());
                rmsg.append(" appears here");
                let mut labels: Vec<Label> = Vec::new();
                labels.push(Label {
                    style: LabelStyle::Primary,
                    file_id: file,
                    span: Span { from: lhs.span.from, to: rhs.span.to },
                    message: String::new(),
                });
                labels.push(Label { style: LabelStyle::Secondary, file_id: file, span: lhs.span, message: lmsg });
                labels.push(Label { style: LabelStyle::Secondary, file_id: file, span: rhs.span, message: rmsg });
                let d = Diagnostic { severity: Severity::Error, message, labels };
                assert(d.message@ =~= bin_message(op, lname@, rname@));
                assert(d.labels@[1].message@ =~= "LHS of type "@ + lname@ + " appears here"@);
                assert(d.labels@[2].message@ =~= "RHS of type "@ + rname@ + " appears here"@);
                Err(d)
            },
        }
    }

    /// Types `op expr` from its lowered operand. Address-of stores a new
    /// pointer type and yields its handle; every other operator leaves the
    /// context as it is. The result spans the operand.
    pub fn type_unary(&mut self, file: FileId, op: Op, expr: IrExpr) -> (r: Result<IrExpr, Diagnostic>)
        requires
            old(self).ctx.wf(),
            old(self).ctx.valid_type(expr.ty),
            old(self).ctx.types@.len() < usize::MAX,
        ensures
            final(self).ctx.wf(),
            final(self).ctx.funs@ == old(self).ctx.funs@,
            final(self).ctx.bbs@ == old(self).ctx.bbs@,
            final(self).ctx.vars@ == old(self).ctx.vars@,
            op is AND ==> {
                &&& final(self).ctx.types@ == old(self).ctx.types@.push(IrType::Ptr(expr.ty))
                &&& r matches Ok(e) && e.ty == old(self).ctx.types@.len() && e.span == expr.span
                    && e.kind == IrExprKind::Unary(op, Box::new(expr))
            },
            !(op is AND) ==> {
                let types = old(self).ctx.types@;
                &&& final(self).ctx.types@ == types
                &&& match unary_type(op, types[expr.ty as int], expr.ty) {
                    Some(t) => r matches Ok(e) && e.ty == t && e.span == expr.span && e.kind
                        == IrExprKind::Unary(op, Box::new(expr)),
                    None => r matches Err(d) && is_unary_mismatch(d, types, file, op, (expr.ty, expr.span)),
                }
            },
    {
        let ghost types = self.ctx.types@;
        let ty: Option<TypeId> = match op {
            Op::AND => Some(self.ctx.insert_type(IrType::Ptr(expr.ty))),
            _ => match (op, self.ctx.ty(expr.ty)) {
                (Op::Star, IrType::Ptr(to)) => Some(*to),
                (Op::Sub, IrType::Integer(_) | IrType::Float(_)) => Some(expr.ty),
                (Op::NOT, IrType::Integer(_) | IrType::Ptr(_)) => Some(expr.ty),
                _ => None,
            },
        };
        assert(!(op is AND) ==> ty == unary_type(op, types[expr.ty as int], expr.ty));
        match ty {
            Some(ty) => {
                let span = expr.span;
                Ok(IrExpr { ty, span, kind: IrExprKind::Unary(op, Box::new(expr)) })
            },
            None => {
                let name = self.ctx.typename(expr.ty);
                let mut message = String::from_str("Cannot apply unary operator ");
                message.append(op.text());
                message.append(" to expression of type ");
                message.append(name.as_str());
                let mut labels: Vec<Label> = Vec::new();
                labels.push(Label {
                    style: LabelStyle::Primary,
                    file_id: file,
                    span: expr.span,
                    message: String::new(),
                });
                let d = Diagnostic { severity: Severity::Error, message, labels };
                assert(d.message@ =~= unary_message(op, name@));
                Err(d)
            },
        }
    }
}

/// Every binary mismatch diagnostic carries exactly one primary label and
/// two secondary ones, and its message names both operand types as the
/// typename formatter renders them.
pub proof fn lemma_bin_mismatch_complete(
    d: Diagnostic,
    types: Seq<IrType>,
    file: FileId,
    lhs: (TypeId, Span),
    op: Op,
    rhs: (TypeId, Span),
)
    requires
        is_bin_mismatch(d, types, file, lhs, op, rhs),
    ensures
        count_style(d.labels@, LabelStyle::Primary) == 1,
        count_style(d.labels@, LabelStyle::Secondary) == 2,
        contains(d.message@, type_text(types, lhs.0 as nat)),
        contains(d.message@, type_text(types, rhs.0 as nat)),
{
    let labels = d.labels@;
    reveal_with_fuel(count_style, 4);
    assert(labels.drop_last().drop_last().drop_last() =~= Seq::<Label>::empty());
    assert(labels.drop_last().drop_last().last() == labels[0]);
    assert(labels.drop_last().last() == labels[1]);
    let lname = type_text(types, lhs.0 as nat);
    let rname = type_text(types, rhs.0 as nat);
    let head = "Cannot apply binary operator "@ + op_text(op) + " to operand types "@;
    let mid = head + lname + " and "@;
    assert(d.message@.subrange(head.len() as int, (head.len() + lname.len()) as int) =~= lname);
    assert(d.message@.subrange(mid.len() as int, (mid.len() + rname.len()) as int) =~= rname);
}

/// Every unary mismatch diagnostic carries exactly one label, a primary one,
/// and its message names the operand type as the typename formatter renders it.
pub proof fn lemma_unary_mismatch_complete(
    d: Diagnostic,
    types: Seq<IrType>,
    file: FileId,
    op: Op,
    e: (TypeId, Span),
)
    requires
        is_unary_mismatch(d, types, file, op, e),
    ensures
        count_style(d.labels@, LabelStyle::Primary) == 1,
        count_style(d.labels@, LabelStyle::Secondary) == 0,
        contains(d.message@, type_text(types, e.0 as nat)),
{
    let labels = d.labels@;
    reveal_with_fuel(count_style, 2);
    assert(labels.drop_last() =~= Seq::<Label>::empty());
    let name = type_text(types, e.0 as nat);
    let head = "Cannot apply unary operator "@ + op_text(op) + " to expression of type "@;
    assert(d.message@.subrange(head.len() as int, (head.len() + name.len()) as int) =~= name);
}

/// The span a lowered expression gets: a leaf keeps its own; a binary
/// expression runs from the start of its left operand's to the end of its
/// right operand's; a unary one keeps its operand's.
pub open spec fn lowered_span(e: Expr) -> Span
    decreases e,
{
    match e.kind {
        ExprKind::Bin(l, _, r) => Span { from: lowered_span(*l).from, to: lowered_span(*r).to },
        ExprKind::Unary(_, x) => lowered_span(*x),
        _ => e.span,
    }
}

/// Whatever the operators and operand types, an expression that lowers to a
/// type gets the span [lowered_span] gives: each binary node spans from its
/// left operand's start to its right operand's end.
pub proof fn lemma_span_composition(types: Seq<IrType>, vars: Seq<IrVar>, e: Expr)
    ensures
        lower_expr_spec(types, vars, e).1 matches Outcome::Typed(x) ==> x.span == lowered_span(e),
    decreases e,
{
    match e.kind {
        ExprKind::Bin(l, op, r) => {
            lemma_span_composition(types, vars, *l);
            let t1 = lower_expr_spec(types, vars, *l).0;
            lemma_span_composition(t1, vars, *r);
        },
        ExprKind::Unary(_, x) => lemma_span_composition(types, vars, *x),
        _ => {},
    }
}

} // verus!
