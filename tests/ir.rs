use sparkir::ast::{Expr, ExprKind};
use sparkir::diagnostic::{Diagnostic, LabelStyle, Severity};
use sparkir::ir::{
    FunFlags, IrBB, IrBody, IrContext, IrFun, IrStmt, IrTerminator, IrVar, BOOL, F32, F64, I16,
    I32, I64, I8, INVALID, U16, U32, U64, U8, UNIT,
};
use sparkir::loc::Span;
use sparkir::lower::IrLowerer;
use sparkir::typename::write_dec;
use sparkir::types::{
    IntegerWidth, IrArrayType, IrFloatType, IrFunType, IrIntegerType, IrStructType, IrSumType,
    IrType, TypeId,
};
use sparkir::value::{IrExpr, IrExprKind, Op};

fn leaf(ty: TypeId, from: usize, to: usize) -> IrExpr {
    IrExpr { span: Span::new(from, to), ty, kind: IrExprKind::Integer(0) }
}

fn is_int(t: &IrType, signed: bool, width: IntegerWidth) -> bool {
    matches!(t, IrType::Integer(IrIntegerType { signed: s, width: w }) if *s == signed && *w == width)
}

fn check_primitives(ctx: &IrContext) {
    assert!(is_int(ctx.ty(I8), true, IntegerWidth::Eight));
    assert!(is_int(ctx.ty(I16), true, IntegerWidth::Sixteen));
    assert!(is_int(ctx.ty(I32), true, IntegerWidth::ThirtyTwo));
    assert!(is_int(ctx.ty(I64), true, IntegerWidth::SixtyFour));
    assert!(is_int(ctx.ty(U8), false, IntegerWidth::Eight));
    assert!(is_int(ctx.ty(U16), false, IntegerWidth::Sixteen));
    assert!(is_int(ctx.ty(U32), false, IntegerWidth::ThirtyTwo));
    assert!(is_int(ctx.ty(U64), false, IntegerWidth::SixtyFour));
    assert!(matches!(ctx.ty(BOOL), IrType::Bool));
    assert!(matches!(ctx.ty(UNIT), IrType::Unit));
    assert!(matches!(ctx.ty(F32), IrType::Float(IrFloatType { doublewide: false })));
    assert!(matches!(ctx.ty(F64), IrType::Float(IrFloatType { doublewide: true })));
    assert!(matches!(ctx.ty(INVALID), IrType::Invalid));
}

fn struct_x(ctx: &mut IrContext) -> TypeId {
    ctx.insert_type(IrType::Struct(IrStructType { fields: vec![(I32, "x".to_string())] }))
}

fn lower_bin_ty(lw: &IrLowerer, l: TypeId, op: Op, r: TypeId) -> Result<TypeId, Diagnostic> {
    lw.type_bin(0, leaf(l, 0, 1), op, leaf(r, 4, 5)).map(|e| e.ty)
}

#[test]
fn fresh_context_has_primitives_in_order() {
    let ctx = IrContext::new();
    assert_eq!(ctx.types.len(), 13);
    assert_eq!(ctx.funs.len(), 0);
    assert_eq!(ctx.bbs.len(), 0);
    assert_eq!(ctx.vars.len(), 0);
    check_primitives(&ctx);
}

#[test]
fn primitives_survive_insertions() {
    let mut ctx = IrContext::new();
    let p = ctx.insert_type(IrType::Ptr(I8));
    struct_x(&mut ctx);
    ctx.insert_type(IrType::Array(IrArrayType { element: p, len: 3 }));
    check_primitives(&ctx);
}

#[test]
fn itype_maps_to_fixed_handles() {
    assert_eq!(IrContext::itype(true, IntegerWidth::Eight), I8);
    assert_eq!(IrContext::itype(true, IntegerWidth::Sixteen), I16);
    assert_eq!(IrContext::itype(true, IntegerWidth::ThirtyTwo), I32);
    assert_eq!(IrContext::itype(true, IntegerWidth::SixtyFour), I64);
    assert_eq!(IrContext::itype(false, IntegerWidth::Eight), U8);
    assert_eq!(IrContext::itype(false, IntegerWidth::Sixteen), U16);
    assert_eq!(IrContext::itype(false, IntegerWidth::ThirtyTwo), U32);
    assert_eq!(IrContext::itype(false, IntegerWidth::SixtyFour), U64);
}

#[test]
fn inserted_type_stays_under_its_handle() {
    let mut ctx = IrContext::new();
    let p = ctx.insert_type(IrType::Ptr(U16));
    assert_eq!(p, 13);
    assert!(matches!(ctx.ty(p), IrType::Ptr(t) if *t == U16));
    let q = ctx.insert_type(IrType::Ptr(U16));
    assert_eq!(q, 14);
    ctx.insert_type(IrType::Unit);
    assert!(matches!(ctx.ty(p), IrType::Ptr(t) if *t == U16));
    assert!(matches!(ctx.ty(q), IrType::Ptr(t) if *t == U16));
}

#[test]
fn int_plus_int_keeps_lhs_type() {
    let lw = IrLowerer::new(IrContext::new());
    assert_eq!(lower_bin_ty(&lw, I32, Op::Add, I32).ok(), Some(I32));
    assert_eq!(lower_bin_ty(&lw, U8, Op::Less, U8).ok(), Some(U8));
    assert_eq!(lower_bin_ty(&lw, U64, Op::ShRight, U64).ok(), Some(U64));
}

#[test]
fn integers_of_different_types_are_a_mismatch() {
    let lw = IrLowerer::new(IrContext::new());
    // no implicit widening: operand types must agree
    assert!(lower_bin_ty(&lw, I32, Op::Add, I64).is_err());
    assert!(lower_bin_ty(&lw, I8, Op::Sub, I64).is_err());
    assert!(lower_bin_ty(&lw, I64, Op::ShRight, U8).is_err());
    assert!(lower_bin_ty(&lw, U32, Op::Eq, I32).is_err());
    let d = lw.type_bin(0, leaf(I32, 0, 1), Op::Add, leaf(I64, 4, 5)).err().unwrap();
    assert_eq!(d.message, "Cannot apply binary operator + to operand types i32 and i64");
}

#[test]
fn int_plus_float_is_a_mismatch() {
    let lw = IrLowerer::new(IrContext::new());
    assert!(lower_bin_ty(&lw, I32, Op::Add, F32).is_err());
    assert!(lower_bin_ty(&lw, F32, Op::Add, I32).is_err());
}

#[test]
fn bool_operators() {
    let lw = IrLowerer::new(IrContext::new());
    assert_eq!(lower_bin_ty(&lw, BOOL, Op::LogicalAnd, BOOL).ok(), Some(BOOL));
    assert_eq!(lower_bin_ty(&lw, BOOL, Op::LogicalOr, BOOL).ok(), Some(BOOL));
    assert_eq!(lower_bin_ty(&lw, BOOL, Op::LogicalNot, BOOL).ok(), Some(BOOL));
    assert_eq!(lower_bin_ty(&lw, BOOL, Op::Eq, BOOL).ok(), Some(BOOL));
    assert!(lower_bin_ty(&lw, BOOL, Op::Add, BOOL).is_err());
    assert!(lower_bin_ty(&lw, I32, Op::LogicalAnd, I32).is_err());
}

#[test]
fn float_operators() {
    let lw = IrLowerer::new(IrContext::new());
    assert_eq!(lower_bin_ty(&lw, F64, Op::Div, F64).ok(), Some(F64));
    assert_eq!(lower_bin_ty(&lw, F32, Op::GreaterEq, F64).ok(), Some(F32));
    assert!(lower_bin_ty(&lw, F64, Op::ShLeft, F64).is_err());
    assert!(lower_bin_ty(&lw, F64, Op::Mod, F64).is_err());
}

#[test]
fn pointer_arithmetic() {
    let mut ctx = IrContext::new();
    let p = ctx.insert_type(IrType::Ptr(I32));
    let q = ctx.insert_type(IrType::Ptr(U8));
    let lw = IrLowerer::new(ctx);
    assert_eq!(lower_bin_ty(&lw, p, Op::Add, I32).ok(), Some(p));
    assert_eq!(lower_bin_ty(&lw, p, Op::Sub, q).ok(), Some(p));
    assert_eq!(lower_bin_ty(&lw, p, Op::Add, p).ok(), Some(p));
    assert_eq!(lower_bin_ty(&lw, p, Op::ShLeft, U64).ok(), Some(p));
    assert!(lower_bin_ty(&lw, p, Op::ShLeft, p).is_err());
    assert!(lower_bin_ty(&lw, p, Op::Star, I32).is_err());
    assert!(lower_bin_ty(&lw, I32, Op::Add, p).is_err());
}

#[test]
fn struct_operands_are_rejected() {
    let mut ctx = IrContext::new();
    let s = struct_x(&mut ctx);
    let lw = IrLowerer::new(ctx);
    assert!(lower_bin_ty(&lw, s, Op::Add, s).is_err());
    assert!(lower_bin_ty(&lw, s, Op::Eq, s).is_err());
}

#[test]
fn binary_span_covers_both_operands() {
    let lw = IrLowerer::new(IrContext::new());
    for op in [Op::Add, Op::Less, Op::ShLeft] {
        let e = lw.type_bin(3, leaf(I32, 10, 12), op, leaf(I32, 20, 27)).ok().unwrap();
        assert_eq!(e.span, Span::new(10, 27));
        assert_eq!(e.ty, I32);
        match e.kind {
            IrExprKind::Binary(l, o, r) => {
                assert_eq!(o, op);
                assert_eq!(l.span, Span::new(10, 12));
                assert_eq!(r.span, Span::new(20, 27));
            }
            _ => panic!("expected a binary expression"),
        }
    }
}

#[test]
fn binary_mismatch_diagnostic() {
    let lw = IrLowerer::new(IrContext::new());
    let d = lw.type_bin(7, leaf(I32, 2, 4), Op::Add, leaf(F32, 7, 11)).err().unwrap();
    assert_eq!(d.severity, Severity::Error);
    assert_eq!(d.message, "Cannot apply binary operator + to operand types i32 and f32");
    assert_eq!(d.labels.len(), 3);
    let primaries = d.labels.iter().filter(|l| l.style == LabelStyle::Primary).count();
    let secondaries = d.labels.iter().filter(|l| l.style == LabelStyle::Secondary).count();
    assert_eq!(primaries, 1);
    assert_eq!(secondaries, 2);
    assert_eq!(d.labels[0].style, LabelStyle::Primary);
    assert_eq!(d.labels[0].span, Span::new(2, 11));
    assert_eq!(d.labels[0].file_id, 7);
    assert_eq!(d.labels[1].span, Span::new(2, 4));
    assert_eq!(d.labels[1].message, "LHS of type i32 appears here");
    assert_eq!(d.labels[2].span, Span::new(7, 11));
    assert_eq!(d.labels[2].message, "RHS of type f32 appears here");
}

#[test]
fn address_of_makes_fresh_pointer() {
    let mut ctx = IrContext::new();
    let existing = ctx.insert_type(IrType::Ptr(I32));
    let mut lw = IrLowerer::new(ctx);
    let e = lw.type_unary(0, Op::AND, leaf(I32, 5, 6)).ok().unwrap();
    assert_eq!(e.ty, existing + 1);
    assert_ne!(e.ty, existing);
    assert!(matches!(lw.ctx.ty(e.ty), IrType::Ptr(t) if *t == I32));
    assert_eq!(e.span, Span::new(5, 6));
    assert_eq!(lw.ctx.typename(e.ty), "*i32");
}

#[test]
fn deref_negate_and_complement() {
    let mut ctx = IrContext::new();
    let p = ctx.insert_type(IrType::Ptr(U32));
    let mut lw = IrLowerer::new(ctx);
    assert_eq!(lw.type_unary(0, Op::Star, leaf(p, 0, 1)).ok().unwrap().ty, U32);
    assert_eq!(lw.type_unary(0, Op::Sub, leaf(I16, 0, 1)).ok().unwrap().ty, I16);
    assert_eq!(lw.type_unary(0, Op::Sub, leaf(F64, 0, 1)).ok().unwrap().ty, F64);
    assert_eq!(lw.type_unary(0, Op::NOT, leaf(U8, 0, 1)).ok().unwrap().ty, U8);
    assert_eq!(lw.type_unary(0, Op::NOT, leaf(p, 0, 1)).ok().unwrap().ty, p);
    assert!(lw.type_unary(0, Op::Sub, leaf(p, 0, 1)).is_err());
    assert!(lw.type_unary(0, Op::NOT, leaf(F32, 0, 1)).is_err());
    assert_eq!(lw.ctx.types.len(), 14);
}

#[test]
fn deref_of_bool_fails() {
    let mut lw = IrLowerer::new(IrContext::new());
    let d = lw.type_unary(4, Op::Star, leaf(BOOL, 8, 9)).err().unwrap();
    assert_eq!(d.severity, Severity::Error);
    assert_eq!(d.message, "Cannot apply unary operator * to expression of type bool");
    assert_eq!(d.labels.len(), 1);
    assert_eq!(d.labels[0].style, LabelStyle::Primary);
    assert_eq!(d.labels[0].span, Span::new(8, 9));
    assert_eq!(d.labels[0].file_id, 4);
}

#[test]
fn typename_of_pointer_to_array_of_struct() {
    let mut ctx = IrContext::new();
    let s = struct_x(&mut ctx);
    let a = ctx.insert_type(IrType::Array(IrArrayType { element: s, len: 4 }));
    let p = ctx.insert_type(IrType::Ptr(a));
    assert_eq!(ctx.typename(p), "*[4]{i32 x,}");
    // rendering again, after more insertions, gives the same text
    ctx.insert_type(IrType::Unit);
    assert_eq!(ctx.typename(p), "*[4]{i32 x,}");
}

#[test]
fn typename_of_primitives() {
    let ctx = IrContext::new();
    let names = [
        "i8", "i16", "i32", "i64", "u8", "u16", "u32", "u64", "bool", "()", "f32", "f64",
        "INVALID",
    ];
    for (i, n) in names.iter().enumerate() {
        assert_eq!(ctx.typename(i), *n);
    }
}

#[test]
fn typename_of_fun_sum_alias() {
    let mut ctx = IrContext::new();
    let f = ctx.insert_type(IrType::Fun(IrFunType {
        args: vec![(I32, Some("a".to_string())), (BOOL, None)],
        return_ty: UNIT,
    }));
    assert_eq!(ctx.typename(f), "fun (i32 a, bool , ) -> ()");
    let s = ctx.insert_type(IrType::Sum(IrSumType { variants: vec![I8, f] }));
    assert_eq!(ctx.typename(s), "i8 | fun (i32 a, bool , ) -> () | ");
    let a = ctx.insert_type(IrType::Alias { name: "Handle".to_string(), underlying: s });
    assert_eq!(ctx.typename(a), "Handle");
    let pp = ctx.insert_type(IrType::Ptr(a));
    let ppp = ctx.insert_type(IrType::Ptr(pp));
    assert_eq!(ctx.typename(ppp), "**Handle");
    let empty = ctx.insert_type(IrType::Struct(IrStructType { fields: vec![] }));
    assert_eq!(ctx.typename(empty), "{}");
}

#[test]
fn typename_of_array_lengths() {
    let mut ctx = IrContext::new();
    let a0 = ctx.insert_type(IrType::Array(IrArrayType { element: U8, len: 0 }));
    let a1 = ctx.insert_type(IrType::Array(IrArrayType { element: U8, len: 1024 }));
    let a2 = ctx.insert_type(IrType::Array(IrArrayType { element: U8, len: u64::MAX }));
    assert_eq!(ctx.typename(a0), "[0]u8");
    assert_eq!(ctx.typename(a1), "[1024]u8");
    assert_eq!(ctx.typename(a2), "[18446744073709551615]u8");
}

#[test]
fn decimal_writer() {
    let mut s = String::from("n=");
    write_dec(907, &mut s);
    assert_eq!(s, "n=907");
    let mut z = String::new();
    write_dec(0, &mut z);
    assert_eq!(z, "0");
}

#[test]
fn operator_text() {
    assert_eq!(Op::ShLeft.text(), "<<");
    assert_eq!(Op::LogicalAnd.text(), "&&");
    assert_eq!(Op::NOT.text(), "~");
    assert_eq!(Op::GreaterEq.text(), ">=");
}

#[test]
fn arenas_hold_funs_blocks_and_vars() {
    let mut ctx = IrContext::new();
    let v = ctx.insert_var(IrVar { ty: I32, name: "x".to_string() });
    assert_eq!(v, 0);
    let ret = IrExpr { span: Span::new(0, 1), ty: I32, kind: IrExprKind::Var(v) };
    let bb = ctx.insert_bb(IrBB { stmts: vec![IrStmt::VarLive(v)], terminator: IrTerminator::Return(ret) });
    assert_eq!(bb, 0);
    let f = ctx.insert_fun(IrFun {
        name: "main".to_string(),
        ty: IrFunType { args: vec![], return_ty: I32 },
        file: 0,
        span: Span::new(0, 30),
        body: None,
        flags: FunFlags { bits: 0 },
    });
    assert!(ctx.fun(f).body.is_none());
    ctx.fun_mut(f).body = Some(IrBody { entry: bb, parent: f });
    assert_eq!(ctx.fun(f).body, Some(IrBody { entry: 0, parent: 0 }));
    let val = IrExpr { span: Span::new(2, 3), ty: I32, kind: IrExprKind::Integer(5) };
    ctx.bb_mut(bb).stmts.push(IrStmt::Store { var: v, val });
    assert_eq!(ctx.bb(bb).stmts.len(), 2);
    ctx.var_mut(v).name = "y".to_string();
    assert_eq!(ctx.var(v).name, "y");
    assert_eq!(ctx.var(v).ty, I32);
}

fn lit(ty: TypeId, from: usize, to: usize) -> Expr {
    Expr { span: Span::new(from, to), kind: ExprKind::Integer(1, ty) }
}

fn bin(l: Expr, op: Op, r: Expr, from: usize, to: usize) -> Expr {
    Expr { span: Span::new(from, to), kind: ExprKind::Bin(Box::new(l), op, Box::new(r)) }
}

fn un(op: Op, x: Expr, from: usize, to: usize) -> Expr {
    Expr { span: Span::new(from, to), kind: ExprKind::Unary(op, Box::new(x)) }
}

#[test]
fn lower_bin_lowers_nested_operands() {
    let mut lw = IrLowerer::new(IrContext::new());
    // (a + b) < c, all i32
    let sum = bin(lit(I32, 0, 1), Op::Add, lit(I32, 4, 5), 0, 5);
    let e = lw.lower_bin(0, &sum, Op::Less, &lit(I32, 8, 9)).ok().unwrap();
    assert_eq!(e.ty, I32);
    assert_eq!(e.span, Span::new(0, 9));
    match e.kind {
        IrExprKind::Binary(l, o, r) => {
            assert_eq!(o, Op::Less);
            assert_eq!(l.span, Span::new(0, 5));
            assert!(matches!(l.kind, IrExprKind::Binary(_, Op::Add, _)));
            assert_eq!(r.ty, I32);
        }
        _ => panic!("expected a binary expression"),
    }
}

#[test]
fn lower_expr_leaves() {
    let mut ctx = IrContext::new();
    let v = ctx.insert_var(IrVar { ty: F64, name: "z".to_string() });
    let mut lw = IrLowerer::new(ctx);
    let e = lw.lower_expr(0, &Expr { span: Span::new(3, 4), kind: ExprKind::Var(v) }).ok().unwrap();
    assert_eq!(e.ty, F64);
    assert_eq!(e.span, Span::new(3, 4));
    let b = lw.lower_expr(0, &Expr { span: Span::new(0, 4), kind: ExprKind::Bool(true) }).ok().unwrap();
    assert_eq!(b.ty, BOOL);
    let u = lw.lower_expr(0, &Expr { span: Span::new(0, 2), kind: ExprKind::Unit }).ok().unwrap();
    assert_eq!(u.ty, UNIT);
    let n = lw.lower_expr(0, &lit(U16, 0, 3)).ok().unwrap();
    assert_eq!(n.ty, U16);
}

#[test]
fn nested_mismatch_is_reported_at_its_node() {
    let mut lw = IrLowerer::new(IrContext::new());
    // (x + 1.0) * y: the inner sum fails first
    let inner = bin(lit(I32, 1, 2), Op::Add, lit(F32, 5, 8), 0, 9);
    let d = lw.lower_bin(2, &inner, Op::Star, &lit(I32, 12, 13)).err().unwrap();
    assert_eq!(d.message, "Cannot apply binary operator + to operand types i32 and f32");
    assert_eq!(d.labels[0].span, Span::new(1, 8));
    assert_eq!(d.labels[0].file_id, 2);
}

#[test]
fn address_of_in_expression_adds_one_type() {
    let mut lw = IrLowerer::new(IrContext::new());
    // &a + 4
    let addr = un(Op::AND, lit(I64, 1, 2), 0, 2);
    let e = lw.lower_bin(0, &addr, Op::Add, &lit(I64, 5, 6)).ok().unwrap();
    assert_eq!(e.ty, 13);
    assert_eq!(lw.ctx.types.len(), 14);
    assert_eq!(lw.ctx.typename(e.ty), "*i64");
    // unary spans cover only the operand
    assert_eq!(e.span, Span::new(1, 6));
    // a second &a gets another handle
    let again = lw.lower_unary(0, Op::AND, &lit(I64, 1, 2)).ok().unwrap();
    assert_eq!(again.ty, 14);
}

#[test]
fn lower_unary_deref_and_mismatch() {
    let mut lw = IrLowerer::new(IrContext::new());
    // *&b is b's type
    let e = lw.lower_unary(0, Op::Star, &un(Op::AND, lit(U8, 1, 2), 0, 2)).ok().unwrap();
    assert_eq!(e.ty, U8);
    assert_eq!(e.span, Span::new(1, 2));
    let d = lw
        .lower_unary(1, Op::Star, &Expr { span: Span::new(4, 8), kind: ExprKind::Bool(false) })
        .err()
        .unwrap();
    assert_eq!(d.message, "Cannot apply unary operator * to expression of type bool");
    assert_eq!(d.labels.len(), 1);
    assert_eq!(d.labels[0].style, LabelStyle::Primary);
    assert_eq!(d.labels[0].span, Span::new(4, 8));
}

#[test]
fn lowered_kinds_follow_the_source() {
    let mut ctx = IrContext::new();
    let v = ctx.insert_var(IrVar { ty: I32, name: "a".to_string() });
    let mut lw = IrLowerer::new(ctx);
    // -a + 7
    let neg = un(Op::Sub, Expr { span: Span::new(1, 2), kind: ExprKind::Var(v) }, 0, 2);
    let seven = Expr { span: Span::new(5, 6), kind: ExprKind::Integer(7, I32) };
    let e = lw.lower_bin(0, &neg, Op::Add, &seven).ok().unwrap();
    match e.kind {
        IrExprKind::Binary(l, Op::Add, r) => {
            match l.kind {
                IrExprKind::Unary(Op::Sub, x) => {
                    assert!(matches!(x.kind, IrExprKind::Var(w) if w == v));
                    assert_eq!(x.ty, I32);
                }
                _ => panic!("expected a negation"),
            }
            assert!(matches!(r.kind, IrExprKind::Integer(7)));
            assert_eq!(r.span, Span::new(5, 6));
        }
        _ => panic!("expected an addition"),
    }
    let b = lw.lower_expr(0, &Expr { span: Span::new(0, 5), kind: ExprKind::Bool(false) }).ok().unwrap();
    assert!(matches!(b.kind, IrExprKind::Bool(false)));
}

#[test]
fn equal_integer_types_under_different_handles_are_a_mismatch() {
    let mut ctx = IrContext::new();
    let other_i32 = ctx.insert_type(IrType::Integer(IrIntegerType {
        signed: true,
        width: IntegerWidth::ThirtyTwo,
    }));
    assert_eq!(other_i32, 13);
    let lw = IrLowerer::new(ctx);
    assert!(lower_bin_ty(&lw, I32, Op::Add, other_i32).is_err());
    assert!(lower_bin_ty(&lw, other_i32, Op::Add, I32).is_err());
    assert_eq!(lower_bin_ty(&lw, other_i32, Op::Add, other_i32).ok(), Some(other_i32));
}

#[test]
fn self_referential_type_through_alias_and_pointer() {
    let mut ctx = IrContext::new();
    // Node = {*Node next, i32 value,}: the alias names a struct stored after it
    let node = ctx.insert_type(IrType::Alias { name: "Node".to_string(), underlying: 15 });
    assert_eq!(node, 13);
    let ptr = ctx.insert_type(IrType::Ptr(node));
    assert_eq!(ptr, 14);
    let st = ctx.insert_type(IrType::Struct(IrStructType {
        fields: vec![(ptr, "next".to_string()), (I32, "value".to_string())],
    }));
    assert_eq!(st, 15);
    assert_eq!(ctx.typename(st), "{*Node next,i32 value,}");
    assert_eq!(ctx.typename(ptr), "*Node");
    assert_eq!(ctx.typename(node), "Node");
}
