//! The IR context: the type store and the arenas of functions, basic blocks
//! and variables.
use vstd::prelude::*;
use crate::arena::{Arena, Interner};
use crate::loc::{FileId, Span};
use crate::types::{IntegerWidth, IrFloatType, IrFunType, IrIntegerType, IrType, TypeId, refs_below};
use crate::value::IrAnyValue;

verus! {

/// Handle of an [IrBB] in an [IrContext].
pub type BBId = usize;

/// Handle of an [IrVar] in an [IrContext].
pub type VarId = usize;

/// Handle of an [IrFun] in an [IrContext].
pub type FunId = usize;

/// Position of a variant among the variants of a sum type.
pub type DiscriminantId = usize;

/// Extra properties of a function, one bit each.
#[derive(Clone, Copy, Debug, PartialEq, Eq, Structural)]
pub struct FunFlags {
    pub bits: u32,
}

/// A basic block: statements in execution order, then one terminator.
pub struct IrBB {
    pub stmts: Vec<IrStmt>,
    pub terminator: IrTerminator,
}

/// A declared variable with its type and name.
pub struct IrVar {
    pub ty: TypeId,
    pub name: String,
}

/// A function with its source location and, once defined, its body.
pub struct IrFun {
    pub name: String,
    pub ty: IrFunType,
    pub file: FileId,
    pub span: Span,
    pub body: Option<IrBody>,
    pub flags: FunFlags,
}

/// The body of a defined function.
#[derive(Clone, Copy, Debug, PartialEq, Eq, Structural)]
pub struct IrBody {
    pub entry: BBId,
    pub parent: FunId,
}

/// The statement that ends a basic block.
pub enum IrTerminator {
    /// Leave the current function with a value.
    Return(IrAnyValue),
    /// Jump to another block.
    Jmp(BBId),
    /// Jump to `if_true` when `condition` holds, else to `if_false`.
    JmpIf { condition: IrAnyValue, if_true: BBId, if_false: BBId },
    /// Jump on the discriminant of a sum-typed value.
    JmpMatch {
        variant: IrAnyValue,
        discriminants: Vec<(DiscriminantId, BBId)>,
        default_jmp: BBId,
    },
}

/// A statement inside a basic block.
pub enum IrStmt {
    /// The variable's storage is live from here on.
    VarLive(VarId),
    /// Store a value into a variable.
    Store { var: VarId, val: IrAnyValue },
}

pub const I8: TypeId = 0;
pub const I16: TypeId = 1;
pub const I32: TypeId = 2;
pub const I64: TypeId = 3;
pub const U8: TypeId = 4;
pub const U16: TypeId = 5;
pub const U32: TypeId = 6;
pub const U64: TypeId = 7;
pub const BOOL: TypeId = 8;
pub const UNIT: TypeId = 9;
pub const F32: TypeId = 10;
pub const F64: TypeId = 11;
pub const INVALID: TypeId = 12;

/// Number of types every context starts with.
pub const N_PRIMITIVES: usize = 13;

/// The integer type of the given signedness and width.
pub open spec fn int_type(signed: bool, width: IntegerWidth) -> IrType {
    IrType::Integer(IrIntegerType { signed, width })
}

/// The type a fresh context stores under primitive handle `i`.
pub open spec fn primitive_type(i: int) -> IrType {
    if i == 0 {
        int_type(true, IntegerWidth::Eight)
    } else if i == 1 {
        int_type(true, IntegerWidth::Sixteen)
    } else if i == 2 {
        int_type(true, IntegerWidth::ThirtyTwo)
    } else if i == 3 {
        int_type(true, IntegerWidth::SixtyFour)
    } else if i == 4 {
        int_type(false, IntegerWidth::Eight)
    } else if i == 5 {
        int_type(false, IntegerWidth::Sixteen)
    } else if i == 6 {
        int_type(false, IntegerWidth::ThirtyTwo)
    } else if i == 7 {
        int_type(false, IntegerWidth::SixtyFour)
    } else if i == 8 {
        IrType::Bool
    } else if i == 9 {
        IrType::Unit
    } else if i == 10 {
        IrType::Float(IrFloatType { doublewide: false })
    } else if i == 11 {
        IrType::Float(IrFloatType { doublewide: true })
    } else {
        IrType::Invalid
    }
}

/// The handle of the integer type of the given signedness and width.
pub open spec fn itype_spec(signed: bool, width: IntegerWidth) -> TypeId {
    let w: usize = match width {
        IntegerWidth::Eight => 0,
        IntegerWidth::Sixteen => 1,
        IntegerWidth::ThirtyTwo => 2,
        IntegerWidth::SixtyFour => 3,
    };
    if signed { w } else { (w + 4) as usize }
}

/// A type store is well formed when it starts with the primitive types and
/// each type mentions only handles stored before it (an alias's underlying
/// type aside).
pub open spec fn types_wf(types: Seq<IrType>) -> bool {
    &&& types.len() >= N_PRIMITIVES
    &&& forall|i: int| 0 <= i < N_PRIMITIVES ==> #[trigger] types[i] == primitive_type(i)
    &&& forall|i: int| 0 <= i < types.len() ==> refs_below(#[trigger] types[i], i as nat)
}

/// Owner of every type, function, basic block and variable of one compilation.
pub struct IrContext {
    pub types: Interner<IrType>,
    pub funs: Arena<IrFun>,
    pub bbs: Arena<IrBB>,
    pub vars: Arena<IrVar>,
}

impl IrContext {
    /// The context's invariant.
    pub open spec fn wf(&self) -> bool {
        types_wf(self.types@)
    }

    /// A handle of a type stored in this context.
    pub open spec fn valid_type(&self, ty: TypeId) -> bool {
        ty < self.types@.len()
    }

    /// A context holding the primitive types under their fixed handles and
    /// nothing else.
    pub fn new() -> (r: Self)
        ensures
            r.wf(),
            r.types@.len() == N_PRIMITIVES,
            r.funs@.len() == 0,
            r.bbs@.len() == 0,
            r.vars@.len() == 0,
    {
        let mut types = Interner::<IrType>::new();
        types.insert(IrType::Integer(IrIntegerType { signed: true, width: IntegerWidth::Eight }));
        types.insert(IrType::Integer(IrIntegerType { signed: true, width: IntegerWidth::Sixteen }));
        types.insert(
            IrType::Integer(IrIntegerType { signed: true, width: IntegerWidth::ThirtyTwo }),
        );
        types.insert(
            IrType::Integer(IrIntegerType { signed: true, width: IntegerWidth::SixtyFour }),
        );
        types.insert(IrType::Integer(IrIntegerType { signed: false, width: IntegerWidth::Eight }));
        types.insert(
            IrType::Integer(IrIntegerType { signed: false, width: IntegerWidth::Sixteen }),
        );
        types.insert(
            IrType::Integer(IrIntegerType { signed: false, width: IntegerWidth::ThirtyTwo }),
        );
        types.insert(
            IrType::Integer(IrIntegerType { signed: false, width: IntegerWidth::SixtyFour }),
        );
        types.insert(IrType::Bool);
        types.insert(IrType::Unit);
        types.insert(IrType::Float(IrFloatType { doublewide: false }));
        types.insert(IrType::Float(IrFloatType { doublewide: true }));
        types.insert(IrType::Invalid);
        let r = IrContext { types, funs: Arena::new(), bbs: Arena::new(), vars: Arena::new() };
        assert forall|i: int| 0 <= i < r.types@.len() implies #[trigger] r.types@[i]
            == primitive_type(i) && refs_below(r.types@[i], i as nat) by {}
        r
    }

    /// The handle of the integer type of the given signedness and width.
    pub fn itype(signed: bool, width: IntegerWidth) -> (r: TypeId)
        ensures
            r == itype_spec(signed, width),
            primitive_type(r as int) == int_type(signed, width),
    {
        match (signed, width) {
            (true, IntegerWidth::Eight) => I8,
            (true, IntegerWidth::Sixteen) => I16,
            (true, IntegerWidth::ThirtyTwo) => I32,
            (true, IntegerWidth::SixtyFour) => I64,
            (false, IntegerWidth::Eight) => U8,
            (false, IntegerWidth::Sixteen) => U16,
            (false, IntegerWidth::ThirtyTwo) => U32,
            (false, IntegerWidth::SixtyFour) => U64,
        }
    }

    /// Stores `t` and returns its handle: always a new handle, one past the
    /// last, that stays valid for the context's lifetime.
    pub fn insert_type(&mut self, t: IrType) -> (r: TypeId)
        requires
            old(self).wf(),
            refs_below(t, old(self).types@.len() as nat),
            old(self).types@.len() < usize::MAX,
        ensures
            final(self).wf(),
            r == old(self).types@.len(),
            final(self).types@ == old(self).types@.push(t),
            final(self).funs@ == old(self).funs@,
            final(self).bbs@ == old(self).bbs@,
            final(self).vars@ == old(self).vars@,
    {
        let r = self.types.insert(t);
        assert(forall|i: int| 0 <= i < old(self).types@.len() ==> self.types@[i] == old(self).types@[i]);
        r
    }

    /// The type stored under `id`.
    pub fn ty(&self, id: TypeId) -> (r: &IrType)
        requires
            self.valid_type(id),
        ensures
            *r == self.types@[id as int],
    {
        self.types.get(id)
    }

    /// Stores a function and returns its handle.
    pub fn insert_fun(&mut self, f: IrFun) -> (r: FunId)
        requires
            old(self).funs@.len() < usize::MAX,
        ensures
            r == old(self).funs@.len(),
            final(self).funs@ == old(self).funs@.push(f),
            final(self).types@ == old(self).types@,
            final(self).bbs@ == old(self).bbs@,
            final(self).vars@ == old(self).vars@,
    {
        self.funs.insert(f)
    }

    /// The function stored under `id`.
    pub fn fun(&self, id: FunId) -> (r: &IrFun)
        requires
            id < self.funs@.len(),
        ensures
            *r == self.funs@[id as int],
    {
        self.funs.get(id)
    }

    /// Mutable access to the function stored under `id`, e.g. to attach its
    /// body; everything else stays.
    pub fn fun_mut(&mut self, id: FunId) -> (r: &mut IrFun)
        requires
            id < old(self).funs@.len(),
        ensures
            *r == old(self).funs@[id as int],
            final(self).funs@ == old(self).funs@.update(id as int, *final(r)),
            final(self).types@ == old(self).types@,
            final(self).bbs@ == old(self).bbs@,
            final(self).vars@ == old(self).vars@,
    {
        self.funs.get_mut(id)
    }

    /// Stores a basic block and returns its handle.
    pub fn insert_bb(&mut self, bb: IrBB) -> (r: BBId)
        requires
            old(self).bbs@.len() < usize::MAX,
        ensures
            r == old(self).bbs@.len(),
            final(self).bbs@ == old(self).bbs@.push(bb),
            final(self).types@ == old(self).types@,
            final(self).funs@ == old(self).funs@,
            final(self).vars@ == old(self).vars@,
    {
        self.bbs.insert(bb)
    }

    /// The basic block stored under `id`.
    pub fn bb(&self, id: BBId) -> (r: &IrBB)
        requires
            id < self.bbs@.len(),
        ensures
            *r == self.bbs@[id as int],
    {
        self.bbs.get(id)
    }

    /// Mutable access to the basic block stored under `id`, e.g. to append
    /// statements; everything else stays.
    pub fn bb_mut(&mut self, id: BBId) -> (r: &mut IrBB)
        requires
            id < old(self).bbs@.len(),
        ensures
            *r == old(self).bbs@[id as int],
            final(self).bbs@ == old(self).bbs@.update(id as int, *final(r)),
            final(self).types@ == old(self).types@,
            final(self).funs@ == old(self).funs@,
            final(self).vars@ == old(self).vars@,
    {
        self.bbs.get_mut(id)
    }

    /// Stores a variable and returns its handle.
    pub fn insert_var(&mut self, v: IrVar) -> (r: VarId)
        requires
            old(self).vars@.len() < usize::MAX,
        ensures
            r == old(self).vars@.len(),
            final(self).vars@ == old(self).vars@.push(v),
            final(self).types@ == old(self).types@,
            final(self).funs@ == old(self).funs@,
            final(self).bbs@ == old(self).bbs@,
    {
        self.vars.insert(v)
    }

    /// The variable stored under `id`.
    pub fn var(&self, id: VarId) -> (r: &IrVar)
        requires
            id < self.vars@.len(),
        ensures
            *r == self.vars@[id as int],
    {
        self.vars.get(id)
    }

    /// Mutable access to the variable stored under `id`; everything else stays.
    pub fn var_mut(&mut self, id: VarId) -> (r: &mut IrVar)
        requires
            id < old(self).vars@.len(),
        ensures
            *r == old(self).vars@[id as int],
            final(self).vars@ == old(self).vars@.update(id as int, *final(r)),
            final(self).types@ == old(self).types@,
            final(self).funs@ == old(self).funs@,
            final(self).bbs@ == old(self).bbs@,
    {
        self.vars.get_mut(id)
    }
}

/// Every type store of a well-formed context, however many types were
/// inserted after its creation, holds the primitive types under their fixed
/// handles, in the order i8, i16, i32, i64, u8, u16, u32, u64, bool, unit,
/// f32, f64, invalid.
pub proof fn lemma_primitive_types_fixed(ctx: &IrContext)
    requires
        ctx.wf(),
    ensures
        ctx.types@[I8 as int] == int_type(true, IntegerWidth::Eight),
        ctx.types@[I16 as int] == int_type(true, IntegerWidth::Sixteen),
        ctx.types@[I32 as int] == int_type(true, IntegerWidth::ThirtyTwo),
        ctx.types@[I64 as int] == int_type(true, IntegerWidth::SixtyFour),
        ctx.types@[U8 as int] == int_type(false, IntegerWidth::Eight),
        ctx.types@[U16 as int] == int_type(false, IntegerWidth::Sixteen),
        ctx.types@[U32 as int] == int_type(false, IntegerWidth::ThirtyTwo),
        ctx.types@[U64 as int] == int_type(false, IntegerWidth::SixtyFour),
        ctx.types@[BOOL as int] == IrType::Bool,
        ctx.types@[UNIT as int] == IrType::Unit,
        ctx.types@[F32 as int] == IrType::Float(IrFloatType { doublewide: false }),
        ctx.types@[F64 as int] == IrType::Float(IrFloatType { doublewide: true }),
        ctx.types@[INVALID as int] == IrType::Invalid,
{
    assert(ctx.types@[I8 as int] == primitive_type(0));
    assert(ctx.types@[I16 as int] == primitive_type(1));
    assert(ctx.types@[I32 as int] == primitive_type(2));
    assert(ctx.types@[I64 as int] == primitive_type(3));
    assert(ctx.types@[U8 as int] == primitive_type(4));
    assert(ctx.types@[U16 as int] == primitive_type(5));
    assert(ctx.types@[U32 as int] == primitive_type(6));
    assert(ctx.types@[U64 as int] == primitive_type(7));
    assert(ctx.types@[BOOL as int] == primitive_type(8));
    assert(ctx.types@[UNIT as int] == primitive_type(9));
    assert(ctx.types@[F32 as int] == primitive_type(10));
    assert(ctx.types@[F64 as int] == primitive_type(11));
    assert(ctx.types@[INVALID as int] == primitive_type(12));
}

/// `later` holds every type of `earlier` under the same handle: what any
/// sequence of insertions leaves.
pub open spec fn types_extend(earlier: Seq<IrType>, later: Seq<IrType>) -> bool {
    earlier.len() <= later.len() && later.subrange(0, earlier.len() as int) == earlier
}

/// Inserting a type yields a store that extends the old one.
pub proof fn lemma_insert_extends(before: Seq<IrType>, t: IrType)
    ensures
        types_extend(before, before.push(t)),
{
    assert(before.push(t).subrange(0, before.len() as int) =~= before);
}

/// Every store extends itself.
pub proof fn lemma_extend_refl(a: Seq<IrType>)
    ensures
        types_extend(a, a),
{
    assert(a.subrange(0, a.len() as int) =~= a);
}

/// Extension is transitive.
pub proof fn lemma_extend_trans(a: Seq<IrType>, b: Seq<IrType>, c: Seq<IrType>)
    requires
        types_extend(a, b),
        types_extend(b, c),
    ensures
        types_extend(a, c),
{
    assert(c.subrange(0, a.len() as int) =~= b.subrange(0, a.len() as int));
}

/// A type found under the handle that its insertion returned is found there
/// again after any further insertions.
pub proof fn lemma_handle_stable(
    before: Seq<IrType>,
    t: IrType,
    id: TypeId,
    inserted: Seq<IrType>,
    later: Seq<IrType>,
)
    requires
        id == before.len(),
        inserted == before.push(t),
        types_extend(inserted, later),
    ensures
        inserted[id as int] == t,
        later[id as int] == t,
{
    assert(later.subrange(0, inserted.len() as int)[id as int] == later[id as int]);
}

} // verus!
