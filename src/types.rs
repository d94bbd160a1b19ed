//! The closed set of IR types.
use vstd::prelude::*;

verus! {

/// Handle of an [IrType] stored in an `IrContext`.
pub type TypeId = usize;

/// Width in bits of an integer type.
#[derive(Clone, Copy, Debug, PartialEq, Eq, Structural)]
pub enum IntegerWidth {
    Eight,
    Sixteen,
    ThirtyTwo,
    SixtyFour,
}

/// A fixed-width integer type.
#[derive(Clone, Copy, Debug, PartialEq, Eq, Structural)]
pub struct IrIntegerType {
    pub signed: bool,
    pub width: IntegerWidth,
}

/// A floating-point type, single or double precision.
#[derive(Clone, Copy, Debug, PartialEq, Eq, Structural)]
pub struct IrFloatType {
    pub doublewide: bool,
}

/// A fixed-length array of `len` elements of type `element`.
#[derive(Clone, Copy, Debug, PartialEq, Eq, Structural)]
pub struct IrArrayType {
    pub element: TypeId,
    pub len: u64,
}

/// A structure: an ordered list of typed, named fields.
#[derive(Clone, Debug)]
pub struct IrStructType {
    pub fields: Vec<(TypeId, String)>,
}

/// A tagged union: an ordered list of variant types.
#[derive(Clone, Debug)]
pub struct IrSumType {
    pub variants: Vec<TypeId>,
}

/// A function signature: argument types with optional names, and a return type.
#[derive(Clone, Debug)]
pub struct IrFunType {
    pub args: Vec<(TypeId, Option<String>)>,
    pub return_ty: TypeId,
}

/// Every type the IR can express.
#[derive(Clone, Debug)]
pub enum IrType {
    Integer(IrIntegerType),
    Float(IrFloatType),
    Bool,
    Unit,
    Ptr(TypeId),
    Array(IrArrayType),
    Struct(IrStructType),
    Sum(IrSumType),
    Fun(IrFunType),
    Alias { name: String, underlying: TypeId },
    Invalid,
}

/// Every handle that `t` mentions is below `bound`, except an alias's
/// underlying type: an alias is known by its name, so it may stand for a type
/// stored later, which is how a type refers to itself through a pointer.
pub open spec fn refs_below(t: IrType, bound: nat) -> bool {
    match t {
        IrType::Ptr(p) => p < bound,
        IrType::Array(a) => a.element < bound,
        IrType::Struct(s) => forall|i: int| 0 <= i < s.fields@.len() ==> s.fields@[i].0 < bound,
        IrType::Sum(s) => forall|i: int| 0 <= i < s.variants@.len() ==> s.variants@[i] < bound,
        IrType::Fun(f) => f.return_ty < bound && forall|i: int|
            0 <= i < f.args@.len() ==> f.args@[i].0 < bound,
        _ => true,
    }
}

} // verus!
