//! Typed intermediate representation of a compiler: interned types, arenas
//! of functions, basic blocks and variables, and the lowering of operator
//! expressions with their typing rules and diagnostics.

pub mod arena;
pub mod ast;
pub mod diagnostic;
pub mod ir;
pub mod loc;
pub mod lower;
pub mod typename;
pub mod types;
pub mod value;
