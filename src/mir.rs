//! The mid-level IR consumed by the code generator: functions made of
//! numbered blocks, whose locals are stack slots addressed by index.
use vstd::prelude::*;

verus! {

/// Source-level types.
#[derive(Clone, Copy, Debug, PartialEq, Eq, Structural)]
pub enum Ty {
    Int,
    I64,
    I32,
    I16,
    I8,
    U64,
    U32,
    U16,
    U8,
    Bool,
    Char,
    Float,
    F64,
    F32,
    Unit,
    Str,
}

/// A local or parameter together with its declared type.
#[derive(Clone, Debug)]
pub struct TypedLocal {
    pub name: String,
    pub ty: Ty,
}

/// A storage location: a local slot, without projections.
#[derive(Clone, Copy, Debug, PartialEq, Eq, Structural)]
pub struct Place {
    pub local: usize,
}

/// An input of an rvalue or terminator.
#[derive(Clone, Copy, Debug, PartialEq, Eq, Structural)]
pub enum Operand {
    Copy(Place),
    Move(Place),
    Constant(i64),
}

/// Binary operators of the source language.
#[derive(Clone, Copy, Debug, PartialEq, Eq, Structural)]
pub enum BinOp {
    Add,
    Sub,
    Mul,
    Div,
    Mod,
    Eq,
    Ne,
    Lt,
    Le,
    Gt,
    Ge,
    And,
    Or,
    BitXor,
    Shl,
    Shr,
}

/// Unary operators of the source language.
#[derive(Clone, Copy, Debug, PartialEq, Eq, Structural)]
pub enum UnaryOp {
    Neg,
    Not,
}

/// The right-hand side of an assignment.
#[derive(Clone, Debug)]
pub enum Rvalue {
    Use(Operand),
    BinaryOp(BinOp, Operand, Operand),
    UnaryOp(UnaryOp, Operand),
    Call(String, Vec<Operand>),
    Ref(Place),
}

#[derive(Clone, Debug)]
pub enum Statement {
    Assign(Place, Rvalue),
    Nop,
}

/// How control leaves a block. Block targets are indices into the
/// function's block list.
#[derive(Clone, Debug)]
pub enum Terminator {
    Return(Option<Operand>),
    Goto(usize),
    SwitchInt { discriminant: Operand, targets: Vec<(i64, usize)>, otherwise: usize },
    Unreachable,
}

#[derive(Clone, Debug)]
pub struct Block {
    pub statements: Vec<Statement>,
    pub terminator: Terminator,
}

/// A function: the first `params.len()` locals are the parameters' slots.
#[derive(Clone, Debug)]
pub struct Function {
    pub name: String,
    pub params: Vec<TypedLocal>,
    pub return_ty: Ty,
    pub locals: Vec<TypedLocal>,
    pub blocks: Vec<Block>,
}

#[derive(Clone, Debug)]
pub struct Program {
    pub functions: Vec<Function>,
}

/// Every `Goto` in `f` names one of its blocks.
pub open spec fn gotos_in_range(f: Function) -> bool {
    forall|b: int|
        0 <= b < f.blocks@.len() ==> (#[trigger] f.blocks@[b].terminator matches Terminator::Goto(t)
            ==> t < f.blocks@.len())
}

} // verus!
