//! Lowering of source types to native machine types.
use crate::mir::Ty;
use vstd::prelude::*;

verus! {

/// The native types that source types lower to.
#[derive(Clone, Copy, Debug, PartialEq, Eq, Structural)]
pub enum NativeType {
    I64,
    I32,
    I16,
    I8,
    I1,
    F64,
    F32,
    Ptr,
}

/// The lowering table. `Unit` is an 8-bit integer so that every local stays
/// storable; types outside the table fall back to a 64-bit integer.
pub open spec fn lowered(ty: Ty) -> NativeType {
    match ty {
        Ty::Int | Ty::I64 => NativeType::I64,
        Ty::I32 => NativeType::I32,
        Ty::I16 => NativeType::I16,
        Ty::I8 | Ty::Unit => NativeType::I8,
        Ty::Bool => NativeType::I1,
        Ty::Float | Ty::F64 => NativeType::F64,
        Ty::F32 => NativeType::F32,
        Ty::Str => NativeType::Ptr,
        _ => NativeType::I64,
    }
}

/// The source type that stands first in the table for each native type.
pub open spec fn canonical_source(n: NativeType) -> Ty {
    match n {
        NativeType::I64 => Ty::I64,
        NativeType::I32 => Ty::I32,
        NativeType::I16 => Ty::I16,
        NativeType::I8 => Ty::I8,
        NativeType::I1 => Ty::Bool,
        NativeType::F64 => Ty::F64,
        NativeType::F32 => Ty::F32,
        NativeType::Ptr => Ty::Str,
    }
}

pub fn lower_type(ty: &Ty) -> (r: NativeType)
    ensures
        r == lowered(*ty),
{
    match ty {
        Ty::Int | Ty::I64 => NativeType::I64,
        Ty::I32 => NativeType::I32,
        Ty::I16 => NativeType::I16,
        Ty::I8 | Ty::Unit => NativeType::I8,
        Ty::Bool => NativeType::I1,
        Ty::Float | Ty::F64 => NativeType::F64,
        Ty::F32 => NativeType::F32,
        Ty::Str => NativeType::Ptr,
        _ => NativeType::I64,
    }
}

/// Lowering is onto the native types, and it round-trips through the table:
/// every native type comes back from its canonical source type, and a source
/// type lowers to the same native type as the canonical source of its image.
pub proof fn lemma_lowering_round_trip(n: NativeType, ty: Ty)
    ensures
        lowered(canonical_source(n)) == n,
        lowered(canonical_source(lowered(ty))) == lowered(ty),
{
}

} // verus!
