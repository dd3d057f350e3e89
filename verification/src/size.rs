//! The fixed table of primitive byte widths.

use vstd::prelude::*;

use crate::decl::TypeExpr;
use crate::decl::str_eq;

verus! {

/// The fixed width of a primitive type name: one byte for `bool` and the
/// eight-bit integers, two, four and eight bytes for the wider integers, and
/// thirty-two bytes for the public-key type. Every other name, the
/// dynamically sized families included, is not a primitive.
pub open spec fn spec_primitive_size(name: Seq<char>) -> Option<u64> {
    if name == "u8"@ || name == "i8"@ || name == "bool"@ {
        Some(1u64)
    } else if name == "u16"@ || name == "i16"@ {
        Some(2u64)
    } else if name == "u32"@ || name == "i32"@ {
        Some(4u64)
    } else if name == "u64"@ || name == "i64"@ {
        Some(8u64)
    } else if name == "Pubkey"@ {
        Some(32u64)
    } else {
        None
    }
}

/// The primitive width of a type expression: the table width of its name,
/// whatever its generic argument; an unsupported shape has none.
pub open spec fn spec_size_of_type(ty: TypeExpr) -> Option<u64> {
    match ty {
        TypeExpr::Named { name, arg } => spec_primitive_size(name@),
        TypeExpr::Unsupported => None,
    }
}

/// Looks a bare name up in the primitive width table.
pub fn primitive_size(name: &str) -> (r: Option<u64>)
    ensures
        r == spec_primitive_size(name@),
{
    if str_eq(name, "u8") || str_eq(name, "i8") || str_eq(name, "bool") {
        Some(1)
    } else if str_eq(name, "u16") || str_eq(name, "i16") {
        Some(2)
    } else if str_eq(name, "u32") || str_eq(name, "i32") {
        Some(4)
    } else if str_eq(name, "u64") || str_eq(name, "i64") {
        Some(8)
    } else if str_eq(name, "Pubkey") {
        Some(32)
    } else {
        None
    }
}

/// The primitive width of a type expression, or nothing when its name is not
/// in the table: the resolver distinguishes "not a primitive" from a zero
/// size.
pub fn size_of_type(ty: &TypeExpr) -> (r: Option<u64>)
    ensures
        r == spec_size_of_type(*ty),
{
    match ty {
        TypeExpr::Named { name, arg: _ } => primitive_size(name.as_str()),
        TypeExpr::Unsupported => None,
    }
}

} // verus!
