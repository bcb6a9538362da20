use vstd::prelude::*;

use crate::record::{GenericArg, PathArgs, TypeExpr, TypeShape};

verus! {

/// The type is a single-segment path whose segment is named `Option`.
/// This is a match on syntax alone: an alias named `Option` counts too.
pub open spec fn looks_optional(ty: TypeExpr) -> bool {
    match ty.shape {
        TypeShape::Path(segs) => segs@.len() == 1 && segs@[0].name@ == "Option"@,
        TypeShape::Other => false,
    }
}

/// The text of the wrapped type, when the type looks optional and carries
/// exactly one angle-bracketed argument that is a type.
pub open spec fn optional_inner(ty: TypeExpr) -> Option<Seq<char>> {
    if !looks_optional(ty) {
        None
    } else {
        match ty.shape {
            TypeShape::Path(segs) => match segs@[0].args {
                PathArgs::AngleBracketed(args) => if args@.len() == 1 {
                    match args@[0] {
                        GenericArg::Type(inner) => Some(inner.text@),
                        GenericArg::NotAType => None,
                    }
                } else {
                    None
                },
                _ => None,
            },
            TypeShape::Other => None,
        }
    }
}

/// How a field's declared type is treated by the builder.
#[derive(Debug, Clone, PartialEq, Eq)]
pub enum Optionality {
    /// Not an optional wrapper: the field must be set before building.
    Required,
    /// `Option<inner>`, with the text of `inner`: the field may stay unset.
    Optional(String),
    /// Named `Option`, but without exactly one type argument.
    Malformed,
}

/// Classifies a declared type by its syntactic shape.
pub fn classify_type(ty: &TypeExpr) -> (r: Optionality)
    ensures
        (r is Required) <==> !looks_optional(*ty),
        (r is Malformed) <==> (looks_optional(*ty) && optional_inner(*ty) is None),
        r matches Optionality::Optional(inner) ==> optional_inner(*ty) == Some(inner@),
{
    match &ty.shape {
        TypeShape::Path(segs) => {
            if segs.len() != 1 || segs[0].name != "Option".to_owned() {
                return Optionality::Required;
            }
            match &segs[0].args {
                PathArgs::AngleBracketed(args) => {
                    if args.len() != 1 {
                        return Optionality::Malformed;
                    }
                    match &args[0] {
                        GenericArg::Type(inner) => Optionality::Optional(inner.text.clone()),
                        GenericArg::NotAType => Optionality::Malformed,
                    }
                },
                _ => Optionality::Malformed,
            }
        },
        TypeShape::Other => Optionality::Required,
    }
}

} // verus!
