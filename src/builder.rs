use vstd::prelude::*;

use crate::optional::{classify_type, looks_optional, optional_inner, Optionality};
use crate::record::{
    FailureKind, FieldDescription, GenerationFailure, Location, RecordDescription, RecordShape,
    INVALID_OPTIONAL_MESSAGE, UNSUPPORTED_SHAPE_MESSAGE,
};

verus! {

/// The message of the failure that the generated `build` returns when a
/// required field was never set.
pub open spec fn not_set_text(name: Seq<char>) -> Seq<char> {
    "field "@ + name + " not set"@
}

/// Builds `field <name> not set`.
pub fn not_set_message(name: &str) -> (r: String)
    ensures
        r@ == not_set_text(name@),
{
    "field ".to_owned().concat(name).concat(" not set")
}

/// A field whose type is named `Option` but carries no single type argument.
pub open spec fn malformed_optional(f: FieldDescription) -> bool {
    looks_optional(f.ty) && optional_inner(f.ty) is None
}

/// `k` is the first field, in declaration order, with a malformed optional
/// type.
pub open spec fn first_malformed(fields: Seq<FieldDescription>, k: int) -> bool {
    &&& 0 <= k < fields.len()
    &&& malformed_optional(fields[k])
    &&& forall|j: int| 0 <= j < k ==> !malformed_optional(#[trigger] fields[j])
}

/// What the companion emits for one field of the record.
#[derive(Debug, Clone, PartialEq, Eq)]
pub struct BuilderField {
    /// The field's name: also the name of its slot and of its setter.
    pub name: String,
    /// The field's declared type.
    pub declared_type: String,
    /// The setter's parameter type: the inner type of an optional field,
    /// else the declared type.
    pub value_type: String,
    /// The slot is `Option<declared_type>` and `build` fails while it is
    /// empty. Otherwise the slot has the declared type itself and may stay
    /// empty.
    pub required: bool,
    /// The message of the failure for an empty required slot.
    pub not_set_message: String,
}

/// The declarations that the builder derive emits for one record: the
/// companion type, its constructor, one setter per field, and `build`.
#[derive(Debug, Clone, PartialEq, Eq)]
pub struct BuilderPlan {
    /// The record's type name.
    pub record: String,
    /// The companion type's name.
    pub companion: String,
    /// One entry per field, in declaration order.
    pub fields: Vec<BuilderField>,
}

/// `p` is what the builder emits for field `f`.
pub open spec fn builder_field_for(f: FieldDescription, p: BuilderField) -> bool {
    &&& p.name@ == f.name@
    &&& p.declared_type@ == f.ty.text@
    &&& p.required == !looks_optional(f.ty)
    &&& p.value_type@ == (if looks_optional(f.ty) {
        optional_inner(f.ty).unwrap()
    } else {
        f.ty.text@
    })
    &&& p.not_set_message@ == not_set_text(f.name@)
}

/// Plans the builder for one field whose type is well formed.
fn make_builder_field(f: &FieldDescription) -> (r: Option<BuilderField>)
    ensures
        r is None <==> malformed_optional(*f),
        r matches Some(p) ==> builder_field_for(*f, p),
{
    let (value_type, required) = match classify_type(&f.ty) {
        Optionality::Required => (f.ty.text.clone(), true),
        Optionality::Optional(inner) => (inner, false),
        Optionality::Malformed => return None,
    };
    Some(
        BuilderField {
            name: f.name.clone(),
            declared_type: f.ty.text.clone(),
            value_type,
            required,
            not_set_message: not_set_message(f.name.as_str()),
        },
    )
}

/// No field has a malformed optional type.
pub open spec fn all_well_formed(fields: Seq<FieldDescription>) -> bool {
    forall|i: int| 0 <= i < fields.len() ==> !malformed_optional(#[trigger] fields[i])
}

/// `p` is the builder plan of a record named `name` with these fields.
pub open spec fn builder_plan_for(name: Seq<char>, fields: Seq<FieldDescription>, p: BuilderPlan) -> bool {
    &&& p.record@ == name
    &&& p.companion@ == name + "Builder"@
    &&& p.fields@.len() == fields.len()
    &&& forall|i: int| 0 <= i < fields.len() ==> builder_field_for(#[trigger] fields[i], p.fields@[i])
}

/// Plans the builder companion of a record: fields in declaration order, a
/// companion named after the record with `Builder` appended. Fails on a
/// record that is not a named-field struct, and on the first field whose
/// type is named `Option` without a single type argument.
pub fn make_derive_builder(record: &RecordDescription) -> (r: Result<
    BuilderPlan,
    GenerationFailure,
>)
    ensures
        !(record.shape is Named) ==> (r matches Err(e) && e.kind == FailureKind::UnsupportedShape
            && e.location == Location::Record && e.message@ == UNSUPPORTED_SHAPE_MESSAGE@),
        record.shape matches RecordShape::Named(fields) ==> (r is Ok <==> all_well_formed(fields@)),
        record.shape matches RecordShape::Named(fields) ==> (r matches Err(e) ==> (e.location matches Location::Field(k)
            && e.kind == FailureKind::InvalidOptionalType && first_malformed(fields@, k as int)
            && e.message@ == INVALID_OPTIONAL_MESSAGE@)),
        record.shape matches RecordShape::Named(fields) ==> (r matches Ok(p) ==> builder_plan_for(
            record.name@,
            fields@,
            p,
        )),
{
    let fields = match &record.shape {
        RecordShape::Named(fields) => fields,
        _ => return Err(GenerationFailure::unsupported_shape()),
    };
    let mut planned: Vec<BuilderField> = Vec::new();
    let mut i: usize = 0;
    while i < fields.len()
        invariant
            record.shape == RecordShape::Named(*fields),
            i <= fields@.len(),
            planned@.len() == i,
            forall|j: int| 0 <= j < i ==> !malformed_optional(#[trigger] fields@[j]),
            forall|j: int| 0 <= j < i ==> builder_field_for(#[trigger] fields@[j], planned@[j]),
        decreases fields@.len() - i,
    {
        match make_builder_field(&fields[i]) {
            Some(p) => planned.push(p),
            None => {
                assert(first_malformed(fields@, i as int));
                return Err(GenerationFailure::invalid_optional(i));
            },
        }
        i = i + 1;
    }
    Ok(
        BuilderPlan {
            record: record.name.clone(),
            companion: record.name.clone().concat("Builder"),
            fields: planned,
        },
    )
}

} // verus!
