use vstd::prelude::*;

use crate::record::{
    AttrMeta, Attribute, FailureKind, FieldDescription, GenerationFailure, GenericParamKind,
    Location, NOT_STRUCT_MESSAGE, UNSUPPORTED_SHAPE_MESSAGE, RecordDescription, RecordShape,
};

verus! {

/// The pattern of an attribute of the form `#[debug = "pattern"]`.
pub open spec fn annotation_pattern(a: Attribute) -> Option<Seq<char>> {
    match a.ident {
        Some(name) => if name@ == "debug"@ {
            match a.meta {
                AttrMeta::NameValueStr(p) => Some(p@),
                AttrMeta::Other => None,
            }
        } else {
            None
        },
        None => None,
    }
}

/// The pattern of the first `#[debug = "..."]` attribute, if there is one.
pub open spec fn debug_pattern(attrs: Seq<Attribute>) -> Option<Seq<char>>
    decreases attrs.len(),
{
    if attrs.len() == 0 {
        None
    } else if annotation_pattern(attrs[0]) is Some {
        annotation_pattern(attrs[0])
    } else {
        debug_pattern(attrs.drop_first())
    }
}

/// How the renderer shows one field's value.
#[derive(Debug, Clone, PartialEq, Eq)]
pub enum Render {
    /// The value's own `Debug` representation.
    Default,
    /// The value substituted into this format pattern.
    Pattern(String),
}

/// `r` is the rule that `pattern` calls for: a pattern, or the default.
pub open spec fn render_is(r: Render, pattern: Option<Seq<char>>) -> bool {
    match r {
        Render::Default => pattern is None,
        Render::Pattern(p) => pattern == Some(p@),
    }
}

/// One rendering step: the field's name, and how its value is shown.
#[derive(Debug, Clone, PartialEq, Eq)]
pub struct DebugField {
    pub name: String,
    pub render: Render,
}

/// The `Debug` impl that the renderer emits for one record.
#[derive(Debug, Clone, PartialEq, Eq)]
pub struct DebugPlan {
    /// The record's type name, under which the fields are grouped.
    pub record: String,
    /// For each generic parameter, in order: whether it gets a `Debug` bound.
    pub debug_bound: Vec<bool>,
    /// One step per field, in declaration order.
    pub fields: Vec<DebugField>,
}

/// Finds how a field is rendered: by the first `#[debug = "..."]` pattern,
/// or by default.
pub fn make_fmt_field_code(field: &FieldDescription) -> (r: DebugField)
    ensures
        r.name@ == field.name@,
        render_is(r.render, debug_pattern(field.attrs@)),
{
    let attrs = &field.attrs;
    let mut i: usize = 0;
    assert(attrs@.subrange(0, attrs@.len() as int) =~= attrs@);
    while i < attrs.len()
        invariant
            attrs == &field.attrs,
            i <= attrs@.len(),
            debug_pattern(attrs@) == debug_pattern(attrs@.subrange(i as int, attrs@.len() as int)),
        decreases attrs@.len() - i,
    {
        let ghost rest = attrs@.subrange(i as int, attrs@.len() as int);
        assert(rest[0] == attrs@[i as int]);
        assert(rest.drop_first() =~= attrs@.subrange(i + 1, attrs@.len() as int));
        let a = &attrs[i];
        if let Some(name) = &a.ident {
            if *name == "debug".to_owned() {
                if let AttrMeta::NameValueStr(p) = &a.meta {
                    assert(annotation_pattern(rest[0]) == Some(p@));
                    let pattern = p.clone();
                    return DebugField { name: field.name.clone(), render: Render::Pattern(pattern) };
                }
            }
        }
        i = i + 1;
    }
    assert(attrs@.subrange(i as int, attrs@.len() as int).len() == 0);
    DebugField { name: field.name.clone(), render: Render::Default }
}

/// Marks each type parameter, and no lifetime or const parameter, for a
/// `Debug` bound.
pub fn make_impl_header(generics: &Vec<GenericParamKind>) -> (r: Vec<bool>)
    ensures
        r@.len() == generics@.len(),
        forall|i: int| 0 <= i < generics@.len() ==> r@[i] == (generics@[i] == GenericParamKind::Type),
{
    let mut r: Vec<bool> = Vec::new();
    let mut i: usize = 0;
    while i < generics.len()
        invariant
            i <= generics@.len(),
            r@.len() == i,
            forall|j: int| 0 <= j < i ==> r@[j] == (generics@[j] == GenericParamKind::Type),
        decreases generics@.len() - i,
    {
        let is_type = match generics[i] {
            GenericParamKind::Type => true,
            _ => false,
        };
        r.push(is_type);
        i = i + 1;
    }
    r
}

/// `steps` renders `fields` in order, each by its own rule.
pub open spec fn renders_fields(fields: Seq<FieldDescription>, steps: Seq<DebugField>) -> bool {
    &&& steps.len() == fields.len()
    &&& forall|i: int|
        0 <= i < fields.len() ==> {
            &&& (#[trigger] steps[i]).name@ == fields[i].name@
            &&& render_is(steps[i].render, debug_pattern(fields[i].attrs@))
        }
}

/// Plans one rendering step per field, in declaration order.
pub fn make_fmt_code(fields: &Vec<FieldDescription>) -> (r: Vec<DebugField>)
    ensures
        renders_fields(fields@, r@),
{
    let mut r: Vec<DebugField> = Vec::new();
    let mut i: usize = 0;
    while i < fields.len()
        invariant
            i <= fields@.len(),
            renders_fields(fields@.subrange(0, i as int), r@),
        decreases fields@.len() - i,
    {
        r.push(make_fmt_field_code(&fields[i]));
        i = i + 1;
    }
    assert(fields@.subrange(0, fields@.len() as int) =~= fields@);
    r
}

/// Plans the `Debug` impl of a record: the record's name, a `Debug` bound
/// on each type parameter, and one rendering step per field. Fails on a
/// record that is not a struct, and on a tuple or unit struct, each with its
/// own message.
pub fn make_debug_derive_code(record: &RecordDescription) -> (r: Result<
    DebugPlan,
    GenerationFailure,
>)
    ensures
        (record.shape is Tuple || record.shape is Unit) ==> (r matches Err(e) && e.kind
            == FailureKind::UnsupportedShape && e.location == Location::Record && e.message@
            == UNSUPPORTED_SHAPE_MESSAGE@),
        record.shape is NotStruct ==> (r matches Err(e) && e.kind == FailureKind::UnsupportedShape
            && e.location == Location::Record && e.message@ == NOT_STRUCT_MESSAGE@),
        record.shape matches RecordShape::Named(fields) ==> (r matches Ok(p) && p.record@
            == record.name@ && renders_fields(fields@, p.fields@)),
        r matches Ok(p) ==> (p.debug_bound@.len() == record.generics@.len() && forall|i: int|
            0 <= i < record.generics@.len() ==> p.debug_bound@[i] == (record.generics@[i]
                == GenericParamKind::Type)),
{
    match &record.shape {
        RecordShape::Named(fields) => Ok(
            DebugPlan {
                record: record.name.clone(),
                debug_bound: make_impl_header(&record.generics),
                fields: make_fmt_code(fields),
            },
        ),
        RecordShape::NotStruct => Err(GenerationFailure::not_a_struct()),
        _ => Err(GenerationFailure::unsupported_shape()),
    }
}

} // verus!
