use record_derive::debug::{make_debug_derive_code, make_fmt_field_code, make_impl_header, Render};
use record_derive::record::{
    AttrMeta, Attribute, FailureKind, FieldDescription, GenericParamKind, Location, PathArgs, PathSegment,
    RecordDescription, RecordShape, TypeExpr, TypeShape,
};

fn simple_type(name: &str) -> TypeExpr {
    TypeExpr {
        text: name.to_string(),
        shape: TypeShape::Path(vec![PathSegment { name: name.to_string(), args: PathArgs::Bare }]),
    }
}

fn debug_attr(pattern: &str) -> Attribute {
    Attribute { ident: Some("debug".to_string()), meta: AttrMeta::NameValueStr(pattern.to_string()) }
}

fn field(name: &str, attrs: Vec<Attribute>) -> FieldDescription {
    FieldDescription { name: name.to_string(), ty: simple_type("u32"), attrs }
}

#[test]
fn unannotated_record_renders_by_default_in_order() {
    let r = RecordDescription {
        name: "Field".to_string(),
        generics: vec![],
        shape: RecordShape::Named(vec![field("name", vec![]), field("bitmask", vec![])]),
    };
    let plan = make_debug_derive_code(&r).unwrap();
    assert_eq!(plan.record, "Field");
    assert_eq!(plan.fields.len(), 2);
    assert_eq!(plan.fields[0].name, "name");
    assert_eq!(plan.fields[1].name, "bitmask");
    assert!(plan.fields.iter().all(|f| f.render == Render::Default));
}

#[test]
fn annotated_field_renders_by_pattern() {
    let r = RecordDescription {
        name: "Field".to_string(),
        generics: vec![],
        shape: RecordShape::Named(vec![field("name", vec![]), field("bitmask", vec![debug_attr("{:b}")])]),
    };
    let plan = make_debug_derive_code(&r).unwrap();
    assert_eq!(plan.fields[0].render, Render::Default);
    assert_eq!(plan.fields[1].render, Render::Pattern("{:b}".to_string()));
    // The emitted code substitutes the value into the pattern.
    assert_eq!(format!("{:b}", 17), "10001");
}

#[test]
fn first_debug_attribute_wins_and_others_are_skipped() {
    let attrs = vec![
        Attribute { ident: Some("serde".to_string()), meta: AttrMeta::NameValueStr("x".to_string()) },
        Attribute { ident: Some("debug".to_string()), meta: AttrMeta::Other },
        Attribute { ident: None, meta: AttrMeta::NameValueStr("y".to_string()) },
        debug_attr("0b{:08b}"),
        debug_attr("{:x}"),
    ];
    let step = make_fmt_field_code(&field("bits", attrs));
    assert_eq!(step.name, "bits");
    assert_eq!(step.render, Render::Pattern("0b{:08b}".to_string()));
}

#[test]
fn only_type_parameters_get_debug_bound() {
    let generics = vec![GenericParamKind::Lifetime, GenericParamKind::Type, GenericParamKind::Const];
    assert_eq!(make_impl_header(&generics), vec![false, true, false]);
    let r = RecordDescription {
        name: "G".to_string(),
        generics: vec![GenericParamKind::Type, GenericParamKind::Type],
        shape: RecordShape::Named(vec![field("a", vec![])]),
    };
    assert_eq!(make_debug_derive_code(&r).unwrap().debug_bound, vec![true, true]);
}

#[test]
fn debug_rejects_tuple_and_unit_structs() {
    for shape in [RecordShape::Tuple, RecordShape::Unit] {
        let r = RecordDescription { name: "X".to_string(), generics: vec![], shape };
        let e = make_debug_derive_code(&r).unwrap_err();
        assert_eq!(e.kind, FailureKind::UnsupportedShape);
        assert_eq!(e.location, Location::Record);
        assert_eq!(e.message, "only named struct is supported");
    }
}

#[test]
fn debug_rejects_enums_and_unions() {
    let r = RecordDescription { name: "E".to_string(), generics: vec![], shape: RecordShape::NotStruct };
    let e = make_debug_derive_code(&r).unwrap_err();
    assert_eq!(e.kind, FailureKind::UnsupportedShape);
    assert_eq!(e.location, Location::Record);
    assert_eq!(e.message, "only struct is supported");
}
