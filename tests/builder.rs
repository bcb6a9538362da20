use record_derive::builder::{make_derive_builder, not_set_message, BuilderPlan};
use record_derive::companion::{Companion, FieldNotSet};
use record_derive::optional::{classify_type, Optionality};
use record_derive::record::{
    FailureKind, FieldDescription, GenericArg, Location, PathArgs, PathSegment, RecordDescription,
    RecordShape, TypeExpr, TypeShape,
};

fn simple_type(name: &str) -> TypeExpr {
    TypeExpr {
        text: name.to_string(),
        shape: TypeShape::Path(vec![PathSegment { name: name.to_string(), args: PathArgs::Bare }]),
    }
}

fn wrapped_type(wrapper: &str, args: Vec<GenericArg>, text: &str) -> TypeExpr {
    TypeExpr {
        text: text.to_string(),
        shape: TypeShape::Path(vec![PathSegment {
            name: wrapper.to_string(),
            args: PathArgs::AngleBracketed(args),
        }]),
    }
}

fn option_of(inner: &str) -> TypeExpr {
    wrapped_type(
        "Option",
        vec![GenericArg::Type(simple_type(inner))],
        &format!("Option < {} >", inner),
    )
}

fn field(name: &str, ty: TypeExpr) -> FieldDescription {
    FieldDescription { name: name.to_string(), ty, attrs: vec![] }
}

fn record(name: &str, fields: Vec<FieldDescription>) -> RecordDescription {
    RecordDescription { name: name.to_string(), generics: vec![], shape: RecordShape::Named(fields) }
}

fn point_plan() -> BuilderPlan {
    let point = record("Point", vec![field("x", simple_type("i32")), field("y", simple_type("i32"))]);
    make_derive_builder(&point).unwrap()
}

#[test]
fn point_plan_has_companion_and_required_fields() {
    let plan = point_plan();
    assert_eq!(plan.record, "Point");
    assert_eq!(plan.companion, "PointBuilder");
    assert_eq!(plan.fields.len(), 2);
    assert_eq!(plan.fields[0].name, "x");
    assert_eq!(plan.fields[1].name, "y");
    for f in &plan.fields {
        assert!(f.required);
        assert_eq!(f.declared_type, "i32");
        assert_eq!(f.value_type, "i32");
    }
    assert_eq!(plan.fields[1].not_set_message, "field y not set");
}

#[test]
fn point_builder_sets_both_fields() {
    let plan = point_plan();
    let mut b: Companion<i32> = Companion::builder(&plan);
    b.set(0, 3);
    b.set(1, 4);
    assert_eq!(b.build(), Ok(vec![Some(3), Some(4)]));
}

#[test]
fn point_builder_without_y_names_y() {
    let plan = point_plan();
    let mut b: Companion<i32> = Companion::builder(&plan);
    b.set(0, 3);
    let e = b.build().unwrap_err();
    assert_eq!(e, FieldNotSet { index: 1, field: "y".to_string() });
    assert_eq!(e.message(), "field y not set");
}

#[test]
fn missing_fields_report_the_first_in_declaration_order() {
    let r = record(
        "Triple",
        vec![
            field("a", simple_type("u8")),
            field("b", simple_type("u8")),
            field("c", simple_type("u8")),
        ],
    );
    let plan = make_derive_builder(&r).unwrap();
    let mut b: Companion<u8> = Companion::builder(&plan);
    b.set(2, 9);
    let e = b.build().unwrap_err();
    assert_eq!(e.index, 0);
    assert_eq!(e.message(), "field a not set");
}

#[test]
fn second_set_of_a_field_wins() {
    let plan = point_plan();
    let mut b: Companion<i32> = Companion::builder(&plan);
    b.set(0, 1);
    b.set(1, 4);
    b.set(0, 3);
    assert_eq!(b.build(), Ok(vec![Some(3), Some(4)]));
}

#[test]
fn item_plan_unwraps_optional_field() {
    let item = record("Item", vec![field("name", simple_type("String")), field("count", option_of("u32"))]);
    let plan = make_derive_builder(&item).unwrap();
    assert_eq!(plan.companion, "ItemBuilder");
    assert!(plan.fields[0].required);
    assert!(!plan.fields[1].required);
    assert_eq!(plan.fields[1].declared_type, "Option < u32 >");
    assert_eq!(plan.fields[1].value_type, "u32");
}

#[test]
fn item_builds_without_optional_field() {
    let item = record("Item", vec![field("name", simple_type("String")), field("count", option_of("u32"))]);
    let plan = make_derive_builder(&item).unwrap();
    let mut b: Companion<String> = Companion::builder(&plan);
    b.set(0, "a".into());
    assert_eq!(b.build(), Ok(vec![Some("a".to_string()), None]));
}

#[test]
fn build_consumes_the_slots() {
    let plan = point_plan();
    let mut b: Companion<i32> = Companion::builder(&plan);
    b.set(0, 3);
    b.set(1, 4);
    assert!(b.build().is_ok());
    assert_eq!(b.build().unwrap_err().index, 0);
}

#[test]
fn empty_record_builds_at_once() {
    let plan = make_derive_builder(&record("Empty", vec![])).unwrap();
    let mut b: Companion<u8> = Companion::builder(&plan);
    assert_eq!(b.len(), 0);
    assert_eq!(b.build(), Ok(vec![]));
}

#[test]
fn tuple_struct_is_rejected() {
    let r = RecordDescription { name: "T".to_string(), generics: vec![], shape: RecordShape::Tuple };
    let e = make_derive_builder(&r).unwrap_err();
    assert_eq!(e.kind, FailureKind::UnsupportedShape);
    assert_eq!(e.location, Location::Record);
    assert_eq!(e.message, "only named struct is supported");
}

#[test]
fn unit_struct_and_enum_are_rejected() {
    for shape in [RecordShape::Unit, RecordShape::NotStruct] {
        let r = RecordDescription { name: "U".to_string(), generics: vec![], shape };
        assert_eq!(make_derive_builder(&r).unwrap_err().kind, FailureKind::UnsupportedShape);
    }
}

#[test]
fn option_without_type_argument_is_invalid() {
    let bad = wrapped_type("Option", vec![GenericArg::NotAType], "Option < 'a >");
    let r = record("Bad", vec![field("ok", simple_type("u8")), field("bad", bad)]);
    let e = make_derive_builder(&r).unwrap_err();
    assert_eq!(e.kind, FailureKind::InvalidOptionalType);
    assert_eq!(e.location, Location::Field(1));
    assert_eq!(e.message, "invalid option type");
}

#[test]
fn bare_option_is_invalid() {
    let r = record("Bad", vec![field("bad", simple_type("Option"))]);
    assert_eq!(make_derive_builder(&r).unwrap_err().location, Location::Field(0));
}

#[test]
fn classify_recognises_only_single_segment_option() {
    assert_eq!(classify_type(&option_of("u32")), Optionality::Optional("u32".to_string()));
    assert_eq!(classify_type(&simple_type("u32")), Optionality::Required);
    assert_eq!(
        classify_type(&wrapped_type("Vec", vec![GenericArg::Type(simple_type("u8"))], "Vec < u8 >")),
        Optionality::Required
    );
    let qualified = TypeExpr {
        text: "std :: option :: Option < u8 >".to_string(),
        shape: TypeShape::Path(vec![
            PathSegment { name: "std".to_string(), args: PathArgs::Bare },
            PathSegment { name: "option".to_string(), args: PathArgs::Bare },
            PathSegment {
                name: "Option".to_string(),
                args: PathArgs::AngleBracketed(vec![GenericArg::Type(simple_type("u8"))]),
            },
        ]),
    };
    assert_eq!(classify_type(&qualified), Optionality::Required);
    let two = wrapped_type(
        "Option",
        vec![GenericArg::Type(simple_type("u8")), GenericArg::Type(simple_type("u8"))],
        "Option < u8 , u8 >",
    );
    assert_eq!(classify_type(&two), Optionality::Malformed);
    let other = TypeExpr { text: "& str".to_string(), shape: TypeShape::Other };
    assert_eq!(classify_type(&other), Optionality::Required);
}

#[test]
fn not_set_message_wraps_the_name() {
    assert_eq!(not_set_message("count"), "field count not set");
}
