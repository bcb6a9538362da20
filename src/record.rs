use vstd::prelude::*;

verus! {

/// Arguments that follow one segment of a type path.
#[derive(Debug, PartialEq, Eq)]
pub enum PathArgs {
    /// No arguments: `Vec`.
    Bare,
    /// `<...>` arguments, in order: `Vec<u8>`.
    AngleBracketed(Vec<GenericArg>),
    /// `(...)` arguments, as in `Fn(u8) -> u8`.
    Parenthesized,
}

/// One argument between angle brackets.
#[derive(Debug, PartialEq, Eq)]
pub enum GenericArg {
    /// A type argument.
    Type(TypeExpr),
    /// A lifetime, a constant, an associated-type binding or a constraint.
    NotAType,
}

/// One segment of a type path, with its name and arguments.
#[derive(Debug, PartialEq, Eq)]
pub struct PathSegment {
    pub name: String,
    pub args: PathArgs,
}

/// The syntactic shape of a declared type.
#[derive(Debug, PartialEq, Eq)]
pub enum TypeShape {
    /// A plain path type with no qualified self type: `a::b::C<T>`.
    Path(Vec<PathSegment>),
    /// Any other type: a reference, a tuple, an array, a qualified path, ...
    Other,
}

/// A declared type: its source text, and its shape as far as the generators
/// look at it.
#[derive(Debug, PartialEq, Eq)]
pub struct TypeExpr {
    pub text: String,
    pub shape: TypeShape,
}

/// What follows the path of an attribute on a field.
#[derive(Debug, Clone, PartialEq, Eq)]
pub enum AttrMeta {
    /// `#[name = "literal"]`, with the literal's contents.
    NameValueStr(String),
    /// Any other form: `#[name]`, `#[name(...)]`, `#[name = expr]`.
    Other,
}

/// An attribute on a field. `ident` is the attribute's path when that path
/// is a single bare identifier.
#[derive(Debug, Clone, PartialEq, Eq)]
pub struct Attribute {
    pub ident: Option<String>,
    pub meta: AttrMeta,
}

/// One named field of a record.
#[derive(Debug, PartialEq, Eq)]
pub struct FieldDescription {
    pub name: String,
    pub ty: TypeExpr,
    pub attrs: Vec<Attribute>,
}

/// The kind of one generic parameter of a record.
#[derive(Debug, Clone, Copy, PartialEq, Eq)]
pub enum GenericParamKind {
    Type,
    Lifetime,
    Const,
}

/// The body of a declaration.
#[derive(Debug, PartialEq, Eq)]
pub enum RecordShape {
    /// A struct with named fields, in declaration order.
    Named(Vec<FieldDescription>),
    /// A tuple struct.
    Tuple,
    /// A struct without a field list.
    Unit,
    /// An enum or a union.
    NotStruct,
}

/// A parsed declaration: the type's name, its generic parameters, its body.
#[derive(Debug, PartialEq, Eq)]
pub struct RecordDescription {
    pub name: String,
    pub generics: Vec<GenericParamKind>,
    pub shape: RecordShape,
}

/// Why generation stopped.
#[derive(Debug, Clone, Copy, PartialEq, Eq)]
pub enum FailureKind {
    /// The declaration is not a struct with named fields.
    UnsupportedShape,
    /// A field's type is named `Option` but does not carry exactly one type
    /// argument.
    InvalidOptionalType,
}

/// Where a failure points.
#[derive(Debug, Clone, Copy, PartialEq, Eq)]
pub enum Location {
    /// The record's name.
    Record,
    /// The type of the field at this index.
    Field(usize),
}

/// A generation failure: no fragment is produced alongside it.
#[derive(Debug, Clone, PartialEq, Eq)]
pub struct GenerationFailure {
    pub kind: FailureKind,
    pub location: Location,
    pub message: String,
}

pub const UNSUPPORTED_SHAPE_MESSAGE: &'static str = "only named struct is supported";

pub const NOT_STRUCT_MESSAGE: &'static str = "only struct is supported";

pub const INVALID_OPTIONAL_MESSAGE: &'static str = "invalid option type";

impl GenerationFailure {
    /// The failure for a declaration that is not a named-field struct.
    pub fn unsupported_shape() -> (r: GenerationFailure)
        ensures
            r.kind == FailureKind::UnsupportedShape,
            r.location == Location::Record,
            r.message@ == UNSUPPORTED_SHAPE_MESSAGE@,
    {
        GenerationFailure {
            kind: FailureKind::UnsupportedShape,
            location: Location::Record,
            message: UNSUPPORTED_SHAPE_MESSAGE.to_owned(),
        }
    }

    /// The failure for a declaration that is an enum or a union.
    pub fn not_a_struct() -> (r: GenerationFailure)
        ensures
            r.kind == FailureKind::UnsupportedShape,
            r.location == Location::Record,
            r.message@ == NOT_STRUCT_MESSAGE@,
    {
        GenerationFailure {
            kind: FailureKind::UnsupportedShape,
            location: Location::Record,
            message: NOT_STRUCT_MESSAGE.to_owned(),
        }
    }

    /// The failure for the field at `index` whose type looks like an
    /// optional wrapper but is malformed.
    pub fn invalid_optional(index: usize) -> (r: GenerationFailure)
        ensures
            r.kind == FailureKind::InvalidOptionalType,
            r.location == Location::Field(index),
            r.message@ == INVALID_OPTIONAL_MESSAGE@,
    {
        GenerationFailure {
            kind: FailureKind::InvalidOptionalType,
            location: Location::Field(index),
            message: INVALID_OPTIONAL_MESSAGE.to_owned(),
        }
    }
}

} // verus!
