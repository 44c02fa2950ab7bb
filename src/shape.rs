//! The description of a type definition and its classification.

use vstd::prelude::*;

verus! {

/// A field's declared type, as it is written in the source.
///
/// Only the surface form is kept apart: a type written as a borrowed
/// reference (`&'a T`, `&mut T`) versus any other type expression. A type
/// alias that stands for a reference is `Other`.
#[derive(Clone, Debug, PartialEq, Eq)]
pub enum TypeSyntax {
    Reference(String),
    Other(String),
}

/// A field of a record with named fields.
#[derive(Clone, Debug, PartialEq, Eq)]
pub struct NamedField {
    pub name: String,
    pub ty: TypeSyntax,
}

/// The fields of a `struct` definition.
#[derive(Clone, Debug, PartialEq, Eq)]
pub enum Fields {
    Named(Vec<NamedField>),
    Unnamed(Vec<TypeSyntax>),
    Unit,
}

/// The body of a type definition.
#[derive(Clone, Debug, PartialEq, Eq)]
pub enum Data {
    Struct(Fields),
    Enum,
    Union,
}

/// The shape of a type for which the implementation can be planned.
#[derive(Clone, Debug, PartialEq, Eq)]
pub enum TypeShape {
    Named(Vec<NamedField>),
    Positional(Vec<TypeSyntax>),
}

/// How one field is handled by the planned code.
#[derive(PartialEq, Eq, Structural, Clone, Copy, Debug)]
pub enum FieldPlan {
    /// The field is a reference: it is re-pointed, never cloned.
    ByReference,
    /// The field is cloned through its own `Clone` implementation.
    ByValue,
}

/// Which kind of definition was refused.
#[derive(PartialEq, Eq, Structural, Clone, Copy, Debug)]
pub enum Unsupported {
    /// A `struct` without fields.
    UnitStruct,
    /// An `enum`.
    Enum,
    /// A `union`.
    Union,
}

/// The diagnostic for a definition whose shape is not supported.
#[derive(Clone, Debug, PartialEq, Eq)]
pub struct ShapeError {
    pub kind: Unsupported,
    pub message: String,
}

pub open spec fn syntax_plan(ty: TypeSyntax) -> FieldPlan {
    match ty {
        TypeSyntax::Reference(_) => FieldPlan::ByReference,
        TypeSyntax::Other(_) => FieldPlan::ByValue,
    }
}

/// The refused kind of a body, if it is refused.
pub open spec fn unsupported_kind(data: Data) -> Option<Unsupported> {
    match data {
        Data::Struct(Fields::Unit) => Some(Unsupported::UnitStruct),
        Data::Struct(_) => None,
        Data::Enum => Some(Unsupported::Enum),
        Data::Union => Some(Unsupported::Union),
    }
}

pub open spec fn message_of(kind: Unsupported) -> Seq<char> {
    match kind {
        Unsupported::UnitStruct => "Cannot derive CloneFrom for unit."@,
        Unsupported::Enum => "Cannot derive CloneFrom for enum."@,
        Unsupported::Union => "Cannot derive CloneFrom for union."@,
    }
}

/// The shape of a supported body.
pub open spec fn shape_of(data: Data) -> TypeShape
    recommends
        unsupported_kind(data).is_none(),
{
    match data {
        Data::Struct(Fields::Named(fs)) => TypeShape::Named(fs),
        Data::Struct(Fields::Unnamed(ts)) => TypeShape::Positional(ts),
        _ => arbitrary(),
    }
}

/// Classify a field by the surface form of its declared type.
pub fn plan_field(ty: &TypeSyntax) -> (r: FieldPlan)
    ensures
        r == syntax_plan(*ty),
{
    match ty {
        TypeSyntax::Reference(_) => FieldPlan::ByReference,
        TypeSyntax::Other(_) => FieldPlan::ByValue,
    }
}

impl ShapeError {
    pub fn new(kind: Unsupported) -> (r: ShapeError)
        ensures
            r.kind == kind,
            r.message@ == message_of(kind),
    {
        let text: &str = match kind {
            Unsupported::UnitStruct => "Cannot derive CloneFrom for unit.",
            Unsupported::Enum => "Cannot derive CloneFrom for enum.",
            Unsupported::Union => "Cannot derive CloneFrom for union.",
        };
        ShapeError { kind, message: text.to_owned() }
    }
}

/// Map a type's body to its shape, or to the reason it is refused.
pub fn classify(data: Data) -> (r: Result<TypeShape, ShapeError>)
    ensures
        match unsupported_kind(data) {
            Some(kind) => r matches Err(e) && e.kind == kind && e.message@ == message_of(kind),
            None => r == Ok::<TypeShape, ShapeError>(shape_of(data)),
        },
{
    match data {
        Data::Struct(Fields::Named(fs)) => Ok(TypeShape::Named(fs)),
        Data::Struct(Fields::Unnamed(ts)) => Ok(TypeShape::Positional(ts)),
        Data::Struct(Fields::Unit) => Err(ShapeError::new(Unsupported::UnitStruct)),
        Data::Enum => Err(ShapeError::new(Unsupported::Enum)),
        Data::Union => Err(ShapeError::new(Unsupported::Union)),
    }
}

/// Classification refuses exactly unit structs, enums and unions, each
/// with a reason of its own, and accepts every struct with fields.
pub proof fn lemma_classification_total(data: Data)
    ensures
        unsupported_kind(data).is_none() <==> data matches Data::Struct(Fields::Named(_) | Fields::Unnamed(_)),
        forall|a: Unsupported, b: Unsupported| a != b ==> message_of(a) != message_of(b),
{
    reveal_strlit("Cannot derive CloneFrom for unit.");
    reveal_strlit("Cannot derive CloneFrom for enum.");
    reveal_strlit("Cannot derive CloneFrom for union.");
    assert(message_of(Unsupported::UnitStruct)[28] != message_of(Unsupported::Enum)[28]);
    assert(message_of(Unsupported::UnitStruct).len() != message_of(Unsupported::Union).len());
    assert(message_of(Unsupported::Enum).len() != message_of(Unsupported::Union).len());
}

} // verus!
