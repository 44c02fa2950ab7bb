use clone_from::derive::{add_trait_bounds, derive_clone_from_inner, CloneImpl, GenericParam, TypeDef};
use clone_from::emit::{emit_copy, emit_overwrite, FieldStep, Member};
use clone_from::shape::{
    classify, plan_field, Data, FieldPlan, Fields, NamedField, ShapeError, TypeShape, TypeSyntax,
    Unsupported,
};

fn other(text: &str) -> TypeSyntax {
    TypeSyntax::Other(text.to_string())
}

fn reference(text: &str) -> TypeSyntax {
    TypeSyntax::Reference(text.to_string())
}

fn named(name: &str, ty: TypeSyntax) -> NamedField {
    NamedField { name: name.to_string(), ty }
}

fn step_named(name: &str, plan: FieldPlan) -> FieldStep {
    FieldStep { member: Member::Named(name.to_string()), plan }
}

fn step_at(i: usize, plan: FieldPlan) -> FieldStep {
    FieldStep { member: Member::Unnamed(i), plan }
}

fn type_param(name: &str, bounds: &[&str]) -> GenericParam {
    GenericParam::Type {
        name: name.to_string(),
        bounds: bounds.iter().map(|b| b.to_string()).collect(),
    }
}

fn lifetime(name: &str) -> GenericParam {
    GenericParam::Lifetime(name.to_string())
}

fn derive_ok(def: TypeDef) -> CloneImpl {
    match derive_clone_from_inner(def) {
        Ok(imp) => imp,
        Err(e) => panic!("unexpected refusal: {}", e.message),
    }
}

fn derive_err(data: Data) -> ShapeError {
    let def = TypeDef { name: "Refused".to_string(), generics: vec![], data };
    match derive_clone_from_inner(def) {
        Ok(_) => panic!("expected a refusal"),
        Err(e) => e,
    }
}

#[test]
fn named_record_is_cloned_field_by_field() {
    let def = TypeDef {
        name: "MyTest".to_string(),
        generics: vec![],
        data: Data::Struct(Fields::Named(vec![
            named("_name", other("String")),
            named("_whatnot", other("usize")),
        ])),
    };
    let imp = derive_ok(def);
    assert_eq!(imp.name, "MyTest");
    assert!(imp.generics.is_empty());
    let expected = vec![
        step_named("_name", FieldPlan::ByValue),
        step_named("_whatnot", FieldPlan::ByValue),
    ];
    assert_eq!(imp.clone.fields, expected);
    assert_eq!(imp.clone_from.steps, expected);
}

#[test]
fn generic_record_bounds_type_parameter_and_rebinds_reference() {
    let def = TypeDef {
        name: "MyTestGeneric".to_string(),
        generics: vec![lifetime("'a"), type_param("T", &[])],
        data: Data::Struct(Fields::Named(vec![
            named("_inner", other("T")),
            named("_inner_ref", reference("&'a T")),
        ])),
    };
    let imp = derive_ok(def);
    assert_eq!(imp.generics, vec![lifetime("'a"), type_param("T", &["Clone"])]);
    let expected = vec![
        step_named("_inner", FieldPlan::ByValue),
        step_named("_inner_ref", FieldPlan::ByReference),
    ];
    assert_eq!(imp.clone.fields, expected);
    assert_eq!(imp.clone_from.steps, expected);
}

#[test]
fn positional_record_reuses_storage_except_reference() {
    let def = TypeDef {
        name: "UnnamedStruct".to_string(),
        generics: vec![lifetime("'a"), type_param("T", &[])],
        data: Data::Struct(Fields::Unnamed(vec![
            other("T"),
            reference("&'a T"),
            other("String"),
            other("u64"),
        ])),
    };
    let imp = derive_ok(def);
    let expected = vec![
        step_at(0, FieldPlan::ByValue),
        step_at(1, FieldPlan::ByReference),
        step_at(2, FieldPlan::ByValue),
        step_at(3, FieldPlan::ByValue),
    ];
    assert_eq!(imp.clone_from.steps, expected);
    assert_eq!(imp.clone.fields, expected);
    assert_eq!(imp.generics, vec![lifetime("'a"), type_param("T", &["Clone"])]);
}

#[test]
fn unsupported_shapes_are_refused_with_distinct_messages() {
    let unit = derive_err(Data::Struct(Fields::Unit));
    let tagged = derive_err(Data::Enum);
    let overlapping = derive_err(Data::Union);
    assert_eq!(unit.kind, Unsupported::UnitStruct);
    assert_eq!(tagged.kind, Unsupported::Enum);
    assert_eq!(overlapping.kind, Unsupported::Union);
    assert_eq!(unit.message, "Cannot derive CloneFrom for unit.");
    assert_eq!(tagged.message, "Cannot derive CloneFrom for enum.");
    assert_eq!(overlapping.message, "Cannot derive CloneFrom for union.");
    assert_ne!(unit.message, tagged.message);
    assert_ne!(tagged.message, overlapping.message);
    assert_ne!(unit.message, overlapping.message);
}

#[test]
fn classify_accepts_records_and_refuses_the_rest() {
    let fs = vec![named("a", other("u8"))];
    assert_eq!(
        classify(Data::Struct(Fields::Named(fs.clone()))),
        Ok(TypeShape::Named(fs))
    );
    let ts = vec![other("u8"), reference("&'a str")];
    assert_eq!(
        classify(Data::Struct(Fields::Unnamed(ts.clone()))),
        Ok(TypeShape::Positional(ts))
    );
    assert_eq!(
        classify(Data::Struct(Fields::Named(vec![]))),
        Ok(TypeShape::Named(vec![]))
    );
    assert!(matches!(classify(Data::Struct(Fields::Unit)), Err(e) if e.kind == Unsupported::UnitStruct));
    assert!(matches!(classify(Data::Enum), Err(e) if e.kind == Unsupported::Enum));
    assert!(matches!(classify(Data::Union), Err(e) if e.kind == Unsupported::Union));
}

#[test]
fn plan_field_looks_at_surface_form_only() {
    assert_eq!(plan_field(&reference("&'a T")), FieldPlan::ByReference);
    assert_eq!(plan_field(&reference("&mut Vec<u8>")), FieldPlan::ByReference);
    assert_eq!(plan_field(&other("String")), FieldPlan::ByValue);
    // An alias of a reference type is not written as a reference.
    assert_eq!(plan_field(&other("RefAlias")), FieldPlan::ByValue);
}

#[test]
fn copy_and_overwrite_keep_declaration_order() {
    let shape = TypeShape::Named(vec![
        named("z", other("u8")),
        named("a", reference("&'a u8")),
        named("m", other("Vec<u8>")),
    ]);
    let expected = vec![
        step_named("z", FieldPlan::ByValue),
        step_named("a", FieldPlan::ByReference),
        step_named("m", FieldPlan::ByValue),
    ];
    assert_eq!(emit_copy(&shape).fields, expected);
    assert_eq!(emit_overwrite(&shape).steps, expected);
}

#[test]
fn empty_named_record_plans_nothing() {
    let shape = TypeShape::Named(vec![]);
    assert!(emit_copy(&shape).fields.is_empty());
    assert!(emit_overwrite(&shape).steps.is_empty());
}

#[test]
fn trait_bounds_added_to_type_parameters_only() {
    let mut generics = vec![
        lifetime("'a"),
        type_param("T", &["Debug"]),
        GenericParam::Const { name: "N".to_string(), ty: "usize".to_string() },
        type_param("U", &[]),
    ];
    add_trait_bounds(&mut generics);
    assert_eq!(
        generics,
        vec![
            lifetime("'a"),
            type_param("T", &["Debug", "Clone"]),
            GenericParam::Const { name: "N".to_string(), ty: "usize".to_string() },
            type_param("U", &["Clone"]),
        ]
    );
}

#[test]
fn trait_bounds_on_no_parameters() {
    let mut generics: Vec<GenericParam> = vec![];
    add_trait_bounds(&mut generics);
    assert!(generics.is_empty());
}

