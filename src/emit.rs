//! Planning the bodies of `clone` and `clone_from`.

use vstd::prelude::*;
use crate::shape::{FieldPlan, NamedField, TypeShape, TypeSyntax, plan_field, syntax_plan};

verus! {

/// How the planned code names a field: by identifier or by position.
#[derive(Clone, Debug, PartialEq, Eq)]
pub enum Member {
    Named(String),
    Unnamed(usize),
}

/// What the planned code does with one field.
///
/// In `clone` a `ByReference` field is initialised as `m: self.m` and a
/// `ByValue` field as `m: self.m.clone()`. In `clone_from` a `ByReference`
/// field is assigned as `self.m = other.m` and a `ByValue` field is
/// overwritten in place as `self.m.clone_from(&other.m)`.
#[derive(Clone, Debug, PartialEq, Eq)]
pub struct FieldStep {
    pub member: Member,
    pub plan: FieldPlan,
}

/// The body of `clone`: a struct expression `Self { .. }` with one
/// initialiser per field.
#[derive(Clone, Debug, PartialEq, Eq)]
pub struct CopyBody {
    pub fields: Vec<FieldStep>,
}

/// The body of `clone_from`: one statement per field.
#[derive(Clone, Debug, PartialEq, Eq)]
pub struct OverwriteBody {
    pub steps: Vec<FieldStep>,
}

pub open spec fn named_step(f: NamedField) -> FieldStep {
    FieldStep { member: Member::Named(f.name), plan: syntax_plan(f.ty) }
}

pub open spec fn positional_step(i: int, t: TypeSyntax) -> FieldStep {
    FieldStep { member: Member::Unnamed(i as usize), plan: syntax_plan(t) }
}

/// One step per field of the shape, in declaration order.
pub open spec fn planned_steps(shape: TypeShape) -> Seq<FieldStep> {
    match shape {
        TypeShape::Named(fs) => fs@.map(|i: int, f: NamedField| named_step(f)),
        TypeShape::Positional(ts) => ts@.map(|i: int, t: TypeSyntax| positional_step(i, t)),
    }
}

pub open spec fn field_count(shape: TypeShape) -> nat {
    match shape {
        TypeShape::Named(fs) => fs@.len(),
        TypeShape::Positional(ts) => ts@.len(),
    }
}

fn plan_steps(shape: &TypeShape) -> (r: Vec<FieldStep>)
    ensures
        r@ == planned_steps(*shape),
{
    let mut out: Vec<FieldStep> = Vec::new();
    match shape {
        TypeShape::Named(fs) => {
            let mut i: usize = 0;
            while i < fs.len()
                invariant
                    i <= fs@.len(),
                    out@ =~= fs@.subrange(0, i as int).map(|j: int, f: NamedField| named_step(f)),
                decreases fs@.len() - i,
            {
                let f = &fs[i];
                let step = FieldStep { member: Member::Named(f.name.clone()), plan: plan_field(&f.ty) };
                out.push(step);
                i = i + 1;
            }
            assert(fs@.subrange(0, fs@.len() as int) =~= fs@);
        },
        TypeShape::Positional(ts) => {
            let mut i: usize = 0;
            while i < ts.len()
                invariant
                    i <= ts@.len(),
                    out@ =~= ts@.subrange(0, i as int).map(|j: int, t: TypeSyntax| positional_step(j, t)),
                decreases ts@.len() - i,
            {
                let step = FieldStep { member: Member::Unnamed(i), plan: plan_field(&ts[i]) };
                out.push(step);
                i = i + 1;
            }
            assert(ts@.subrange(0, ts@.len() as int) =~= ts@);
        },
    }
    out
}

/// Plan the body of `clone`: every field in declaration order, references
/// copied as they are and other fields cloned.
pub fn emit_copy(shape: &TypeShape) -> (r: CopyBody)
    ensures
        r.fields@ == planned_steps(*shape),
{
    CopyBody { fields: plan_steps(shape) }
}

/// Plan the body of `clone_from`: every field in declaration order,
/// references reassigned and other fields overwritten in place.
pub fn emit_overwrite(shape: &TypeShape) -> (r: OverwriteBody)
    ensures
        r.steps@ == planned_steps(*shape),
{
    OverwriteBody { steps: plan_steps(shape) }
}

} // verus!
