//! The whole derivation: bounds on the generic parameters and the two
//! planned bodies, or the diagnostic for a refused shape.

use vstd::prelude::*;
use crate::emit::{CopyBody, OverwriteBody, emit_copy, emit_overwrite, planned_steps};
use crate::shape::{Data, ShapeError, classify, message_of, shape_of, unsupported_kind};

verus! {

/// A generic parameter of a type definition.
#[derive(Clone, Debug, PartialEq, Eq)]
pub enum GenericParam {
    Lifetime(String),
    /// A type parameter with the bounds written on it, each as source text.
    Type { name: String, bounds: Vec<String> },
    Const { name: String, ty: String },
}

/// A type definition, as the derive receives it.
#[derive(Clone, Debug, PartialEq, Eq)]
pub struct TypeDef {
    pub name: String,
    pub generics: Vec<GenericParam>,
    pub data: Data,
}

/// The planned `Clone` implementation of a type.
#[derive(Clone, Debug, PartialEq, Eq)]
pub struct CloneImpl {
    pub name: String,
    pub generics: Vec<GenericParam>,
    pub clone: CopyBody,
    pub clone_from: OverwriteBody,
}

pub open spec fn bound_texts(bounds: Vec<String>) -> Seq<Seq<char>> {
    bounds@.map_values(|b: String| b@)
}

/// `new` is `old`, with a `Clone` bound added last if it is a type parameter.
pub open spec fn clone_bounded(old: GenericParam, new: GenericParam) -> bool {
    match old {
        GenericParam::Type { name, bounds } => new matches GenericParam::Type { name: n, bounds: b }
            && n == name && bound_texts(b) == bound_texts(bounds).push("Clone"@),
        _ => new == old,
    }
}

pub open spec fn all_clone_bounded(old: Seq<GenericParam>, new: Seq<GenericParam>) -> bool {
    &&& new.len() == old.len()
    &&& forall|i: int| 0 <= i < old.len() ==> clone_bounded(#[trigger] old[i], new[i])
}

fn with_clone_bound(p: GenericParam) -> (r: GenericParam)
    ensures
        clone_bounded(p, r),
{
    match p {
        GenericParam::Type { name, bounds } => {
            let mut bounds = bounds;
            let ghost before = bounds;
            bounds.push("Clone".to_owned());
            assert(bound_texts(bounds) =~= bound_texts(before).push("Clone"@));
            GenericParam::Type { name, bounds }
        },
        other => other,
    }
}

/// Add a `Clone` bound to every type parameter; lifetime and const
/// parameters are left as they are.
pub fn add_trait_bounds(generics: &mut Vec<GenericParam>)
    ensures
        all_clone_bounded(old(generics)@, final(generics)@),
{
    let ghost start = generics@;
    let mut i: usize = 0;
    while i < generics.len()
        invariant
            i <= generics@.len(),
            generics@.len() == start.len(),
            forall|j: int| 0 <= j < i ==> clone_bounded(#[trigger] start[j], generics@[j]),
            forall|j: int| i <= j < start.len() ==> #[trigger] generics@[j] == start[j],
        decreases start.len() - i,
    {
        let mut p = GenericParam::Lifetime(String::new());
        generics.set_and_swap(i, &mut p);
        let q = with_clone_bound(p);
        generics.set(i, q);
        i = i + 1;
    }
}

/// Derive the `Clone` implementation of a type definition.
///
/// Fails exactly when the body is a unit struct, an enum or a union, with
/// a diagnostic naming that kind and nothing planned.
pub fn derive_clone_from_inner(input: TypeDef) -> (r: Result<CloneImpl, ShapeError>)
    ensures
        match unsupported_kind(input.data) {
            Some(kind) => r matches Err(e) && e.kind == kind && e.message@ == message_of(kind),
            None => r matches Ok(imp) && imp.name == input.name
                && all_clone_bounded(input.generics@, imp.generics@)
                && imp.clone.fields@ == planned_steps(shape_of(input.data))
                && imp.clone_from.steps@ == planned_steps(shape_of(input.data)),
        },
{
    let TypeDef { name, generics, data } = input;
    let mut generics = generics;
    add_trait_bounds(&mut generics);
    let shape = match classify(data) {
        Ok(shape) => shape,
        Err(e) => return Err(e),
    };
    let clone = emit_copy(&shape);
    let clone_from = emit_overwrite(&shape);
    Ok(CloneImpl { name, generics, clone, clone_from })
}

} // verus!
