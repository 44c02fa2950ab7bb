//! What the planned bodies do to live values, and the laws they obey.
//!
//! A live value of a record is modelled as one state per field, in
//! declaration order. A field holds either a reference, known by the
//! address of its referent, or an owned value, known by what it holds and
//! by the storage that holds it.

use vstd::prelude::*;
use crate::emit::{FieldStep, Member, planned_steps};
use crate::shape::{FieldPlan, NamedField, TypeShape, syntax_plan};

verus! {

pub enum FieldState {
    Ref { referent: int },
    Owned { value: int, storage: int },
}

/// Two field states that no program can tell apart by value.
pub open spec fn same_value(a: FieldState, b: FieldState) -> bool {
    match (a, b) {
        (FieldState::Ref { referent: r }, FieldState::Ref { referent: s }) => r == s,
        (FieldState::Owned { value: v, .. }, FieldState::Owned { value: w, .. }) => v == w,
        _ => false,
    }
}

/// `x.clone()`, the new value placed in `fresh`. Cloning a reference
/// copies the reference.
pub open spec fn clone_state(s: FieldState, fresh: int) -> FieldState {
    match s {
        FieldState::Ref { .. } => s,
        FieldState::Owned { value, .. } => FieldState::Owned { value, storage: fresh },
    }
}

/// `x.clone_from(&y)`: an owned value takes `y`'s value into `x`'s own
/// storage.
pub open spec fn clone_from_state(x: FieldState, y: FieldState) -> FieldState {
    match (x, y) {
        (FieldState::Owned { storage, .. }, FieldState::Owned { value, .. }) =>
            FieldState::Owned { value, storage },
        _ => y,
    }
}

/// The initialiser of one field in `clone`.
pub open spec fn copy_field(plan: FieldPlan, s: FieldState, fresh: int) -> FieldState {
    match plan {
        FieldPlan::ByReference => s,
        FieldPlan::ByValue => clone_state(s, fresh),
    }
}

/// The statement for one field in `clone_from`.
pub open spec fn overwrite_field(plan: FieldPlan, x: FieldState, y: FieldState) -> FieldState {
    match plan {
        FieldPlan::ByReference => y,
        FieldPlan::ByValue => clone_from_state(x, y),
    }
}

/// The value that `clone` builds from `source`, with `fresh[i]` the
/// storage that the clone of field `i` is given.
pub open spec fn run_copy(steps: Seq<FieldStep>, source: Seq<FieldState>, fresh: Seq<int>) -> Seq<FieldState> {
    Seq::new(steps.len(), |i: int| copy_field(steps[i].plan, source[i], fresh[i]))
}

/// The value of `self` after `self.clone_from(other)`.
pub open spec fn run_overwrite(steps: Seq<FieldStep>, this: Seq<FieldState>, other: Seq<FieldState>) -> Seq<FieldState> {
    Seq::new(steps.len(), |i: int| overwrite_field(steps[i].plan, this[i], other[i]))
}

/// `v` is a live value of a record whose fields the steps plan: one state
/// per field, and a reference in every field written as a reference.
pub open spec fn fits(steps: Seq<FieldStep>, v: Seq<FieldState>) -> bool {
    &&& v.len() == steps.len()
    &&& forall|i: int| 0 <= i < v.len() && steps[i].plan == FieldPlan::ByReference
        ==> #[trigger] v[i] is Ref
}

/// Two values of one type: each field is a reference in both or in neither.
pub open spec fn same_layout(a: Seq<FieldState>, b: Seq<FieldState>) -> bool {
    &&& a.len() == b.len()
    &&& forall|i: int| 0 <= i < a.len() ==> (#[trigger] a[i] is Ref) == (b[i] is Ref)
}

/// Storage for the clones that no field of `source` already uses.
pub open spec fn fresh_for(source: Seq<FieldState>, fresh: Seq<int>) -> bool {
    &&& fresh.len() == source.len()
    &&& forall|i: int, j: int| 0 <= i < fresh.len() && 0 <= j < source.len()
        && #[trigger] source[j] is Owned ==> #[trigger] fresh[i] != source[j]->storage
}

/// `clone` gives a value equal to the source field by field, and every
/// owned field that it clones lives in storage of its own, apart from the
/// source's.
pub proof fn lemma_copy_equal_and_independent(shape: TypeShape, source: Seq<FieldState>, fresh: Seq<int>)
    requires
        fits(planned_steps(shape), source),
        fresh_for(source, fresh),
    ensures
        ({
            let c = run_copy(planned_steps(shape), source, fresh);
            &&& c.len() == source.len()
            &&& forall|i: int| 0 <= i < c.len() ==> same_value(#[trigger] c[i], source[i])
            &&& forall|i: int| 0 <= i < c.len() && #[trigger] source[i] is Owned
                ==> c[i] is Owned && c[i]->storage != source[i]->storage
        }),
{
    let steps = planned_steps(shape);
    let c = run_copy(steps, source, fresh);
    assert forall|i: int| 0 <= i < c.len() && #[trigger] source[i] is Owned
        implies c[i] is Owned && c[i]->storage != source[i]->storage by {
        if steps[i].plan == FieldPlan::ByReference {
            assert(source[i] is Ref);
        }
    }
}

/// The planned code addresses the fields in declaration order: by name
/// for named fields, by position for positional ones.
pub proof fn lemma_declaration_order(shape: TypeShape)
    ensures
        match shape {
            TypeShape::Named(fs) => planned_steps(shape).len() == fs@.len()
                && forall|i: int| 0 <= i < fs@.len() ==> #[trigger] planned_steps(shape)[i]
                    == (FieldStep { member: Member::Named(fs@[i].name), plan: syntax_plan(fs@[i].ty) }),
            TypeShape::Positional(ts) => planned_steps(shape).len() == ts@.len()
                && forall|i: int| 0 <= i < ts@.len() ==> #[trigger] planned_steps(shape)[i]
                    == (FieldStep { member: Member::Unnamed(i as usize), plan: syntax_plan(ts@[i]) }),
        },
{
}

/// In a clone, every field written as a reference points to the very
/// referent of the source's field.
pub proof fn lemma_copy_shares_referents(shape: TypeShape, source: Seq<FieldState>, fresh: Seq<int>)
    requires
        fits(planned_steps(shape), source),
    ensures
        forall|i: int| 0 <= i < source.len() && (#[trigger] planned_steps(shape)[i]).plan == FieldPlan::ByReference
            ==> run_copy(planned_steps(shape), source, fresh)[i] == source[i]
                && source[i] is Ref,
{
}

/// After `a.clone_from(&b)`, `a` equals `b` field by field, whatever `a`
/// held before, and every owned field keeps `a`'s storage.
pub proof fn lemma_overwrite_matches_other(shape: TypeShape, a: Seq<FieldState>, b: Seq<FieldState>)
    requires
        fits(planned_steps(shape), a),
        fits(planned_steps(shape), b),
        same_layout(a, b),
    ensures
        ({
            let r = run_overwrite(planned_steps(shape), a, b);
            &&& r.len() == b.len()
            &&& forall|i: int| 0 <= i < r.len() ==> same_value(#[trigger] r[i], b[i])
            &&& forall|i: int| 0 <= i < r.len() && #[trigger] a[i] is Owned
                ==> r[i] is Owned && r[i]->storage == a[i]->storage
        }),
{
    let steps = planned_steps(shape);
    let r = run_overwrite(steps, a, b);
    assert forall|i: int| 0 <= i < r.len() && #[trigger] a[i] is Owned
        implies r[i] is Owned && r[i]->storage == a[i]->storage by {
        if steps[i].plan == FieldPlan::ByReference {
            assert(a[i] is Ref);
        }
        assert(b[i] is Owned);
    }
    assert forall|i: int| 0 <= i < r.len() implies same_value(#[trigger] r[i], b[i]) by {
        assert((a[i] is Ref) == (b[i] is Ref));
    }
}

/// Overwriting twice from the same value leaves what the first overwrite
/// left.
pub proof fn lemma_overwrite_idempotent(shape: TypeShape, a: Seq<FieldState>, b: Seq<FieldState>)
    requires
        fits(planned_steps(shape), a),
        fits(planned_steps(shape), b),
    ensures
        run_overwrite(planned_steps(shape), run_overwrite(planned_steps(shape), a, b), b)
            == run_overwrite(planned_steps(shape), a, b),
{
    let steps = planned_steps(shape);
    let once = run_overwrite(steps, a, b);
    assert(run_overwrite(steps, once, b) =~= once);
}

} // verus!
