//! What this library takes from the gizmo engine and from `itertools`.
//!
//! Nothing in this file is proved. The enums are read by Verus as the
//! engine declares them; every function below makes one call into an outside
//! crate and states, as its contract, what that crate's source shows of the
//! call.

use vstd::prelude::*;

verus! {

/// The engine's manipulation modes, declared with their variants, all of
/// them public and without fields, so that verified code can name a mode
/// and match on one.
#[verifier::external_type_specification]
pub struct ExGizmoMode(transform_gizmo::GizmoMode);

/// The engine's two orientations, declared with their variants.
#[verifier::external_type_specification]
pub struct ExGizmoOrientation(transform_gizmo::GizmoOrientation);

/// The engine's two pivot policies, declared with their variants.
#[verifier::external_type_specification]
pub struct ExTransformPivotPoint(transform_gizmo::config::TransformPivotPoint);

/// A set of manipulation modes: the engine's `EnumSet<GizmoMode>`, held as
/// it is. Verus cannot take `EnumSet` in a signature, on account of
/// the trait that bounds its parameter, so it does not look into this
/// struct: what it knows of a set is `members(set)`.
#[verifier::external_body]
#[derive(Debug)]
pub struct ModeSet {
    inner: transform_gizmo::EnumSet<transform_gizmo::GizmoMode>,
}

/// The modes that a mode set holds.
pub uninterp spec fn members(set: ModeSet) -> Set<transform_gizmo::GizmoMode>;

/// `EnumSet::new`: a set without members.
#[verifier::external_body]
pub(crate) fn mode_set_new() -> (set: ModeSet)
    ensures
        members(set) == Set::<transform_gizmo::GizmoMode>::empty(),
{
    ModeSet { inner: transform_gizmo::EnumSet::new() }
}

/// `EnumSet::insert`: the mode joins the set, the other members stay, and
/// the result says whether the mode was missing before.
#[verifier::external_body]
pub(crate) fn mode_set_insert(set: &mut ModeSet, mode: transform_gizmo::GizmoMode) -> (fresh:
    bool)
    ensures
        members(*final(set)) == members(*old(set)).insert(mode),
        fresh == !members(*old(set)).contains(mode),
{
    set.inner.insert(mode)
}

/// `EnumSet::contains`: whether the mode is a member.
#[verifier::external_body]
pub(crate) fn mode_set_contains(set: &ModeSet, mode: transform_gizmo::GizmoMode) -> (found: bool)
    ensures
        found == members(*set).contains(mode),
{
    set.inner.contains(mode)
}

/// `EnumSet::iter`: every member once, and nothing else.
#[verifier::external_body]
pub(crate) fn mode_set_to_vec(set: &ModeSet) -> (modes: Vec<transform_gizmo::GizmoMode>)
    ensures
        modes@.no_duplicates(),
        modes@.to_set() == members(*set),
{
    set.inner.iter().collect()
}

/// `itertools::multizip` on three vectors, collected: the triples of the
/// items at equal positions, in order, as many as the shortest vector has
/// items.
#[verifier::external_body]
pub(crate) fn multizip3<A, B, C>(a: Vec<A>, b: Vec<B>, c: Vec<C>) -> (zipped: Vec<(A, B, C)>)
    ensures
        zipped@.len() <= a@.len(),
        zipped@.len() <= b@.len(),
        zipped@.len() <= c@.len(),
        zipped@.len() == a@.len() || zipped@.len() == b@.len() || zipped@.len() == c@.len(),
        forall|i: int|
            0 <= i < zipped@.len() ==> #[trigger] zipped@[i] == (a@[i], b@[i], c@[i]),
{
    itertools::multizip((a, b, c)).collect()
}

/// `itertools::multiunzip` on a vector of triples: three vectors as long as
/// the input, each holding one component of every triple, in order.
#[verifier::external_body]
pub(crate) fn multiunzip3<A, B, C>(triples: Vec<(A, B, C)>) -> (columns: (Vec<A>, Vec<B>, Vec<C>))
    ensures
        columns.0@.len() == triples@.len(),
        columns.1@.len() == triples@.len(),
        columns.2@.len() == triples@.len(),
        forall|i: int|
            0 <= i < triples@.len() ==> #[trigger] triples@[i] == (
                columns.0@[i],
                columns.1@[i],
                columns.2@[i],
            ),
{
    itertools::multiunzip(triples)
}

} // verus!
