//! Sets of manipulation modes.

use vstd::prelude::*;
use transform_gizmo::GizmoMode;
use crate::engine::{members, mode_set_contains, mode_set_insert, mode_set_new, mode_set_to_vec, ModeSet};

verus! {

impl View for ModeSet {
    type V = Set<GizmoMode>;

    /// The modes that the set holds.
    open spec fn view(&self) -> Set<GizmoMode> {
        members(*self)
    }
}

impl ModeSet {
    /// The set without members.
    pub fn new() -> (set: ModeSet)
        ensures
            set@ == Set::<GizmoMode>::empty(),
    {
        mode_set_new()
    }

    /// Adds a mode and says whether it was missing before.
    pub fn insert(&mut self, mode: GizmoMode) -> (fresh: bool)
        ensures
            final(self)@ == old(self)@.insert(mode),
            fresh == !old(self)@.contains(mode),
    {
        mode_set_insert(self, mode)
    }

    /// Whether the mode is a member.
    pub fn contains(&self, mode: GizmoMode) -> (found: bool)
        ensures
            found == self@.contains(mode),
    {
        mode_set_contains(self, mode)
    }

    /// The members, each once.
    pub fn to_vec(&self) -> (modes: Vec<GizmoMode>)
        ensures
            modes@.no_duplicates(),
            modes@.to_set() == self@,
            forall|mode: GizmoMode| modes@.contains(mode) <==> self@.contains(mode),
    {
        let modes = mode_set_to_vec(self);
        assert forall|mode: GizmoMode| modes@.contains(mode) <==> self@.contains(mode) by {
            assert(modes@.to_set().contains(mode) <==> modes@.contains(mode));
        }
        modes
    }
}

} // verus!
