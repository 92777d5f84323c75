//! What the pointer does in one frame.

use vstd::prelude::*;
use crate::geometry::Pos2;
use crate::scalar::Scalar;

verus! {

/// The pointer's state as the host reports it.
#[derive(Clone, Copy, Debug, PartialEq, Eq, Structural)]
pub struct GizmoInteraction {
    /// Current cursor position in the item's coordinates.
    pub cursor_pos: Pos2,
    /// Whether the gizmo is hovered this frame.
    pub hovered: bool,
    /// Whether dragging was started this frame.
    pub drag_started: bool,
    /// Whether the user is currently dragging.
    pub dragging: bool,
}

impl GizmoInteraction {
    /// The same pointer state in a later frame: a drag that started is now
    /// merely going on.
    pub open spec fn repeated_spec(self) -> GizmoInteraction {
        GizmoInteraction { drag_started: false, ..self }
    }

    /// The pointer at the origin, neither hovering nor dragging.
    pub open spec fn idle() -> GizmoInteraction {
        GizmoInteraction {
            cursor_pos: Pos2 { x: Scalar { bits: 0 }, y: Scalar { bits: 0 } },
            hovered: false,
            drag_started: false,
            dragging: false,
        }
    }

    /// The interaction with the given parts.
    pub fn new(cursor_pos: Pos2, hovered: bool, drag_started: bool, dragging: bool) -> (interaction:
        GizmoInteraction)
        ensures
            interaction == (GizmoInteraction { cursor_pos, hovered, drag_started, dragging }),
    {
        GizmoInteraction { cursor_pos, hovered, drag_started, dragging }
    }

    /// The interaction to keep for a later frame: the same, but not the
    /// start of a drag.
    pub fn repeated(&self) -> (later: GizmoInteraction)
        ensures
            later == self.repeated_spec(),
            !later.drag_started,
    {
        GizmoInteraction {
            cursor_pos: self.cursor_pos,
            hovered: self.hovered,
            drag_started: false,
            dragging: self.dragging,
        }
    }
}

impl Default for GizmoInteraction {
    fn default() -> (interaction: Self)
        ensures
            interaction == GizmoInteraction::idle(),
    {
        GizmoInteraction {
            cursor_pos: Pos2 { x: Scalar::zero(), y: Scalar::zero() },
            hovered: false,
            drag_started: false,
            dragging: false,
        }
    }
}

} // verus!
