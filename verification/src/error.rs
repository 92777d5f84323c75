//! What the library rejects.

use vstd::prelude::*;

verus! {

/// A broken promise of the host or of the engine. Each one stops the
/// operation that met it and leaves the gizmo as it was.
#[derive(Clone, Copy, Debug, PartialEq, Eq, Structural)]
pub enum GizmoError {
    /// The lists of positions, rotations and scales differ in length.
    TargetListsMismatch,
    /// The engine handed back a number of transforms other than the number
    /// of targets.
    ResultCountMismatch,
    /// The interaction to repeat is one that starts a drag.
    DragStartReplayed,
    /// The draw buffers do not describe a list of triangles.
    MalformedDrawData,
}

impl GizmoError {
    /// The sentence that stands for each error.
    pub open spec fn message_spec(self) -> Seq<char> {
        match self {
            GizmoError::TargetListsMismatch => {
                "the lists of positions, rotations and scales differ in length"@
            },
            GizmoError::ResultCountMismatch => {
                "the number of updated transforms differs from the number of targets"@
            },
            GizmoError::DragStartReplayed => "We don't want to repeat a drag started interaction"@,
            GizmoError::MalformedDrawData => "the draw buffers do not describe a list of triangles"@,
        }
    }

    /// A sentence for the error.
    pub fn message(&self) -> (text: &'static str)
        ensures
            text@ == self.message_spec(),
    {
        match self {
            GizmoError::TargetListsMismatch => {
                "the lists of positions, rotations and scales differ in length"
            },
            GizmoError::ResultCountMismatch => {
                "the number of updated transforms differs from the number of targets"
            },
            GizmoError::DragStartReplayed => "We don't want to repeat a drag started interaction",
            GizmoError::MalformedDrawData => "the draw buffers do not describe a list of triangles",
        }
    }
}

} // verus!
