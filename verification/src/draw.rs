//! What the renderer is given: a list of triangles.

use vstd::prelude::*;
use crate::error::GizmoError;
use crate::geometry::{Pos2, Rgba};

verus! {

/// The three buffers of a frame.
pub struct DrawDataView {
    /// Vertices in viewport space.
    pub vertices: Seq<Pos2>,
    /// Linear RGBA colors, one per vertex.
    pub colors: Seq<Rgba>,
    /// Indices to the vertex data, three per triangle.
    pub indices: Seq<u32>,
}

impl DrawDataView {
    /// The buffers describe a list of triangles: every vertex has its
    /// colour, the indices come in threes, and each of them names a vertex.
    pub open spec fn well_formed(self) -> bool {
        &&& self.colors.len() == self.vertices.len()
        &&& self.indices.len() % 3 == 0
        &&& forall|i: int|
            0 <= i < self.indices.len() ==> #[trigger] self.indices[i] < self.vertices.len()
    }

    /// No vertex and no triangle.
    pub open spec fn empty() -> DrawDataView {
        DrawDataView {
            vertices: Seq::<Pos2>::empty(),
            colors: Seq::<Rgba>::empty(),
            indices: Seq::<u32>::empty(),
        }
    }
}

/// The buffers of a frame. Whoever holds one holds a list of triangles:
/// the buffers are well formed.
#[derive(Debug)]
pub struct DrawData {
    vertices: Vec<Pos2>,
    colors: Vec<Rgba>,
    indices: Vec<u32>,
}

impl View for DrawData {
    type V = DrawDataView;

    closed spec fn view(&self) -> DrawDataView {
        DrawDataView { vertices: self.vertices@, colors: self.colors@, indices: self.indices@ }
    }
}

impl DrawData {
    #[verifier::type_invariant]
    spec fn well_formed(self) -> bool {
        self@.well_formed()
    }

    /// The frame without a triangle.
    pub fn empty() -> (data: DrawData)
        ensures
            data@ == DrawDataView::empty(),
            data@.well_formed(),
    {
        DrawData { vertices: Vec::new(), colors: Vec::new(), indices: Vec::new() }
    }

    /// The frame with the given buffers. Buffers that are not well formed
    /// are rejected.
    pub fn from_buffers(vertices: Vec<Pos2>, colors: Vec<Rgba>, indices: Vec<u32>) -> (result:
        Result<DrawData, GizmoError>)
        ensures
            result is Ok <==> (DrawDataView {
                vertices: vertices@,
                colors: colors@,
                indices: indices@,
            }).well_formed(),
            result is Ok ==> result->Ok_0@ == (DrawDataView {
                vertices: vertices@,
                colors: colors@,
                indices: indices@,
            }),
            result is Err ==> result->Err_0 == GizmoError::MalformedDrawData,
    {
        if colors.len() != vertices.len() || indices.len() % 3 != 0 {
            return Err(GizmoError::MalformedDrawData);
        }
        let mut i: usize = 0;
        while i < indices.len()
            invariant
                i <= indices@.len(),
                forall|k: int| 0 <= k < i ==> #[trigger] indices@[k] < vertices@.len(),
            decreases indices@.len() - i,
        {
            if indices[i] as usize >= vertices.len() {
                return Err(GizmoError::MalformedDrawData);
            }
            i += 1;
        }
        Ok(DrawData { vertices, colors, indices })
    }

    /// The vertices, in viewport space.
    pub fn vertices(&self) -> (vertices: &Vec<Pos2>)
        ensures
            vertices@ == self@.vertices,
            self@.well_formed(),
    {
        proof {
            use_type_invariant(self);
        }
        &self.vertices
    }

    /// The colours, one per vertex.
    pub fn colors(&self) -> (colors: &Vec<Rgba>)
        ensures
            colors@ == self@.colors,
            colors@.len() == self@.vertices.len(),
            self@.well_formed(),
    {
        proof {
            use_type_invariant(self);
        }
        &self.colors
    }

    /// The indices, three per triangle, each of them the place of a
    /// vertex.
    pub fn indices(&self) -> (indices: &Vec<u32>)
        ensures
            indices@ == self@.indices,
            indices@.len() % 3 == 0,
            forall|i: int|
                0 <= i < indices@.len() ==> #[trigger] indices@[i] < self@.vertices.len(),
            self@.well_formed(),
    {
        proof {
            use_type_invariant(self);
        }
        &self.indices
    }

    /// The number of triangles.
    pub fn triangle_count(&self) -> (count: usize)
        ensures
            count * 3 == self@.indices.len(),
            self@.well_formed(),
    {
        proof {
            use_type_invariant(self);
        }
        self.indices.len() / 3
    }

    /// Whether there is nothing to render.
    pub fn is_empty(&self) -> (empty: bool)
        ensures
            empty == (self@.indices.len() == 0),
            self@.well_formed(),
    {
        proof {
            use_type_invariant(self);
        }
        self.indices.len() == 0
    }
}

impl Default for DrawData {
    fn default() -> (data: Self)
        ensures
            data@ == DrawDataView::empty(),
    {
        DrawData::empty()
    }
}

} // verus!
