//! The settings that the host chooses by number: orientation, pivot point
//! and mode override.
//!
//! The host stores each of them as a 32-bit integer. A number that names no
//! variant is read as the default: global orientation, the median point, no
//! override.

use vstd::prelude::*;
use transform_gizmo::config::TransformPivotPoint;
use transform_gizmo::{GizmoMode, GizmoOrientation};

verus! {

/// The orientation that a host number stands for.
pub open spec fn orientation_of(repr: int) -> GizmoOrientation {
    if repr == 1 {
        GizmoOrientation::Local
    } else {
        GizmoOrientation::Global
    }
}

/// The pivot point that a host number stands for.
pub open spec fn pivot_point_of(repr: int) -> TransformPivotPoint {
    if repr == 1 {
        TransformPivotPoint::IndividualOrigins
    } else {
        TransformPivotPoint::MedianPoint
    }
}

/// Reads the host's number for an orientation: 0 is global, 1 is local, and
/// any other number is taken as global.
pub fn orientation_from_repr(repr: i32) -> (orientation: GizmoOrientation)
    ensures
        orientation == orientation_of(repr as int),
{
    match repr {
        1 => GizmoOrientation::Local,
        _ => GizmoOrientation::Global,
    }
}

/// The host's number for an orientation.
pub fn orientation_repr(orientation: GizmoOrientation) -> (repr: i32)
    ensures
        0 <= repr <= 1,
        orientation_of(repr as int) == orientation,
{
    match orientation {
        GizmoOrientation::Global => 0,
        GizmoOrientation::Local => 1,
    }
}

/// Reads the host's number for a pivot point: 0 is the median point, 1 is
/// each target's own origin, and any other number is taken as the median
/// point.
pub fn pivot_point_from_repr(repr: i32) -> (pivot_point: TransformPivotPoint)
    ensures
        pivot_point == pivot_point_of(repr as int),
{
    match repr {
        1 => TransformPivotPoint::IndividualOrigins,
        _ => TransformPivotPoint::MedianPoint,
    }
}

/// The host's number for a pivot point.
pub fn pivot_point_repr(pivot_point: TransformPivotPoint) -> (repr: i32)
    ensures
        0 <= repr <= 1,
        pivot_point_of(repr as int) == pivot_point,
{
    match pivot_point {
        TransformPivotPoint::MedianPoint => 0,
        TransformPivotPoint::IndividualOrigins => 1,
    }
}

/// Forces one manipulation mode, or none.
#[derive(Clone, Copy, Debug, PartialEq, Eq, Structural)]
pub enum GizmoModeOverride {
    NoOverride,
    /// Rotate around the view forward axis
    RotateView,
    /// Rotate around the X axis
    RotateX,
    /// Rotate around the Y axis
    RotateY,
    /// Rotate around the Z axis
    RotateZ,
    /// Translate along the view forward axis
    TranslateView,
    /// Translate along the X axis
    TranslateX,
    /// Translate along the Y axis
    TranslateY,
    /// Translate along the Z axis
    TranslateZ,
    /// Translate along the XY plane
    TranslateXY,
    /// Translate along the XZ plane
    TranslateXZ,
    /// Translate along the YZ plane
    TranslateYZ,
    /// Scale uniformly in all directions
    ScaleUniform,
    /// Scale along the X axis
    ScaleX,
    /// Scale along the Y axis
    ScaleY,
    /// Scale along the Z axis
    ScaleZ,
    /// Scale along the XY plane
    ScaleXY,
    /// Scale along the XZ plane
    ScaleXZ,
    /// Scale along the YZ plane
    ScaleYZ,
}

impl GizmoModeOverride {
    /// The number that the host stores for the variant: its place in the
    /// declaration, counted from zero.
    pub open spec fn repr_spec(self) -> int {
        match self {
            GizmoModeOverride::NoOverride => 0,
            GizmoModeOverride::RotateView => 1,
            GizmoModeOverride::RotateX => 2,
            GizmoModeOverride::RotateY => 3,
            GizmoModeOverride::RotateZ => 4,
            GizmoModeOverride::TranslateView => 5,
            GizmoModeOverride::TranslateX => 6,
            GizmoModeOverride::TranslateY => 7,
            GizmoModeOverride::TranslateZ => 8,
            GizmoModeOverride::TranslateXY => 9,
            GizmoModeOverride::TranslateXZ => 10,
            GizmoModeOverride::TranslateYZ => 11,
            GizmoModeOverride::ScaleUniform => 12,
            GizmoModeOverride::ScaleX => 13,
            GizmoModeOverride::ScaleY => 14,
            GizmoModeOverride::ScaleZ => 15,
            GizmoModeOverride::ScaleXY => 16,
            GizmoModeOverride::ScaleXZ => 17,
            GizmoModeOverride::ScaleYZ => 18,
        }
    }

    /// The mode that the override forces: the engine's mode of the same
    /// name, and none for `NoOverride`.
    pub open spec fn mode_spec(self) -> Option<GizmoMode> {
        match self {
            GizmoModeOverride::NoOverride => None,
            GizmoModeOverride::RotateView => Some(GizmoMode::RotateView),
            GizmoModeOverride::RotateX => Some(GizmoMode::RotateX),
            GizmoModeOverride::RotateY => Some(GizmoMode::RotateY),
            GizmoModeOverride::RotateZ => Some(GizmoMode::RotateZ),
            GizmoModeOverride::TranslateView => Some(GizmoMode::TranslateView),
            GizmoModeOverride::TranslateX => Some(GizmoMode::TranslateX),
            GizmoModeOverride::TranslateY => Some(GizmoMode::TranslateY),
            GizmoModeOverride::TranslateZ => Some(GizmoMode::TranslateZ),
            GizmoModeOverride::TranslateXY => Some(GizmoMode::TranslateXY),
            GizmoModeOverride::TranslateXZ => Some(GizmoMode::TranslateXZ),
            GizmoModeOverride::TranslateYZ => Some(GizmoMode::TranslateYZ),
            GizmoModeOverride::ScaleUniform => Some(GizmoMode::ScaleUniform),
            GizmoModeOverride::ScaleX => Some(GizmoMode::ScaleX),
            GizmoModeOverride::ScaleY => Some(GizmoMode::ScaleY),
            GizmoModeOverride::ScaleZ => Some(GizmoMode::ScaleZ),
            GizmoModeOverride::ScaleXY => Some(GizmoMode::ScaleXY),
            GizmoModeOverride::ScaleXZ => Some(GizmoMode::ScaleXZ),
            GizmoModeOverride::ScaleYZ => Some(GizmoMode::ScaleYZ),
        }
    }

    /// The number that the host stores for the variant.
    pub fn repr(&self) -> (repr: i32)
        ensures
            repr == self.repr_spec(),
    {
        match self {
            GizmoModeOverride::NoOverride => 0,
            GizmoModeOverride::RotateView => 1,
            GizmoModeOverride::RotateX => 2,
            GizmoModeOverride::RotateY => 3,
            GizmoModeOverride::RotateZ => 4,
            GizmoModeOverride::TranslateView => 5,
            GizmoModeOverride::TranslateX => 6,
            GizmoModeOverride::TranslateY => 7,
            GizmoModeOverride::TranslateZ => 8,
            GizmoModeOverride::TranslateXY => 9,
            GizmoModeOverride::TranslateXZ => 10,
            GizmoModeOverride::TranslateYZ => 11,
            GizmoModeOverride::ScaleUniform => 12,
            GizmoModeOverride::ScaleX => 13,
            GizmoModeOverride::ScaleY => 14,
            GizmoModeOverride::ScaleZ => 15,
            GizmoModeOverride::ScaleXY => 16,
            GizmoModeOverride::ScaleXZ => 17,
            GizmoModeOverride::ScaleYZ => 18,
        }
    }

    /// The variant that the host's number names, `NoOverride` where it
    /// names none.
    pub fn from_repr(repr: i32) -> (mode_override: GizmoModeOverride)
        ensures
            0 <= repr <= 18 ==> mode_override.repr_spec() == repr,
            !(0 <= repr <= 18) ==> mode_override == GizmoModeOverride::NoOverride,
    {
        match repr {
            1 => GizmoModeOverride::RotateView,
            2 => GizmoModeOverride::RotateX,
            3 => GizmoModeOverride::RotateY,
            4 => GizmoModeOverride::RotateZ,
            5 => GizmoModeOverride::TranslateView,
            6 => GizmoModeOverride::TranslateX,
            7 => GizmoModeOverride::TranslateY,
            8 => GizmoModeOverride::TranslateZ,
            9 => GizmoModeOverride::TranslateXY,
            10 => GizmoModeOverride::TranslateXZ,
            11 => GizmoModeOverride::TranslateYZ,
            12 => GizmoModeOverride::ScaleUniform,
            13 => GizmoModeOverride::ScaleX,
            14 => GizmoModeOverride::ScaleY,
            15 => GizmoModeOverride::ScaleZ,
            16 => GizmoModeOverride::ScaleXY,
            17 => GizmoModeOverride::ScaleXZ,
            18 => GizmoModeOverride::ScaleYZ,
            _ => GizmoModeOverride::NoOverride,
        }
    }

    /// The mode that the override forces, if any.
    pub fn mode(&self) -> (mode: Option<GizmoMode>)
        ensures
            mode == self.mode_spec(),
            mode is None <==> *self == GizmoModeOverride::NoOverride,
    {
        match self {
            GizmoModeOverride::NoOverride => None,
            GizmoModeOverride::RotateView => Some(GizmoMode::RotateView),
            GizmoModeOverride::RotateX => Some(GizmoMode::RotateX),
            GizmoModeOverride::RotateY => Some(GizmoMode::RotateY),
            GizmoModeOverride::RotateZ => Some(GizmoMode::RotateZ),
            GizmoModeOverride::TranslateView => Some(GizmoMode::TranslateView),
            GizmoModeOverride::TranslateX => Some(GizmoMode::TranslateX),
            GizmoModeOverride::TranslateY => Some(GizmoMode::TranslateY),
            GizmoModeOverride::TranslateZ => Some(GizmoMode::TranslateZ),
            GizmoModeOverride::TranslateXY => Some(GizmoMode::TranslateXY),
            GizmoModeOverride::TranslateXZ => Some(GizmoMode::TranslateXZ),
            GizmoModeOverride::TranslateYZ => Some(GizmoMode::TranslateYZ),
            GizmoModeOverride::ScaleUniform => Some(GizmoMode::ScaleUniform),
            GizmoModeOverride::ScaleX => Some(GizmoMode::ScaleX),
            GizmoModeOverride::ScaleY => Some(GizmoMode::ScaleY),
            GizmoModeOverride::ScaleZ => Some(GizmoMode::ScaleZ),
            GizmoModeOverride::ScaleXY => Some(GizmoMode::ScaleXY),
            GizmoModeOverride::ScaleXZ => Some(GizmoMode::ScaleXZ),
            GizmoModeOverride::ScaleYZ => Some(GizmoMode::ScaleYZ),
        }
    }
}

impl Default for GizmoModeOverride {
    fn default() -> (mode_override: Self)
        ensures
            mode_override == GizmoModeOverride::NoOverride,
    {
        GizmoModeOverride::NoOverride
    }
}

/// Reading a variant's own number gives the variant back, and two variants
/// with one number are one variant.
pub proof fn lemma_mode_override_repr(a: GizmoModeOverride, b: GizmoModeOverride)
    ensures
        0 <= a.repr_spec() <= 18,
        a.repr_spec() == b.repr_spec() ==> a == b,
        a.mode_spec() == b.mode_spec() ==> a == b,
{
}

} // verus!
