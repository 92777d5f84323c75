//! The configuration of one frame.

use vstd::prelude::*;
use transform_gizmo::config::TransformPivotPoint;
use transform_gizmo::{GizmoMode, GizmoOrientation};
use crate::engine::ModeSet;
use crate::geometry::{Rect, Rgb, Vector3, Vector4};
use crate::scalar::Scalar;

verus! {

/// The bit pattern of pi / 32, the snap angle used where the host's is not
/// usable, in radians.
pub const DEFAULT_SNAP_ANGLE: u32 = 0x3DC9_0FDB;

/// The bit pattern of 0.1, the snap distance used where the host's is not
/// usable.
pub const DEFAULT_SNAP_DISTANCE: u32 = 0x3DCC_CCCD;

/// The bit pattern of 0.1, the snap scale used where the host's is not
/// usable.
pub const DEFAULT_SNAP_SCALE: u32 = 0x3DCC_CCCD;

/// The bit pattern of 1, the pixel ratio used where the host's is not
/// finite.
pub const DEFAULT_PIXELS_PER_POINT: u32 = 0x3F80_0000;

/// The bit pattern of 45, the vertical field of view used where the host's
/// is not finite, in degrees.
pub const DEFAULT_VERTICAL_FOV: u32 = 0x4234_0000;

/// The bit pattern of 0.7, the opacity of a handle at rest.
pub const DEFAULT_INACTIVE_ALPHA: u32 = 0x3F33_3333;

/// The bit pattern of 1, the opacity of a handle under the cursor or in
/// use.
pub const DEFAULT_HIGHLIGHT_ALPHA: u32 = 0x3F80_0000;

/// The bit pattern of 4, the width of a stroke.
pub const DEFAULT_STROKE_WIDTH: u32 = 0x4080_0000;

/// The bit pattern of 75, the size of the gizmo in pixels.
pub const DEFAULT_GIZMO_SIZE: u32 = 0x4296_0000;

/// Where the camera stands and what it sees.
#[derive(Clone, Copy, Debug, PartialEq, Eq, Structural)]
pub struct CameraState {
    pub position: Vector3,
    /// A unit quaternion.
    pub rotation: Vector4,
    /// In degrees.
    pub vertical_fov: Scalar,
    pub near_plane: Scalar,
    pub far_plane: Scalar,
}

/// How the gizmo looks.
#[derive(Clone, Copy, Debug, PartialEq, Eq, Structural)]
pub struct GizmoVisuals {
    /// Color of the x axis
    pub x_color: Rgb,
    /// Color of the y axis
    pub y_color: Rgb,
    /// Color of the z axis
    pub z_color: Rgb,
    /// Color of the forward axis
    pub s_color: Rgb,
    /// Alpha of the gizmo color when inactive
    pub inactive_alpha: Scalar,
    /// Alpha of the gizmo color when highlighted/active
    pub highlight_alpha: Scalar,
    /// Width (thickness) of the gizmo strokes
    pub stroke_width: Scalar,
    /// Gizmo size in pixels
    pub gizmo_size: Scalar,
}

/// Everything the engine is told for one frame. The view and projection
/// matrices are not held here: they are computed from `camera` and
/// `viewport` where the engine is called.
#[derive(Debug)]
pub struct GizmoConfig {
    pub camera: CameraState,
    /// From the origin to the item's width and height.
    pub viewport: Rect,
    /// The modes that are switched on.
    pub modes: ModeSet,
    /// If set, this mode is forced active and other modes are disabled.
    pub mode_override: Option<GizmoMode>,
    pub orientation: GizmoOrientation,
    pub pivot_point: TransformPivotPoint,
    pub snapping: bool,
    /// In radians; finite and positive.
    pub snap_angle: Scalar,
    /// Finite and positive.
    pub snap_distance: Scalar,
    /// Finite and positive.
    pub snap_scale: Scalar,
    pub visuals: GizmoVisuals,
    /// Ratio of the window's physical size to its logical size.
    pub pixels_per_point: Scalar,
}

/// A configuration with its set of modes as a mathematical set.
pub struct GizmoConfigView {
    pub camera: CameraState,
    pub viewport: Rect,
    pub modes: Set<GizmoMode>,
    pub mode_override: Option<GizmoMode>,
    pub orientation: GizmoOrientation,
    pub pivot_point: TransformPivotPoint,
    pub snapping: bool,
    pub snap_angle: Scalar,
    pub snap_distance: Scalar,
    pub snap_scale: Scalar,
    pub visuals: GizmoVisuals,
    pub pixels_per_point: Scalar,
}

impl View for GizmoConfig {
    type V = GizmoConfigView;

    open spec fn view(&self) -> GizmoConfigView {
        GizmoConfigView {
            camera: self.camera,
            viewport: self.viewport,
            modes: self.modes@,
            mode_override: self.mode_override,
            orientation: self.orientation,
            pivot_point: self.pivot_point,
            snapping: self.snapping,
            snap_angle: self.snap_angle,
            snap_distance: self.snap_distance,
            snap_scale: self.snap_scale,
            visuals: self.visuals,
            pixels_per_point: self.pixels_per_point,
        }
    }
}

impl GizmoConfigView {
    /// Every number that the engine divides by or rounds to is usable: the
    /// snap increments are finite and positive; the opacities, the stroke
    /// width, the size, the pixel ratio and the field of view are finite
    /// and unsigned.
    pub open spec fn sanitized(self) -> bool {
        &&& self.snap_angle.is_positive()
        &&& self.snap_distance.is_positive()
        &&& self.snap_scale.is_positive()
        &&& self.pixels_per_point.is_finite_spec() && !self.pixels_per_point.sign()
        &&& self.camera.vertical_fov.is_finite_spec() && !self.camera.vertical_fov.sign()
        &&& self.visuals.inactive_alpha.is_finite_spec() && !self.visuals.inactive_alpha.sign()
        &&& self.visuals.highlight_alpha.is_finite_spec() && !self.visuals.highlight_alpha.sign()
        &&& self.visuals.stroke_width.is_finite_spec() && !self.visuals.stroke_width.sign()
        &&& self.visuals.gizmo_size.is_finite_spec() && !self.visuals.gizmo_size.sign()
    }
}

} // verus!
