//! The gizmo item: its settings, and the decisions it takes between the
//! host and the engine.
//!
//! The engine computes with numbers, which this library does not. So the
//! item never calls the engine. Each operation changes the item's own state
//! and hands back what the engine has to be asked next; the caller asks it
//! and reports the outcome.

use vstd::prelude::*;
use transform_gizmo::config::TransformPivotPoint;
use transform_gizmo::{GizmoMode, GizmoOrientation};
use crate::config::{
    CameraState, GizmoConfig, GizmoConfigView, GizmoVisuals, DEFAULT_GIZMO_SIZE,
    DEFAULT_HIGHLIGHT_ALPHA, DEFAULT_INACTIVE_ALPHA, DEFAULT_PIXELS_PER_POINT, DEFAULT_SNAP_ANGLE,
    DEFAULT_SNAP_DISTANCE, DEFAULT_SNAP_SCALE, DEFAULT_STROKE_WIDTH, DEFAULT_VERTICAL_FOV,
};
use crate::engine::ModeSet;
use crate::error::GizmoError;
use crate::geometry::{Pos2, Rect, Rgb, Vector3, Vector4};
use crate::interaction::GizmoInteraction;
use crate::scalar::{lemma_positive_or, lemma_sanitized, Scalar};
use crate::settings::GizmoModeOverride;
use crate::targets::{TargetTransform, Targets};

verus! {

/// The state of a gizmo item: what the host has set, and what the item
/// remembers from one frame to the next.
#[derive(Debug)]
pub struct GizmoRust {
    pub camera_position: Vector3,
    pub camera_rotation: Vector4,
    pub camera_vertical_fov: Scalar,
    pub camera_near_plane: Scalar,
    pub camera_far_plane: Scalar,
    pub target_position: Vector3,
    pub target_rotation: Vector4,
    pub target_scale: Vector3,
    pub targets: Targets,
    /// Whether the engine has been created.
    pub gizmo_created: bool,
    pub gizmo_updated_since_last_draw: bool,
    /// Keep last interaction in case the target moves while we are dragging
    pub gizmo_last_interaction: Option<GizmoInteraction>,
    /// Determines the gizmo's orientation relative to global or local axes.
    pub orientation: GizmoOrientation,
    /// Pivot point for transformations
    pub pivot_point: TransformPivotPoint,
    /// Toggles snapping to predefined increments during transformations for precision.
    pub snapping: bool,
    /// Angle increment for snapping rotations, in radians.
    pub snap_angle: Scalar,
    /// Distance increment for snapping translations.
    pub snap_distance: Scalar,
    /// Scale increment for snapping scalings.
    pub snap_scale: Scalar,
    /// Ratio of window's physical size to logical size.
    pub pixels_per_point: Scalar,
    pub translate_enabled: bool,
    pub translate_view_enabled: bool,
    pub translate_plane_enabled: bool,
    pub rotate_enabled: bool,
    pub rotate_view_enabled: bool,
    pub scale_enabled: bool,
    pub scale_uniform_enabled: bool,
    pub scale_plane_enabled: bool,
    pub mode_override: GizmoModeOverride,
    pub x_color: Rgb,
    pub y_color: Rgb,
    pub z_color: Rgb,
    pub s_color: Rgb,
    /// Alpha of the gizmo color when inactive
    pub inactive_alpha: Scalar,
    /// Alpha of the gizmo color when highlighted/active
    pub highlight_alpha: Scalar,
    /// Width (thickness) of the gizmo strokes
    pub stroke_width: Scalar,
    /// Gizmo size in pixels
    pub gizmo_size: Scalar,
}

/// A gizmo item: its state, and what the surrounding scene decides for it.
#[derive(Debug)]
pub struct Gizmo {
    pub rust: GizmoRust,
    /// The item's width, in points.
    pub width: Scalar,
    /// The item's height, in points.
    pub height: Scalar,
    pub visible: bool,
}

/// What has to happen to the engine before it is used.
#[derive(Clone, Copy, Debug, PartialEq, Eq, Structural)]
pub enum EngineSetup {
    /// There is no engine yet: create one with the configuration.
    Create,
    /// There is one: give it the configuration.
    Reconfigure,
}

/// One use of the engine: how to ready it, and the configuration it runs
/// with.
#[derive(Debug)]
pub struct EngineStep {
    pub setup: EngineSetup,
    pub config: GizmoConfig,
}

/// One update of the engine: the step that readies it, then the interaction
/// and the targets' transforms to update it with.
#[derive(Debug)]
pub struct EngineUpdate {
    pub step: EngineStep,
    pub interaction: GizmoInteraction,
    pub transforms: Vec<TargetTransform>,
}

/// What painting one frame takes.
#[derive(Debug)]
pub struct PaintPlan {
    /// The update to run first, where the engine has not been updated since
    /// the frame before.
    pub replay: Option<EngineUpdate>,
    /// The step that readies the engine for drawing.
    pub step: EngineStep,
    /// Whether the engine draws. Where it does not, the frame is empty.
    pub draw: bool,
}

impl GizmoRust {
    /// Whether the switch that governs a mode is on. No switch governs the
    /// arcball.
    pub open spec fn enables(self, mode: GizmoMode) -> bool {
        match mode {
            GizmoMode::TranslateX | GizmoMode::TranslateY | GizmoMode::TranslateZ => {
                self.translate_enabled
            },
            GizmoMode::TranslateXY | GizmoMode::TranslateXZ | GizmoMode::TranslateYZ => {
                self.translate_plane_enabled
            },
            GizmoMode::TranslateView => self.translate_view_enabled,
            GizmoMode::RotateX | GizmoMode::RotateY | GizmoMode::RotateZ => self.rotate_enabled,
            GizmoMode::RotateView => self.rotate_view_enabled,
            GizmoMode::ScaleX | GizmoMode::ScaleY | GizmoMode::ScaleZ => self.scale_enabled,
            GizmoMode::ScaleXY | GizmoMode::ScaleXZ | GizmoMode::ScaleYZ => {
                self.scale_plane_enabled
            },
            GizmoMode::ScaleUniform => self.scale_uniform_enabled,
            GizmoMode::Arcball => false,
        }
    }

    /// The modes that are switched on.
    pub open spec fn enabled_modes_spec(self) -> Set<GizmoMode> {
        Set::new(|mode: GizmoMode| self.enables(mode))
    }

    /// The camera as the engine is to see it: the field of view without its
    /// sign, or 45 degrees where it is not finite.
    pub open spec fn camera_spec(self) -> CameraState {
        CameraState {
            position: self.camera_position,
            rotation: self.camera_rotation,
            vertical_fov: self.camera_vertical_fov.sanitized_spec(
                Scalar { bits: DEFAULT_VERTICAL_FOV },
            ),
            near_plane: self.camera_near_plane,
            far_plane: self.camera_far_plane,
        }
    }

    /// The visual style as the engine is to see it: each number without its
    /// sign, or its default where it is not finite.
    pub open spec fn visuals_spec(self) -> GizmoVisuals {
        GizmoVisuals {
            x_color: self.x_color,
            y_color: self.y_color,
            z_color: self.z_color,
            s_color: self.s_color,
            inactive_alpha: self.inactive_alpha.sanitized_spec(
                Scalar { bits: DEFAULT_INACTIVE_ALPHA },
            ),
            highlight_alpha: self.highlight_alpha.sanitized_spec(
                Scalar { bits: DEFAULT_HIGHLIGHT_ALPHA },
            ),
            stroke_width: self.stroke_width.sanitized_spec(Scalar { bits: DEFAULT_STROKE_WIDTH }),
            gizmo_size: self.gizmo_size.sanitized_spec(Scalar { bits: DEFAULT_GIZMO_SIZE }),
        }
    }

    /// The set of the modes that are switched on.
    pub fn enabled_modes(&self) -> (modes: ModeSet)
        ensures
            modes@ == self.enabled_modes_spec(),
    {
        let mut modes = ModeSet::new();
        if self.translate_enabled {
            modes.insert(GizmoMode::TranslateX);
            modes.insert(GizmoMode::TranslateY);
            modes.insert(GizmoMode::TranslateZ);
        }
        if self.translate_plane_enabled {
            modes.insert(GizmoMode::TranslateXY);
            modes.insert(GizmoMode::TranslateXZ);
            modes.insert(GizmoMode::TranslateYZ);
        }
        if self.translate_view_enabled {
            modes.insert(GizmoMode::TranslateView);
        }
        if self.rotate_enabled {
            modes.insert(GizmoMode::RotateX);
            modes.insert(GizmoMode::RotateY);
            modes.insert(GizmoMode::RotateZ);
        }
        if self.rotate_view_enabled {
            modes.insert(GizmoMode::RotateView);
        }
        if self.scale_enabled {
            modes.insert(GizmoMode::ScaleX);
            modes.insert(GizmoMode::ScaleY);
            modes.insert(GizmoMode::ScaleZ);
        }
        if self.scale_plane_enabled {
            modes.insert(GizmoMode::ScaleXY);
            modes.insert(GizmoMode::ScaleXZ);
            modes.insert(GizmoMode::ScaleYZ);
        }
        if self.scale_uniform_enabled {
            modes.insert(GizmoMode::ScaleUniform);
        }
        assert(modes@ =~= self.enabled_modes_spec());
        modes
    }

    /// The camera as the engine is to see it.
    pub fn camera(&self) -> (camera: CameraState)
        ensures
            camera == self.camera_spec(),
    {
        CameraState {
            position: self.camera_position,
            rotation: self.camera_rotation,
            vertical_fov: self.camera_vertical_fov.sanitized(
                Scalar::from_bits(DEFAULT_VERTICAL_FOV),
            ),
            near_plane: self.camera_near_plane,
            far_plane: self.camera_far_plane,
        }
    }

    /// The visual style as the engine is to see it.
    pub fn visuals(&self) -> (visuals: GizmoVisuals)
        ensures
            visuals == self.visuals_spec(),
    {
        GizmoVisuals {
            x_color: self.x_color,
            y_color: self.y_color,
            z_color: self.z_color,
            s_color: self.s_color,
            inactive_alpha: self.inactive_alpha.sanitized(
                Scalar::from_bits(DEFAULT_INACTIVE_ALPHA),
            ),
            highlight_alpha: self.highlight_alpha.sanitized(
                Scalar::from_bits(DEFAULT_HIGHLIGHT_ALPHA),
            ),
            stroke_width: self.stroke_width.sanitized(Scalar::from_bits(DEFAULT_STROKE_WIDTH)),
            gizmo_size: self.gizmo_size.sanitized(Scalar::from_bits(DEFAULT_GIZMO_SIZE)),
        }
    }
}

impl Default for GizmoRust {
    /// The state before `initialize`: every number zero, every switch off,
    /// no targets, no engine.
    fn default() -> (rust: Self)
        ensures
            rust.camera_position == (Vector3 {
                x: Scalar { bits: 0 },
                y: Scalar { bits: 0 },
                z: Scalar { bits: 0 },
            }),
            rust.camera_rotation == (Vector4 {
                x: Scalar { bits: 0 },
                y: Scalar { bits: 0 },
                z: Scalar { bits: 0 },
                w: Scalar { bits: 0 },
            }),
            rust.camera_vertical_fov.bits == 0,
            rust.camera_near_plane.bits == 0,
            rust.camera_far_plane.bits == 0,
            rust.target_position == rust.camera_position,
            rust.target_rotation == rust.camera_rotation,
            rust.target_scale == rust.camera_position,
            rust.targets@.count() == 0,
            rust.targets@.aligned(),
            !rust.gizmo_created,
            !rust.gizmo_updated_since_last_draw,
            rust.gizmo_last_interaction is None,
            rust.orientation == GizmoOrientation::Global,
            rust.pivot_point == TransformPivotPoint::MedianPoint,
            !rust.snapping,
            rust.snap_angle.bits == 0,
            rust.snap_distance.bits == 0,
            rust.snap_scale.bits == 0,
            rust.pixels_per_point.bits == 0,
            forall|mode: GizmoMode| !rust.enables(mode),
            rust.mode_override == GizmoModeOverride::NoOverride,
            rust.x_color == (Rgb { r: 0, g: 0, b: 0 }),
            rust.y_color == rust.x_color,
            rust.z_color == rust.x_color,
            rust.s_color == rust.x_color,
            rust.inactive_alpha.bits == 0,
            rust.highlight_alpha.bits == 0,
            rust.stroke_width.bits == 0,
            rust.gizmo_size.bits == 0,
    {
        GizmoRust {
            camera_position: Vector3::zero(),
            camera_rotation: Vector4::zero(),
            camera_vertical_fov: Scalar::zero(),
            camera_near_plane: Scalar::zero(),
            camera_far_plane: Scalar::zero(),
            target_position: Vector3::zero(),
            target_rotation: Vector4::zero(),
            target_scale: Vector3::zero(),
            targets: Targets::new(),
            gizmo_created: false,
            gizmo_updated_since_last_draw: false,
            gizmo_last_interaction: None,
            orientation: GizmoOrientation::Global,
            pivot_point: TransformPivotPoint::MedianPoint,
            snapping: false,
            snap_angle: Scalar::zero(),
            snap_distance: Scalar::zero(),
            snap_scale: Scalar::zero(),
            pixels_per_point: Scalar::zero(),
            translate_enabled: false,
            translate_view_enabled: false,
            translate_plane_enabled: false,
            rotate_enabled: false,
            rotate_view_enabled: false,
            scale_enabled: false,
            scale_uniform_enabled: false,
            scale_plane_enabled: false,
            mode_override: GizmoModeOverride::NoOverride,
            x_color: Rgb::new(0, 0, 0),
            y_color: Rgb::new(0, 0, 0),
            z_color: Rgb::new(0, 0, 0),
            s_color: Rgb::new(0, 0, 0),
            inactive_alpha: Scalar::zero(),
            highlight_alpha: Scalar::zero(),
            stroke_width: Scalar::zero(),
            gizmo_size: Scalar::zero(),
        }
    }
}

impl Gizmo {
    /// The configuration that the item's state amounts to.
    ///
    /// The snap increments are taken without their sign, and replaced by
    /// their defaults where they are zero or not finite. The opacities, the
    /// stroke width, the size, the pixel ratio and the field of view are
    /// taken without their sign, and replaced by their defaults where they
    /// are not finite. The viewport reaches from the origin to the item's
    /// size. Everything else is handed on as it is.
    pub open spec fn config_view(self) -> GizmoConfigView {
        GizmoConfigView {
            camera: self.rust.camera_spec(),
            viewport: Rect::from_size_spec(self.width, self.height),
            modes: self.rust.enabled_modes_spec(),
            mode_override: self.rust.mode_override.mode_spec(),
            orientation: self.rust.orientation,
            pivot_point: self.rust.pivot_point,
            snapping: self.rust.snapping,
            snap_angle: self.rust.snap_angle.positive_or_spec(Scalar { bits: DEFAULT_SNAP_ANGLE }),
            snap_distance: self.rust.snap_distance.positive_or_spec(
                Scalar { bits: DEFAULT_SNAP_DISTANCE },
            ),
            snap_scale: self.rust.snap_scale.positive_or_spec(Scalar { bits: DEFAULT_SNAP_SCALE }),
            visuals: self.rust.visuals_spec(),
            pixels_per_point: self.rust.pixels_per_point.sanitized_spec(
                Scalar { bits: DEFAULT_PIXELS_PER_POINT },
            ),
        }
    }

    /// Whether two items agree on everything that the host sets for the
    /// engine: the camera, the size, the switches and the style.
    pub open spec fn same_settings(self, other: Gizmo) -> bool {
        &&& self.width == other.width
        &&& self.height == other.height
        &&& self.rust.camera_position == other.rust.camera_position
        &&& self.rust.camera_rotation == other.rust.camera_rotation
        &&& self.rust.camera_vertical_fov == other.rust.camera_vertical_fov
        &&& self.rust.camera_near_plane == other.rust.camera_near_plane
        &&& self.rust.camera_far_plane == other.rust.camera_far_plane
        &&& self.rust.orientation == other.rust.orientation
        &&& self.rust.pivot_point == other.rust.pivot_point
        &&& self.rust.snapping == other.rust.snapping
        &&& self.rust.snap_angle == other.rust.snap_angle
        &&& self.rust.snap_distance == other.rust.snap_distance
        &&& self.rust.snap_scale == other.rust.snap_scale
        &&& self.rust.pixels_per_point == other.rust.pixels_per_point
        &&& self.rust.translate_enabled == other.rust.translate_enabled
        &&& self.rust.translate_view_enabled == other.rust.translate_view_enabled
        &&& self.rust.translate_plane_enabled == other.rust.translate_plane_enabled
        &&& self.rust.rotate_enabled == other.rust.rotate_enabled
        &&& self.rust.rotate_view_enabled == other.rust.rotate_view_enabled
        &&& self.rust.scale_enabled == other.rust.scale_enabled
        &&& self.rust.scale_uniform_enabled == other.rust.scale_uniform_enabled
        &&& self.rust.scale_plane_enabled == other.rust.scale_plane_enabled
        &&& self.rust.mode_override == other.rust.mode_override
        &&& self.rust.x_color == other.rust.x_color
        &&& self.rust.y_color == other.rust.y_color
        &&& self.rust.z_color == other.rust.z_color
        &&& self.rust.s_color == other.rust.s_color
        &&& self.rust.inactive_alpha == other.rust.inactive_alpha
        &&& self.rust.highlight_alpha == other.rust.highlight_alpha
        &&& self.rust.stroke_width == other.rust.stroke_width
        &&& self.rust.gizmo_size == other.rust.gizmo_size
    }

    /// How the engine has to be readied: created where there is none.
    pub open spec fn setup_spec(self) -> EngineSetup {
        if self.rust.gizmo_created {
            EngineSetup::Reconfigure
        } else {
            EngineSetup::Create
        }
    }

    /// The item once the engine exists.
    pub open spec fn with_engine(self) -> Gizmo {
        Gizmo { rust: GizmoRust { gizmo_created: true, ..self.rust }, ..self }
    }

    /// The item once the engine exists and has been updated.
    pub open spec fn updated(self) -> Gizmo {
        Gizmo {
            rust: GizmoRust {
                gizmo_created: true,
                gizmo_updated_since_last_draw: true,
                ..self.rust
            },
            ..self
        }
    }

    /// The item once a frame has been painted.
    pub open spec fn painted(self) -> Gizmo {
        Gizmo {
            rust: GizmoRust {
                gizmo_created: true,
                gizmo_updated_since_last_draw: false,
                ..self.rust
            },
            ..self
        }
    }

    /// The interaction that a frame repeats where none has come in since
    /// the frame before: the last one, or an idle pointer where there was
    /// none yet.
    pub open spec fn replayed_interaction(self) -> GizmoInteraction {
        match self.rust.gizmo_last_interaction {
            Some(interaction) => interaction,
            None => GizmoInteraction::idle(),
        }
    }

    /// Whether the engine draws: there is a target, and the item is
    /// visible.
    pub open spec fn draws(self) -> bool {
        self.rust.targets@.count() > 0 && self.visible
    }

    /// A visible item of the given size, in the state before `initialize`.
    pub fn new(width: Scalar, height: Scalar) -> (gizmo: Gizmo)
        ensures
            gizmo.width == width,
            gizmo.height == height,
            gizmo.visible,
            gizmo.rust.targets@.count() == 0,
            gizmo.rust.targets@.aligned(),
            !gizmo.rust.gizmo_created,
            !gizmo.rust.gizmo_updated_since_last_draw,
            gizmo.rust.gizmo_last_interaction is None,
            forall|mode: GizmoMode| !gizmo.rust.enables(mode),
            gizmo.rust.mode_override == GizmoModeOverride::NoOverride,
            gizmo.rust.orientation == GizmoOrientation::Global,
            gizmo.rust.pivot_point == TransformPivotPoint::MedianPoint,
    {
        Gizmo { rust: GizmoRust::default(), width, height, visible: true }
    }

    /// Sets what a new item starts with: the engine's snap increments, a
    /// pixel ratio of one, every mode switched on, the four colours, the
    /// two opacities, the stroke width and the size. The rest stays.
    pub fn initialize(&mut self)
        ensures
            final(self).rust.snap_angle.bits == DEFAULT_SNAP_ANGLE,
            final(self).rust.snap_distance.bits == DEFAULT_SNAP_DISTANCE,
            final(self).rust.snap_scale.bits == DEFAULT_SNAP_SCALE,
            final(self).rust.pixels_per_point.bits == DEFAULT_PIXELS_PER_POINT,
            final(self).rust.translate_enabled,
            final(self).rust.translate_plane_enabled,
            final(self).rust.translate_view_enabled,
            final(self).rust.rotate_enabled,
            final(self).rust.rotate_view_enabled,
            final(self).rust.scale_enabled,
            final(self).rust.scale_plane_enabled,
            final(self).rust.scale_uniform_enabled,
            final(self).rust.x_color == (Rgb { r: 255, g: 0, b: 125 }),
            final(self).rust.y_color == (Rgb { r: 0, g: 255, b: 125 }),
            final(self).rust.z_color == (Rgb { r: 0, g: 125, b: 255 }),
            final(self).rust.s_color == (Rgb { r: 255, g: 255, b: 255 }),
            final(self).rust.inactive_alpha.bits == DEFAULT_INACTIVE_ALPHA,
            final(self).rust.highlight_alpha.bits == DEFAULT_HIGHLIGHT_ALPHA,
            final(self).rust.stroke_width.bits == DEFAULT_STROKE_WIDTH,
            final(self).rust.gizmo_size.bits == DEFAULT_GIZMO_SIZE,
            *final(self) == (Gizmo {
                rust: GizmoRust {
                    snap_angle: final(self).rust.snap_angle,
                    snap_distance: final(self).rust.snap_distance,
                    snap_scale: final(self).rust.snap_scale,
                    pixels_per_point: final(self).rust.pixels_per_point,
                    translate_enabled: true,
                    translate_plane_enabled: true,
                    translate_view_enabled: true,
                    rotate_enabled: true,
                    rotate_view_enabled: true,
                    scale_enabled: true,
                    scale_plane_enabled: true,
                    scale_uniform_enabled: true,
                    x_color: final(self).rust.x_color,
                    y_color: final(self).rust.y_color,
                    z_color: final(self).rust.z_color,
                    s_color: final(self).rust.s_color,
                    inactive_alpha: final(self).rust.inactive_alpha,
                    highlight_alpha: final(self).rust.highlight_alpha,
                    stroke_width: final(self).rust.stroke_width,
                    gizmo_size: final(self).rust.gizmo_size,
                    ..old(self).rust
                },
                ..*old(self)
            }),
    {
        self.rust.snap_angle = Scalar::from_bits(DEFAULT_SNAP_ANGLE);
        self.rust.snap_distance = Scalar::from_bits(DEFAULT_SNAP_DISTANCE);
        self.rust.snap_scale = Scalar::from_bits(DEFAULT_SNAP_SCALE);
        self.rust.pixels_per_point = Scalar::from_bits(DEFAULT_PIXELS_PER_POINT);

        self.rust.translate_enabled = true;
        self.rust.translate_plane_enabled = true;
        self.rust.translate_view_enabled = true;
        self.rust.rotate_enabled = true;
        self.rust.rotate_view_enabled = true;
        self.rust.scale_enabled = true;
        self.rust.scale_plane_enabled = true;
        self.rust.scale_uniform_enabled = true;

        self.rust.x_color = Rgb::from_channels(255, 0, 125);
        self.rust.y_color = Rgb::from_channels(0, 255, 125);
        self.rust.z_color = Rgb::from_channels(0, 125, 255);
        self.rust.s_color = Rgb::from_channels(255, 255, 255);

        self.rust.inactive_alpha = Scalar::from_bits(DEFAULT_INACTIVE_ALPHA);
        self.rust.highlight_alpha = Scalar::from_bits(DEFAULT_HIGHLIGHT_ALPHA);
        self.rust.stroke_width = Scalar::from_bits(DEFAULT_STROKE_WIDTH);
        self.rust.gizmo_size = Scalar::from_bits(DEFAULT_GIZMO_SIZE);
    }

    /// The configuration of the frame, from the item's state as it stands.
    pub fn gizmo_config(&self) -> (config: GizmoConfig)
        ensures
            config@ == self.config_view(),
            config@.sanitized(),
    {
        let camera = self.rust.camera();
        let viewport = Rect::from_size(self.width, self.height);
        let orientation = self.rust.orientation;
        let pivot_point = self.rust.pivot_point;
        let snapping = self.rust.snapping;
        let snap_angle = self.rust.snap_angle.positive_or(Scalar::from_bits(DEFAULT_SNAP_ANGLE));
        let snap_distance = self.rust.snap_distance.positive_or(
            Scalar::from_bits(DEFAULT_SNAP_DISTANCE),
        );
        let snap_scale = self.rust.snap_scale.positive_or(Scalar::from_bits(DEFAULT_SNAP_SCALE));
        let pixels_per_point = self.rust.pixels_per_point.sanitized(
            Scalar::from_bits(DEFAULT_PIXELS_PER_POINT),
        );
        let modes = self.rust.enabled_modes();
        let mode_override = self.rust.mode_override.mode();
        let visuals = self.rust.visuals();
        proof {
            lemma_config_view_sanitized(*self);
        }
        GizmoConfig {
            camera,
            viewport,
            modes,
            mode_override,
            orientation,
            pivot_point,
            snapping,
            snap_angle,
            snap_distance,
            snap_scale,
            visuals,
            pixels_per_point,
        }
    }

    /// Readies the engine for one use: hands out the configuration of the
    /// frame and says whether the engine has to be created with it or is
    /// there and takes it. From then on the engine counts as created.
    pub fn with_gizmo(&mut self) -> (step: EngineStep)
        ensures
            step.config@ == old(self).config_view(),
            step.config@.sanitized(),
            step.setup == old(self).setup_spec(),
            *final(self) == old(self).with_engine(),
    {
        let config = self.gizmo_config();
        let setup = if self.rust.gizmo_created {
            EngineSetup::Reconfigure
        } else {
            EngineSetup::Create
        };
        self.rust.gizmo_created = true;
        EngineStep { setup, config }
    }
}

impl Gizmo {
    /// The item once the given interaction has been handed to the engine
    /// and kept for later frames.
    pub open spec fn interacted(self, interaction: GizmoInteraction) -> Gizmo {
        Gizmo {
            rust: GizmoRust {
                gizmo_created: true,
                gizmo_updated_since_last_draw: true,
                gizmo_last_interaction: Some(interaction.repeated_spec()),
                ..self.rust
            },
            ..self
        }
    }

    /// Prepares one update of the engine with the given interaction and the
    /// targets as they stand, and notes that the engine has been updated
    /// since the last frame.
    ///
    /// Lists of targets that differ in length are rejected, and the item
    /// stays as it was.
    pub fn update_interaction_impl(&mut self, interaction: GizmoInteraction) -> (result: Result<
        EngineUpdate,
        GizmoError,
    >)
        ensures
            !old(self).rust.targets@.aligned() ==> result is Err && result->Err_0
                == GizmoError::TargetListsMismatch && *final(self) == *old(self),
            old(self).rust.targets@.aligned() ==> result is Ok && *final(self) == old(
                self,
            ).updated(),
            result is Ok ==> result->Ok_0.interaction == interaction,
            result is Ok ==> result->Ok_0.transforms@ == old(self).rust.targets@.transforms(),
            result is Ok ==> result->Ok_0.step.setup == old(self).setup_spec(),
            result is Ok ==> result->Ok_0.step.config@ == old(self).config_view(),
            result is Ok ==> result->Ok_0.step.config@.sanitized(),
    {
        let transforms = match self.rust.targets.to_transforms() {
            Ok(transforms) => transforms,
            Err(error) => {
                return Err(error);
            },
        };
        let step = self.with_gizmo();
        self.rust.gizmo_updated_since_last_draw = true;
        Ok(EngineUpdate { step, interaction, transforms })
    }

    /// Takes one report of the pointer: prepares the update of the engine
    /// with it, and keeps it, as an interaction that starts no drag, for
    /// the frames that are painted before the next report.
    ///
    /// Lists of targets that differ in length are rejected, and the item
    /// stays as it was.
    pub fn update_interaction(
        &mut self,
        cursor_position: Pos2,
        hovered: bool,
        drag_started: bool,
        dragging: bool,
    ) -> (result: Result<EngineUpdate, GizmoError>)
        ensures
            !old(self).rust.targets@.aligned() ==> result is Err && result->Err_0
                == GizmoError::TargetListsMismatch && *final(self) == *old(self),
            old(self).rust.targets@.aligned() ==> result is Ok && *final(self) == old(
                self,
            ).interacted(
                GizmoInteraction { cursor_pos: cursor_position, hovered, drag_started, dragging },
            ),
            result is Ok ==> result->Ok_0.interaction == (GizmoInteraction {
                cursor_pos: cursor_position,
                hovered,
                drag_started,
                dragging,
            }),
            result is Ok ==> result->Ok_0.transforms@ == old(self).rust.targets@.transforms(),
            result is Ok ==> result->Ok_0.step.setup == old(self).setup_spec(),
            result is Ok ==> result->Ok_0.step.config@ == old(self).config_view(),
            result is Ok ==> result->Ok_0.step.config@.sanitized(),
    {
        let interaction = GizmoInteraction::new(cursor_position, hovered, drag_started, dragging);
        let update = match self.update_interaction_impl(interaction) {
            Ok(update) => update,
            Err(error) => {
                return Err(error);
            },
        };
        self.rust.gizmo_last_interaction = Some(interaction.repeated());
        Ok(update)
    }

    /// Takes what the engine made of an update. Where it hands back
    /// transforms that differ from the targets, they become the targets,
    /// and the result says that the host has to be told.
    ///
    /// Nothing changes and nothing is to be told where the engine handed
    /// back nothing, where there is no target, or where the transforms are
    /// bit by bit the targets. With a target, lists of targets that differ
    /// in length and a number of transforms other than the number of
    /// targets are rejected.
    pub fn transform_updated(&mut self, transforms: Option<Vec<TargetTransform>>) -> (result:
        Result<bool, GizmoError>)
        ensures
            result == old(self).transform_updated_spec(transforms),
            result == Ok::<bool, GizmoError>(true) ==> final(self).rust.targets@.aligned()
                && final(self).rust.targets@.transforms() == transforms->Some_0@ && *final(self)
                == (Gizmo {
                rust: GizmoRust { targets: final(self).rust.targets, ..old(self).rust },
                ..*old(self)
            }),
            result != Ok::<bool, GizmoError>(true) ==> *final(self) == *old(self),
    {
        let transforms = match transforms {
            Some(transforms) => transforms,
            None => {
                return Ok(false);
            },
        };
        if self.rust.targets.count() == 0 {
            return Ok(false);
        }
        if !self.rust.targets.is_aligned() {
            return Err(GizmoError::TargetListsMismatch);
        }
        if transforms.len() != self.rust.targets.count() {
            return Err(GizmoError::ResultCountMismatch);
        }
        if self.rust.targets.holds(&transforms) {
            return Ok(false);
        }
        self.rust.targets = Targets::from_transforms(&transforms);
        Ok(true)
    }

    /// What `transform_updated` answers.
    pub open spec fn transform_updated_spec(
        self,
        transforms: Option<Vec<TargetTransform>>,
    ) -> Result<bool, GizmoError> {
        let targets = self.rust.targets@;
        match transforms {
            None => Ok(false),
            Some(transforms) => {
                if targets.count() == 0 {
                    Ok(false)
                } else if !targets.aligned() {
                    Err(GizmoError::TargetListsMismatch)
                } else if transforms@.len() != targets.count() {
                    Err(GizmoError::ResultCountMismatch)
                } else {
                    Ok(targets.transforms() != transforms@)
                }
            },
        }
    }

    /// Whether painting a frame starts by repeating the last interaction:
    /// it does where the engine has not been updated since the frame
    /// before.
    pub open spec fn replays(self) -> bool {
        !self.rust.gizmo_updated_since_last_draw
    }

    /// Why painting a frame is refused, if it is: the interaction to repeat
    /// starts a drag, or the lists of targets to repeat it with differ in
    /// length.
    pub open spec fn paint_error(self) -> Option<GizmoError> {
        if self.replays() && self.replayed_interaction().drag_started {
            Some(GizmoError::DragStartReplayed)
        } else if self.replays() && !self.rust.targets@.aligned() {
            Some(GizmoError::TargetListsMismatch)
        } else {
            None
        }
    }

    /// Plans the painting of one frame.
    ///
    /// Where no interaction has been handed to the engine since the frame
    /// before, the last one is repeated first, so that the engine sees the
    /// camera and the targets as they are now. An interaction that starts a
    /// drag is never repeated: it is rejected, as are lists of targets that
    /// differ in length, and the item stays as it was. The engine draws
    /// where there is a target and the item is visible; else the frame is
    /// empty.
    pub fn update_paint_node(&mut self) -> (result: Result<PaintPlan, GizmoError>)
        ensures
            old(self).paint_error() is Some ==> result is Err && result->Err_0 == old(
                self,
            ).paint_error()->Some_0 && *final(self) == *old(self),
            old(self).paint_error() is None ==> result is Ok && *final(self) == old(
                self,
            ).painted(),
            result is Ok ==> result->Ok_0.draw == old(self).draws(),
            result is Ok ==> (result->Ok_0.replay is Some <==> old(self).replays()),
            result is Ok ==> result->Ok_0.step.config@ == old(self).config_view(),
            result is Ok ==> result->Ok_0.step.config@.sanitized(),
            result is Ok && !old(self).replays() ==> result->Ok_0.step.setup == old(
                self,
            ).setup_spec(),
            result is Ok && old(self).replays() ==> {
                let replay = result->Ok_0.replay->Some_0;
                &&& result->Ok_0.step.setup == EngineSetup::Reconfigure
                &&& replay.interaction == old(self).replayed_interaction()
                &&& !replay.interaction.drag_started
                &&& replay.transforms@ == old(self).rust.targets@.transforms()
                &&& replay.step.setup == old(self).setup_spec()
                &&& replay.step.config@ == old(self).config_view()
                &&& replay.step.config@.sanitized()
            },
    {
        let replay = match self.replay_last_interaction() {
            Ok(replay) => replay,
            Err(error) => {
                return Err(error);
            },
        };
        self.rust.gizmo_updated_since_last_draw = false;

        let draw = self.rust.targets.count() > 0 && self.visible;
        proof {
            lemma_config_of_settings(*self, *old(self));
        }
        let step = self.with_gizmo();
        Ok(PaintPlan { replay, step, draw })
    }

    /// The first half of painting: where the engine has not been updated
    /// since the frame before, prepares the update that repeats the last
    /// interaction.
    fn replay_last_interaction(&mut self) -> (result: Result<Option<EngineUpdate>, GizmoError>)
        ensures
            old(self).paint_error() is Some ==> result is Err && result->Err_0 == old(
                self,
            ).paint_error()->Some_0 && *final(self) == *old(self),
            old(self).paint_error() is None ==> result is Ok,
            result is Ok && !old(self).replays() ==> result->Ok_0 is None && *final(self) == *old(
                self,
            ),
            result is Ok && old(self).replays() ==> {
                let replay = result->Ok_0->Some_0;
                &&& result->Ok_0 is Some
                &&& *final(self) == old(self).updated()
                &&& replay.interaction == old(self).replayed_interaction()
                &&& !replay.interaction.drag_started
                &&& replay.transforms@ == old(self).rust.targets@.transforms()
                &&& replay.step.setup == old(self).setup_spec()
                &&& replay.step.config@ == old(self).config_view()
                &&& replay.step.config@.sanitized()
            },
    {
        if self.rust.gizmo_updated_since_last_draw {
            return Ok(None);
        }
        let interaction = match self.rust.gizmo_last_interaction {
            Some(interaction) => interaction,
            None => GizmoInteraction::default(),
        };
        if interaction.drag_started {
            return Err(GizmoError::DragStartReplayed);
        }
        match self.update_interaction_impl(interaction) {
            Ok(update) => Ok(Some(update)),
            Err(error) => Err(error),
        }
    }
}

/// Once the pointer has been reported, the frames that follow can be
/// painted: the interaction that was kept starts no drag, so repeating it
/// is never refused for that.
pub proof fn lemma_kept_interaction_replays(gizmo: Gizmo, interaction: GizmoInteraction)
    requires
        gizmo.rust.targets@.aligned(),
    ensures
        !gizmo.interacted(interaction).replayed_interaction().drag_started,
        gizmo.interacted(interaction).paint_error() is None,
        gizmo.interacted(interaction).painted().paint_error() is None,
        gizmo.interacted(interaction).painted().replayed_interaction()
            == interaction.repeated_spec(),
{
}

/// Transforms are taken once: when they have become the targets, handing
/// them in again, bit by bit the same, changes nothing and tells the host
/// nothing. So a drag that stands still, snapped or not, cannot make the
/// targets drift.
pub proof fn lemma_transforms_taken_once(
    before: Gizmo,
    after: Gizmo,
    transforms: Option<Vec<TargetTransform>>,
)
    requires
        before.transform_updated_spec(transforms) == Ok::<bool, GizmoError>(true),
        after.rust.targets@.aligned(),
        after.rust.targets@.transforms() == transforms->Some_0@,
    ensures
        after.transform_updated_spec(transforms) == Ok::<bool, GizmoError>(false),
{
}

/// Without a target nothing is drawn and no transform is taken from the
/// engine, whatever it hands back.
pub proof fn lemma_no_targets(gizmo: Gizmo, transforms: Option<Vec<TargetTransform>>)
    requires
        gizmo.rust.targets@.count() == 0,
    ensures
        !gizmo.draws(),
        gizmo.transform_updated_spec(transforms) == Ok::<bool, GizmoError>(false),
{
}

/// The configuration depends on the settings, the camera and the size
/// alone: two items that agree on those have one configuration, whatever
/// they remember of the engine, of the pointer and of their targets.
pub proof fn lemma_config_of_settings(a: Gizmo, b: Gizmo)
    requires
        a.same_settings(b),
    ensures
        a.config_view() == b.config_view(),
{
    assert(a.rust.enabled_modes_spec() =~= b.rust.enabled_modes_spec()) by {
        assert forall|mode: GizmoMode| a.rust.enables(mode) == b.rust.enables(mode) by {}
    }
}

/// Whatever the host has set, the configuration that an item amounts to is
/// sanitized: the snap increments are finite and positive, and the other
/// numbers that are checked are finite and unsigned.
pub proof fn lemma_config_view_sanitized(gizmo: Gizmo)
    ensures
        gizmo.config_view().sanitized(),
{
    let rust = gizmo.rust;
    assert(Scalar { bits: DEFAULT_SNAP_ANGLE }.is_positive());
    assert(Scalar { bits: DEFAULT_SNAP_DISTANCE }.is_positive());
    assert(Scalar { bits: DEFAULT_SNAP_SCALE }.is_positive());
    lemma_positive_or(rust.snap_angle, Scalar { bits: DEFAULT_SNAP_ANGLE });
    lemma_positive_or(rust.snap_distance, Scalar { bits: DEFAULT_SNAP_DISTANCE });
    lemma_positive_or(rust.snap_scale, Scalar { bits: DEFAULT_SNAP_SCALE });
    lemma_sanitized(rust.pixels_per_point, Scalar { bits: DEFAULT_PIXELS_PER_POINT });
    lemma_sanitized(rust.camera_vertical_fov, Scalar { bits: DEFAULT_VERTICAL_FOV });
    lemma_sanitized(rust.inactive_alpha, Scalar { bits: DEFAULT_INACTIVE_ALPHA });
    lemma_sanitized(rust.highlight_alpha, Scalar { bits: DEFAULT_HIGHLIGHT_ALPHA });
    lemma_sanitized(rust.stroke_width, Scalar { bits: DEFAULT_STROKE_WIDTH });
    lemma_sanitized(rust.gizmo_size, Scalar { bits: DEFAULT_GIZMO_SIZE });
}

} // verus!
