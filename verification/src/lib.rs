//! The settings and the frame-by-frame decisions of a 3D transform gizmo
//! item, around the `transform-gizmo` engine.
//!
//! The host sets a camera, a list of targets, switches and a style, reports
//! the pointer, and asks for frames. The engine picks, drags and draws, and
//! it computes with numbers. This library stands between the two and
//! computes with none: a number is a bit pattern here. It derives the
//! engine's configuration from the host's settings, keeps the targets in
//! order, decides when the engine is created, updated, asked again and
//! allowed to draw, and checks what is handed on to the renderer.

pub mod bezier_curve;
pub mod config;
pub mod draw;
pub mod engine;
pub mod error;
pub mod geometry;
pub mod gizmo;
pub mod interaction;
pub mod modes;
pub mod scalar;
pub mod settings;
pub mod targets;

pub use crate::bezier_curve::{BezierCurveRust, PointF};
pub use crate::config::{CameraState, GizmoConfig, GizmoVisuals};
pub use crate::draw::DrawData;
pub use crate::engine::ModeSet;
pub use crate::error::GizmoError;
pub use crate::geometry::{Pos2, Rect, Rgb, Rgba, Vector3, Vector4};
pub use crate::gizmo::{EngineSetup, EngineStep, EngineUpdate, Gizmo, GizmoRust, PaintPlan};
pub use crate::interaction::GizmoInteraction;
pub use crate::scalar::Scalar;
pub use crate::settings::GizmoModeOverride;
pub use crate::targets::{TargetTransform, Targets};
