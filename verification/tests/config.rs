use gizmo::config::{
    DEFAULT_GIZMO_SIZE, DEFAULT_HIGHLIGHT_ALPHA, DEFAULT_INACTIVE_ALPHA, DEFAULT_PIXELS_PER_POINT,
    DEFAULT_SNAP_ANGLE, DEFAULT_SNAP_DISTANCE, DEFAULT_SNAP_SCALE, DEFAULT_STROKE_WIDTH,
    DEFAULT_VERTICAL_FOV,
};
use gizmo::settings::{orientation_from_repr, pivot_point_from_repr};
use gizmo::{Gizmo, GizmoModeOverride, GizmoRust, ModeSet, Rgb, Scalar, Vector3, Vector4};
use transform_gizmo::config::TransformPivotPoint;
use transform_gizmo::{GizmoMode, GizmoOrientation};

fn s(value: f32) -> Scalar {
    Scalar::from_bits(value.to_bits())
}

fn f(scalar: Scalar) -> f32 {
    f32::from_bits(scalar.to_bits())
}

fn initialized() -> Gizmo {
    let mut gizmo = Gizmo::new(s(800.0), s(600.0));
    gizmo.initialize();
    gizmo
}

fn all_modes() -> Vec<GizmoMode> {
    GizmoMode::all().iter().collect()
}

#[test]
fn constants_are_the_numbers_they_stand_for() {
    assert_eq!(DEFAULT_SNAP_ANGLE, (std::f32::consts::PI / 32.0).to_bits());
    assert_eq!(DEFAULT_SNAP_DISTANCE, 0.1f32.to_bits());
    assert_eq!(DEFAULT_SNAP_SCALE, 0.1f32.to_bits());
    assert_eq!(DEFAULT_PIXELS_PER_POINT, 1.0f32.to_bits());
    assert_eq!(DEFAULT_VERTICAL_FOV, 45.0f32.to_bits());
    assert_eq!(DEFAULT_INACTIVE_ALPHA, 0.7f32.to_bits());
    assert_eq!(DEFAULT_HIGHLIGHT_ALPHA, 1.0f32.to_bits());
    assert_eq!(DEFAULT_STROKE_WIDTH, 4.0f32.to_bits());
    assert_eq!(DEFAULT_GIZMO_SIZE, 75.0f32.to_bits());
}

#[test]
fn snap_defaults_are_the_engine_s() {
    let gizmo = initialized();
    assert_eq!(gizmo.rust.snap_angle.to_bits(), transform_gizmo::config::DEFAULT_SNAP_ANGLE.to_bits());
    assert_eq!(
        gizmo.rust.snap_distance.to_bits(),
        transform_gizmo::config::DEFAULT_SNAP_DISTANCE.to_bits()
    );
    assert_eq!(gizmo.rust.snap_scale.to_bits(), transform_gizmo::config::DEFAULT_SNAP_SCALE.to_bits());
    assert_eq!(gizmo.rust.snap_angle.to_bits(), 0x3DC9_0FDB);
    assert_eq!(gizmo.rust.snap_distance.to_bits(), 0x3DCC_CCCD);
    assert_eq!(gizmo.rust.snap_scale.to_bits(), 0x3DCC_CCCD);
}

#[test]
fn visual_defaults_are_the_engine_s() {
    let gizmo = initialized();
    let engine = transform_gizmo::GizmoVisuals::default();
    assert_eq!(f(gizmo.rust.inactive_alpha), engine.inactive_alpha);
    assert_eq!(f(gizmo.rust.highlight_alpha), engine.highlight_alpha);
    assert_eq!(f(gizmo.rust.stroke_width), engine.stroke_width);
    assert_eq!(f(gizmo.rust.gizmo_size), engine.gizmo_size);
    let colour = |rgb: Rgb| transform_gizmo::Color32::from_rgb(rgb.r, rgb.g, rgb.b);
    assert_eq!(colour(gizmo.rust.x_color), engine.x_color);
    assert_eq!(colour(gizmo.rust.y_color), engine.y_color);
    assert_eq!(colour(gizmo.rust.z_color), engine.z_color);
    assert_eq!(colour(gizmo.rust.s_color), engine.s_color);
}

#[test]
fn a_new_item_is_blank() {
    let gizmo = Gizmo::new(s(10.0), s(20.0));
    assert_eq!(f(gizmo.width), 10.0);
    assert_eq!(f(gizmo.height), 20.0);
    assert!(gizmo.visible);
    assert_eq!(gizmo.rust.targets.count(), 0);
    assert!(!gizmo.rust.gizmo_created);
    assert!(!gizmo.rust.gizmo_updated_since_last_draw);
    assert_eq!(gizmo.rust.gizmo_last_interaction, None);
    assert_eq!(gizmo.rust.orientation, GizmoOrientation::Global);
    assert_eq!(gizmo.rust.pivot_point, TransformPivotPoint::MedianPoint);
    assert_eq!(gizmo.rust.mode_override, GizmoModeOverride::NoOverride);
    assert!(!gizmo.rust.snapping);
    assert_eq!(gizmo.rust.snap_angle.to_bits(), 0);
    assert_eq!(gizmo.rust.x_color, Rgb::new(0, 0, 0));
    assert!(gizmo.rust.enabled_modes().to_vec().is_empty());
}

#[test]
fn default_state_is_all_zero() {
    let rust = GizmoRust::default();
    assert_eq!(rust.camera_position, Vector3::zero());
    assert_eq!(rust.camera_rotation, Vector4::zero());
    assert_eq!(rust.camera_vertical_fov.to_bits(), 0);
    assert_eq!(rust.pixels_per_point.to_bits(), 0);
    assert_eq!(rust.gizmo_size.to_bits(), 0);
    assert!(!rust.translate_enabled && !rust.rotate_enabled && !rust.scale_enabled);
    assert!(!rust.translate_plane_enabled && !rust.translate_view_enabled);
    assert!(!rust.rotate_view_enabled && !rust.scale_plane_enabled);
    assert!(!rust.scale_uniform_enabled);
}

#[test]
fn initialize_sets_the_starting_values() {
    let gizmo = initialized();
    assert_eq!(f(gizmo.rust.pixels_per_point), 1.0);
    assert!(gizmo.rust.translate_enabled);
    assert!(gizmo.rust.translate_plane_enabled);
    assert!(gizmo.rust.translate_view_enabled);
    assert!(gizmo.rust.rotate_enabled);
    assert!(gizmo.rust.rotate_view_enabled);
    assert!(gizmo.rust.scale_enabled);
    assert!(gizmo.rust.scale_plane_enabled);
    assert!(gizmo.rust.scale_uniform_enabled);
    assert_eq!(gizmo.rust.x_color, Rgb::new(255, 0, 125));
    assert_eq!(gizmo.rust.y_color, Rgb::new(0, 255, 125));
    assert_eq!(gizmo.rust.z_color, Rgb::new(0, 125, 255));
    assert_eq!(gizmo.rust.s_color, Rgb::new(255, 255, 255));
    assert_eq!(f(gizmo.rust.inactive_alpha), 0.7);
    assert_eq!(f(gizmo.rust.highlight_alpha), 1.0);
    assert_eq!(f(gizmo.rust.stroke_width), 4.0);
    assert_eq!(f(gizmo.rust.gizmo_size), 75.0);
}

#[test]
fn initialize_leaves_the_rest() {
    let mut gizmo = Gizmo::new(s(640.0), s(480.0));
    gizmo.visible = false;
    gizmo.rust.snapping = true;
    gizmo.rust.camera_vertical_fov = s(60.0);
    gizmo.rust.orientation = GizmoOrientation::Local;
    gizmo.rust.mode_override = GizmoModeOverride::ScaleX;
    gizmo.initialize();
    assert_eq!(f(gizmo.width), 640.0);
    assert_eq!(f(gizmo.height), 480.0);
    assert!(!gizmo.visible);
    assert!(gizmo.rust.snapping);
    assert_eq!(f(gizmo.rust.camera_vertical_fov), 60.0);
    assert_eq!(gizmo.rust.orientation, GizmoOrientation::Local);
    assert_eq!(gizmo.rust.mode_override, GizmoModeOverride::ScaleX);
    assert!(!gizmo.rust.gizmo_created);
}

#[test]
fn every_switch_on_enables_all_but_the_arcball() {
    let gizmo = initialized();
    let modes = gizmo.rust.enabled_modes();
    for mode in all_modes() {
        assert_eq!(modes.contains(mode), mode != GizmoMode::Arcball, "{mode:?}");
    }
    assert_eq!(modes.to_vec().len(), 18);
}

#[test]
fn each_switch_governs_its_modes() {
    let groups: [(fn(&mut GizmoRust), &[GizmoMode]); 8] = [
        (
            |rust| rust.translate_enabled = true,
            &[GizmoMode::TranslateX, GizmoMode::TranslateY, GizmoMode::TranslateZ],
        ),
        (
            |rust| rust.translate_plane_enabled = true,
            &[GizmoMode::TranslateXY, GizmoMode::TranslateXZ, GizmoMode::TranslateYZ],
        ),
        (|rust| rust.translate_view_enabled = true, &[GizmoMode::TranslateView]),
        (
            |rust| rust.rotate_enabled = true,
            &[GizmoMode::RotateX, GizmoMode::RotateY, GizmoMode::RotateZ],
        ),
        (|rust| rust.rotate_view_enabled = true, &[GizmoMode::RotateView]),
        (
            |rust| rust.scale_enabled = true,
            &[GizmoMode::ScaleX, GizmoMode::ScaleY, GizmoMode::ScaleZ],
        ),
        (
            |rust| rust.scale_plane_enabled = true,
            &[GizmoMode::ScaleXY, GizmoMode::ScaleXZ, GizmoMode::ScaleYZ],
        ),
        (|rust| rust.scale_uniform_enabled = true, &[GizmoMode::ScaleUniform]),
    ];
    for (switch_on, expected) in groups {
        let mut rust = GizmoRust::default();
        switch_on(&mut rust);
        let modes = rust.enabled_modes();
        for mode in all_modes() {
            assert_eq!(modes.contains(mode), expected.contains(&mode), "{mode:?}");
        }
        let mut listed = modes.to_vec();
        listed.sort_by_key(|mode| *mode as u8);
        let mut wanted = expected.to_vec();
        wanted.sort_by_key(|mode| *mode as u8);
        assert_eq!(listed, wanted);
    }
}

#[test]
fn mode_set_grows_by_insertion() {
    let mut set = ModeSet::new();
    assert!(set.to_vec().is_empty());
    assert!(!set.contains(GizmoMode::RotateX));
    assert!(set.insert(GizmoMode::RotateX));
    assert!(set.contains(GizmoMode::RotateX));
    assert!(!set.contains(GizmoMode::RotateY));
    assert!(!set.insert(GizmoMode::RotateX));
    assert!(set.insert(GizmoMode::Arcball));
    assert_eq!(set.to_vec(), vec![GizmoMode::RotateX, GizmoMode::Arcball]);
}

#[test]
fn config_hands_the_settings_on() {
    let mut gizmo = initialized();
    gizmo.rust.camera_position = Vector3::new(s(1.0), s(2.0), s(3.0));
    gizmo.rust.camera_rotation = Vector4::new(s(0.0), s(0.0), s(0.0), s(1.0));
    gizmo.rust.camera_vertical_fov = s(60.0);
    gizmo.rust.camera_near_plane = s(0.1);
    gizmo.rust.camera_far_plane = s(1000.0);
    gizmo.rust.orientation = orientation_from_repr(1);
    gizmo.rust.pivot_point = pivot_point_from_repr(1);
    gizmo.rust.snapping = true;
    gizmo.rust.snap_angle = s(0.5);
    gizmo.rust.snap_distance = s(2.0);
    gizmo.rust.snap_scale = s(0.25);
    gizmo.rust.pixels_per_point = s(2.0);
    gizmo.rust.mode_override = GizmoModeOverride::from_repr(6);
    gizmo.rust.x_color = Rgb::from_channels(1, 2, 3);

    let config = gizmo.gizmo_config();
    assert_eq!(config.camera.position, Vector3::new(s(1.0), s(2.0), s(3.0)));
    assert_eq!(config.camera.rotation, Vector4::new(s(0.0), s(0.0), s(0.0), s(1.0)));
    assert_eq!(f(config.camera.vertical_fov), 60.0);
    assert_eq!(f(config.camera.near_plane), 0.1);
    assert_eq!(f(config.camera.far_plane), 1000.0);
    assert_eq!(f(config.viewport.min.x), 0.0);
    assert_eq!(f(config.viewport.min.y), 0.0);
    assert_eq!(f(config.viewport.max.x), 800.0);
    assert_eq!(f(config.viewport.max.y), 600.0);
    assert_eq!(config.orientation, GizmoOrientation::Local);
    assert_eq!(config.pivot_point, TransformPivotPoint::IndividualOrigins);
    assert!(config.snapping);
    assert_eq!(f(config.snap_angle), 0.5);
    assert_eq!(f(config.snap_distance), 2.0);
    assert_eq!(f(config.snap_scale), 0.25);
    assert_eq!(f(config.pixels_per_point), 2.0);
    assert_eq!(config.mode_override, Some(GizmoMode::TranslateX));
    assert_eq!(config.visuals.x_color, Rgb::new(1, 2, 3));
    assert_eq!(config.visuals.y_color, Rgb::new(0, 255, 125));
    assert_eq!(f(config.visuals.inactive_alpha), 0.7);
    assert_eq!(f(config.visuals.highlight_alpha), 1.0);
    assert_eq!(f(config.visuals.stroke_width), 4.0);
    assert_eq!(f(config.visuals.gizmo_size), 75.0);
    assert_eq!(config.modes.to_vec().len(), 18);
}

#[test]
fn config_takes_negative_settings_without_their_sign() {
    let mut gizmo = initialized();
    gizmo.rust.snap_angle = s(-0.5);
    gizmo.rust.snap_distance = s(-2.0);
    gizmo.rust.snap_scale = s(-0.25);
    gizmo.rust.pixels_per_point = s(-2.0);
    gizmo.rust.inactive_alpha = s(-0.3);
    gizmo.rust.highlight_alpha = s(-0.9);
    gizmo.rust.stroke_width = s(-6.0);
    gizmo.rust.gizmo_size = s(-100.0);
    gizmo.rust.camera_vertical_fov = s(-45.0);
    let config = gizmo.gizmo_config();
    assert_eq!(f(config.snap_angle), 0.5);
    assert_eq!(f(config.snap_distance), 2.0);
    assert_eq!(f(config.snap_scale), 0.25);
    assert_eq!(f(config.pixels_per_point), 2.0);
    assert_eq!(f(config.visuals.inactive_alpha), 0.3);
    assert_eq!(f(config.visuals.highlight_alpha), 0.9);
    assert_eq!(f(config.visuals.stroke_width), 6.0);
    assert_eq!(f(config.visuals.gizmo_size), 100.0);
    assert_eq!(f(config.camera.vertical_fov), 45.0);
}

#[test]
fn config_replaces_what_is_not_finite() {
    for bad in [f32::NAN, f32::INFINITY, f32::NEG_INFINITY] {
        let mut gizmo = initialized();
        gizmo.rust.snap_angle = s(bad);
        gizmo.rust.snap_distance = s(bad);
        gizmo.rust.snap_scale = s(bad);
        gizmo.rust.pixels_per_point = s(bad);
        gizmo.rust.inactive_alpha = s(bad);
        gizmo.rust.highlight_alpha = s(bad);
        gizmo.rust.stroke_width = s(bad);
        gizmo.rust.gizmo_size = s(bad);
        gizmo.rust.camera_vertical_fov = s(bad);
        let config = gizmo.gizmo_config();
        assert_eq!(f(config.snap_angle), transform_gizmo::config::DEFAULT_SNAP_ANGLE);
        assert_eq!(f(config.snap_distance), transform_gizmo::config::DEFAULT_SNAP_DISTANCE);
        assert_eq!(f(config.snap_scale), transform_gizmo::config::DEFAULT_SNAP_SCALE);
        assert_eq!(f(config.pixels_per_point), 1.0);
        assert_eq!(f(config.visuals.inactive_alpha), 0.7);
        assert_eq!(f(config.visuals.highlight_alpha), 1.0);
        assert_eq!(f(config.visuals.stroke_width), 4.0);
        assert_eq!(f(config.visuals.gizmo_size), 75.0);
        assert_eq!(f(config.camera.vertical_fov), 45.0);
    }
}

#[test]
fn config_replaces_a_snap_increment_of_zero() {
    for zero in [0.0f32, -0.0] {
        let mut gizmo = initialized();
        gizmo.rust.snap_angle = s(zero);
        gizmo.rust.snap_distance = s(zero);
        gizmo.rust.snap_scale = s(zero);
        let config = gizmo.gizmo_config();
        assert_eq!(f(config.snap_angle), std::f32::consts::PI / 32.0);
        assert_eq!(f(config.snap_distance), 0.1);
        assert_eq!(f(config.snap_scale), 0.1);
    }
}

#[test]
fn config_keeps_a_style_of_zero() {
    let mut gizmo = initialized();
    gizmo.rust.inactive_alpha = s(0.0);
    gizmo.rust.stroke_width = s(-0.0);
    gizmo.rust.pixels_per_point = s(0.0);
    let config = gizmo.gizmo_config();
    assert_eq!(config.visuals.inactive_alpha.to_bits(), 0);
    assert_eq!(config.visuals.stroke_width.to_bits(), 0);
    assert_eq!(config.pixels_per_point.to_bits(), 0);
}

#[test]
fn config_of_a_blank_item_is_usable() {
    let config = Gizmo::new(s(0.0), s(0.0)).gizmo_config();
    assert!(f(config.snap_angle) > 0.0);
    assert!(f(config.snap_distance) > 0.0);
    assert!(f(config.snap_scale) > 0.0);
    assert!(config.modes.to_vec().is_empty());
    assert_eq!(config.mode_override, None);
    assert_eq!(config.orientation, GizmoOrientation::Global);
    assert_eq!(config.pivot_point, TransformPivotPoint::MedianPoint);
    assert!(!config.snapping);
}

#[test]
fn colour_channels_keep_their_low_byte() {
    assert_eq!(Rgb::from_channels(255, 0, 125), Rgb::new(255, 0, 125));
    assert_eq!(Rgb::from_channels(256, 257, 511), Rgb::new(0, 1, 255));
    assert_eq!(Rgb::from_channels(-1, -256, i32::MIN), Rgb::new(255, 0, 0));
    assert_eq!(Rgb::from_channels(i32::MAX, 1000, -2), Rgb::new(255, 232, 254));
    assert_eq!(Rgb::from_channels(300, -3, 128).r, 300i32 as u8);
    assert_eq!(Rgb::from_channels(300, -3, 128).g, -3i32 as u8);
}

#[test]
fn config_does_not_depend_on_frame_state() {
    let mut gizmo = initialized();
    let before = gizmo.gizmo_config();
    gizmo.rust.gizmo_created = true;
    gizmo.rust.gizmo_updated_since_last_draw = true;
    let after = gizmo.gizmo_config();
    assert_eq!(before.camera, after.camera);
    assert_eq!(before.viewport, after.viewport);
    assert_eq!(before.modes.to_vec(), after.modes.to_vec());
    assert_eq!(before.visuals, after.visuals);
    assert_eq!(before.snap_angle, after.snap_angle);
}
