use gizmo::{
    EngineSetup, Gizmo, GizmoError, GizmoInteraction, Pos2, Scalar, TargetTransform, Targets,
    Vector3, Vector4,
};

fn s(value: f32) -> Scalar {
    Scalar::from_bits(value.to_bits())
}

fn at(x: f32, y: f32) -> Pos2 {
    Pos2 { x: s(x), y: s(y) }
}

fn target(x: f32) -> TargetTransform {
    TargetTransform {
        position: Vector3::new(s(x), s(0.0), s(0.0)),
        rotation: Vector4::new(s(0.0), s(0.0), s(0.0), s(1.0)),
        scale: Vector3::new(s(1.0), s(1.0), s(1.0)),
    }
}

fn item_with(targets: &[TargetTransform]) -> Gizmo {
    let mut gizmo = Gizmo::new(s(800.0), s(600.0));
    gizmo.initialize();
    gizmo.rust.targets = Targets::from_transforms(&targets.to_vec());
    gizmo
}

#[test]
fn the_engine_is_created_once() {
    let mut gizmo = item_with(&[target(0.0)]);
    assert!(!gizmo.rust.gizmo_created);
    let first = gizmo.with_gizmo();
    assert_eq!(first.setup, EngineSetup::Create);
    assert!(gizmo.rust.gizmo_created);
    let second = gizmo.with_gizmo();
    assert_eq!(second.setup, EngineSetup::Reconfigure);
    assert!(gizmo.rust.gizmo_created);
    assert_eq!(first.config.viewport, second.config.viewport);
    assert_eq!(first.config.modes.to_vec(), second.config.modes.to_vec());
}

#[test]
fn with_gizmo_hands_out_the_frame_s_config() {
    let mut gizmo = item_with(&[target(0.0)]);
    gizmo.rust.snap_distance = s(-3.0);
    let expected = gizmo.gizmo_config();
    let step = gizmo.with_gizmo();
    assert_eq!(step.config.snap_distance, s(3.0));
    assert_eq!(step.config.snap_distance, expected.snap_distance);
    assert_eq!(step.config.camera, expected.camera);
    assert_eq!(step.config.visuals, expected.visuals);
    assert!(!gizmo.rust.gizmo_updated_since_last_draw);
    assert_eq!(gizmo.rust.gizmo_last_interaction, None);
}

#[test]
fn a_report_prepares_an_update_and_is_kept() {
    let mut gizmo = item_with(&[target(1.0), target(2.0)]);
    let update = gizmo.update_interaction(at(10.0, 20.0), true, true, true).unwrap();
    assert_eq!(update.interaction, GizmoInteraction::new(at(10.0, 20.0), true, true, true));
    assert_eq!(update.transforms, vec![target(1.0), target(2.0)]);
    assert_eq!(update.step.setup, EngineSetup::Create);
    assert!(gizmo.rust.gizmo_created);
    assert!(gizmo.rust.gizmo_updated_since_last_draw);
    assert_eq!(
        gizmo.rust.gizmo_last_interaction,
        Some(GizmoInteraction::new(at(10.0, 20.0), true, false, true))
    );
}

#[test]
fn a_second_report_reconfigures() {
    let mut gizmo = item_with(&[target(1.0)]);
    let _ = gizmo.update_interaction(at(10.0, 20.0), true, true, true).unwrap();
    let update = gizmo.update_interaction(at(11.0, 20.0), true, false, true).unwrap();
    assert_eq!(update.step.setup, EngineSetup::Reconfigure);
    assert_eq!(update.interaction, GizmoInteraction::new(at(11.0, 20.0), true, false, true));
    assert_eq!(
        gizmo.rust.gizmo_last_interaction,
        Some(GizmoInteraction::new(at(11.0, 20.0), true, false, true))
    );
}

#[test]
fn an_update_as_such_keeps_no_interaction() {
    let mut gizmo = item_with(&[target(1.0)]);
    let interaction = GizmoInteraction::new(at(1.0, 2.0), true, true, true);
    let update = gizmo.update_interaction_impl(interaction).unwrap();
    assert_eq!(update.interaction, interaction);
    assert_eq!(update.transforms, vec![target(1.0)]);
    assert!(gizmo.rust.gizmo_updated_since_last_draw);
    assert!(gizmo.rust.gizmo_created);
    assert_eq!(gizmo.rust.gizmo_last_interaction, None);
}

#[test]
fn crooked_targets_stop_an_update() {
    let mut gizmo = item_with(&[target(1.0), target(2.0)]);
    gizmo.rust.targets.scales.pop();
    let result = gizmo.update_interaction(at(10.0, 20.0), true, true, true);
    assert_eq!(result.err(), Some(GizmoError::TargetListsMismatch));
    assert!(!gizmo.rust.gizmo_created);
    assert!(!gizmo.rust.gizmo_updated_since_last_draw);
    assert_eq!(gizmo.rust.gizmo_last_interaction, None);
    let result = gizmo.update_interaction_impl(GizmoInteraction::default());
    assert_eq!(result.err(), Some(GizmoError::TargetListsMismatch));
    assert!(!gizmo.rust.gizmo_created);
}

#[test]
fn a_frame_after_a_report_repeats_nothing() {
    let mut gizmo = item_with(&[target(1.0)]);
    let _ = gizmo.update_interaction(at(10.0, 20.0), true, true, true).unwrap();
    let plan = gizmo.update_paint_node().unwrap();
    assert!(plan.replay.is_none());
    assert!(plan.draw);
    assert_eq!(plan.step.setup, EngineSetup::Reconfigure);
    assert!(!gizmo.rust.gizmo_updated_since_last_draw);
}

#[test]
fn a_frame_without_a_report_repeats_the_last_one() {
    let mut gizmo = item_with(&[target(1.0)]);
    let _ = gizmo.update_interaction(at(10.0, 20.0), true, true, true).unwrap();
    let _ = gizmo.update_paint_node().unwrap();
    gizmo.rust.camera_position = Vector3::new(s(0.0), s(0.0), s(9.0));
    let plan = gizmo.update_paint_node().unwrap();
    let replay = plan.replay.expect("the last interaction is repeated");
    assert_eq!(replay.interaction, GizmoInteraction::new(at(10.0, 20.0), true, false, true));
    assert_eq!(replay.transforms, vec![target(1.0)]);
    assert_eq!(replay.step.setup, EngineSetup::Reconfigure);
    assert_eq!(replay.step.config.camera.position, Vector3::new(s(0.0), s(0.0), s(9.0)));
    assert_eq!(plan.step.config.camera.position, Vector3::new(s(0.0), s(0.0), s(9.0)));
    assert_eq!(plan.step.setup, EngineSetup::Reconfigure);
    assert!(plan.draw);
    assert!(!gizmo.rust.gizmo_updated_since_last_draw);
    assert_eq!(
        gizmo.rust.gizmo_last_interaction,
        Some(GizmoInteraction::new(at(10.0, 20.0), true, false, true))
    );
}

#[test]
fn the_first_frame_repeats_an_idle_pointer() {
    let mut gizmo = item_with(&[target(1.0)]);
    let plan = gizmo.update_paint_node().unwrap();
    let replay = plan.replay.expect("an idle pointer is reported");
    assert_eq!(replay.interaction, GizmoInteraction::default());
    assert_eq!(replay.interaction, GizmoInteraction::new(at(0.0, 0.0), false, false, false));
    assert_eq!(replay.step.setup, EngineSetup::Create);
    assert_eq!(plan.step.setup, EngineSetup::Reconfigure);
    assert!(gizmo.rust.gizmo_created);
    assert_eq!(gizmo.rust.gizmo_last_interaction, None);
}

#[test]
fn the_start_of_a_drag_is_never_repeated() {
    let mut gizmo = item_with(&[target(1.0)]);
    gizmo.rust.gizmo_last_interaction =
        Some(GizmoInteraction::new(at(10.0, 20.0), true, true, true));
    let result = gizmo.update_paint_node();
    assert_eq!(result.err(), Some(GizmoError::DragStartReplayed));
    assert!(!gizmo.rust.gizmo_created);
    assert!(!gizmo.rust.gizmo_updated_since_last_draw);
    assert_eq!(
        gizmo.rust.gizmo_last_interaction,
        Some(GizmoInteraction::new(at(10.0, 20.0), true, true, true))
    );
}

#[test]
fn the_start_of_a_drag_is_no_matter_where_nothing_is_repeated() {
    let mut gizmo = item_with(&[target(1.0)]);
    gizmo.rust.gizmo_last_interaction =
        Some(GizmoInteraction::new(at(10.0, 20.0), true, true, true));
    gizmo.rust.gizmo_updated_since_last_draw = true;
    let plan = gizmo.update_paint_node().unwrap();
    assert!(plan.replay.is_none());
    assert_eq!(plan.step.setup, EngineSetup::Create);
}

#[test]
fn crooked_targets_stop_a_repeating_frame() {
    let mut gizmo = item_with(&[target(1.0), target(2.0)]);
    gizmo.rust.targets.rotations.clear();
    let result = gizmo.update_paint_node();
    assert_eq!(result.err(), Some(GizmoError::TargetListsMismatch));
    assert!(!gizmo.rust.gizmo_created);
}

#[test]
fn nothing_is_drawn_without_a_target() {
    let mut gizmo = item_with(&[]);
    let plan = gizmo.update_paint_node().unwrap();
    assert!(!plan.draw);
    let replay = plan.replay.unwrap();
    assert!(replay.transforms.is_empty());
}

#[test]
fn nothing_is_drawn_while_hidden() {
    let mut gizmo = item_with(&[target(1.0)]);
    gizmo.visible = false;
    assert!(!gizmo.update_paint_node().unwrap().draw);
    gizmo.visible = true;
    assert!(gizmo.update_paint_node().unwrap().draw);
}

#[test]
fn no_result_changes_nothing() {
    let mut gizmo = item_with(&[target(1.0)]);
    assert_eq!(gizmo.transform_updated(None), Ok(false));
    assert_eq!(gizmo.rust.targets.to_transforms().unwrap(), vec![target(1.0)]);
}

#[test]
fn no_transform_is_taken_without_a_target() {
    let mut gizmo = item_with(&[]);
    assert_eq!(gizmo.transform_updated(Some(vec![])), Ok(false));
    assert_eq!(gizmo.transform_updated(Some(vec![target(5.0)])), Ok(false));
    assert_eq!(gizmo.rust.targets.count(), 0);
    let update = gizmo.update_interaction(at(400.0, 300.0), true, true, true).unwrap();
    assert!(update.transforms.is_empty());
    assert_eq!(gizmo.transform_updated(Some(vec![])), Ok(false));
}

#[test]
fn moved_targets_are_taken_and_told() {
    let mut gizmo = item_with(&[target(1.0), target(2.0)]);
    assert_eq!(gizmo.transform_updated(Some(vec![target(1.5), target(2.5)])), Ok(true));
    assert_eq!(gizmo.rust.targets.to_transforms().unwrap(), vec![target(1.5), target(2.5)]);
    assert_eq!(
        gizmo.rust.targets.positions,
        vec![Vector3::new(s(1.5), s(0.0), s(0.0)), Vector3::new(s(2.5), s(0.0), s(0.0))]
    );
}

#[test]
fn the_same_targets_are_not_told_again() {
    let mut gizmo = item_with(&[target(1.0), target(2.0)]);
    assert_eq!(gizmo.transform_updated(Some(vec![target(1.0), target(2.0)])), Ok(false));
    assert_eq!(gizmo.transform_updated(Some(vec![target(1.5), target(2.0)])), Ok(true));
    assert_eq!(gizmo.transform_updated(Some(vec![target(1.5), target(2.0)])), Ok(false));
    assert_eq!(gizmo.rust.targets.to_transforms().unwrap(), vec![target(1.5), target(2.0)]);
}

#[test]
fn another_number_of_transforms_is_rejected() {
    let mut gizmo = item_with(&[target(1.0), target(2.0)]);
    assert_eq!(
        gizmo.transform_updated(Some(vec![target(1.5)])),
        Err(GizmoError::ResultCountMismatch)
    );
    assert_eq!(
        gizmo.transform_updated(Some(vec![target(1.0), target(2.0), target(3.0)])),
        Err(GizmoError::ResultCountMismatch)
    );
    assert_eq!(gizmo.transform_updated(Some(vec![])), Err(GizmoError::ResultCountMismatch));
    assert_eq!(gizmo.rust.targets.to_transforms().unwrap(), vec![target(1.0), target(2.0)]);
}

#[test]
fn crooked_targets_take_no_transforms() {
    let mut gizmo = item_with(&[target(1.0), target(2.0)]);
    gizmo.rust.targets.scales.pop();
    assert_eq!(
        gizmo.transform_updated(Some(vec![target(1.5), target(2.5)])),
        Err(GizmoError::TargetListsMismatch)
    );
    assert_eq!(gizmo.rust.targets.positions.len(), 2);
    assert_eq!(gizmo.rust.targets.scales.len(), 1);
}

#[test]
fn the_idle_pointer_is_the_default() {
    let idle = GizmoInteraction::default();
    assert_eq!(idle.cursor_pos, at(0.0, 0.0));
    assert!(!idle.hovered && !idle.drag_started && !idle.dragging);
}

#[test]
fn a_kept_interaction_starts_no_drag() {
    let started = GizmoInteraction::new(at(3.0, 4.0), true, true, true);
    assert_eq!(started.repeated(), GizmoInteraction::new(at(3.0, 4.0), true, false, true));
    let going = GizmoInteraction::new(at(3.0, 4.0), false, false, true);
    assert_eq!(going.repeated(), going);
}

#[test]
fn every_error_has_its_sentence() {
    let errors = [
        GizmoError::TargetListsMismatch,
        GizmoError::ResultCountMismatch,
        GizmoError::DragStartReplayed,
        GizmoError::MalformedDrawData,
    ];
    for (i, error) in errors.iter().enumerate() {
        assert!(!error.message().is_empty());
        for other in &errors[i + 1..] {
            assert_ne!(error.message(), other.message());
        }
    }
    assert_eq!(
        GizmoError::DragStartReplayed.message(),
        "We don't want to repeat a drag started interaction"
    );
}
