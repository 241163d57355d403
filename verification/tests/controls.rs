use space_physics::controls::{control_ship, Controls, RawIntent};
use space_physics::vector::BodyVector;
use space_physics::modes::{
    CameraMode, MovementStabilization, RotationStabilization, SpaceShipCameraTarget,
    SpaceShipSettings,
};

fn vector(x: i32, y: i32, z: i32) -> BodyVector {
    BodyVector { x, y, z }
}

#[test]
fn released_controls_ask_for_nothing() {
    let controls = Controls::released();
    assert_eq!(controls.desired_movement(), vector(0, 0, 0));
    assert_eq!(controls.desired_rotation(), vector(0, 0, 0));
    assert!(controls.desired_movement().is_zero());
}

#[test]
fn each_translation_action_has_its_axis() {
    let idle = Controls::released();
    assert_eq!(Controls { move_forward: true, ..idle }.desired_movement(), vector(0, 0, -1));
    assert_eq!(Controls { move_back: true, ..idle }.desired_movement(), vector(0, 0, 1));
    assert_eq!(Controls { move_up: true, ..idle }.desired_movement(), vector(0, 1, 0));
    assert_eq!(Controls { move_down: true, ..idle }.desired_movement(), vector(0, -1, 0));
    assert_eq!(Controls { move_left: true, ..idle }.desired_movement(), vector(-1, 0, 0));
    assert_eq!(Controls { move_right: true, ..idle }.desired_movement(), vector(1, 0, 0));
}

#[test]
fn each_rotation_action_has_its_axis() {
    let idle = Controls::released();
    assert_eq!(Controls { pitch_up: true, ..idle }.desired_rotation(), vector(1, 0, 0));
    assert_eq!(Controls { pitch_down: true, ..idle }.desired_rotation(), vector(-1, 0, 0));
    assert_eq!(Controls { yaw_left: true, ..idle }.desired_rotation(), vector(0, 1, 0));
    assert_eq!(Controls { yaw_right: true, ..idle }.desired_rotation(), vector(0, -1, 0));
    assert_eq!(Controls { roll_left: true, ..idle }.desired_rotation(), vector(0, 0, 1));
    assert_eq!(Controls { roll_right: true, ..idle }.desired_rotation(), vector(0, 0, -1));
}

#[test]
fn actions_on_different_axes_add_up() {
    let controls = Controls {
        move_forward: true,
        move_up: true,
        move_left: true,
        pitch_down: true,
        roll_left: true,
        ..Controls::released()
    };
    assert_eq!(controls.desired_movement(), vector(-1, 1, -1));
    assert_eq!(controls.desired_rotation(), vector(-1, 0, 1));
}

#[test]
fn opposite_actions_cancel() {
    let controls = Controls {
        move_forward: true,
        move_back: true,
        move_left: true,
        move_right: true,
        move_up: true,
        yaw_left: true,
        yaw_right: true,
        ..Controls::released()
    };
    assert_eq!(controls.desired_movement(), vector(0, 1, 0));
    assert_eq!(controls.desired_rotation(), vector(0, 0, 0));
}

#[test]
fn rotation_actions_do_not_move_and_movement_actions_do_not_turn() {
    let turning = Controls { pitch_up: true, yaw_left: true, roll_right: true, ..Controls::released() };
    assert_eq!(turning.desired_movement(), vector(0, 0, 0));
    let moving = Controls { move_forward: true, move_right: true, ..Controls::released() };
    assert_eq!(moving.desired_rotation(), vector(0, 0, 0));
}

#[test]
fn raw_input_writes_both_vectors_when_laws_are_off() {
    let controls = Controls { move_forward: true, yaw_right: true, ..Controls::released() };
    let mut camera = SpaceShipCameraTarget::default();
    let mut settings = SpaceShipSettings::default();
    let intent = control_ship(&controls, &mut camera, &mut settings);
    assert_eq!(
        intent,
        RawIntent { movement: Some(vector(0, 0, -1)), rotation: Some(vector(0, -1, 0)) }
    );
    assert_eq!(camera, SpaceShipCameraTarget::default());
    assert_eq!(settings, SpaceShipSettings::default());
}

#[test]
fn raw_input_writes_zero_vectors_when_nothing_is_held() {
    let mut camera = SpaceShipCameraTarget::default();
    let mut settings = SpaceShipSettings::default();
    let intent = control_ship(&Controls::released(), &mut camera, &mut settings);
    assert_eq!(
        intent,
        RawIntent { movement: Some(vector(0, 0, 0)), rotation: Some(vector(0, 0, 0)) }
    );
}

#[test]
fn raw_input_leaves_rotation_to_an_active_rotation_law() {
    let controls = Controls { move_up: true, pitch_up: true, ..Controls::released() };
    for mode in [RotationStabilization::AimAssist, RotationStabilization::FullDamping] {
        let mut camera = SpaceShipCameraTarget::default();
        let mut settings = SpaceShipSettings {
            rotation_stabilization: mode,
            movement_stabilization: MovementStabilization::Off,
        };
        let intent = control_ship(&controls, &mut camera, &mut settings);
        assert_eq!(intent.rotation, None);
        assert_eq!(intent.movement, Some(vector(0, 1, 0)));
        assert_eq!(settings.rotation_stabilization, mode);
    }
}

#[test]
fn raw_input_leaves_movement_to_velocity_damping() {
    let controls = Controls { move_up: true, pitch_up: true, ..Controls::released() };
    let mut camera = SpaceShipCameraTarget::default();
    let mut settings = SpaceShipSettings {
        rotation_stabilization: RotationStabilization::Off,
        movement_stabilization: MovementStabilization::FullDamping,
    };
    let intent = control_ship(&controls, &mut camera, &mut settings);
    assert_eq!(intent.movement, None);
    assert_eq!(intent.rotation, Some(vector(1, 0, 0)));
}

#[test]
fn switches_advance_each_selector_by_one_state() {
    let controls = Controls {
        switch_camera_mode: true,
        switch_rotation_stabilization_mode: true,
        switch_movement_stabilization_mode: true,
        ..Controls::released()
    };
    let mut camera = SpaceShipCameraTarget::default();
    let mut settings = SpaceShipSettings::default();
    control_ship(&controls, &mut camera, &mut settings);
    assert_eq!(camera.mode, CameraMode::Relative);
    assert_eq!(settings.rotation_stabilization, RotationStabilization::AimAssist);
    assert_eq!(settings.movement_stabilization, MovementStabilization::FullDamping);
    control_ship(&controls, &mut camera, &mut settings);
    assert_eq!(camera.mode, CameraMode::FirstPerson);
    assert_eq!(settings.rotation_stabilization, RotationStabilization::FullDamping);
    assert_eq!(settings.movement_stabilization, MovementStabilization::Off);
    control_ship(&controls, &mut camera, &mut settings);
    assert_eq!(camera.mode, CameraMode::Absolute);
    assert_eq!(settings.rotation_stabilization, RotationStabilization::Off);
    assert_eq!(settings.movement_stabilization, MovementStabilization::FullDamping);
}

#[test]
fn one_switch_leaves_the_other_selectors_alone() {
    let controls = Controls { switch_rotation_stabilization_mode: true, ..Controls::released() };
    let mut camera = SpaceShipCameraTarget { mode: CameraMode::FirstPerson };
    let mut settings = SpaceShipSettings::default();
    control_ship(&controls, &mut camera, &mut settings);
    assert_eq!(camera.mode, CameraMode::FirstPerson);
    assert_eq!(settings.rotation_stabilization, RotationStabilization::AimAssist);
    assert_eq!(settings.movement_stabilization, MovementStabilization::Off);
}

#[test]
fn gating_uses_the_settings_from_before_the_switch() {
    let controls = Controls {
        pitch_up: true,
        move_back: true,
        switch_rotation_stabilization_mode: true,
        switch_movement_stabilization_mode: true,
        ..Controls::released()
    };
    let mut camera = SpaceShipCameraTarget::default();
    let mut settings = SpaceShipSettings::default();
    let first = control_ship(&controls, &mut camera, &mut settings);
    assert_eq!(first.rotation, Some(vector(1, 0, 0)));
    assert_eq!(first.movement, Some(vector(0, 0, 1)));
    let second = control_ship(&controls, &mut camera, &mut settings);
    assert_eq!(second.rotation, None);
    assert_eq!(second.movement, None);
    let third = control_ship(&controls, &mut camera, &mut settings);
    assert_eq!(third.rotation, None);
    assert_eq!(third.movement, Some(vector(0, 0, 1)));
}
