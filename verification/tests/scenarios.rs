use space_physics::controls::{control_ship, Controls};
use space_physics::modes::{
    MovementStabilization, RotationStabilization, SpaceShipCameraTarget, SpaceShipSettings,
};
use space_physics::stabilization::{
    ship_movement_stabilization, ship_rotation_full_stabilization, DampingCommand,
};
use space_physics::thrusters::{apply_thrusters, Thruster};
use space_physics::vector::BodyVector;

type Vector = [f64; 3];

fn scale(a: Vector, k: f64) -> Vector {
    [a[0] * k, a[1] * k, a[2] * k]
}

fn length(a: Vector) -> f64 {
    (a[0] * a[0] + a[1] * a[1] + a[2] * a[2]).sqrt()
}

fn float(vector: BodyVector) -> Vector {
    [vector.x as f64, vector.y as f64, vector.z as f64]
}

/// Scales by a million, rounding away from zero so that the sign survives.
fn fixed(value: f64) -> i64 {
    let scaled = value * 1.0e6;
    if scaled > 0.0 {
        scaled.ceil() as i64
    } else {
        scaled.floor() as i64
    }
}

/// A thruster mounted at an offset in millimetres, with an axis for its
/// exhaust and a force in newtons.
fn thruster(position: [i32; 3], direction: [i32; 3], force: u32) -> Thruster {
    Thruster {
        position: BodyVector { x: position[0], y: position[1], z: position[2] },
        direction: BodyVector { x: direction[0], y: direction[1], z: direction[2] },
        force,
    }
}

/// One tick of an unrotated ship: the library decides, the test integrates.
fn tick(
    layout: &Vec<Thruster>,
    movement: BodyVector,
    rotation: BodyVector,
    mass: f64,
    dt: f64,
    velocity: &mut Vector,
    position: &mut Vector,
) -> Vec<bool> {
    let firing = apply_thrusters(&movement, &rotation, layout);
    let mut acceleration = [0.0; 3];
    for (thruster, fires) in layout.iter().zip(firing.iter()) {
        if *fires {
            let push = scale(float(thruster.direction), -f64::from(thruster.force) / mass);
            for axis in 0..3 {
                acceleration[axis] += push[axis];
            }
        }
    }
    for axis in 0..3 {
        velocity[axis] += acceleration[axis] * dt;
        position[axis] += velocity[axis] * dt;
    }
    firing
}

#[test]
fn forward_burn_reaches_ten_metres_per_second() {
    let main_engine = vec![thruster([0, 0, 1500], [0, 0, 1], 10_000)];
    let controls = Controls { move_forward: true, ..Controls::released() };
    let mut camera = SpaceShipCameraTarget::default();
    let mut settings = SpaceShipSettings::default();
    let mut velocity = [0.0; 3];
    let mut position = [0.0; 3];
    for _ in 0..10 {
        let intent = control_ship(&controls, &mut camera, &mut settings);
        let movement = intent.movement.expect("raw input writes the movement");
        let rotation = intent.rotation.expect("raw input writes the rotation");
        let firing = tick(&main_engine, movement, rotation, 1000.0, 0.1, &mut velocity, &mut position);
        assert_eq!(firing, vec![true]);
    }
    assert!((length(velocity) - 10.0).abs() < 1.0e-9);
    assert!((velocity[2] + 10.0).abs() < 1.0e-9);
    let closed_form: f64 = (1..=10).map(|k| 10.0 * k as f64 * 0.1 * 0.1).sum();
    assert!((position[2] + closed_form).abs() < 1.0e-9);
    assert!((closed_form - 5.5).abs() < 1.0e-9);
}

#[test]
fn ship_without_intent_keeps_its_state() {
    let layout = vec![
        thruster([0, 0, 1500], [0, 0, 1], 1000),
        thruster([0, 550, -1100], [0, 1, 0], 100),
        thruster([-550, 400, 0], [-1, 0, 0], 100),
    ];
    let mut camera = SpaceShipCameraTarget::default();
    let mut settings = SpaceShipSettings::default();
    let mut velocity = [0.0; 3];
    let mut position = [3.0, -2.0, 7.0];
    for _ in 0..50 {
        let intent = control_ship(&Controls::released(), &mut camera, &mut settings);
        let movement = intent.movement.expect("raw input writes the movement");
        let rotation = intent.rotation.expect("raw input writes the rotation");
        let firing = tick(&layout, movement, rotation, 1000.0, 0.1, &mut velocity, &mut position);
        assert_eq!(firing, vec![false, false, false]);
    }
    assert_eq!(velocity, [0.0; 3]);
    assert_eq!(position, [3.0, -2.0, 7.0]);
}

#[test]
fn pitch_input_selects_the_thrusters_that_pitch() {
    let layout = vec![
        thruster([0, 550, -1100], [0, 1, 0], 100),
        thruster([0, 550, 1100], [0, 1, 0], 100),
        thruster([0, -550, -1100], [0, -1, 0], 100),
        thruster([0, -550, 1100], [0, -1, 0], 100),
        thruster([0, 0, 1500], [0, 0, 1], 1000),
    ];
    let controls = Controls { pitch_up: true, ..Controls::released() };
    let mut velocity = [0.0; 3];
    let mut position = [0.0; 3];
    let firing = tick(
        &layout,
        controls.desired_movement(),
        controls.desired_rotation(),
        1000.0,
        0.1,
        &mut velocity,
        &mut position,
    );
    assert_eq!(firing, vec![false, true, true, false, false]);
    assert_eq!(velocity, [0.0; 3]);
}

#[test]
fn damping_brakes_until_the_deadband_and_then_rests() {
    let mode = RotationStabilization::FullDamping;
    let mut angular_speed: f64 = 40.0;
    let mut ticks = 0;
    while ship_rotation_full_stabilization(mode, fixed(angular_speed) as u64)
        == Some(DampingCommand::Brake)
    {
        angular_speed -= 2.5;
        ticks += 1;
        assert!(ticks <= 16);
    }
    assert_eq!(ticks, 16);
    assert!(angular_speed < 1.0);
    assert_eq!(
        ship_rotation_full_stabilization(mode, fixed(angular_speed) as u64),
        Some(DampingCommand::Hold)
    );
}

#[test]
fn velocity_damping_brakes_until_the_deadband_and_then_rests() {
    let mode = MovementStabilization::FullDamping;
    let mut speed: f64 = 3.0;
    let mut ticks = 0;
    while ship_movement_stabilization(mode, fixed(speed) as u64) == Some(DampingCommand::Brake) {
        speed -= 0.25;
        ticks += 1;
        assert!(ticks <= 11);
    }
    assert_eq!(ticks, 11);
    assert!(speed < 0.3);
    assert_eq!(ship_movement_stabilization(mode, fixed(speed) as u64), Some(DampingCommand::Hold));
}
