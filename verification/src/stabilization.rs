//! The three feedback laws that can take over the control intent of a ship:
//! full rotation damping, aim-assist rotation tracking and velocity damping.
//!
//! A law reads scalar measurements of the ship's motion and answers with a
//! command that says what the desired vector of its axis group becomes. When
//! its mode is switched off it answers with nothing and leaves the vector to
//! raw input.
//!
//! Measurements are fixed-point integers: angles in millionths of a degree,
//! angular speeds in millionths of a degree per second, linear speeds in
//! millionths of a metre per second, and cosines in millionths.

use vstd::prelude::*;
use crate::controls::{raw_intent, Controls};
use crate::modes::{MovementStabilization, RotationStabilization, SpaceShipSettings};
use crate::vector::BodyVector;

verus! {

/// Angular speed below which full rotation damping rests: 1 degree per second.
pub const ROTATION_DEADBAND: u64 = 1_000_000;

/// Linear speed below which velocity damping rests: 0.3 metres per second.
pub const MOVEMENT_DEADBAND: u64 = 300_000;

/// Angular error below which aim-assist counts the ship as on target: 3 degrees.
pub const AIM_SETTLED_ANGLE: u64 = 3_000_000;

/// Angular speed above which a ship on target is still braked: 3 degrees per second.
pub const AIM_SETTLED_RATE: u64 = 3_000_000;

/// Floor of the turn rate that aim-assist allows and asks for: 15 degrees per second.
pub const MIN_TURN_RATE: u64 = 15_000_000;

/// Cosine between the spin axis and the wanted axis below which aim-assist
/// steers again: 0.97, an angle of about 14 degrees.
pub const ALIGNMENT_FLOOR: i64 = 970_000;

/// What a damping law makes of the desired vector of its axis group.
#[derive(Clone, Copy, Debug, PartialEq, Eq, Structural)]
pub enum DampingCommand {
    /// Settled: the desired vector becomes zero.
    Hold,
    /// Oppose the current motion: the desired vector becomes the negated
    /// direction of the velocity that is damped, taken into the body frame.
    Brake,
}

/// What aim-assist makes of the desired rotation.
#[derive(Clone, Copy, Debug, PartialEq, Eq, Structural)]
pub enum RotationCommand {
    /// Ask for no rotation: the desired rotation becomes zero.
    Hold,
    /// Oppose the current spin: the desired rotation becomes the negated
    /// direction of the angular velocity, taken into the body frame.
    Brake,
    /// Turn towards the target: the desired rotation becomes the direction
    /// of the angular error, in the body frame.
    Steer,
}

/// What aim-assist reads of a ship and its target in one tick.
#[derive(Clone, Copy, Debug, PartialEq, Eq, Structural)]
pub struct AimObservation {
    /// Angle between the ship's orientation and the target orientation.
    pub angle_error: u64,
    /// Magnitude of the ship's angular velocity.
    pub angular_speed: u64,
    /// Cosine of the angle between the direction of the angular velocity and
    /// the direction of the angular error; zero for a ship that does not spin.
    pub alignment: i64,
}

/// The intent of a computer-flown ship: it always thrusts along `movement`
/// and turns as `rotation` says.
#[derive(Clone, Copy, Debug, PartialEq, Eq, Structural)]
pub struct Pursuit {
    pub movement: BodyVector,
    pub rotation: RotationCommand,
}

/// The fastest spin that aim-assist tolerates at a given angular error: half
/// the error per second, but never less than the minimum turn rate.
pub open spec fn turn_rate_cap(angle_error: u64) -> u64 {
    if angle_error / 2 > MIN_TURN_RATE {
        angle_error / 2
    } else {
        MIN_TURN_RATE
    }
}

/// Full rotation damping: silent unless selected; then it rests inside the
/// deadband and brakes outside it.
pub open spec fn full_damping(mode: RotationStabilization, angular_speed: u64) -> Option<
    DampingCommand,
> {
    if mode != RotationStabilization::FullDamping {
        None
    } else if angular_speed < ROTATION_DEADBAND {
        Some(DampingCommand::Hold)
    } else {
        Some(DampingCommand::Brake)
    }
}

/// The aim-assist policy, in priority order: settle on target, protect
/// against overshoot, steer when off axis or too slow, otherwise hold.
pub open spec fn aim_command(obs: AimObservation) -> RotationCommand {
    if obs.angle_error < AIM_SETTLED_ANGLE {
        if obs.angular_speed > AIM_SETTLED_RATE {
            RotationCommand::Brake
        } else {
            RotationCommand::Hold
        }
    } else if obs.angular_speed > turn_rate_cap(obs.angle_error) {
        RotationCommand::Brake
    } else if obs.alignment < ALIGNMENT_FLOOR || obs.angular_speed < MIN_TURN_RATE {
        RotationCommand::Steer
    } else {
        RotationCommand::Hold
    }
}

/// Aim-assist for the pilot's ship: silent unless selected.
pub open spec fn player_aim(mode: RotationStabilization, obs: AimObservation) -> Option<
    RotationCommand,
> {
    if mode == RotationStabilization::AimAssist {
        Some(aim_command(obs))
    } else {
        None
    }
}

/// Velocity damping: silent unless selected; then it rests inside the
/// deadband and brakes outside it.
pub open spec fn movement_damping(mode: MovementStabilization, speed: u64) -> Option<
    DampingCommand,
> {
    if mode != MovementStabilization::FullDamping {
        None
    } else if speed < MOVEMENT_DEADBAND {
        Some(DampingCommand::Hold)
    } else {
        Some(DampingCommand::Brake)
    }
}

/// Forward thrust in the body frame, whose forward direction is -z.
pub open spec fn forward() -> BodyVector {
    BodyVector { x: 0i32, y: 0i32, z: -1i32 }
}

/// Computes the adaptive speed cap of aim-assist for an angular error.
pub fn max_angular_velocity(angle_error: u64) -> (cap: u64)
    ensures
        cap == turn_rate_cap(angle_error),
        cap >= MIN_TURN_RATE,
        cap >= angle_error / 2,
{
    let half: u64 = angle_error / 2;
    if half > MIN_TURN_RATE {
        half
    } else {
        MIN_TURN_RATE
    }
}

/// Full rotation damping for one ship.
///
/// Answers `None` exactly when `mode` is not full damping. Otherwise the
/// command is `Hold` when `angular_speed` is below the deadband of one degree
/// per second and `Brake` when it is not.
pub fn ship_rotation_full_stabilization(
    mode: RotationStabilization,
    angular_speed: u64,
) -> (command: Option<DampingCommand>)
    ensures
        command == full_damping(mode, angular_speed),
{
    match mode {
        RotationStabilization::FullDamping => {
            if angular_speed < ROTATION_DEADBAND {
                Some(DampingCommand::Hold)
            } else {
                Some(DampingCommand::Brake)
            }
        },
        _ => None,
    }
}

/// The aim-assist policy for one ship and one target.
pub fn ship_rotation_aim_stabilization(obs: &AimObservation) -> (command: RotationCommand)
    ensures
        command == aim_command(*obs),
{
    let cap: u64 = max_angular_velocity(obs.angle_error);
    if obs.angle_error < AIM_SETTLED_ANGLE {
        if obs.angular_speed > AIM_SETTLED_RATE {
            RotationCommand::Brake
        } else {
            RotationCommand::Hold
        }
    } else if obs.angular_speed > cap {
        RotationCommand::Brake
    } else if obs.alignment < ALIGNMENT_FLOOR || obs.angular_speed < MIN_TURN_RATE {
        RotationCommand::Steer
    } else {
        RotationCommand::Hold
    }
}

/// Aim-assist for the pilot's ship, whose target is the camera orientation.
///
/// Answers `None` exactly when `mode` is not aim-assist, and the policy's
/// command otherwise.
pub fn ship_rotation_player_aim_stabilization(
    mode: RotationStabilization,
    obs: &AimObservation,
) -> (command: Option<RotationCommand>)
    ensures
        command == player_aim(mode, *obs),
{
    match mode {
        RotationStabilization::AimAssist => Some(ship_rotation_aim_stabilization(obs)),
        _ => None,
    }
}

/// Intent of a computer-flown ship, whose target is the bearing of the
/// pilot's ship: it thrusts forward all the time and turns by the aim-assist
/// policy, whatever its stabilization selectors say.
pub fn ship_rotation_ai_aim_stabilization(obs: &AimObservation) -> (pursuit: Pursuit)
    ensures
        pursuit.movement == forward(),
        pursuit.rotation == aim_command(*obs),
{
    Pursuit {
        movement: BodyVector { x: 0, y: 0, z: -1 },
        rotation: ship_rotation_aim_stabilization(obs),
    }
}

/// Velocity damping for one ship.
///
/// Answers `None` exactly when `mode` is off. Otherwise the command is `Hold`
/// when `speed` is below the deadband of 0.3 metres per second and `Brake`
/// when it is not.
pub fn ship_movement_stabilization(mode: MovementStabilization, speed: u64) -> (command: Option<
    DampingCommand,
>)
    ensures
        command == movement_damping(mode, speed),
{
    match mode {
        MovementStabilization::FullDamping => {
            if speed < MOVEMENT_DEADBAND {
                Some(DampingCommand::Hold)
            } else {
                Some(DampingCommand::Brake)
            }
        },
        MovementStabilization::Off => None,
    }
}

/// A ship that points exactly at its target and does not spin is told to
/// hold, however its axes happen to be aligned.
pub proof fn lemma_aim_at_rest_on_target_holds(obs: AimObservation)
    requires
        obs.angle_error == 0,
        obs.angular_speed == 0,
    ensures
        aim_command(obs) == RotationCommand::Hold,
        player_aim(RotationStabilization::AimAssist, obs) == Some(RotationCommand::Hold),
{
}

/// Inside the settle threshold aim-assist never steers: it brakes a ship
/// that still spins faster than the settle rate and holds any other.
pub proof fn lemma_aim_settles_inside_threshold(obs: AimObservation)
    requires
        obs.angle_error < AIM_SETTLED_ANGLE,
    ensures
        aim_command(obs) != RotationCommand::Steer,
        aim_command(obs) == RotationCommand::Brake <==> obs.angular_speed > AIM_SETTLED_RATE,
{
}

/// Overshoot protection: off target, a ship that spins faster than the cap
/// for its error is braked, and one within the cap is never braked.
pub proof fn lemma_aim_brakes_above_cap(obs: AimObservation)
    requires
        obs.angle_error >= AIM_SETTLED_ANGLE,
    ensures
        aim_command(obs) == RotationCommand::Brake <==> obs.angular_speed > turn_rate_cap(
            obs.angle_error,
        ),
{
}

/// The speed cap grows with the error and never falls below the minimum
/// turn rate.
pub proof fn lemma_turn_rate_cap_monotonic(smaller: u64, larger: u64)
    requires
        smaller <= larger,
    ensures
        MIN_TURN_RATE <= turn_rate_cap(smaller) <= turn_rate_cap(larger),
{
}

/// Each tick exactly one producer writes the desired rotation of the pilot's
/// ship: raw input while the selector is off, and otherwise the one law that
/// the selector names. The producers are never blended.
pub proof fn lemma_one_rotation_writer(
    controls: Controls,
    settings: SpaceShipSettings,
    angular_speed: u64,
    obs: AimObservation,
)
    ensures
        ({
            let raw = raw_intent(controls, settings).rotation is Some;
            let damping = full_damping(settings.rotation_stabilization, angular_speed) is Some;
            let aim = player_aim(settings.rotation_stabilization, obs) is Some;
            ||| raw && !damping && !aim
            ||| !raw && damping && !aim
            ||| !raw && !damping && aim
        }),
{
}

/// Each tick exactly one producer writes the desired movement of the pilot's
/// ship: raw input while the selector is off, and velocity damping otherwise.
pub proof fn lemma_one_movement_writer(controls: Controls, settings: SpaceShipSettings, speed: u64)
    ensures
        (raw_intent(controls, settings).movement is Some) != (movement_damping(
            settings.movement_stabilization,
            speed,
        ) is Some),
{
}

} // verus!
