//! What the decisions of the core achieve together: within one tick, from
//! control intent to the thrusters that fire, and over many ticks.
//!
//! A stabilization law only commands; what the command does to the ship is
//! up to its thrusters and to the integration of motion. The statements
//! about many ticks therefore take the ship's response as a hypothesis about
//! the sequence of readings, one reading per tick, and conclude what the law
//! says along that sequence.

use vstd::prelude::*;
use crate::controls::{raw_intent, Controls};
use crate::hull::{lemma_standard_hull_turns_every_way, standard_layout};
use crate::modes::{MovementStabilization, RotationStabilization, SpaceShipSettings};
use crate::thrusters::{lemma_selected_thrust_follows_movement, Thruster};
use crate::vector::{dot, lemma_opposite_flips_sign, opposite, BodyVector};
use crate::stabilization::{
    aim_command,
    full_damping,
    movement_damping,
    AimObservation,
    DampingCommand,
    RotationCommand,
    MOVEMENT_DEADBAND,
    ROTATION_DEADBAND,
};

verus! {

/// A ship that nobody steers fires nothing. While the pilot touches nothing
/// and both stabilization laws are off, raw input writes zero into both
/// desired vectors, and under these no thruster of any layout fires.
pub proof fn lemma_untouched_ship_fires_nothing(
    controls: Controls,
    settings: SpaceShipSettings,
    thruster: Thruster,
)
    requires
        controls.is_released(),
        settings.rotation_stabilization == RotationStabilization::Off,
        settings.movement_stabilization == MovementStabilization::Off,
    ensures
        raw_intent(controls, settings).movement == Some(controls.raw_movement()),
        raw_intent(controls, settings).rotation == Some(controls.raw_rotation()),
        controls.raw_movement().is_zero(),
        controls.raw_rotation().is_zero(),
        !thruster.fires(controls.raw_movement(), controls.raw_rotation()),
{
}

/// A thruster that brakes the ship pushes against its velocity. When the
/// desired movement points exactly against the velocity, as a brake command
/// makes it, the thrust of a thruster selected for that movement has no
/// component along the velocity, and a component against it if the thruster
/// has any force.
pub proof fn lemma_braking_thrust_opposes_velocity(
    thruster: Thruster,
    velocity: (int, int, int),
    desired_movement: BodyVector,
)
    requires
        opposite(desired_movement@, velocity),
        thruster.serves_movement(desired_movement),
    ensures
        dot(thruster.thrust(), velocity) <= 0,
        thruster.force > 0 ==> dot(thruster.thrust(), velocity) < 0,
{
    lemma_selected_thrust_follows_movement(thruster, desired_movement);
    lemma_opposite_flips_sign(desired_movement@, velocity, thruster.thrust());
}

/// A thruster that brakes the spin turns against it. When the desired
/// rotation points exactly against the angular velocity, as a brake command
/// makes it, the torque of a thruster selected for that rotation points
/// against the spin.
pub proof fn lemma_braking_torque_opposes_spin(
    thruster: Thruster,
    spin: (int, int, int),
    desired_rotation: BodyVector,
)
    requires
        opposite(desired_rotation@, spin),
        thruster.serves_rotation(desired_rotation),
    ensures
        dot(thruster.torque(), spin) < 0,
{
    lemma_opposite_flips_sign(desired_rotation@, spin, thruster.torque());
}

/// The standard hull can brake any spin. When the desired rotation points
/// exactly against the angular velocity and no movement is desired, at least
/// one thruster of the hull fires, and the torque of every thruster that
/// fires points against the spin.
pub proof fn lemma_standard_hull_brakes_any_spin(spin: (int, int, int), desired_rotation: BodyVector)
    requires
        !desired_rotation.is_zero(),
        opposite(desired_rotation@, spin),
    ensures
        exists|i: int|
            0 <= i < standard_layout().len() && #[trigger] standard_layout()[i].fires(
                BodyVector { x: 0, y: 0, z: 0 },
                desired_rotation,
            ),
        forall|i: int|
            0 <= i < standard_layout().len() && #[trigger] standard_layout()[i].fires(
                BodyVector { x: 0, y: 0, z: 0 },
                desired_rotation,
            ) ==> dot(standard_layout()[i].torque(), spin) < 0,
{
    let layout = standard_layout();
    let rest = BodyVector { x: 0, y: 0, z: 0 };
    lemma_standard_hull_turns_every_way(desired_rotation);
    let serving = choose|i: int|
        0 <= i < layout.len() && #[trigger] layout[i].serves_rotation(desired_rotation);
    assert(layout[serving].fires(rest, desired_rotation));
    assert forall|i: int|
        0 <= i < layout.len() && #[trigger] layout[i].fires(rest, desired_rotation) implies dot(
        layout[i].torque(),
        spin,
    ) < 0 by {
        lemma_braking_torque_opposes_spin(layout[i], spin, desired_rotation);
    }
}

/// The brakes bite at tick `tick`: if the speed is outside the deadband
/// there, the next tick finds it lower by at least `authority`, or inside
/// the deadband.
pub open spec fn brakes_bite(speeds: Seq<u64>, tick: int, deadband: u64, authority: u64) -> bool {
    speeds[tick] >= deadband ==> {
        ||| speeds[tick + 1] + authority <= speeds[tick]
        ||| speeds[tick + 1] < deadband
    }
}

/// Latest tick at which a speed that starts at `initial` is inside the
/// deadband, when braking takes at least `authority` off it per tick.
pub open spec fn settle_bound(initial: u64, deadband: u64, authority: u64) -> int {
    if initial < deadband {
        0
    } else {
        (initial - deadband) / (authority as int) + 1
    }
}

/// While the speed stays outside the deadband, it has come down by at least
/// `authority` in every tick so far.
proof fn lemma_braking_descends(speeds: Seq<u64>, deadband: u64, authority: u64, tick: int)
    requires
        0 <= tick < speeds.len(),
        forall|t: int| 0 <= t < speeds.len() - 1 ==> #[trigger] brakes_bite(speeds, t, deadband, authority),
        forall|t: int| 0 <= t <= tick ==> speeds[t] >= deadband,
    ensures
        speeds[tick] + tick * authority <= speeds[0],
    decreases tick,
{
    if tick > 0 {
        lemma_braking_descends(speeds, deadband, authority, tick - 1);
        assert(brakes_bite(speeds, tick - 1, deadband, authority));
        assert(tick * authority == (tick - 1) * authority + authority) by (nonlinear_arith);
    }
}

/// The first tick from `from` on at which the speed is inside the deadband.
proof fn lemma_first_settled_tick(
    speeds: Seq<u64>,
    deadband: u64,
    authority: u64,
    from: int,
) -> (tick: int)
    requires
        authority > 0,
        0 <= from <= settle_bound(speeds[0], deadband, authority) < speeds.len(),
        forall|t: int| 0 <= t < speeds.len() - 1 ==> #[trigger] brakes_bite(speeds, t, deadband, authority),
        forall|t: int| 0 <= t < from ==> speeds[t] >= deadband,
    ensures
        from <= tick <= settle_bound(speeds[0], deadband, authority),
        speeds[tick] < deadband,
        forall|t: int| 0 <= t < tick ==> speeds[t] >= deadband,
    decreases settle_bound(speeds[0], deadband, authority) - from,
{
    let bound: int = settle_bound(speeds[0], deadband, authority);
    if speeds[from] < deadband {
        from
    } else {
        if from == bound {
            lemma_braking_descends(speeds, deadband, authority, from);
            let excess: int = speeds[0] - deadband;
            let quotient: int = excess / (authority as int);
            assert(excess < (quotient + 1) * authority) by (nonlinear_arith)
                requires
                    authority > 0,
                    excess >= 0,
                    quotient == excess / (authority as int),
            ;
            assert(false);
        }
        lemma_first_settled_tick(speeds, deadband, authority, from + 1)
    }
}

/// Full rotation damping converges. Let `speeds` hold the angular speed of a
/// ship tick by tick, under thrusters that in every tick in which the law
/// brakes take at least `authority` off it or bring it inside the deadband.
/// Then the law brakes without a pause up to some tick, at which it holds,
/// and that tick comes no later than the settle bound for the initial speed.
pub proof fn lemma_full_damping_converges(speeds: Seq<u64>, authority: u64) -> (tick: int)
    requires
        authority > 0,
        settle_bound(speeds[0], ROTATION_DEADBAND, authority) < speeds.len(),
        forall|t: int|
            0 <= t < speeds.len() - 1 ==> #[trigger] brakes_bite(
                speeds,
                t,
                ROTATION_DEADBAND,
                authority,
            ),
    ensures
        0 <= tick <= settle_bound(speeds[0], ROTATION_DEADBAND, authority),
        full_damping(RotationStabilization::FullDamping, speeds[tick]) == Some(
            DampingCommand::Hold,
        ),
        forall|t: int|
            0 <= t < tick ==> full_damping(RotationStabilization::FullDamping, speeds[t]) == Some(
                DampingCommand::Brake,
            ),
{
    lemma_first_settled_tick(speeds, ROTATION_DEADBAND, authority, 0)
}

/// Velocity damping converges, in the same sense and under the same
/// hypothesis as full rotation damping, with the linear speed of the ship
/// and the movement deadband.
pub proof fn lemma_velocity_damping_converges(speeds: Seq<u64>, authority: u64) -> (tick: int)
    requires
        authority > 0,
        settle_bound(speeds[0], MOVEMENT_DEADBAND, authority) < speeds.len(),
        forall|t: int|
            0 <= t < speeds.len() - 1 ==> #[trigger] brakes_bite(
                speeds,
                t,
                MOVEMENT_DEADBAND,
                authority,
            ),
    ensures
        0 <= tick <= settle_bound(speeds[0], MOVEMENT_DEADBAND, authority),
        movement_damping(MovementStabilization::FullDamping, speeds[tick]) == Some(
            DampingCommand::Hold,
        ),
        forall|t: int|
            0 <= t < tick ==> movement_damping(MovementStabilization::FullDamping, speeds[t])
                == Some(DampingCommand::Brake),
{
    lemma_first_settled_tick(speeds, MOVEMENT_DEADBAND, authority, 0)
}

/// A ship that is told to hold keeps its reading: with no desired rotation
/// nothing turns it, so the next tick observes what this one did.
pub open spec fn holding_keeps_reading(observations: Seq<AimObservation>, tick: int) -> bool {
    aim_command(observations[tick]) == RotationCommand::Hold ==> observations[tick + 1]
        == observations[tick]
}

/// Aim-assist does not oscillate at the target. A ship that starts exactly
/// on target and at rest is told to hold in every tick, for as long as
/// holding leaves its reading unchanged.
pub proof fn lemma_aim_rests_on_target(observations: Seq<AimObservation>, tick: int)
    requires
        0 <= tick < observations.len(),
        observations[0].angle_error == 0,
        observations[0].angular_speed == 0,
        forall|t: int|
            0 <= t < observations.len() - 1 ==> #[trigger] holding_keeps_reading(observations, t),
    ensures
        observations[tick] == observations[0],
        aim_command(observations[tick]) == RotationCommand::Hold,
    decreases tick,
{
    if tick > 0 {
        lemma_aim_rests_on_target(observations, tick - 1);
        assert(holding_keeps_reading(observations, tick - 1));
    }
}

} // verus!
