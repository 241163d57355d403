//! The thruster layout of the standard hull, and what it can and cannot do.
//!
//! Mount offsets are in millimetres, exhaust directions are unit axes and
//! forces are in newtons. The hull carries one main thruster at the stern
//! and sixteen side thrusters, four on each of its top, bottom, left and
//! right faces: two near the ends of the hull and two off its long axis.

use vstd::prelude::*;
use crate::thrusters::{lemma_torque_is_scaled_lever, Thruster};
use crate::vector::{dot, lemma_dot_commutes, BodyVector};

verus! {

/// Force of the main thruster.
pub const MAIN_FORCE: u32 = 1000;

/// Force of each side thruster.
pub const SIDE_FORCE: u32 = 100;

/// A thruster given by the components of its mount offset and of its
/// exhaust direction.
pub open spec fn fitted(position: (int, int, int), direction: (int, int, int), force: u32) -> Thruster {
    Thruster {
        position: BodyVector {
            x: position.0 as i32,
            y: position.1 as i32,
            z: position.2 as i32,
        },
        direction: BodyVector {
            x: direction.0 as i32,
            y: direction.1 as i32,
            z: direction.2 as i32,
        },
        force,
    }
}

/// The seventeen thrusters of the standard hull, main thruster first.
pub open spec fn standard_layout() -> Seq<Thruster> {
    seq![
        fitted((0, 0, 1500), (0, 0, 1), MAIN_FORCE),
        fitted((0, 550, -1100), (0, 1, 0), SIDE_FORCE),
        fitted((0, 550, 1100), (0, 1, 0), SIDE_FORCE),
        fitted((-400, 550, 0), (0, 1, 0), SIDE_FORCE),
        fitted((400, 550, 0), (0, 1, 0), SIDE_FORCE),
        fitted((0, -550, -1100), (0, -1, 0), SIDE_FORCE),
        fitted((0, -550, 1100), (0, -1, 0), SIDE_FORCE),
        fitted((-400, -550, 0), (0, -1, 0), SIDE_FORCE),
        fitted((400, -550, 0), (0, -1, 0), SIDE_FORCE),
        fitted((-550, 0, -1100), (-1, 0, 0), SIDE_FORCE),
        fitted((-550, 0, 1100), (-1, 0, 0), SIDE_FORCE),
        fitted((-550, 400, 0), (-1, 0, 0), SIDE_FORCE),
        fitted((-550, -400, 0), (-1, 0, 0), SIDE_FORCE),
        fitted((550, 0, -1100), (1, 0, 0), SIDE_FORCE),
        fitted((550, 0, 1100), (1, 0, 0), SIDE_FORCE),
        fitted((550, 400, 0), (1, 0, 0), SIDE_FORCE),
        fitted((550, -400, 0), (1, 0, 0), SIDE_FORCE),
    ]
}

fn fit(position: (i32, i32, i32), direction: (i32, i32, i32), force: u32) -> (thruster: Thruster)
    ensures
        thruster == fitted(
            (position.0 as int, position.1 as int, position.2 as int),
            (direction.0 as int, direction.1 as int, direction.2 as int),
            force,
        ),
{
    Thruster {
        position: BodyVector { x: position.0, y: position.1, z: position.2 },
        direction: BodyVector { x: direction.0, y: direction.1, z: direction.2 },
        force,
    }
}

/// Builds the layout of the standard hull.
pub fn standard_hull() -> (layout: Vec<Thruster>)
    ensures
        layout@ == standard_layout(),
{
    let mut layout: Vec<Thruster> = Vec::new();
    layout.push(fit((0, 0, 1500), (0, 0, 1), MAIN_FORCE));
    layout.push(fit((0, 550, -1100), (0, 1, 0), SIDE_FORCE));
    layout.push(fit((0, 550, 1100), (0, 1, 0), SIDE_FORCE));
    layout.push(fit((-400, 550, 0), (0, 1, 0), SIDE_FORCE));
    layout.push(fit((400, 550, 0), (0, 1, 0), SIDE_FORCE));
    layout.push(fit((0, -550, -1100), (0, -1, 0), SIDE_FORCE));
    layout.push(fit((0, -550, 1100), (0, -1, 0), SIDE_FORCE));
    layout.push(fit((-400, -550, 0), (0, -1, 0), SIDE_FORCE));
    layout.push(fit((400, -550, 0), (0, -1, 0), SIDE_FORCE));
    layout.push(fit((-550, 0, -1100), (-1, 0, 0), SIDE_FORCE));
    layout.push(fit((-550, 0, 1100), (-1, 0, 0), SIDE_FORCE));
    layout.push(fit((-550, 400, 0), (-1, 0, 0), SIDE_FORCE));
    layout.push(fit((-550, -400, 0), (-1, 0, 0), SIDE_FORCE));
    layout.push(fit((550, 0, -1100), (1, 0, 0), SIDE_FORCE));
    layout.push(fit((550, 0, 1100), (1, 0, 0), SIDE_FORCE));
    layout.push(fit((550, 400, 0), (1, 0, 0), SIDE_FORCE));
    layout.push(fit((550, -400, 0), (1, 0, 0), SIDE_FORCE));
    assert(layout@ =~= standard_layout());
    layout
}

/// The standard hull can turn every way: whatever rotation is desired, at
/// least one of its thrusters serves it.
pub proof fn lemma_standard_hull_turns_every_way(desired_rotation: BodyVector)
    requires
        !desired_rotation.is_zero(),
    ensures
        exists|i: int|
            0 <= i < standard_layout().len() && #[trigger] standard_layout()[i].serves_rotation(
                desired_rotation,
            ),
{
    let layout = standard_layout();
    let r = desired_rotation@;
    if desired_rotation.x > 0 {
        assert(layout[2] == fitted((0, 550, 1100), (0, 1, 0), SIDE_FORCE));
        lemma_torque_of(layout[2], (0, 550, 1100), (0, 1, 0), 100, (110_000, 0, 0));
        lemma_dot_along_axis(layout[2].torque(), r);
        assert(dot(layout[2].torque(), r) == 110_000 * r.0);
        assert(layout[2].serves_rotation(desired_rotation));
    } else if desired_rotation.x < 0 {
        assert(layout[1] == fitted((0, 550, -1100), (0, 1, 0), SIDE_FORCE));
        lemma_torque_of(layout[1], (0, 550, -1100), (0, 1, 0), 100, (-110_000, 0, 0));
        lemma_dot_along_axis(layout[1].torque(), r);
        assert(dot(layout[1].torque(), r) == -110_000 * r.0);
        assert(layout[1].serves_rotation(desired_rotation));
    } else if desired_rotation.y > 0 {
        assert(layout[13] == fitted((550, 0, -1100), (1, 0, 0), SIDE_FORCE));
        lemma_torque_of(layout[13], (550, 0, -1100), (1, 0, 0), 100, (0, 110_000, 0));
        lemma_dot_along_axis(layout[13].torque(), r);
        assert(dot(layout[13].torque(), r) == 110_000 * r.1);
        assert(layout[13].serves_rotation(desired_rotation));
    } else if desired_rotation.y < 0 {
        assert(layout[14] == fitted((550, 0, 1100), (1, 0, 0), SIDE_FORCE));
        lemma_torque_of(layout[14], (550, 0, 1100), (1, 0, 0), 100, (0, -110_000, 0));
        lemma_dot_along_axis(layout[14].torque(), r);
        assert(dot(layout[14].torque(), r) == -110_000 * r.1);
        assert(layout[14].serves_rotation(desired_rotation));
    } else if desired_rotation.z > 0 {
        assert(layout[3] == fitted((-400, 550, 0), (0, 1, 0), SIDE_FORCE));
        lemma_torque_of(layout[3], (-400, 550, 0), (0, 1, 0), 100, (0, 0, 40_000));
        lemma_dot_along_axis(layout[3].torque(), r);
        assert(dot(layout[3].torque(), r) == 40_000 * r.2);
        assert(layout[3].serves_rotation(desired_rotation));
    } else {
        assert(layout[4] == fitted((400, 550, 0), (0, 1, 0), SIDE_FORCE));
        lemma_torque_of(layout[4], (400, 550, 0), (0, 1, 0), 100, (0, 0, -40_000));
        lemma_dot_along_axis(layout[4].torque(), r);
        assert(dot(layout[4].torque(), r) == -40_000 * r.2);
        assert(layout[4].serves_rotation(desired_rotation));
    }
}

/// The dot product with a vector that lies along one axis is the product of
/// the components along that axis.
proof fn lemma_dot_along_axis(a: (int, int, int), b: (int, int, int))
    ensures
        a.1 == 0 && a.2 == 0 ==> dot(a, b) == a.0 * b.0,
        a.0 == 0 && a.2 == 0 ==> dot(a, b) == a.1 * b.1,
        a.0 == 0 && a.1 == 0 ==> dot(a, b) == a.2 * b.2,
{
    assert(a.0 == 0 ==> a.0 * b.0 == 0) by (nonlinear_arith);
    assert(a.1 == 0 ==> a.1 * b.1 == 0) by (nonlinear_arith);
    assert(a.2 == 0 ==> a.2 * b.2 == 0) by (nonlinear_arith);
}

/// The torque of a thruster whose mount and force are known by their
/// values.
proof fn lemma_torque_of(
    thruster: Thruster,
    position: (int, int, int),
    direction: (int, int, int),
    force: int,
    torque: (int, int, int),
)
    requires
        thruster.position@ == position,
        thruster.direction@ == direction,
        thruster.force == force,
        torque.0 == force * (direction.1 * position.2 - direction.2 * position.1),
        torque.1 == force * (direction.2 * position.0 - direction.0 * position.2),
        torque.2 == force * (direction.0 * position.1 - direction.1 * position.0),
    ensures
        thruster.torque() == torque,
{
    lemma_torque_is_scaled_lever(thruster, (0int, 0int, 0int));
    let lever = thruster.lever();
    assert(lever.0 * force == force * lever.0) by (nonlinear_arith);
    assert(lever.1 * force == force * lever.1) by (nonlinear_arith);
    assert(lever.2 * force == force * lever.2) by (nonlinear_arith);
}

/// The standard hull can push sideways, up, down and forward: a desired
/// movement with any of these components is served by at least one thruster.
pub proof fn lemma_standard_hull_pushes_all_ways_but_back(desired_movement: BodyVector)
    requires
        desired_movement.x != 0 || desired_movement.y != 0 || desired_movement.z < 0,
    ensures
        exists|i: int|
            0 <= i < standard_layout().len() && #[trigger] standard_layout()[i].serves_movement(
                desired_movement,
            ),
{
    let layout = standard_layout();
    let m = desired_movement@;
    if desired_movement.x > 0 {
        assert(layout[9].direction@ == (-1int, 0int, 0int));
        lemma_dot_along_axis(layout[9].direction@, m);
        assert(dot(layout[9].direction@, m) == -m.0);
        assert(layout[9].serves_movement(desired_movement));
    } else if desired_movement.x < 0 {
        assert(layout[13].direction@ == (1int, 0int, 0int));
        lemma_dot_along_axis(layout[13].direction@, m);
        assert(dot(layout[13].direction@, m) == m.0);
        assert(layout[13].serves_movement(desired_movement));
    } else if desired_movement.y > 0 {
        assert(layout[5].direction@ == (0int, -1int, 0int));
        lemma_dot_along_axis(layout[5].direction@, m);
        assert(dot(layout[5].direction@, m) == -m.1);
        assert(layout[5].serves_movement(desired_movement));
    } else if desired_movement.y < 0 {
        assert(layout[1].direction@ == (0int, 1int, 0int));
        lemma_dot_along_axis(layout[1].direction@, m);
        assert(dot(layout[1].direction@, m) == m.1);
        assert(layout[1].serves_movement(desired_movement));
    } else {
        assert(layout[0].direction@ == (0int, 0int, 1int));
        lemma_dot_along_axis(layout[0].direction@, m);
        assert(dot(layout[0].direction@, m) == m.2);
        assert(layout[0].serves_movement(desired_movement));
    }
}

/// The standard hull has no thruster that pushes it straight back: a desired
/// movement along the stern is served by none of its thrusters.
pub proof fn lemma_standard_hull_cannot_back_up(desired_movement: BodyVector, i: int)
    requires
        desired_movement.x == 0,
        desired_movement.y == 0,
        desired_movement.z > 0,
        0 <= i < standard_layout().len(),
    ensures
        !standard_layout()[i].serves_movement(desired_movement),
{
    let layout = standard_layout();
    assert(layout[0].direction.z == 1);
    assert(layout[1].direction.z == 0);
    assert(layout[2].direction.z == 0);
    assert(layout[3].direction.z == 0);
    assert(layout[4].direction.z == 0);
    assert(layout[5].direction.z == 0);
    assert(layout[6].direction.z == 0);
    assert(layout[7].direction.z == 0);
    assert(layout[8].direction.z == 0);
    assert(layout[9].direction.z == 0);
    assert(layout[10].direction.z == 0);
    assert(layout[11].direction.z == 0);
    assert(layout[12].direction.z == 0);
    assert(layout[13].direction.z == 0);
    assert(layout[14].direction.z == 0);
    assert(layout[15].direction.z == 0);
    assert(layout[16].direction.z == 0);
    let along: int = layout[i].direction.z as int;
    assert(0 <= along <= 1);
    let m = desired_movement@;
    lemma_dot_commutes(layout[i].direction@, m);
    lemma_dot_along_axis(m, layout[i].direction@);
    assert(m.2 * along >= 0) by (nonlinear_arith)
        requires
            0 <= along <= 1,
            m.2 > 0,
    ;
}

} // verus!
