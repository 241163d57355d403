//! Selection of the thrusters that fire in one tick.
//!
//! A thruster is a fixed, unidirectional force emitter: it expels mass along
//! its exhaust direction and pushes the ship the opposite way, and through
//! its mount offset it also turns the ship. It can therefore serve a desired
//! movement that opposes its exhaust, and a desired rotation that its torque
//! is aligned with. A thruster that serves either one fires, and a firing
//! thruster adds to both the linear and the angular acceleration of the tick.

use vstd::prelude::*;
use crate::vector::{
    cross,
    dot,
    lemma_cross_of_stretched,
    lemma_dot_commutes,
    lemma_dot_of_stretched,
    lemma_dot_self_positive,
    lemma_opposite_flips_sign,
    lemma_stretched_keeps_sign,
    opposite,
    product,
    scale,
    BodyVector,
};

verus! {

/// One thruster of a ship's fixed layout, in the body frame.
#[derive(Clone, Copy, Debug, PartialEq, Eq, Structural)]
pub struct Thruster {
    /// Mount offset from the centre of the body.
    pub position: BodyVector,
    /// Direction in which the thruster expels mass.
    pub direction: BodyVector,
    /// Magnitude of the force that it exerts while it fires.
    pub force: u32,
}

impl Thruster {
    /// Force on the ship while the thruster fires: it pushes against its
    /// own exhaust.
    pub open spec fn thrust(self) -> (int, int, int) {
        scale(self.direction@, -(self.force as int))
    }

    /// Torque on the ship while the thruster fires: the mount offset crossed
    /// with the force.
    pub open spec fn torque(self) -> (int, int, int) {
        cross(self.position@, self.thrust())
    }

    /// The thruster can push the ship along the desired movement: there is
    /// such a movement and the exhaust points against it.
    pub open spec fn serves_movement(self, desired_movement: BodyVector) -> bool {
        !desired_movement.is_zero() && dot(self.direction@, desired_movement@) < 0
    }

    /// The thruster can spin the ship along the desired rotation: there is
    /// such a rotation and the torque points along it.
    pub open spec fn serves_rotation(self, desired_rotation: BodyVector) -> bool {
        !desired_rotation.is_zero() && dot(self.torque(), desired_rotation@) > 0
    }

    /// The thruster fires when it serves the movement or the rotation.
    pub open spec fn fires(self, desired_movement: BodyVector, desired_rotation: BodyVector) -> bool {
        self.serves_movement(desired_movement) || self.serves_rotation(desired_rotation)
    }

    /// Torque per unit of force, which is the exhaust direction crossed with
    /// the mount offset.
    pub open spec fn lever(self) -> (int, int, int) {
        cross(self.direction@, self.position@)
    }

    /// Decides whether the thruster serves the desired movement.
    pub fn is_serving_movement(&self, desired_movement: &BodyVector) -> (serving: bool)
        ensures
            serving == self.serves_movement(*desired_movement),
    {
        !desired_movement.is_zero() && self.direction.dot(desired_movement) < 0
    }

    /// Decides whether the thruster serves the desired rotation.
    pub fn is_serving_rotation(&self, desired_rotation: &BodyVector) -> (serving: bool)
        ensures
            serving == self.serves_rotation(*desired_rotation),
    {
        let direction = &self.direction;
        let position = &self.position;
        let lever_x: i128 = product(direction.y, position.z) - product(direction.z, position.y);
        let lever_y: i128 = product(direction.z, position.x) - product(direction.x, position.z);
        let lever_z: i128 = product(direction.x, position.y) - product(direction.y, position.x);
        let along_x: i128 = stretch(lever_x, desired_rotation.x);
        let along_y: i128 = stretch(lever_y, desired_rotation.y);
        let along_z: i128 = stretch(lever_z, desired_rotation.z);
        let alignment: i128 = along_x + along_y + along_z;
        proof {
            assert(alignment == dot(self.lever(), desired_rotation@));
            lemma_torque_is_scaled_lever(*self, desired_rotation@);
            lemma_sign_of_scaled(self.force as int, alignment as int);
        }
        !desired_rotation.is_zero() && self.force > 0 && alignment > 0
    }

    /// Decides whether the thruster fires under the given control intent.
    pub fn is_firing(&self, desired_movement: &BodyVector, desired_rotation: &BodyVector) -> (firing:
        bool)
        ensures
            firing == self.fires(*desired_movement, *desired_rotation),
    {
        self.is_serving_movement(desired_movement) || self.is_serving_rotation(desired_rotation)
    }
}

/// Product of a lever component and a component of the desired rotation.
fn stretch(lever: i128, component: i32) -> (r: i128)
    requires
        -0x8000_0000_0000_0000 <= lever <= 0x8000_0000_0000_0000,
    ensures
        r == lever * component,
        -0x4000_0000_0000_0000_0000_0000 <= r <= 0x4000_0000_0000_0000_0000_0000,
{
    assert(-0x4000_0000_0000_0000_0000_0000 <= lever * component
        <= 0x4000_0000_0000_0000_0000_0000) by (nonlinear_arith)
        requires
            -0x8000_0000_0000_0000 <= lever <= 0x8000_0000_0000_0000,
            -0x8000_0000 <= component <= 0x7fff_ffff,
    ;
    let wide: i128 = component as i128;
    lever * wide
}

/// One component of a torque: a cross-product component taken with the
/// force pulled out as a factor.
proof fn lemma_torque_component(f: int, p_a: int, p_b: int, d_a: int, d_b: int)
    by (nonlinear_arith)
    ensures
        p_a * (d_b * -f) - p_b * (d_a * -f) == f * (d_a * p_b - d_b * p_a),
{
}

/// The torque of a thruster is its lever stretched by its force, so their
/// projections on any axis differ by that factor.
pub proof fn lemma_torque_is_scaled_lever(thruster: Thruster, axis: (int, int, int))
    ensures
        thruster.torque() == scale(thruster.lever(), thruster.force as int),
        dot(thruster.torque(), axis) == thruster.force * dot(thruster.lever(), axis),
{
    let p = thruster.position@;
    let d = thruster.direction@;
    let f: int = thruster.force as int;
    let l = thruster.lever();
    lemma_torque_component(f, p.1, p.2, d.1, d.2);
    lemma_torque_component(f, p.2, p.0, d.2, d.0);
    lemma_torque_component(f, p.0, p.1, d.0, d.1);
    assert(l.0 * f == f * l.0 && l.1 * f == f * l.1 && l.2 * f == f * l.2) by (nonlinear_arith);
    lemma_dot_commutes(thruster.torque(), axis);
    lemma_dot_of_stretched(axis, l, f);
    lemma_dot_commutes(axis, l);
}

/// A product with a factor that is not negative is positive exactly when
/// both factors are.
proof fn lemma_sign_of_scaled(factor: int, value: int)
    requires
        factor >= 0,
    ensures
        factor * value > 0 <==> factor > 0 && value > 0,
{
    assert(factor * value > 0 <==> factor > 0 && value > 0) by (nonlinear_arith)
        requires
            factor >= 0,
    ;
}

/// Goes once through the thrusters of a ship and decides for each whether it
/// fires this tick. The answer for thruster `i` is element `i` of the result;
/// it depends on nothing but the two desired vectors and that thruster's own
/// mount, so nothing carries over from an earlier tick.
pub fn apply_thrusters(
    desired_movement: &BodyVector,
    desired_rotation: &BodyVector,
    thrusters: &Vec<Thruster>,
) -> (firing: Vec<bool>)
    ensures
        firing@.len() == thrusters@.len(),
        forall|i: int|
            0 <= i < thrusters@.len() ==> firing@[i] == thrusters@[i].fires(
                *desired_movement,
                *desired_rotation,
            ),
{
    let mut firing: Vec<bool> = Vec::new();
    let mut index: usize = 0;
    while index < thrusters.len()
        invariant
            index <= thrusters@.len(),
            firing@.len() == index,
            forall|i: int|
                0 <= i < index ==> firing@[i] == thrusters@[i].fires(
                    *desired_movement,
                    *desired_rotation,
                ),
        decreases thrusters@.len() - index,
    {
        let decision: bool = thrusters[index].is_firing(desired_movement, desired_rotation);
        firing.push(decision);
        index = index + 1;
    }
    firing
}

/// A thruster whose exhaust points exactly against the desired movement
/// fires, wherever it is mounted and whatever the desired rotation is.
pub proof fn lemma_opposing_thruster_fires(
    thruster: Thruster,
    desired_movement: BodyVector,
    desired_rotation: BodyVector,
)
    requires
        !desired_movement.is_zero(),
        opposite(thruster.direction@, desired_movement@),
    ensures
        thruster.serves_movement(desired_movement),
        thruster.fires(desired_movement, desired_rotation),
{
    let d = thruster.direction@;
    let m = desired_movement@;
    lemma_dot_self_positive(m);
    lemma_opposite_flips_sign(d, m, m);
    lemma_dot_commutes(d, m);
}

/// A thruster whose exhaust does not oppose the desired movement is never
/// selected for it. It stays silent unless the desired rotation selects it.
pub proof fn lemma_aligned_thruster_serves_no_movement(
    thruster: Thruster,
    desired_movement: BodyVector,
    desired_rotation: BodyVector,
)
    requires
        dot(thruster.direction@, desired_movement@) >= 0,
    ensures
        !thruster.serves_movement(desired_movement),
        !thruster.serves_rotation(desired_rotation) ==> !thruster.fires(
            desired_movement,
            desired_rotation,
        ),
{
}

/// Without control intent no thruster fires, wherever it is mounted.
pub proof fn lemma_no_intent_no_thrust(
    thruster: Thruster,
    desired_movement: BodyVector,
    desired_rotation: BodyVector,
)
    requires
        desired_movement.is_zero(),
        desired_rotation.is_zero(),
    ensures
        !thruster.fires(desired_movement, desired_rotation),
{
}

/// Only the direction of the control intent counts: stretching a desired
/// vector by a positive factor changes no decision.
pub proof fn lemma_firing_ignores_scale_of_intent(
    thruster: Thruster,
    desired_movement: BodyVector,
    desired_rotation: BodyVector,
    stretched_movement: BodyVector,
    stretched_rotation: BodyVector,
    k: int,
    j: int,
)
    requires
        k > 0,
        j > 0,
        stretched_movement@ == scale(desired_movement@, k),
        stretched_rotation@ == scale(desired_rotation@, j),
    ensures
        thruster.serves_movement(stretched_movement) == thruster.serves_movement(desired_movement),
        thruster.serves_rotation(stretched_rotation) == thruster.serves_rotation(desired_rotation),
        thruster.fires(stretched_movement, stretched_rotation) == thruster.fires(
            desired_movement,
            desired_rotation,
        ),
{
    lemma_stretched_keeps_sign(thruster.direction@, desired_movement@, k);
    lemma_stretched_keeps_sign(thruster.torque(), desired_rotation@, j);
}

/// Only the directions of the mount count, and whether there is any force:
/// stretching the mount offset or the exhaust direction of a thruster by a
/// positive factor, or changing its force to another positive force, changes
/// no decision.
pub proof fn lemma_firing_ignores_scale_of_mount(
    thruster: Thruster,
    stretched: Thruster,
    desired_movement: BodyVector,
    desired_rotation: BodyVector,
    k: int,
    j: int,
)
    requires
        k > 0,
        j > 0,
        stretched.position@ == scale(thruster.position@, k),
        stretched.direction@ == scale(thruster.direction@, j),
        stretched.force > 0 <==> thruster.force > 0,
    ensures
        stretched.serves_movement(desired_movement) == thruster.serves_movement(desired_movement),
        stretched.serves_rotation(desired_rotation) == thruster.serves_rotation(desired_rotation),
        stretched.fires(desired_movement, desired_rotation) == thruster.fires(
            desired_movement,
            desired_rotation,
        ),
{
    let m = desired_movement@;
    let r = desired_rotation@;
    lemma_dot_commutes(thruster.direction@, m);
    lemma_dot_commutes(stretched.direction@, m);
    lemma_stretched_keeps_sign(m, thruster.direction@, j);

    lemma_torque_is_scaled_lever(thruster, r);
    lemma_torque_is_scaled_lever(stretched, r);
    lemma_cross_of_stretched(thruster.direction@, thruster.position@, j, k);
    assert(j * k > 0) by (nonlinear_arith)
        requires
            j > 0,
            k > 0,
    ;
    lemma_stretched_keeps_sign(r, thruster.lever(), j * k);
    lemma_dot_commutes(thruster.lever(), r);
    lemma_dot_commutes(stretched.lever(), r);
    lemma_sign_of_scaled(thruster.force as int, dot(thruster.lever(), r));
    lemma_sign_of_scaled(stretched.force as int, dot(stretched.lever(), r));
}

/// A thruster that is selected for the desired movement pushes the ship
/// along it: its thrust never points against the movement it serves.
pub proof fn lemma_selected_thrust_follows_movement(thruster: Thruster, desired_movement: BodyVector)
    requires
        thruster.serves_movement(desired_movement),
    ensures
        dot(thruster.thrust(), desired_movement@) >= 0,
        thruster.force > 0 ==> dot(thruster.thrust(), desired_movement@) > 0,
{
    let d = thruster.direction@;
    let m = desired_movement@;
    let force: int = thruster.force as int;
    lemma_dot_of_stretched(m, d, -force);
    lemma_dot_commutes(m, d);
    lemma_dot_commutes(thruster.thrust(), m);
    let projection: int = dot(d, m);
    assert(-force * projection >= 0 && (force > 0 ==> -force * projection > 0)) by (nonlinear_arith)
        requires
            force >= 0,
            projection < 0,
    ;
}

/// A thruster that is mounted on the line through the centre along its own
/// exhaust has no torque and is never selected for a rotation.
pub proof fn lemma_axial_thruster_turns_nothing(thruster: Thruster, desired_rotation: BodyVector)
    requires
        cross(thruster.direction@, thruster.position@) == (0int, 0int, 0int),
    ensures
        thruster.torque() == (0int, 0int, 0int),
        !thruster.serves_rotation(desired_rotation),
{
    lemma_torque_is_scaled_lever(thruster, desired_rotation@);
}

} // verus!
