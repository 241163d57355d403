//! Translation of the pilot's discrete control actions into raw control
//! intent and mode-toggle events.
//!
//! Raw intent is expressed in the ship's body frame, whose forward direction
//! is the negative z axis. Each held action contributes one unit along its
//! axis, so opposite actions held together cancel and every component of a
//! raw intent is -1, 0 or 1.

use vstd::prelude::*;
use crate::vector::BodyVector;
use crate::modes::{
    MovementStabilization,
    RotationStabilization,
    SpaceShipCameraTarget,
    SpaceShipSettings,
};

verus! {

/// The state of the pilot's control actions during one tick. The twelve
/// motion actions are level-triggered (true while held); the three switches
/// are edge-triggered (true only on the tick in which they were pressed).
#[derive(Clone, Copy, Debug, PartialEq, Eq, Structural)]
pub struct Controls {
    pub move_forward: bool,
    pub move_back: bool,
    pub move_up: bool,
    pub move_down: bool,
    pub move_left: bool,
    pub move_right: bool,
    pub pitch_up: bool,
    pub pitch_down: bool,
    pub yaw_left: bool,
    pub yaw_right: bool,
    pub roll_left: bool,
    pub roll_right: bool,
    pub switch_camera_mode: bool,
    pub switch_rotation_stabilization_mode: bool,
    pub switch_movement_stabilization_mode: bool,
}

/// Net demand along one axis from the action that pushes towards its
/// positive end and the action that pushes towards its negative end.
pub open spec fn axis_demand(positive: bool, negative: bool) -> i32 {
    if positive && !negative {
        1i32
    } else if negative && !positive {
        -1i32
    } else {
        0i32
    }
}

impl Controls {
    /// The translation that the held actions ask for: right is +x, up is +y,
    /// back is +z.
    pub open spec fn raw_movement(self) -> BodyVector {
        BodyVector {
            x: axis_demand(self.move_right, self.move_left),
            y: axis_demand(self.move_up, self.move_down),
            z: axis_demand(self.move_back, self.move_forward),
        }
    }

    /// The spin that the held actions ask for, as the axis of the desired
    /// angular velocity: pitch up is +x, yaw left is +y, roll left is +z.
    pub open spec fn raw_rotation(self) -> BodyVector {
        BodyVector {
            x: axis_demand(self.pitch_up, self.pitch_down),
            y: axis_demand(self.yaw_left, self.yaw_right),
            z: axis_demand(self.roll_left, self.roll_right),
        }
    }

    /// No action held and no switch pressed.
    pub open spec fn is_released(self) -> bool {
        &&& !self.move_forward && !self.move_back
        &&& !self.move_up && !self.move_down
        &&& !self.move_left && !self.move_right
        &&& !self.pitch_up && !self.pitch_down
        &&& !self.yaw_left && !self.yaw_right
        &&& !self.roll_left && !self.roll_right
        &&& !self.switch_camera_mode
        &&& !self.switch_rotation_stabilization_mode
        &&& !self.switch_movement_stabilization_mode
    }

    /// The controls of a tick in which the pilot touches nothing.
    pub fn released() -> (r: Controls)
        ensures
            r.is_released(),
    {
        Controls {
            move_forward: false,
            move_back: false,
            move_up: false,
            move_down: false,
            move_left: false,
            move_right: false,
            pitch_up: false,
            pitch_down: false,
            yaw_left: false,
            yaw_right: false,
            roll_left: false,
            roll_right: false,
            switch_camera_mode: false,
            switch_rotation_stabilization_mode: false,
            switch_movement_stabilization_mode: false,
        }
    }

    /// Sums the held translation actions into the raw desired movement.
    pub fn desired_movement(&self) -> (r: BodyVector)
        ensures
            r == self.raw_movement(),
            r.is_unit_box(),
    {
        BodyVector {
            x: demand(self.move_right, self.move_left),
            y: demand(self.move_up, self.move_down),
            z: demand(self.move_back, self.move_forward),
        }
    }

    /// Sums the held rotation actions into the raw desired rotation.
    pub fn desired_rotation(&self) -> (r: BodyVector)
        ensures
            r == self.raw_rotation(),
            r.is_unit_box(),
    {
        BodyVector {
            x: demand(self.pitch_up, self.pitch_down),
            y: demand(self.yaw_left, self.yaw_right),
            z: demand(self.roll_left, self.roll_right),
        }
    }
}

fn demand(positive: bool, negative: bool) -> (r: i32)
    ensures
        r == axis_demand(positive, negative),
{
    let mut total: i32 = 0;
    if positive {
        total = total + 1;
    }
    if negative {
        total = total - 1;
    }
    total
}

/// What raw input writes in one tick. An axis group holds `None` when its
/// stabilization law is switched on: the law is then the only writer of that
/// desired vector and raw input leaves it alone.
#[derive(Clone, Copy, Debug, PartialEq, Eq)]
pub struct RawIntent {
    pub movement: Option<BodyVector>,
    pub rotation: Option<BodyVector>,
}

/// The raw intent that `controls` writes under `settings`.
pub open spec fn raw_intent(controls: Controls, settings: SpaceShipSettings) -> RawIntent {
    RawIntent {
        movement: if settings.movement_stabilization == MovementStabilization::Off {
            Some(controls.raw_movement())
        } else {
            None
        },
        rotation: if settings.rotation_stabilization == RotationStabilization::Off {
            Some(controls.raw_rotation())
        } else {
            None
        },
    }
}

/// The camera target after the switches of `controls` have been applied.
pub open spec fn switched_camera(
    controls: Controls,
    camera: SpaceShipCameraTarget,
) -> SpaceShipCameraTarget {
    SpaceShipCameraTarget {
        mode: if controls.switch_camera_mode {
            camera.mode.successor()
        } else {
            camera.mode
        },
    }
}

/// The settings after the switches of `controls` have been applied.
pub open spec fn switched_settings(
    controls: Controls,
    settings: SpaceShipSettings,
) -> SpaceShipSettings {
    SpaceShipSettings {
        rotation_stabilization: if controls.switch_rotation_stabilization_mode {
            settings.rotation_stabilization.successor()
        } else {
            settings.rotation_stabilization
        },
        movement_stabilization: if controls.switch_movement_stabilization_mode {
            settings.movement_stabilization.successor()
        } else {
            settings.movement_stabilization
        },
    }
}

/// Resolves one tick of pilot input for the player's ship.
///
/// The raw intent is gated by the settings as they stand when the tick
/// begins; only then do the switches advance the camera selector and the two
/// stabilization selectors, each by one state per press.
pub fn control_ship(
    controls: &Controls,
    camera: &mut SpaceShipCameraTarget,
    settings: &mut SpaceShipSettings,
) -> (intent: RawIntent)
    ensures
        intent == raw_intent(*controls, *old(settings)),
        *final(camera) == switched_camera(*controls, *old(camera)),
        *final(settings) == switched_settings(*controls, *old(settings)),
{
    let movement = match settings.movement_stabilization {
        MovementStabilization::Off => Some(controls.desired_movement()),
        MovementStabilization::FullDamping => None,
    };
    let rotation = match settings.rotation_stabilization {
        RotationStabilization::Off => Some(controls.desired_rotation()),
        RotationStabilization::AimAssist => None,
        RotationStabilization::FullDamping => None,
    };
    if controls.switch_camera_mode {
        camera.mode = camera.mode.next();
    }
    if controls.switch_rotation_stabilization_mode {
        settings.rotation_stabilization = settings.rotation_stabilization.next();
    }
    if controls.switch_movement_stabilization_mode {
        settings.movement_stabilization = settings.movement_stabilization.next();
    }
    RawIntent { movement, rotation }
}

/// Opposite actions held together cancel, whatever else is held: the raw
/// intent has no component along their axis.
pub proof fn lemma_opposite_actions_cancel(controls: Controls)
    ensures
        controls.move_forward && controls.move_back ==> controls.raw_movement().z == 0,
        controls.move_up && controls.move_down ==> controls.raw_movement().y == 0,
        controls.move_left && controls.move_right ==> controls.raw_movement().x == 0,
        controls.pitch_up && controls.pitch_down ==> controls.raw_rotation().x == 0,
        controls.yaw_left && controls.yaw_right ==> controls.raw_rotation().y == 0,
        controls.roll_left && controls.roll_right ==> controls.raw_rotation().z == 0,
{
}

} // verus!
