//! Discrete mode selectors of a ship and of the camera that follows it.
//!
//! Every selector is a closed cycle that advances by one state per toggle
//! event. Nothing else moves a selector: it starts in its first state and
//! never resets on its own.

use vstd::prelude::*;

verus! {

/// Reference frame of the chase camera, whose orientation is the target that
/// the pilot's aim-assist tracks.
#[derive(Clone, Copy, Debug, PartialEq, Eq, Structural)]
pub enum CameraMode {
    Absolute,
    Relative,
    FirstPerson,
}

impl CameraMode {
    /// The state that follows `self` in the cycle
    /// Absolute, Relative, FirstPerson, Absolute, ...
    pub open spec fn successor(self) -> CameraMode {
        match self {
            CameraMode::Absolute => CameraMode::Relative,
            CameraMode::Relative => CameraMode::FirstPerson,
            CameraMode::FirstPerson => CameraMode::Absolute,
        }
    }

    /// The state reached from `self` by `toggles` toggle events.
    pub open spec fn after(self, toggles: nat) -> CameraMode
        decreases toggles,
    {
        if toggles == 0 {
            self
        } else {
            self.after((toggles - 1) as nat).successor()
        }
    }

    /// Advances the selector by one toggle event.
    pub fn next(&self) -> (r: CameraMode)
        ensures
            r == self.successor(),
    {
        match self {
            CameraMode::Absolute => CameraMode::Relative,
            CameraMode::Relative => CameraMode::FirstPerson,
            CameraMode::FirstPerson => CameraMode::Absolute,
        }
    }
}

/// Which feedback law, if any, writes the desired rotation of a ship.
#[derive(Clone, Copy, Debug, PartialEq, Eq, Structural)]
pub enum RotationStabilization {
    Off,
    AimAssist,
    FullDamping,
}

impl RotationStabilization {
    /// The state that follows `self` in the cycle
    /// Off, AimAssist, FullDamping, Off, ...
    pub open spec fn successor(self) -> RotationStabilization {
        match self {
            RotationStabilization::Off => RotationStabilization::AimAssist,
            RotationStabilization::AimAssist => RotationStabilization::FullDamping,
            RotationStabilization::FullDamping => RotationStabilization::Off,
        }
    }

    /// The state reached from `self` by `toggles` toggle events.
    pub open spec fn after(self, toggles: nat) -> RotationStabilization
        decreases toggles,
    {
        if toggles == 0 {
            self
        } else {
            self.after((toggles - 1) as nat).successor()
        }
    }

    /// Advances the selector by one toggle event.
    pub fn next(&self) -> (r: RotationStabilization)
        ensures
            r == self.successor(),
    {
        match self {
            RotationStabilization::Off => RotationStabilization::AimAssist,
            RotationStabilization::AimAssist => RotationStabilization::FullDamping,
            RotationStabilization::FullDamping => RotationStabilization::Off,
        }
    }
}

/// Whether the velocity damping law writes the desired movement of a ship.
#[derive(Clone, Copy, Debug, PartialEq, Eq, Structural)]
pub enum MovementStabilization {
    Off,
    FullDamping,
}

impl MovementStabilization {
    /// The other state: the selector alternates between its two states.
    pub open spec fn successor(self) -> MovementStabilization {
        match self {
            MovementStabilization::Off => MovementStabilization::FullDamping,
            MovementStabilization::FullDamping => MovementStabilization::Off,
        }
    }

    /// The state reached from `self` by `toggles` toggle events.
    pub open spec fn after(self, toggles: nat) -> MovementStabilization
        decreases toggles,
    {
        if toggles == 0 {
            self
        } else {
            self.after((toggles - 1) as nat).successor()
        }
    }

    /// Advances the selector by one toggle event.
    pub fn next(&self) -> (r: MovementStabilization)
        ensures
            r == self.successor(),
    {
        match self {
            MovementStabilization::Off => MovementStabilization::FullDamping,
            MovementStabilization::FullDamping => MovementStabilization::Off,
        }
    }
}

/// The two stabilization selectors of one ship.
#[derive(Clone, Copy, Debug, PartialEq, Eq, Structural)]
pub struct SpaceShipSettings {
    pub rotation_stabilization: RotationStabilization,
    pub movement_stabilization: MovementStabilization,
}

impl Default for SpaceShipSettings {
    /// A new ship flies with both stabilization laws switched off.
    fn default() -> (r: SpaceShipSettings)
        ensures
            r.rotation_stabilization == RotationStabilization::Off,
            r.movement_stabilization == MovementStabilization::Off,
    {
        SpaceShipSettings {
            rotation_stabilization: RotationStabilization::Off,
            movement_stabilization: MovementStabilization::Off,
        }
    }
}

/// The camera selector of the entity that follows a ship.
#[derive(Clone, Copy, Debug, PartialEq, Eq, Structural)]
pub struct SpaceShipCameraTarget {
    pub mode: CameraMode,
}

impl Default for SpaceShipCameraTarget {
    /// A new camera target starts in the absolute frame.
    fn default() -> (r: SpaceShipCameraTarget)
        ensures
            r.mode == CameraMode::Absolute,
    {
        SpaceShipCameraTarget { mode: CameraMode::Absolute }
    }
}

/// The camera selector visits Absolute, Relative and FirstPerson in that
/// order: each toggle moves it to a state different from the one it left,
/// two toggles never bring it back, and the third one does.
pub proof fn lemma_camera_mode_cycle(mode: CameraMode)
    ensures
        CameraMode::Absolute.successor() == CameraMode::Relative,
        CameraMode::Relative.successor() == CameraMode::FirstPerson,
        CameraMode::FirstPerson.successor() == CameraMode::Absolute,
        mode.after(1) != mode,
        mode.after(2) != mode,
        mode.after(2) != mode.after(1),
        mode.after(3) == mode,
{
    reveal_with_fuel(CameraMode::after, 4);
}

/// Toggling the camera selector has period three: the state after any number
/// of toggles is the state after that number reduced modulo three.
pub proof fn lemma_camera_mode_period(mode: CameraMode, toggles: nat)
    ensures
        mode.after(toggles) == mode.after(toggles % 3),
    decreases toggles,
{
    reveal_with_fuel(CameraMode::after, 4);
    if toggles >= 3 {
        lemma_camera_mode_shift(mode, (toggles - 3) as nat);
        lemma_camera_mode_period(mode, (toggles - 3) as nat);
    }
}

/// Three more toggles leave the camera selector where it was.
proof fn lemma_camera_mode_shift(mode: CameraMode, toggles: nat)
    ensures
        mode.after(toggles + 3) == mode.after(toggles),
{
    reveal_with_fuel(CameraMode::after, 4);
    let reached = mode.after(toggles);
    assert(mode.after(toggles + 3) == reached.successor().successor().successor());
}

/// The rotation selector visits Off, AimAssist and FullDamping in that order
/// and is back where it started after exactly three toggles.
pub proof fn lemma_rotation_stabilization_cycle(mode: RotationStabilization)
    ensures
        RotationStabilization::Off.successor() == RotationStabilization::AimAssist,
        RotationStabilization::AimAssist.successor() == RotationStabilization::FullDamping,
        RotationStabilization::FullDamping.successor() == RotationStabilization::Off,
        mode.after(1) != mode,
        mode.after(2) != mode,
        mode.after(2) != mode.after(1),
        mode.after(3) == mode,
{
    reveal_with_fuel(RotationStabilization::after, 4);
}

/// The movement selector alternates: one toggle changes it, two restore it.
pub proof fn lemma_movement_stabilization_cycle(mode: MovementStabilization)
    ensures
        MovementStabilization::Off.successor() == MovementStabilization::FullDamping,
        MovementStabilization::FullDamping.successor() == MovementStabilization::Off,
        mode.after(1) != mode,
        mode.after(2) == mode,
{
    reveal_with_fuel(MovementStabilization::after, 3);
}

} // verus!
