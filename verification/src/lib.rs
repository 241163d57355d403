//! Decision core of a six-degree-of-freedom spacecraft simulation.
//!
//! The core takes every decision of a simulation tick in exact integer
//! arithmetic: what raw input writes into the control intent, which mode
//! selector advances, what a stabilization law commands, and which thrusters
//! fire. Quantities that need roots or trigonometric functions reach it as
//! fixed-point readings, and the forces, accelerations and poses that follow
//! from its decisions are computed by its caller.
//!
//! - [`modes`]: the camera selector and the two stabilization selectors.
//! - [`controls`]: raw control intent and mode switches from the pilot's
//!   actions.
//! - [`vector`]: fixed-point vectors in the body frame.
//! - [`thrusters`]: the thruster layout and the choice of thrusters that fire.
//! - [`hull`]: the thruster layout of the standard hull.
//! - [`stabilization`]: rotation damping, aim-assist and velocity damping.
//! - [`closed_loop`]: what the laws achieve over many ticks.

pub mod closed_loop;
pub mod controls;
pub mod hull;
pub mod modes;
pub mod stabilization;
pub mod thrusters;
pub mod vector;
