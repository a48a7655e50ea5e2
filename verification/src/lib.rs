//! Simulation core of a two-paddle, single-ball arcade game.
//!
//! The library owns the authoritative positions, velocities, and boundary
//! rules for the paddles and the ball, and the per-frame update that advances
//! that state from raw input to the next frame's geometry.  All geometry lives
//! in fixed-point units: [`SCALE`] units stand for one normalized coordinate,
//! so the arena spans `[-ARENA_BOUND, ARENA_BOUND]` on both axes.  Directions
//! are whole angle units wrapped modulo one turn ([`angle::WrappedAngle`]).
//!
//! A host render loop feeds key transitions into an [`input::InputState`],
//! calls [`sim::simulation_step`] once per polled frame, and reads the
//! resulting quad geometry back out through [`frame::frame_vertices`].

use vstd::prelude::*;

pub mod angle;
pub mod ball;
pub mod frame;
pub mod input;
pub mod paddle;
pub mod sim;

verus! {

/// Fixed-point scale: this many units stand for one normalized coordinate.
pub const SCALE: i64 = 100;

/// The arena spans `[-ARENA_BOUND, ARENA_BOUND]` on both axes.
pub const ARENA_BOUND: i64 = 100;

} // verus!
