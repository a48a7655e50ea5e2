//! The ball: a small square quad with a scalar speed, a wrapped direction,
//! and an acceleration that drifts the speed once per frame.
//!
//! Keeping speed and direction separate from a velocity vector makes
//! reflection off walls and paddles an exact angle operation
//! ([`WrappedAngle::neg`] and [`WrappedAngle::mirror`]) and keeps the two
//! canonical serve directions exact.  [`Ball::integrate`] advances the
//! position by the speed along the direction, with components derived through
//! the fixed-point trigonometry of [`crate::angle`].

use vstd::prelude::*;
use vstd::arithmetic::div_mod::{
    lemma_div_is_ordered,
    lemma_div_multiples_vanish,
    lemma_div_nonincreasing,
    lemma_div_pos_is_pos,
};
use vstd::arithmetic::mul::{lemma_mul_inequality, lemma_mul_nonnegative};
use crate::ARENA_BOUND;
use crate::angle::{HALF_TURN_UNITS, TRIG_ONE, WrappedAngle};

verus! {

/// Half the side length of the ball's square quad.
pub const BALL_HALF_SIZE: i64 = 2;

/// The speed a serve gives the ball.
pub const BALL_BASE_SPEED: i64 = 3;

/// Speeds are saturated at this magnitude so the per-frame displacement
/// arithmetic stays far from the machine integer limits.
pub const SPEED_LIMIT: i64 = 1_000_000;

/// Accelerations are admitted up to this magnitude.
pub const ACCEL_LIMIT: i64 = 1_000_000;

/// One component of a displacement: a non-negative speed scaled by a
/// fixed-point trig value, `speed * trig / TRIG_ONE`, truncated toward zero.
pub open spec fn displacement_spec(speed: int, trig: int) -> int {
    if trig >= 0 {
        (speed * trig) / (TRIG_ONE as int)
    } else {
        -((speed * (-trig)) / (TRIG_ONE as int))
    }
}

/// A displacement component never exceeds the speed in magnitude, and its
/// sign is the sign of the trig value.
pub proof fn lemma_displacement_bounds(speed: int, trig: int)
    requires
        0 <= speed,
        -TRIG_ONE <= trig <= TRIG_ONE,
    ensures
        -speed <= displacement_spec(speed, trig) <= speed,
        trig >= 0 ==> displacement_spec(speed, trig) >= 0,
        trig <= 0 ==> displacement_spec(speed, trig) <= 0,
{
    let one = TRIG_ONE as int;
    if trig >= 0 {
        lemma_mul_nonnegative(speed, trig);
        lemma_div_pos_is_pos(speed * trig, one);
        lemma_mul_inequality(trig, one, speed);
        assert(speed * trig <= one * speed) by (nonlinear_arith)
            requires trig <= one, 0 <= speed;
        lemma_div_is_ordered(speed * trig, one * speed, one);
        lemma_div_multiples_vanish(speed, one);
    } else {
        lemma_mul_nonnegative(speed, -trig);
        lemma_div_pos_is_pos(speed * -trig, one);
        assert(speed * -trig <= one * speed) by (nonlinear_arith)
            requires -trig <= one, 0 <= speed;
        lemma_div_is_ordered(speed * -trig, one * speed, one);
        lemma_div_multiples_vanish(speed, one);
    }
}

/// At the four cardinal directions the displacement is exact: full speed
/// along the axis, nothing across it.
pub proof fn lemma_displacement_cardinal(speed: int)
    requires
        0 <= speed,
    ensures
        displacement_spec(speed, TRIG_ONE as int) == speed,
        displacement_spec(speed, -(TRIG_ONE as int)) == -speed,
        displacement_spec(speed, 0) == 0,
{
    let one = TRIG_ONE as int;
    assert(speed * one == one * speed) by (nonlinear_arith);
    lemma_div_multiples_vanish(speed, one);
    assert(speed * 0 == 0) by (nonlinear_arith);
    vstd::arithmetic::div_mod::lemma_div_of0(one);
}

/// Computes one displacement component in executable code.
pub fn displacement_component(speed: i64, trig: i64) -> (r: i64)
    requires
        0 <= speed <= SPEED_LIMIT,
        -TRIG_ONE <= trig <= TRIG_ONE,
    ensures
        r == displacement_spec(speed as int, trig as int),
        -speed <= r <= speed,
{
    proof {
        lemma_displacement_bounds(speed as int, trig as int);
    }
    let mag: i64 = if trig >= 0 { trig } else { -trig };
    let prod: u64 = (speed as u64) * (mag as u64);
    let quot: u64 = prod / (TRIG_ONE as u64);
    proof {
        lemma_div_nonincreasing(prod as int, TRIG_ONE as int);
        lemma_div_pos_is_pos(prod as int, TRIG_ONE as int);
    }
    let quot_signed: i64 = quot as i64;
    if trig >= 0 {
        quot_signed
    } else {
        -quot_signed
    }
}

/// A small square quad with speed, direction, acceleration, and an
/// acceleration direction.
#[derive(Clone, Copy, Debug, PartialEq, Eq, Structural)]
pub struct Ball {
    /// Horizontal center of the quad.
    pub center_x: i64,
    /// Vertical center of the quad.
    pub center_y: i64,
    /// Half the side length of the quad.
    pub half_size: i64,
    /// Distance covered per frame along `direction`; never negative.
    pub speed: i64,
    /// Direction of travel.
    pub direction: WrappedAngle,
    /// Signed speed drift applied to `speed` once per frame.
    pub acceleration: i64,
    /// Direction associated with the acceleration.
    pub acceleration_direction: WrappedAngle,
}

impl Ball {
    /// Well-formedness of everything but the position: the quad fits the
    /// arena, the speed is a bounded non-negative scalar, the acceleration is
    /// bounded, and both angles are normalized.
    pub open spec fn core_wf(self) -> bool {
        &&& 0 < self.half_size <= ARENA_BOUND
        &&& 0 <= self.speed <= SPEED_LIMIT
        &&& -ACCEL_LIMIT <= self.acceleration <= ACCEL_LIMIT
        &&& self.direction.wf()
        &&& self.acceleration_direction.wf()
    }

    /// Between frames the ball has not fully left the arena's horizontal
    /// span: a full exit is resolved into a score and a re-serve within the
    /// same simulation step.
    pub open spec fn x_in_play(self) -> bool {
        -ARENA_BOUND - self.half_size <= self.center_x <= ARENA_BOUND + self.half_size
    }

    /// The quad lies fully inside the arena's vertical span.
    pub open spec fn y_in_arena(self) -> bool {
        -ARENA_BOUND <= self.center_y - self.half_size
            && self.center_y + self.half_size <= ARENA_BOUND
    }

    /// Full well-formedness between simulation steps.
    pub open spec fn wf(self) -> bool {
        self.core_wf() && self.x_in_play() && self.y_in_arena()
    }

    /// The speed after one frame's drift: `speed + acceleration`, clamped to
    /// be non-negative and saturated at [`SPEED_LIMIT`].
    pub open spec fn next_speed_spec(self) -> int {
        let s = self.speed + self.acceleration;
        if s < 0 {
            0
        } else if s > SPEED_LIMIT {
            SPEED_LIMIT as int
        } else {
            s
        }
    }

    /// What one integration step yields: the drifted speed, and the quad
    /// translated rigidly by that speed along the direction of travel.
    pub open spec fn integrate_spec(self) -> Ball {
        let s = self.next_speed_spec();
        Ball {
            speed: s as i64,
            center_x: (self.center_x + displacement_spec(s, self.direction.cos_spec())) as i64,
            center_y: (self.center_y + displacement_spec(s, self.direction.sin_spec())) as i64,
            ..self
        }
    }

    /// What a serve yields: the quad back at the arena center, the base
    /// speed, and the direction toward the chosen player; everything else is
    /// kept.
    pub open spec fn serve_spec(self, toward_player_one: bool) -> Ball {
        Ball {
            center_x: 0,
            center_y: 0,
            speed: BALL_BASE_SPEED,
            direction: if toward_player_one {
                WrappedAngle { units: HALF_TURN_UNITS }
            } else {
                WrappedAngle { units: 0 }
            },
            ..self
        }
    }

    /// A fresh ball: centered, at rest, pointing toward the player-2 side.
    pub fn new() -> (r: Ball)
        ensures
            r == (Ball {
                center_x: 0,
                center_y: 0,
                half_size: BALL_HALF_SIZE,
                speed: 0,
                direction: (WrappedAngle { units: 0 }),
                acceleration: 0,
                acceleration_direction: (WrappedAngle { units: 0 }),
            }),
            r.wf(),
    {
        Ball {
            center_x: 0,
            center_y: 0,
            half_size: BALL_HALF_SIZE,
            speed: 0,
            direction: WrappedAngle { units: 0 },
            acceleration: 0,
            acceleration_direction: WrappedAngle { units: 0 },
        }
    }

    /// (Re)initializes play: position back at the arena center, the fixed
    /// nonzero base speed, and the direction toward player 1 (a half turn)
    /// when `toward_player_one` holds, toward player 2 (zero) otherwise.
    pub fn serve(&mut self, toward_player_one: bool)
        requires
            old(self).core_wf(),
        ensures
            *final(self) == old(self).serve_spec(toward_player_one),
            final(self).speed == BALL_BASE_SPEED,
            final(self).center_x == 0 && final(self).center_y == 0,
            toward_player_one ==> final(self).direction.units == HALF_TURN_UNITS,
            !toward_player_one ==> final(self).direction.units == 0,
            final(self).wf(),
    {
        self.center_x = 0;
        self.center_y = 0;
        self.speed = BALL_BASE_SPEED;
        self.direction = if toward_player_one {
            WrappedAngle { units: HALF_TURN_UNITS }
        } else {
            WrappedAngle { units: 0 }
        };
    }

    /// Advances the quad rigidly by one frame: drifts the speed by the
    /// acceleration (clamped to non-negative, saturated at the limit), then
    /// moves the center by that speed along the direction.  The result may
    /// transiently leave the arena; the simulation step's collision and
    /// scoring rules restore the bounds.
    pub fn integrate(&mut self)
        requires
            old(self).wf(),
        ensures
            *final(self) == old(self).integrate_spec(),
            final(self).speed == old(self).next_speed_spec(),
            final(self).center_x == old(self).center_x
                + displacement_spec(final(self).speed as int, old(self).direction.cos_spec()),
            final(self).center_y == old(self).center_y
                + displacement_spec(final(self).speed as int, old(self).direction.sin_spec()),
            final(self).direction == old(self).direction,
            final(self).half_size == old(self).half_size,
            final(self).acceleration == old(self).acceleration,
            final(self).acceleration_direction == old(self).acceleration_direction,
            final(self).core_wf(),
            -ARENA_BOUND - old(self).half_size - SPEED_LIMIT <= final(self).center_x
                <= ARENA_BOUND + old(self).half_size + SPEED_LIMIT,
            -ARENA_BOUND + old(self).half_size - SPEED_LIMIT <= final(self).center_y
                <= ARENA_BOUND - old(self).half_size + SPEED_LIMIT,
    {
        let drifted: i64 = self.speed + self.acceleration;
        let next_speed: i64 = if drifted < 0 {
            0
        } else if drifted > SPEED_LIMIT {
            SPEED_LIMIT
        } else {
            drifted
        };
        self.speed = next_speed;
        let dx = displacement_component(next_speed, self.direction.cos_fixed());
        let dy = displacement_component(next_speed, self.direction.sin_fixed());
        self.center_x = self.center_x + dx;
        self.center_y = self.center_y + dy;
    }
}

} // verus!
