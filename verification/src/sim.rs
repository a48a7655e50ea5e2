//! The per-frame simulation step: input to movement, integration, collision,
//! scoring, and the serve.
//!
//! Each polled frame the host calls [`simulation_step`] once.  The step reads
//! the held-key flags, moves and clamps both paddles, integrates the ball,
//! reflects it off the horizontal walls and off the paddles, and resolves a
//! full exit past either goal line into a score and an immediate re-serve
//! toward the scoring player, so that the ball is back in play when the step
//! returns.  Play begins with a fair coin toss ([`serve_by_coin_toss`]).

use vstd::prelude::*;
use crate::ARENA_BOUND;
use crate::angle::HALF_TURN_UNITS;
use crate::ball::{Ball, BALL_BASE_SPEED, SPEED_LIMIT};
use crate::input::InputState;
use crate::paddle::{Paddle, PADDLE_STEP};

verus! {

/// Fixed speed escalation added on each paddle hit.
pub const BALL_SPEED_INCREMENT: i64 = 1;

/// What one simulation step did about scoring.
#[derive(Clone, Copy, Debug, PartialEq, Eq, Structural)]
pub enum StepOutcome {
    /// The ball stayed inside the arena's horizontal span.
    InPlay,
    /// The ball fully exited past the left goal line: player 2 scored, and
    /// the ball was re-served.
    ScoredLeft,
    /// The ball fully exited past the right goal line: player 1 scored, and
    /// the ball was re-served.
    ScoredRight,
}

/// The per-frame vertical movement a pair of held-key flags asks for:
/// `+PADDLE_STEP` for the up key, `-PADDLE_STEP` for the down key, summed.
pub open spec fn paddle_delta_spec(up: bool, down: bool) -> int {
    (if up { PADDLE_STEP as int } else { 0 }) - (if down { PADDLE_STEP as int } else { 0 })
}

/// What one frame does to one paddle: move by the keys' delta, then clamp to
/// the arena.
pub open spec fn paddle_step_spec(p: Paddle, up: bool, down: bool) -> Paddle {
    p.move_spec(paddle_delta_spec(up, down) as i64).clamp_spec()
}

/// Whether the ball's quad and a paddle's rectangle overlap in both axes.
pub open spec fn overlaps(b: Ball, p: Paddle) -> bool {
    &&& b.center_x - b.half_size <= p.x_right
    &&& p.x_left <= b.center_x + b.half_size
    &&& b.center_y - b.half_size <= p.top_y
    &&& p.bottom_y <= b.center_y + b.half_size
}

/// What a wall collision yields.  A quad past the top bound is reflected
/// (the direction is negated, flipping its vertical component) and placed
/// with its top edge exactly at the bound; a quad past the bottom bound is
/// reflected and placed with its bottom edge exactly at the bound; otherwise
/// the ball is unchanged.
pub open spec fn wall_spec(b: Ball) -> Ball {
    if b.center_y + b.half_size > ARENA_BOUND {
        Ball {
            center_y: (ARENA_BOUND - b.half_size) as i64,
            direction: b.direction.neg_spec(),
            ..b
        }
    } else if b.center_y - b.half_size < -ARENA_BOUND {
        Ball {
            center_y: (-ARENA_BOUND + b.half_size) as i64,
            direction: b.direction.neg_spec(),
            ..b
        }
    } else {
        b
    }
}

/// What a paddle hit yields: the direction mirrored across the vertical axis
/// (its horizontal component flips) and the speed escalated by the fixed
/// increment, saturated at the speed limit.
pub open spec fn paddle_hit_spec(b: Ball) -> Ball {
    Ball {
        direction: b.direction.mirror_spec(),
        speed: (if b.speed + BALL_SPEED_INCREMENT > SPEED_LIMIT {
            SPEED_LIMIT as int
        } else {
            b.speed + BALL_SPEED_INCREMENT
        }) as i64,
        ..b
    }
}

/// What the paddle-collision rule yields: a ball whose leading edge moves
/// toward player 1 is tested against paddle 1, one moving toward player 2
/// against paddle 2; on overlap the hit is applied, else nothing changes.
pub open spec fn paddle_collision_spec(b: Ball, paddle_one: Paddle, paddle_two: Paddle) -> Ball {
    if b.direction.cos_spec() < 0 && overlaps(b, paddle_one) {
        paddle_hit_spec(b)
    } else if b.direction.cos_spec() > 0 && overlaps(b, paddle_two) {
        paddle_hit_spec(b)
    } else {
        b
    }
}

/// Which scoring event a ball position signals: a quad fully past the right
/// goal line scores for player 1, fully past the left goal line for player 2.
pub open spec fn outcome_spec(b: Ball) -> StepOutcome {
    if b.center_x - b.half_size > ARENA_BOUND {
        StepOutcome::ScoredRight
    } else if b.center_x + b.half_size < -ARENA_BOUND {
        StepOutcome::ScoredLeft
    } else {
        StepOutcome::InPlay
    }
}

/// What scoring resolution yields: a scored ball is immediately re-served
/// toward the player who scored, an in-play ball is unchanged.
pub open spec fn resolve_spec(b: Ball) -> Ball {
    if b.center_x - b.half_size > ARENA_BOUND {
        b.serve_spec(true)
    } else if b.center_x + b.half_size < -ARENA_BOUND {
        b.serve_spec(false)
    } else {
        b
    }
}

/// Computes the per-frame vertical movement the held-key flags ask for.
pub fn paddle_delta(up: bool, down: bool) -> (r: i64)
    ensures
        r == paddle_delta_spec(up, down),
        -PADDLE_STEP <= r <= PADDLE_STEP,
{
    let raise: i64 = if up { PADDLE_STEP } else { 0 };
    let lower: i64 = if down { PADDLE_STEP } else { 0 };
    raise - lower
}

/// Reflects the ball off the arena's horizontal walls, if it crossed either,
/// and re-clamps it fully inside the arena on that axis.
pub fn wall_collide(ball: &mut Ball)
    requires
        old(ball).core_wf(),
        -ARENA_BOUND - SPEED_LIMIT <= old(ball).center_y <= ARENA_BOUND + SPEED_LIMIT,
    ensures
        *final(ball) == wall_spec(*old(ball)),
        final(ball).core_wf(),
        final(ball).y_in_arena(),
        final(ball).center_x == old(ball).center_x,
        final(ball).speed == old(ball).speed,
        old(ball).center_y + old(ball).half_size <= ARENA_BOUND
            && old(ball).center_y - old(ball).half_size < -ARENA_BOUND
            ==> final(ball).center_y - final(ball).half_size == -ARENA_BOUND
                && final(ball).direction == old(ball).direction.neg_spec(),
{
    if ball.center_y + ball.half_size > ARENA_BOUND {
        ball.direction = ball.direction.neg();
        ball.center_y = ARENA_BOUND - ball.half_size;
    } else if ball.center_y - ball.half_size < -ARENA_BOUND {
        ball.direction = ball.direction.neg();
        ball.center_y = -ARENA_BOUND + ball.half_size;
    }
}

/// Reflects the ball off the paddle its leading edge overlaps, if any, and
/// escalates its speed by the fixed increment.
pub fn paddle_collide(ball: &mut Ball, paddle_one: &Paddle, paddle_two: &Paddle)
    requires
        old(ball).core_wf(),
        paddle_one.shape_wf(),
        paddle_one.in_arena(),
        paddle_two.shape_wf(),
        paddle_two.in_arena(),
        -ARENA_BOUND - SPEED_LIMIT - old(ball).half_size <= old(ball).center_x,
        old(ball).center_x <= ARENA_BOUND + SPEED_LIMIT + old(ball).half_size,
        -ARENA_BOUND - SPEED_LIMIT <= old(ball).center_y <= ARENA_BOUND + SPEED_LIMIT,
    ensures
        *final(ball) == paddle_collision_spec(*old(ball), *paddle_one, *paddle_two),
        final(ball).core_wf(),
        final(ball).center_x == old(ball).center_x,
        final(ball).center_y == old(ball).center_y,
        final(ball).half_size == old(ball).half_size,
{
    let moving_toward_one = ball.direction.cos_fixed() < 0;
    let moving_toward_two = ball.direction.cos_fixed() > 0;
    let hits_one = moving_toward_one
        && ball.center_x - ball.half_size <= paddle_one.x_right
        && paddle_one.x_left <= ball.center_x + ball.half_size
        && ball.center_y - ball.half_size <= paddle_one.top_y
        && paddle_one.bottom_y <= ball.center_y + ball.half_size;
    let hits_two = moving_toward_two
        && ball.center_x - ball.half_size <= paddle_two.x_right
        && paddle_two.x_left <= ball.center_x + ball.half_size
        && ball.center_y - ball.half_size <= paddle_two.top_y
        && paddle_two.bottom_y <= ball.center_y + ball.half_size;
    if hits_one || hits_two {
        ball.direction = ball.direction.mirror();
        ball.speed = if ball.speed > SPEED_LIMIT - BALL_SPEED_INCREMENT {
            SPEED_LIMIT
        } else {
            ball.speed + BALL_SPEED_INCREMENT
        };
    }
}

/// One per-frame update.  Reads the held-key flags, moves and clamps both
/// paddles, integrates the ball, resolves wall and paddle collisions, and
/// turns a full exit past a goal line into a score with an immediate
/// re-serve toward the scoring player.
pub fn simulation_step(
    input: &InputState,
    paddle_one: &mut Paddle,
    paddle_two: &mut Paddle,
    ball: &mut Ball,
) -> (outcome: StepOutcome)
    requires
        old(paddle_one).shape_wf(),
        old(paddle_one).in_arena(),
        old(paddle_two).shape_wf(),
        old(paddle_two).in_arena(),
        old(ball).wf(),
    ensures
        *final(paddle_one) == paddle_step_spec(*old(paddle_one), input.paddle_one_up, input.paddle_one_down),
        *final(paddle_two) == paddle_step_spec(*old(paddle_two), input.paddle_two_up, input.paddle_two_down),
        final(paddle_one).shape_wf() && final(paddle_one).in_arena(),
        final(paddle_two).shape_wf() && final(paddle_two).in_arena(),
        outcome == outcome_spec(
            paddle_collision_spec(
                wall_spec(old(ball).integrate_spec()),
                *final(paddle_one),
                *final(paddle_two),
            ),
        ),
        *final(ball) == resolve_spec(
            paddle_collision_spec(
                wall_spec(old(ball).integrate_spec()),
                *final(paddle_one),
                *final(paddle_two),
            ),
        ),
        final(ball).wf(),
        outcome == StepOutcome::ScoredRight ==> final(ball).center_x == 0
            && final(ball).center_y == 0
            && final(ball).speed == BALL_BASE_SPEED
            && final(ball).direction.units == HALF_TURN_UNITS,
        outcome == StepOutcome::ScoredLeft ==> final(ball).center_x == 0
            && final(ball).center_y == 0
            && final(ball).speed == BALL_BASE_SPEED
            && final(ball).direction.units == 0,
{
    let delta_one = paddle_delta(input.paddle_one_up, input.paddle_one_down);
    paddle_one.move_by(delta_one);
    paddle_one.clamp_to_arena();

    let delta_two = paddle_delta(input.paddle_two_up, input.paddle_two_down);
    paddle_two.move_by(delta_two);
    paddle_two.clamp_to_arena();

    ball.integrate();
    wall_collide(ball);
    paddle_collide(ball, paddle_one, paddle_two);

    if ball.center_x - ball.half_size > ARENA_BOUND {
        ball.serve(true);
        StepOutcome::ScoredRight
    } else if ball.center_x + ball.half_size < -ARENA_BOUND {
        ball.serve(false);
        StepOutcome::ScoredLeft
    } else {
        StepOutcome::InPlay
    }
}

/// Relies on rand::random: one uniformly sampled bool from the thread-local
/// generator.  Nothing can be promised of the outcome.
#[verifier::external_body]
fn coin_toss() -> bool {
    rand::random::<bool>()
}

/// Starts play (or restarts it) with a fair coin toss: serves toward player
/// 1 on one outcome, toward player 2 on the other, and reports which it was.
/// The serve itself is exact for either outcome.
pub fn serve_by_coin_toss(ball: &mut Ball) -> (toward_player_one: bool)
    requires
        old(ball).core_wf(),
    ensures
        *final(ball) == old(ball).serve_spec(toward_player_one),
        final(ball).wf(),
{
    let toward_player_one = coin_toss();
    ball.serve(toward_player_one);
    toward_player_one
}

/// Law: a ball moving with a negative vertical direction component that
/// crossed the bottom bound (and not the top one) comes out of the wall
/// collision with its bottom edge exactly at the bound and the vertical
/// component of its direction flipped to positive.
pub proof fn lemma_bottom_wall_reflection(b: Ball)
    requires
        b.core_wf(),
        b.direction.sin_spec() < 0,
        b.center_y + b.half_size <= ARENA_BOUND,
        b.center_y - b.half_size < -ARENA_BOUND,
    ensures
        wall_spec(b).center_y - wall_spec(b).half_size == -ARENA_BOUND,
        wall_spec(b).direction == b.direction.neg_spec(),
        wall_spec(b).direction.sin_spec() == -b.direction.sin_spec(),
        wall_spec(b).direction.sin_spec() > 0,
{
    crate::angle::lemma_neg_flips_vertical(b.direction);
}

/// Law: when only the paddle-1-up key is held and paddle 1 has room for a
/// full step below the top bound, one frame moves every edge of paddle 1 up
/// by exactly the step, and leaves paddle 2 unchanged.
pub proof fn lemma_input_to_movement(paddle_one: Paddle, paddle_two: Paddle, input: InputState)
    requires
        paddle_one.shape_wf(),
        paddle_one.in_arena(),
        paddle_one.top_y + PADDLE_STEP <= ARENA_BOUND,
        paddle_two.shape_wf(),
        paddle_two.in_arena(),
        input == (InputState {
            paddle_one_up: true,
            paddle_one_down: false,
            paddle_two_up: false,
            paddle_two_down: false,
        }),
    ensures
        paddle_step_spec(paddle_one, input.paddle_one_up, input.paddle_one_down)
            == paddle_one.move_spec(PADDLE_STEP),
        paddle_step_spec(paddle_one, input.paddle_one_up, input.paddle_one_down).top_y
            == paddle_one.top_y + PADDLE_STEP,
        paddle_step_spec(paddle_one, input.paddle_one_up, input.paddle_one_down).bottom_y
            == paddle_one.bottom_y + PADDLE_STEP,
        paddle_step_spec(paddle_two, input.paddle_two_up, input.paddle_two_down) == paddle_two,
{
}

} // verus!
