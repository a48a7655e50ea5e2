use pong_core::angle::{WrappedAngle, HALF_TURN_UNITS, TURN_UNITS};
use pong_core::ball::{Ball, BALL_BASE_SPEED, BALL_HALF_SIZE};
use pong_core::frame::{frame_indices, frame_vertices};
use pong_core::input::{InputKey, InputState};
use pong_core::paddle::{Paddle, PADDLE_HALF_HEIGHT, PADDLE_STEP};
use pong_core::sim::{
    paddle_collide, serve_by_coin_toss, simulation_step, wall_collide, StepOutcome,
};
use pong_core::ARENA_BOUND;

#[test]
fn clamp_is_idempotent_after_large_move() {
    let mut once = Paddle::new_left();
    once.move_by(200);
    once.clamp_to_arena();

    let mut twice = Paddle::new_left();
    twice.move_by(200);
    twice.clamp_to_arena();
    twice.clamp_to_arena();

    assert_eq!(once, twice);
    assert_eq!(once.top_y, ARENA_BOUND);
}

#[test]
fn clamp_brings_top_exactly_to_bound_and_keeps_height() {
    let mut p = Paddle::new_left();
    let height = p.top_y - p.bottom_y;
    p.move_by(ARENA_BOUND - PADDLE_HALF_HEIGHT + 1);
    assert_eq!(p.top_y, ARENA_BOUND + 1);
    p.clamp_to_arena();
    assert_eq!(p.top_y, ARENA_BOUND);
    assert_eq!(p.top_y - p.bottom_y, height);
}

#[test]
fn clamp_brings_bottom_exactly_to_bound() {
    let mut p = Paddle::new_right();
    p.move_by(-(ARENA_BOUND - PADDLE_HALF_HEIGHT) - 7);
    assert_eq!(p.bottom_y, -ARENA_BOUND - 7);
    p.clamp_to_arena();
    assert_eq!(p.bottom_y, -ARENA_BOUND);
    assert_eq!(p.top_y, -ARENA_BOUND + 2 * PADDLE_HALF_HEIGHT);
}

#[test]
fn clamp_leaves_an_inside_paddle_unchanged() {
    let mut p = Paddle::new_left();
    p.move_by(PADDLE_STEP);
    let before = p;
    p.clamp_to_arena();
    assert_eq!(p, before);
}

#[test]
fn angle_addition_stays_normalized() {
    let a = WrappedAngle { units: 350 };
    let b = WrappedAngle { units: 20 };
    let sum = a.add(b);
    assert_eq!(sum.units, 10);
    assert!(sum.units < TURN_UNITS);

    let c = a.add(WrappedAngle { units: 180 });
    assert_eq!(c.units, 170);
}

#[test]
fn adding_one_full_turn_changes_nothing() {
    for units in [0u32, 1, 90, 179, 180, 270, 359] {
        let a = WrappedAngle { units };
        assert_eq!(a.add_units(TURN_UNITS), a);
    }
}

#[test]
fn angle_subtraction_wraps() {
    let a = WrappedAngle { units: 10 };
    let b = WrappedAngle { units: 30 };
    assert_eq!(a.sub(b).units, 340);
    assert_eq!(b.sub(a).units, 20);
}

#[test]
fn fixed_point_trig_at_cardinal_directions() {
    assert_eq!(WrappedAngle { units: 0 }.cos_fixed(), 90);
    assert_eq!(WrappedAngle { units: 0 }.sin_fixed(), 0);
    assert_eq!(WrappedAngle { units: 90 }.cos_fixed(), 0);
    assert_eq!(WrappedAngle { units: 90 }.sin_fixed(), 90);
    assert_eq!(WrappedAngle { units: 180 }.cos_fixed(), -90);
    assert_eq!(WrappedAngle { units: 180 }.sin_fixed(), 0);
    assert_eq!(WrappedAngle { units: 270 }.cos_fixed(), 0);
    assert_eq!(WrappedAngle { units: 270 }.sin_fixed(), -90);
}

#[test]
fn serve_is_deterministic_for_either_side() {
    let mut b = Ball::new();
    b.center_x = 40;
    b.center_y = -12;
    b.serve(true);
    assert_eq!(b.direction.units, HALF_TURN_UNITS);
    assert_eq!(b.speed, BALL_BASE_SPEED);
    assert_eq!((b.center_x, b.center_y), (0, 0));

    b.serve(false);
    assert_eq!(b.direction.units, 0);
    assert_eq!(b.speed, BALL_BASE_SPEED);
    assert_eq!((b.center_x, b.center_y), (0, 0));
}

#[test]
fn integration_moves_full_speed_along_the_serve_axis() {
    let mut b = Ball::new();
    b.serve(false);
    b.integrate();
    assert_eq!(b.center_x, BALL_BASE_SPEED);
    assert_eq!(b.center_y, 0);

    let mut toward_one = Ball::new();
    toward_one.serve(true);
    toward_one.integrate();
    assert_eq!(toward_one.center_x, -BALL_BASE_SPEED);
    assert_eq!(toward_one.center_y, 0);
}

#[test]
fn integration_drifts_speed_and_clamps_it_at_zero() {
    let mut b = Ball::new();
    b.serve(false);
    b.acceleration = 2;
    b.integrate();
    assert_eq!(b.speed, BALL_BASE_SPEED + 2);

    let mut stopped = Ball::new();
    stopped.serve(false);
    stopped.acceleration = -10;
    stopped.integrate();
    assert_eq!(stopped.speed, 0);
    assert_eq!(stopped.center_x, 0);
}

#[test]
fn bottom_wall_reflection_flips_vertical_and_lands_on_bound() {
    let mut b = Ball::new();
    b.direction = WrappedAngle { units: 300 }; // downward and rightward
    b.speed = BALL_BASE_SPEED;
    b.center_y = -ARENA_BOUND + BALL_HALF_SIZE - 1; // bottom edge one unit past
    wall_collide(&mut b);
    assert_eq!(b.center_y - BALL_HALF_SIZE, -ARENA_BOUND);
    assert_eq!(b.direction.units, 60); // reflected: vertical component now up
    assert!(b.direction.sin_fixed() > 0);
}

#[test]
fn top_wall_reflection_flips_vertical_and_lands_on_bound() {
    let mut b = Ball::new();
    b.direction = WrappedAngle { units: 60 }; // upward and rightward
    b.speed = BALL_BASE_SPEED;
    b.center_y = ARENA_BOUND - BALL_HALF_SIZE + 3;
    wall_collide(&mut b);
    assert_eq!(b.center_y + BALL_HALF_SIZE, ARENA_BOUND);
    assert_eq!(b.direction.units, 300);
    assert!(b.direction.sin_fixed() < 0);
}

#[test]
fn paddle_hit_mirrors_direction_and_escalates_speed() {
    let one = Paddle::new_left();
    let two = Paddle::new_right();
    let mut b = Ball::new();
    b.serve(true); // leftward, half turn
    b.center_x = one.x_right + BALL_HALF_SIZE; // leading edge touches paddle 1
    paddle_collide(&mut b, &one, &two);
    assert_eq!(b.direction.units, 0); // mirrored: now rightward
    assert_eq!(b.speed, BALL_BASE_SPEED + 1);
}

#[test]
fn paddle_is_missed_when_ball_is_vertically_clear() {
    let one = Paddle::new_left();
    let two = Paddle::new_right();
    let mut b = Ball::new();
    b.serve(true);
    b.center_x = one.x_right + BALL_HALF_SIZE;
    b.center_y = one.top_y + BALL_HALF_SIZE + 1; // just above the paddle
    let before = b;
    paddle_collide(&mut b, &one, &two);
    assert_eq!(b, before);
}

#[test]
fn scoring_round_trip_through_the_right_goal() {
    let mut one = Paddle::new_left();
    let mut two = Paddle::new_right();
    let mut b = Ball::new();
    b.serve(false); // rightward
    b.center_x = ARENA_BOUND - BALL_HALF_SIZE - 1; // just inside the right boundary
    b.speed = 10; // exits the arena in one step
    let input = InputState::new();
    let outcome = simulation_step(&input, &mut one, &mut two, &mut b);
    assert_eq!(outcome, StepOutcome::ScoredRight);
    assert_eq!((b.center_x, b.center_y), (0, 0));
    assert_eq!(b.direction.units, HALF_TURN_UNITS); // serving to player 1
    assert_eq!(b.speed, BALL_BASE_SPEED);
}

#[test]
fn scoring_through_the_left_goal_serves_player_two() {
    let mut one = Paddle::new_left();
    let mut two = Paddle::new_right();
    let mut b = Ball::new();
    b.serve(true); // leftward
    b.center_x = -ARENA_BOUND + BALL_HALF_SIZE + 1;
    b.center_y = 90; // far from paddle 1's quad, so nothing blocks the exit
    b.speed = 10;
    let input = InputState::new();
    let outcome = simulation_step(&input, &mut one, &mut two, &mut b);
    assert_eq!(outcome, StepOutcome::ScoredLeft);
    assert_eq!((b.center_x, b.center_y), (0, 0));
    assert_eq!(b.direction.units, 0); // serving to player 2
    assert_eq!(b.speed, BALL_BASE_SPEED);
}

#[test]
fn held_up_key_moves_only_paddle_one_by_one_step() {
    let mut one = Paddle::new_left();
    let mut two = Paddle::new_right();
    let two_before = two;
    let mut b = Ball::new();
    let mut input = InputState::new();
    input.set(InputKey::PaddleOneUp, true);
    let outcome = simulation_step(&input, &mut one, &mut two, &mut b);
    assert_eq!(outcome, StepOutcome::InPlay);
    assert_eq!(one.top_y, PADDLE_HALF_HEIGHT + PADDLE_STEP);
    assert_eq!(one.bottom_y, -PADDLE_HALF_HEIGHT + PADDLE_STEP);
    assert_eq!(two, two_before);
}

#[test]
fn opposing_keys_cancel_out() {
    let mut one = Paddle::new_left();
    let one_before = one;
    let mut two = Paddle::new_right();
    let mut b = Ball::new();
    let mut input = InputState::new();
    input.set(InputKey::PaddleOneUp, true);
    input.set(InputKey::PaddleOneDown, true);
    simulation_step(&input, &mut one, &mut two, &mut b);
    assert_eq!(one, one_before);
}

#[test]
fn movement_is_clamped_at_the_top_bound() {
    let mut one = Paddle::new_left();
    let mut two = Paddle::new_right();
    let mut b = Ball::new();
    let mut input = InputState::new();
    input.set(InputKey::PaddleOneUp, true);
    // enough steps to reach the bound and try to pass it
    for _ in 0..40 {
        simulation_step(&input, &mut one, &mut two, &mut b);
    }
    assert_eq!(one.top_y, ARENA_BOUND);
    assert_eq!(one.top_y - one.bottom_y, 2 * PADDLE_HALF_HEIGHT);
}

#[test]
fn input_state_records_presses_and_releases() {
    let mut input = InputState::new();
    assert!(!input.paddle_two_down);
    input.set(InputKey::PaddleTwoDown, true);
    input.set(InputKey::PaddleTwoDown, true); // a repeat keeps it held
    assert!(input.paddle_two_down);
    assert!(!input.paddle_one_up && !input.paddle_one_down && !input.paddle_two_up);
    input.set(InputKey::PaddleTwoDown, false);
    assert!(!input.paddle_two_down);
    let snap = input.snapshot();
    assert_eq!(snap, input);
}

#[test]
fn coin_toss_serve_yields_one_of_the_two_exact_serves() {
    for _ in 0..32 {
        let mut b = Ball::new();
        b.center_x = 55;
        let toward_one = serve_by_coin_toss(&mut b);
        assert_eq!((b.center_x, b.center_y), (0, 0));
        assert_eq!(b.speed, BALL_BASE_SPEED);
        if toward_one {
            assert_eq!(b.direction.units, HALF_TURN_UNITS);
        } else {
            assert_eq!(b.direction.units, 0);
        }
    }
}

#[test]
fn frame_geometry_lists_the_three_quads_in_order() {
    let one = Paddle::new_left();
    let two = Paddle::new_right();
    let b = Ball::new();
    let v = frame_vertices(&one, &two, &b);
    assert_eq!(v.len(), 12);
    assert_eq!((v[0].x, v[0].y), (-80, 20));
    assert_eq!((v[1].x, v[1].y), (-80, -20));
    assert_eq!((v[2].x, v[2].y), (-77, 20));
    assert_eq!((v[3].x, v[3].y), (-77, -20));
    assert_eq!((v[4].x, v[4].y), (77, 20));
    assert_eq!((v[5].x, v[5].y), (77, -20));
    assert_eq!((v[6].x, v[6].y), (80, 20));
    assert_eq!((v[7].x, v[7].y), (80, -20));
    assert_eq!((v[8].x, v[8].y), (2, 2));
    assert_eq!((v[9].x, v[9].y), (-2, 2));
    assert_eq!((v[10].x, v[10].y), (-2, -2));
    assert_eq!((v[11].x, v[11].y), (2, -2));

    let idx = frame_indices();
    assert_eq!(idx, vec![0, 1, 2, 2, 1, 3, 4, 6, 5, 6, 7, 5, 8, 9, 10, 8, 10, 11]);
}
