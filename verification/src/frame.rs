//! Per-frame quad geometry for the renderer.
//!
//! Once per render iteration the host reads the current vertex positions out
//! of the core: paddle 1's quad, paddle 2's quad, then the ball's quad, in
//! that fixed order, together with a fixed triangulation that never changes
//! across frames — only the vertex positions move.  Positions are in the
//! core's fixed-point units; the renderer divides by [`crate::SCALE`] to get
//! normalized device coordinates and attaches its own constant color.

use vstd::prelude::*;
use crate::ball::Ball;
use crate::paddle::Paddle;

verus! {

/// One two-dimensional vertex position, in fixed-point units.
#[derive(Clone, Copy, Debug, PartialEq, Eq, Structural)]
pub struct FrameVertex {
    /// Horizontal position.
    pub x: i64,
    /// Vertical position.
    pub y: i64,
}

/// A paddle's quad: top-left, bottom-left, top-right, bottom-right.
pub open spec fn paddle_quad_spec(p: Paddle) -> Seq<FrameVertex> {
    seq![
        FrameVertex { x: p.x_left, y: p.top_y },
        FrameVertex { x: p.x_left, y: p.bottom_y },
        FrameVertex { x: p.x_right, y: p.top_y },
        FrameVertex { x: p.x_right, y: p.bottom_y },
    ]
}

/// The ball's quad: top-right, top-left, bottom-left, bottom-right.
pub open spec fn ball_quad_spec(b: Ball) -> Seq<FrameVertex> {
    seq![
        FrameVertex {
            x: (b.center_x + b.half_size) as i64,
            y: (b.center_y + b.half_size) as i64,
        },
        FrameVertex {
            x: (b.center_x - b.half_size) as i64,
            y: (b.center_y + b.half_size) as i64,
        },
        FrameVertex {
            x: (b.center_x - b.half_size) as i64,
            y: (b.center_y - b.half_size) as i64,
        },
        FrameVertex {
            x: (b.center_x + b.half_size) as i64,
            y: (b.center_y - b.half_size) as i64,
        },
    ]
}

/// The frame's twelve vertex positions: paddle 1, paddle 2, ball.
pub open spec fn frame_vertices_spec(paddle_one: Paddle, paddle_two: Paddle, b: Ball) -> Seq<
    FrameVertex,
> {
    paddle_quad_spec(paddle_one) + paddle_quad_spec(paddle_two) + ball_quad_spec(b)
}

/// The fixed triangulation of the three quads.
pub open spec fn frame_indices_spec() -> Seq<u16> {
    seq![0u16, 1, 2, 2, 1, 3, 4, 6, 5, 6, 7, 5, 8, 9, 10, 8, 10, 11]
}

/// Builds the frame's twelve vertex positions in the fixed order the
/// triangulation expects.
pub fn frame_vertices(paddle_one: &Paddle, paddle_two: &Paddle, ball: &Ball) -> (v: Vec<
    FrameVertex,
>)
    requires
        ball.wf(),
    ensures
        v@ == frame_vertices_spec(*paddle_one, *paddle_two, *ball),
        v@.len() == 12,
{
    let mut v: Vec<FrameVertex> = Vec::new();
    v.push(FrameVertex { x: paddle_one.x_left, y: paddle_one.top_y });
    v.push(FrameVertex { x: paddle_one.x_left, y: paddle_one.bottom_y });
    v.push(FrameVertex { x: paddle_one.x_right, y: paddle_one.top_y });
    v.push(FrameVertex { x: paddle_one.x_right, y: paddle_one.bottom_y });
    v.push(FrameVertex { x: paddle_two.x_left, y: paddle_two.top_y });
    v.push(FrameVertex { x: paddle_two.x_left, y: paddle_two.bottom_y });
    v.push(FrameVertex { x: paddle_two.x_right, y: paddle_two.top_y });
    v.push(FrameVertex { x: paddle_two.x_right, y: paddle_two.bottom_y });
    v.push(FrameVertex { x: ball.center_x + ball.half_size, y: ball.center_y + ball.half_size });
    v.push(FrameVertex { x: ball.center_x - ball.half_size, y: ball.center_y + ball.half_size });
    v.push(FrameVertex { x: ball.center_x - ball.half_size, y: ball.center_y - ball.half_size });
    v.push(FrameVertex { x: ball.center_x + ball.half_size, y: ball.center_y - ball.half_size });
    proof {
        assert(v@ =~= frame_vertices_spec(*paddle_one, *paddle_two, *ball));
    }
    v
}

/// Builds the fixed index list that triangulates the three quads.
pub fn frame_indices() -> (v: Vec<u16>)
    ensures
        v@ == frame_indices_spec(),
        v@.len() == 18,
{
    let mut v: Vec<u16> = Vec::new();
    v.push(0);
    v.push(1);
    v.push(2);
    v.push(2);
    v.push(1);
    v.push(3);
    v.push(4);
    v.push(6);
    v.push(5);
    v.push(6);
    v.push(7);
    v.push(5);
    v.push(8);
    v.push(9);
    v.push(10);
    v.push(8);
    v.push(10);
    v.push(11);
    proof {
        assert(v@ =~= frame_indices_spec());
    }
    v
}

} // verus!
