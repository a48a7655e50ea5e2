//! Paddles: vertical rectangles confined to the arena's vertical axis.
//!
//! A [`Paddle`] is stored as its side edges and its top and bottom edges, in
//! fixed-point units.  Movement translates the whole rectangle vertically and
//! may transiently leave the arena; [`Paddle::clamp_to_arena`], run once per
//! frame after movement, shifts the rectangle back by exactly the signed
//! overshoot.  The two corrections are mutually exclusive per call because a
//! well-formed paddle is no taller than the arena.

use vstd::prelude::*;
use crate::ARENA_BOUND;

verus! {

/// Vertical distance a paddle moves per frame for each held key.
pub const PADDLE_STEP: i64 = 5;

/// Half the height of a paddle.
pub const PADDLE_HALF_HEIGHT: i64 = 20;

/// Horizontal thickness of a paddle.
pub const PADDLE_WIDTH: i64 = 3;

/// Distance from the arena center to a paddle's outer edge.
pub const PADDLE_INSET: i64 = 80;

/// Coordinates handed to paddle operations stay within this magnitude, so
/// that the shifts stay far from the machine integer limits.
pub const COORD_LIMIT: i64 = 1_000_000_000;

/// A vertical rectangle: side edges fixed for the whole run, top and bottom
/// edges moved and clamped each frame.
#[derive(Clone, Copy, Debug, PartialEq, Eq, Structural)]
pub struct Paddle {
    /// Left edge.
    pub x_left: i64,
    /// Right edge.
    pub x_right: i64,
    /// Top edge.
    pub top_y: i64,
    /// Bottom edge.
    pub bottom_y: i64,
}

impl Paddle {
    /// Shape well-formedness: a proper rectangle inside the arena's
    /// horizontal span, no taller than the arena.
    pub open spec fn shape_wf(self) -> bool {
        &&& self.bottom_y < self.top_y
        &&& self.top_y - self.bottom_y <= 2 * ARENA_BOUND
        &&& -ARENA_BOUND <= self.x_left < self.x_right <= ARENA_BOUND
    }

    /// The vertical edges stay far from the machine integer limits.
    pub open spec fn bounded(self) -> bool {
        -COORD_LIMIT <= self.bottom_y && self.top_y <= COORD_LIMIT
    }

    /// The paddle lies fully inside the arena's vertical span.
    pub open spec fn in_arena(self) -> bool {
        -ARENA_BOUND <= self.bottom_y && self.top_y <= ARENA_BOUND
    }

    /// What a vertical move yields: both vertical edges translated, the side
    /// edges kept.
    pub open spec fn move_spec(self, delta_y: i64) -> Paddle {
        Paddle {
            top_y: (self.top_y + delta_y) as i64,
            bottom_y: (self.bottom_y + delta_y) as i64,
            ..self
        }
    }

    /// What clamping yields: if the top overshoots the arena the whole
    /// rectangle shifts down by exactly that overshoot; otherwise, if the
    /// bottom overshoots, it shifts up by exactly that overshoot; otherwise
    /// the paddle is unchanged.
    pub open spec fn clamp_spec(self) -> Paddle {
        if self.top_y > ARENA_BOUND {
            Paddle {
                top_y: ARENA_BOUND,
                bottom_y: (self.bottom_y - (self.top_y - ARENA_BOUND)) as i64,
                ..self
            }
        } else if self.bottom_y < -ARENA_BOUND {
            Paddle {
                top_y: (self.top_y + (-ARENA_BOUND - self.bottom_y)) as i64,
                bottom_y: (-ARENA_BOUND) as i64,
                ..self
            }
        } else {
            self
        }
    }

    /// The paddle on the player-1 side: left of the arena, vertically
    /// centered.
    pub fn new_left() -> (r: Paddle)
        ensures
            r == (Paddle {
                x_left: (-PADDLE_INSET) as i64,
                x_right: (-PADDLE_INSET + PADDLE_WIDTH) as i64,
                top_y: PADDLE_HALF_HEIGHT,
                bottom_y: (-PADDLE_HALF_HEIGHT) as i64,
            }),
            r.shape_wf(),
            r.in_arena(),
            r.bounded(),
    {
        Paddle {
            x_left: -PADDLE_INSET,
            x_right: -PADDLE_INSET + PADDLE_WIDTH,
            top_y: PADDLE_HALF_HEIGHT,
            bottom_y: -PADDLE_HALF_HEIGHT,
        }
    }

    /// The paddle on the player-2 side: right of the arena, vertically
    /// centered.
    pub fn new_right() -> (r: Paddle)
        ensures
            r == (Paddle {
                x_left: (PADDLE_INSET - PADDLE_WIDTH) as i64,
                x_right: PADDLE_INSET,
                top_y: PADDLE_HALF_HEIGHT,
                bottom_y: (-PADDLE_HALF_HEIGHT) as i64,
            }),
            r.shape_wf(),
            r.in_arena(),
            r.bounded(),
    {
        Paddle {
            x_left: PADDLE_INSET - PADDLE_WIDTH,
            x_right: PADDLE_INSET,
            top_y: PADDLE_HALF_HEIGHT,
            bottom_y: -PADDLE_HALF_HEIGHT,
        }
    }

    /// Translates every edge of the paddle by `delta_y` on the vertical axis,
    /// preserving its shape.  The result may transiently overshoot the arena;
    /// [`Paddle::clamp_to_arena`] restores the bounds.
    pub fn move_by(&mut self, delta_y: i64)
        requires
            old(self).shape_wf(),
            old(self).bounded(),
            -COORD_LIMIT <= old(self).bottom_y + delta_y,
            old(self).top_y + delta_y <= COORD_LIMIT,
        ensures
            *final(self) == old(self).move_spec(delta_y),
            final(self).top_y == old(self).top_y + delta_y,
            final(self).bottom_y == old(self).bottom_y + delta_y,
            final(self).shape_wf(),
            final(self).bounded(),
    {
        self.top_y = self.top_y + delta_y;
        self.bottom_y = self.bottom_y + delta_y;
    }

    /// Computes the signed overshoot past the top bound and, if positive,
    /// shifts the whole paddle down by exactly that amount; otherwise does
    /// the same for the bottom bound.  At most one correction is applied per
    /// call, and afterward the paddle lies fully inside the arena.
    pub fn clamp_to_arena(&mut self)
        requires
            old(self).shape_wf(),
            old(self).bounded(),
        ensures
            *final(self) == old(self).clamp_spec(),
            final(self).shape_wf(),
            final(self).in_arena(),
            final(self).bounded(),
            final(self).top_y - final(self).bottom_y == old(self).top_y - old(self).bottom_y,
            old(self).top_y > ARENA_BOUND ==> final(self).top_y == ARENA_BOUND,
            old(self).top_y <= ARENA_BOUND && old(self).bottom_y < -ARENA_BOUND
                ==> final(self).bottom_y == -ARENA_BOUND,
            old(self).in_arena() ==> *final(self) == *old(self),
    {
        let top_overshoot = self.top_y - ARENA_BOUND;
        if top_overshoot > 0 {
            self.top_y = self.top_y - top_overshoot;
            self.bottom_y = self.bottom_y - top_overshoot;
            return ;
        }
        let bottom_overshoot = -ARENA_BOUND - self.bottom_y;
        if bottom_overshoot > 0 {
            self.top_y = self.top_y + bottom_overshoot;
            self.bottom_y = self.bottom_y + bottom_overshoot;
        }
    }
}

/// Law: clamping is idempotent.  For every well-formed paddle position,
/// clamping twice in a row yields the same position as clamping once.
pub proof fn lemma_clamp_idempotent(p: Paddle)
    requires
        p.shape_wf(),
        p.bounded(),
    ensures
        p.clamp_spec().clamp_spec() == p.clamp_spec(),
{
}

/// Law: clamping a paddle whose top overshoots the arena by a positive
/// amount brings the top to exactly the arena bound and keeps the height.
pub proof fn lemma_clamp_overshoot_exact(p: Paddle)
    requires
        p.shape_wf(),
        p.bounded(),
        p.top_y > ARENA_BOUND,
    ensures
        p.clamp_spec().top_y == ARENA_BOUND,
        p.clamp_spec().top_y - p.clamp_spec().bottom_y == p.top_y - p.bottom_y,
{
}

} // verus!
