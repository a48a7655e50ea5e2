//! Directions as wrapped fixed-point angles.
//!
//! A [`WrappedAngle`] stores a whole number of angle units, always normalized
//! into `[0, TURN_UNITS)`, so adding and subtracting angles is total and never
//! needs range checking by the caller.  The two serve directions are exact:
//! `zero()` points toward the player-2 side (positive x) and `half_turn()`
//! toward the player-1 side (negative x).
//!
//! Velocity components are derived through a piecewise-linear sine and cosine
//! with amplitude [`TRIG_ONE`]: exact at the four cardinal directions and with
//! the exact symmetries that wall and paddle reflection rely on.

use vstd::prelude::*;

verus! {

/// One full turn, in angle units.
pub const TURN_UNITS: u32 = 360;

/// Half a turn: the serve direction toward the player-1 side.
pub const HALF_TURN_UNITS: u32 = 180;

/// A quarter turn.
pub const QUARTER_TURN_UNITS: u32 = 90;

/// Amplitude of the fixed-point sine and cosine: both range over
/// `[-TRIG_ONE, TRIG_ONE]`, and a displacement is `speed * trig / TRIG_ONE`.
pub const TRIG_ONE: i64 = 90;

/// An angle value normalized modulo one full turn.
#[derive(Clone, Copy, Debug, PartialEq, Eq, Structural)]
pub struct WrappedAngle {
    /// The normalized angle, in units; always below [`TURN_UNITS`].
    pub units: u32,
}

impl WrappedAngle {
    /// A stored angle is well formed when it is normalized.
    pub open spec fn wf(self) -> bool {
        self.units < TURN_UNITS
    }

    /// What addition of two angles yields: the sum wrapped into one turn.
    pub open spec fn add_spec(self, other: WrappedAngle) -> WrappedAngle {
        WrappedAngle { units: (((self.units + other.units) % (TURN_UNITS as int)) as u32) }
    }

    /// What adding a raw number of units yields: the sum wrapped into one turn.
    pub open spec fn add_units_spec(self, extra: u32) -> WrappedAngle {
        WrappedAngle { units: (((self.units + extra) % (TURN_UNITS as int)) as u32) }
    }

    /// What negation yields: the reflection of the angle across the
    /// horizontal axis, wrapped into one turn.
    pub open spec fn neg_spec(self) -> WrappedAngle {
        if self.units == 0 {
            self
        } else {
            WrappedAngle { units: (TURN_UNITS - self.units) as u32 }
        }
    }

    /// What mirroring across the vertical axis yields: half a turn minus the
    /// angle, wrapped into one turn.
    pub open spec fn mirror_spec(self) -> WrappedAngle {
        if self.units <= HALF_TURN_UNITS {
            WrappedAngle { units: (HALF_TURN_UNITS - self.units) as u32 }
        } else {
            WrappedAngle { units: (HALF_TURN_UNITS + TURN_UNITS - self.units) as u32 }
        }
    }

    /// Piecewise-linear sine: 0 at `0`, +TRIG_ONE at a quarter turn, 0 at a
    /// half turn, -TRIG_ONE at three quarters, linear in between.
    pub open spec fn sin_spec(self) -> int {
        if self.units <= QUARTER_TURN_UNITS {
            self.units as int
        } else if self.units <= 3 * QUARTER_TURN_UNITS {
            HALF_TURN_UNITS - self.units
        } else {
            self.units - TURN_UNITS
        }
    }

    /// Piecewise-linear cosine: the sine shifted by a quarter turn.
    pub open spec fn cos_spec(self) -> int {
        if self.units <= HALF_TURN_UNITS {
            QUARTER_TURN_UNITS - self.units
        } else {
            self.units - 3 * QUARTER_TURN_UNITS
        }
    }

    /// The direction toward the player-2 side (positive x).
    pub fn zero() -> (r: WrappedAngle)
        ensures
            r.units == 0,
            r.wf(),
    {
        WrappedAngle { units: 0 }
    }

    /// The direction toward the player-1 side (negative x).
    pub fn half_turn() -> (r: WrappedAngle)
        ensures
            r.units == HALF_TURN_UNITS,
            r.wf(),
    {
        WrappedAngle { units: HALF_TURN_UNITS }
    }

    /// Adds another angle; the result is always normalized.
    pub fn add(self, other: WrappedAngle) -> (r: WrappedAngle)
        requires
            self.wf(),
            other.wf(),
        ensures
            r == self.add_spec(other),
            r.wf(),
    {
        WrappedAngle { units: (self.units + other.units) % TURN_UNITS }
    }

    /// Adds a raw number of units; the result is always normalized, whatever
    /// the argument.
    pub fn add_units(self, extra: u32) -> (r: WrappedAngle)
        requires
            self.wf(),
        ensures
            r == self.add_units_spec(extra),
            r.wf(),
    {
        let wrapped_extra: u32 = extra % TURN_UNITS;
        let r = WrappedAngle { units: (self.units + wrapped_extra) % TURN_UNITS };
        proof {
            vstd::arithmetic::div_mod::lemma_add_mod_noop(
                self.units as int,
                extra as int,
                TURN_UNITS as int,
            );
            vstd::arithmetic::div_mod::lemma_small_mod(self.units as nat, TURN_UNITS as nat);
            vstd::arithmetic::div_mod::lemma_add_mod_noop(
                self.units as int,
                wrapped_extra as int,
                TURN_UNITS as int,
            );
            vstd::arithmetic::div_mod::lemma_small_mod(wrapped_extra as nat, TURN_UNITS as nat);
        }
        r
    }

    /// Subtracts another angle; the result is always normalized.
    pub fn sub(self, other: WrappedAngle) -> (r: WrappedAngle)
        requires
            self.wf(),
            other.wf(),
        ensures
            r == self.add_spec(other.neg_spec()),
            r.wf(),
    {
        WrappedAngle { units: (self.units + TURN_UNITS - other.units) % TURN_UNITS }
    }

    /// Reflects the angle across the horizontal axis: the vertical component
    /// of the direction flips sign, the horizontal component is kept.
    pub fn neg(self) -> (r: WrappedAngle)
        requires
            self.wf(),
        ensures
            r == self.neg_spec(),
            r.wf(),
    {
        if self.units == 0 {
            self
        } else {
            WrappedAngle { units: TURN_UNITS - self.units }
        }
    }

    /// Mirrors the angle across the vertical axis: the horizontal component
    /// of the direction flips sign, the vertical component is kept.
    pub fn mirror(self) -> (r: WrappedAngle)
        requires
            self.wf(),
        ensures
            r == self.mirror_spec(),
            r.wf(),
    {
        if self.units <= HALF_TURN_UNITS {
            WrappedAngle { units: HALF_TURN_UNITS - self.units }
        } else {
            WrappedAngle { units: HALF_TURN_UNITS + TURN_UNITS - self.units }
        }
    }

    /// Fixed-point sine of the angle.
    pub fn sin_fixed(self) -> (r: i64)
        requires
            self.wf(),
        ensures
            r == self.sin_spec(),
            -TRIG_ONE <= r <= TRIG_ONE,
    {
        if self.units <= QUARTER_TURN_UNITS {
            self.units as i64
        } else if self.units <= 3 * QUARTER_TURN_UNITS {
            HALF_TURN_UNITS as i64 - self.units as i64
        } else {
            self.units as i64 - TURN_UNITS as i64
        }
    }

    /// Fixed-point cosine of the angle.
    pub fn cos_fixed(self) -> (r: i64)
        requires
            self.wf(),
        ensures
            r == self.cos_spec(),
            -TRIG_ONE <= r <= TRIG_ONE,
    {
        if self.units <= HALF_TURN_UNITS {
            QUARTER_TURN_UNITS as i64 - self.units as i64
        } else {
            self.units as i64 - 3 * QUARTER_TURN_UNITS as i64
        }
    }
}

/// Law: adding a whole turn to any normalized angle leaves it unchanged.
pub proof fn lemma_add_full_turn(a: WrappedAngle)
    requires
        a.wf(),
    ensures
        a.add_units_spec(TURN_UNITS) == a,
{
    vstd::arithmetic::div_mod::lemma_mod_add_multiples_vanish(
        a.units as int,
        TURN_UNITS as int,
    );
    vstd::arithmetic::div_mod::lemma_small_mod(a.units as nat, TURN_UNITS as nat);
}

/// Law: reflecting across the horizontal axis flips the sign of the sine
/// (the vertical component of the direction) and keeps the cosine.
pub proof fn lemma_neg_flips_vertical(a: WrappedAngle)
    requires
        a.wf(),
    ensures
        a.neg_spec().sin_spec() == -a.sin_spec(),
        a.neg_spec().cos_spec() == a.cos_spec(),
{
}

/// Law: mirroring across the vertical axis flips the sign of the cosine
/// (the horizontal component of the direction) and keeps the sine.
pub proof fn lemma_mirror_flips_horizontal(a: WrappedAngle)
    requires
        a.wf(),
    ensures
        a.mirror_spec().cos_spec() == -a.cos_spec(),
        a.mirror_spec().sin_spec() == a.sin_spec(),
{
}

} // verus!
