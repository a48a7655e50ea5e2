//! Held-key tracking for the two paddles.
//!
//! An [`InputState`] records, for each of the four tracked movement keys,
//! whether it is currently held.  The host's input collaborator calls
//! [`InputState::set`] on every press, repeat, or release event (a repeat
//! counts as still held); the simulation step reads the flags once per frame
//! through [`InputState::snapshot`].  Unknown keys never reach this type: the
//! host simply has no [`InputKey`] to hand in for them.

use vstd::prelude::*;

verus! {

/// One of the four tracked movement keys.
#[derive(Clone, Copy, Debug, PartialEq, Eq, Structural)]
pub enum InputKey {
    /// Moves paddle one up.
    PaddleOneUp,
    /// Moves paddle one down.
    PaddleOneDown,
    /// Moves paddle two up.
    PaddleTwoUp,
    /// Moves paddle two down.
    PaddleTwoDown,
}

/// The currently-held movement keys for both paddles.
#[derive(Clone, Copy, Debug, PartialEq, Eq, Structural)]
pub struct InputState {
    /// Whether the paddle-one-up key is held.
    pub paddle_one_up: bool,
    /// Whether the paddle-one-down key is held.
    pub paddle_one_down: bool,
    /// Whether the paddle-two-up key is held.
    pub paddle_two_up: bool,
    /// Whether the paddle-two-down key is held.
    pub paddle_two_down: bool,
}

impl InputState {
    /// What recording one key event yields: the flag for that key replaced,
    /// the other three kept.
    pub open spec fn set_spec(self, key: InputKey, held: bool) -> InputState {
        match key {
            InputKey::PaddleOneUp => InputState { paddle_one_up: held, ..self },
            InputKey::PaddleOneDown => InputState { paddle_one_down: held, ..self },
            InputKey::PaddleTwoUp => InputState { paddle_two_up: held, ..self },
            InputKey::PaddleTwoDown => InputState { paddle_two_down: held, ..self },
        }
    }

    /// Fresh input state: no key held.
    pub fn new() -> (r: InputState)
        ensures
            r == (InputState {
                paddle_one_up: false,
                paddle_one_down: false,
                paddle_two_up: false,
                paddle_two_down: false,
            }),
    {
        InputState {
            paddle_one_up: false,
            paddle_one_down: false,
            paddle_two_up: false,
            paddle_two_down: false,
        }
    }

    /// Records the most recent press or release of one tracked key.  Repeated
    /// presses are idempotent: setting a flag to the value it already has
    /// changes nothing.
    pub fn set(&mut self, key: InputKey, held: bool)
        ensures
            *final(self) == old(self).set_spec(key, held),
    {
        match key {
            InputKey::PaddleOneUp => self.paddle_one_up = held,
            InputKey::PaddleOneDown => self.paddle_one_down = held,
            InputKey::PaddleTwoUp => self.paddle_two_up = held,
            InputKey::PaddleTwoDown => self.paddle_two_down = held,
        }
    }

    /// Returns the current four flags for consumption by the simulation step.
    pub fn snapshot(&self) -> (r: InputState)
        ensures
            r == *self,
    {
        *self
    }
}

} // verus!
