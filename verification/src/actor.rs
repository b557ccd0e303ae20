//! What the two fighters have in common: a body in the plane, the tint that
//! shows their condition, and the constants of motion and hit-stun.

use vstd::prelude::*;
use crate::space::{clamp_coord, clamp_to_coord, Vec2};

verus! {

/// Downward bias taken from the vertical velocity on every tick.
pub const GRAVITY_BIAS: i64 = 500_000;

/// Horizontal speed of a walking fighter.
pub const WALK_SPEED: i32 = 200_000;

/// Vertical speed forced on a fighter while its jump lasts.
pub const JUMP_SPEED: i32 = 500_000;

/// Length of the hit-stun window, in milliseconds.
pub const STUN_MS: u64 = 3_000;

/// Position and velocity of a fighter or a weapon. The velocity is assigned
/// here on every tick; moving the position by it is left to the caller.
#[derive(Clone, Copy, Debug, PartialEq, Eq, Structural)]
pub struct Body {
    pub position: Vec2,
    pub velocity: Vec2,
}

/// How a fighter is shown.
#[derive(Clone, Copy, Debug, PartialEq, Eq, Structural)]
pub enum Tint {
    /// Unharmed.
    Normal,
    /// Flashing inside a hit-stun window.
    Hurt,
    /// Fully transparent.
    Hidden,
}

/// The vertical velocity after the downward bias, stopping at the lowest
/// speed that a coordinate can hold.
pub open spec fn biased(vy: i32) -> i32 {
    clamp_coord(vy - GRAVITY_BIAS) as i32
}

pub fn apply_bias(vy: i32) -> (v: i32)
    ensures
        v == biased(vy),
        v <= vy,
{
    clamp_to_coord(vy as i64 - GRAVITY_BIAS)
}

/// One life less, and never less than none.
pub open spec fn one_life_less(lives: u32) -> u32 {
    if lives == 0 {
        0
    } else {
        (lives - 1) as u32
    }
}

pub fn lose_life(lives: u32) -> (left: u32)
    ensures
        left == one_life_less(lives),
        left <= lives,
{
    if lives == 0 {
        0
    } else {
        lives - 1
    }
}

} // verus!
