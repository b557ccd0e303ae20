//! Deterministic core of a two-fighter arena duel: timers, contact
//! classification, the fighters' state machines, weapons, projectiles and the
//! match state, all in fixed-point integer arithmetic.

pub mod actor;
pub mod duel;
pub mod hud;
pub mod melee;
pub mod opponent;
pub mod player;
pub mod projectile;
pub mod ranged;
pub mod round;
pub mod space;
pub mod timing;
