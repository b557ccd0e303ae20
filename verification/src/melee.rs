//! The player's melee weapon: it trails the player and, on the primary
//! button, swings out toward the cursor for a fixed time.

use vstd::prelude::*;
use crate::actor::Body;
use crate::round::MatchState;
use crate::space::{clamp_coord, clamp_to_coord, div_toward_zero, divide_toward_zero, Vec2};
use crate::timing::Timer;

verus! {

/// How long a swing lasts, in milliseconds.
pub const SWING_MS: u64 = 400;

/// A swing starts out at this fraction of the way to the cursor.
pub const SEED_DIVISOR: i64 = 100;

/// Percentage by which the offset grows on every tick of a swing.
pub const GROWTH_PERCENT: i64 = 7;

/// State of the melee weapon.
#[derive(Clone, Copy, Debug, PartialEq, Eq, Structural)]
pub struct Melee {
    /// A swing has begun and its window has not been found over yet.
    pub swinging: bool,
    /// The last swing has reached its end.
    pub swing_over: bool,
    /// Opens when a swing begins, and again whenever it is found over.
    pub window: Timer,
    /// The point the weapon turns about: where the player stood last.
    pub pivot: Vec2,
    /// Where the weapon is, relative to the player.
    pub offset: Vec2,
}

/// What the player does with the melee weapon on one tick.
#[derive(Clone, Copy, Debug, PartialEq, Eq, Structural)]
pub struct MeleeInput {
    /// The primary button went down on this tick.
    pub pressed: bool,
    /// The cursor in the world, relative to the player; zero without one.
    pub reach: Vec2,
}

/// One component of the offset at the start of its growth: a component that
/// is still zero is seeded with a hundredth of the reach.
pub open spec fn seeded(offset: i32, reach: i32) -> i32 {
    if offset == 0 {
        div_toward_zero(reach as int, SEED_DIVISOR as int) as i32
    } else {
        offset
    }
}

/// One component of the offset after a tick of growth: its own value and
/// seven hundredths of it more, stopping at the edge of the coordinate range.
pub open spec fn grown(offset: i32) -> i32 {
    clamp_coord(offset + div_toward_zero(offset * GROWTH_PERCENT, 100)) as i32
}

fn seed(offset: i32, reach: i32) -> (o: i32)
    ensures
        o == seeded(offset, reach),
{
    if offset == 0 {
        let q: i64 = divide_toward_zero(reach as i64, SEED_DIVISOR);
        q as i32
    } else {
        offset
    }
}

fn grow(offset: i32) -> (o: i32)
    ensures
        o == grown(offset),
{
    let gain: i64 = divide_toward_zero(offset as i64 * GROWTH_PERCENT, 100);
    clamp_to_coord(offset as i64 + gain)
}

impl Melee {
    /// The weapon as a match is set up: at rest on the player.
    pub open spec fn initial(now_ms: u64) -> Melee {
        Melee {
            swinging: false,
            swing_over: true,
            window: Timer { duration_ms: 0, started_ms: now_ms },
            pivot: Vec2 { x: 0, y: 0 },
            offset: Vec2 { x: 0, y: 0 },
        }
    }

    pub fn new(now_ms: u64) -> (m: Melee)
        ensures
            m == Melee::initial(now_ms),
    {
        Melee {
            swinging: false,
            swing_over: true,
            window: Timer::start(0, now_ms),
            pivot: Vec2 { x: 0, y: 0 },
            offset: Vec2 { x: 0, y: 0 },
        }
    }

    /// The weapon is on its way out.
    pub open spec fn reaching(self) -> bool {
        self.swinging && !self.swing_over
    }

    /// The offset after the growth of this tick, before the end of the swing
    /// is looked at.
    pub open spec fn offset_grown(self, reach: Vec2) -> Vec2 {
        if self.reaching() {
            Vec2 {
                x: grown(seeded(self.offset.x, reach.x)),
                y: grown(seeded(self.offset.y, reach.y)),
            }
        } else {
            self.offset
        }
    }

    /// The swing is at or past its end after the look at the window.
    pub open spec fn over_at(self, now_ms: u64) -> bool {
        self.swing_over || (self.swinging && self.window.expired_at(now_ms))
    }

    /// The offset that the tick leaves: none once the swing is over and its
    /// window has run out, else the grown one.
    pub open spec fn offset_after(self, reach: Vec2, now_ms: u64) -> Vec2 {
        if self.over_at(now_ms) && self.window.expired_at(now_ms) {
            Vec2 { x: 0, y: 0 }
        } else {
            self.offset_grown(reach)
        }
    }

    /// A swing begins on this tick: the button went down and no swing is
    /// under way once the window has been looked at.
    pub open spec fn begins_swing(self, input: MeleeInput, now_ms: u64) -> bool {
        input.pressed && !(self.swinging && !self.window.expired_at(now_ms))
    }

    /// The weapon after one tick of a round, with the player at `player`.
    pub open spec fn after_tick(self, player: Vec2, input: MeleeInput, now_ms: u64) -> Melee {
        let lapsed = self.window.expired_at(now_ms);
        if self.begins_swing(input, now_ms) {
            Melee {
                swinging: true,
                swing_over: false,
                window: Timer { duration_ms: SWING_MS, started_ms: now_ms },
                pivot: player,
                offset: self.offset_after(input.reach, now_ms),
            }
        } else {
            Melee {
                swinging: self.swinging && !lapsed,
                swing_over: self.over_at(now_ms),
                window: if lapsed {
                    Timer { duration_ms: self.window.duration_ms, started_ms: now_ms }
                } else {
                    self.window
                },
                pivot: player,
                offset: self.offset_after(input.reach, now_ms),
            }
        }
    }

    /// Where the tick puts the weapon: at the player plus the offset, stopping
    /// at the edge of the coordinate range.
    pub open spec fn position_after(self, player: Vec2, input: MeleeInput, now_ms: u64) -> Vec2 {
        let offset = self.offset_after(input.reach, now_ms);
        Vec2 {
            x: clamp_coord(player.x + offset.x) as i32,
            y: clamp_coord(player.y + offset.y) as i32,
        }
    }

    /// The velocity that the tick gives the weapon: the reach while it is on
    /// its way out, else the old one.
    pub open spec fn velocity_after(self, velocity: Vec2, input: MeleeInput) -> Vec2 {
        if self.reaching() {
            input.reach
        } else {
            velocity
        }
    }
}

/// One tick of the melee weapon.
///
/// Outside a round nothing changes. In a round the weapon turns about the
/// player's position. While it is on its way out its offset grows toward the
/// cursor; the swing ends when its window has run out, and the offset is then
/// back at zero. The weapon is always placed at the player plus the offset.
/// The primary button begins a swing unless one is under way. Returns whether
/// a swing began, which is when the sound of a swing is due.
pub fn melee_step(
    phase: MatchState,
    melee: &mut Melee,
    body: &mut Body,
    player: Vec2,
    input: MeleeInput,
    now_ms: u64,
) -> (swung: bool)
    ensures
        phase == MatchState::Menu ==> *final(melee) == *old(melee) && *final(body) == *old(body)
            && !swung,
        phase == MatchState::Fighting ==> {
            &&& *final(melee) == old(melee).after_tick(player, input, now_ms)
            &&& final(body).position == old(melee).position_after(player, input, now_ms)
            &&& final(body).velocity == old(melee).velocity_after(old(body).velocity, input)
            &&& swung == old(melee).begins_swing(input, now_ms)
        },
{
    match phase {
        MatchState::Menu => false,
        MatchState::Fighting => {
            let lapsed: bool = melee.window.expired(now_ms);
            melee.pivot = player;
            if melee.swinging && !melee.swing_over {
                body.velocity = input.reach;
                let x: i32 = seed(melee.offset.x, input.reach.x);
                let y: i32 = seed(melee.offset.y, input.reach.y);
                if lapsed {
                    melee.swing_over = true;
                }
                melee.offset = Vec2 { x: grow(x), y: grow(y) };
            }
            if melee.swing_over && lapsed {
                melee.offset = Vec2 { x: 0, y: 0 };
            }
            if lapsed {
                melee.swinging = false;
                melee.window = Timer::start(melee.window.duration_ms, now_ms);
            }
            body.position = Vec2 {
                x: clamp_to_coord(player.x as i64 + melee.offset.x as i64),
                y: clamp_to_coord(player.y as i64 + melee.offset.y as i64),
            };
            let mut swung: bool = false;
            if input.pressed && !melee.swinging {
                melee.window = Timer::start(SWING_MS, now_ms);
                melee.swinging = true;
                melee.swing_over = false;
                swung = true;
            }
            swung
        },
    }
}

/// While a swing is under way the button cannot begin another one: the
/// window of the swing stays as it is until it has run out.
pub proof fn lemma_swing_not_restarted(melee: Melee, player: Vec2, input: MeleeInput, now_ms: u64)
    requires
        melee.swinging,
        !melee.window.expired_at(now_ms),
    ensures
        !melee.begins_swing(input, now_ms),
        melee.after_tick(player, input, now_ms).window == melee.window,
        melee.after_tick(player, input, now_ms).swinging,
{
}

/// Once the window of a swing has run out, the tick that finds it so leaves
/// the weapon on the player, with no offset.
pub proof fn lemma_swing_ends_at_rest(melee: Melee, player: Vec2, input: MeleeInput, now_ms: u64)
    requires
        melee.swinging,
        melee.window.expired_at(now_ms),
    ensures
        melee.after_tick(player, input, now_ms).offset == (Vec2 { x: 0, y: 0 }),
        melee.position_after(player, input, now_ms) == player,
{
}

/// Growth never shrinks a component of the offset nor turns it round, and it
/// moves every component of at least fifteen steps that is not yet at the
/// edge of the coordinate range.
pub proof fn lemma_growth_moves_outward(offset: i32)
    ensures
        offset >= 0 ==> grown(offset) >= offset,
        offset <= 0 ==> grown(offset) <= offset,
        15 <= offset < i32::MAX ==> grown(offset) > offset,
        i32::MIN < offset <= -15 ==> grown(offset) < offset,
        offset == 0 ==> grown(offset) == 0,
{
}

} // verus!
