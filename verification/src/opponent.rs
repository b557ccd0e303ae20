//! The scripted opponent: it patrols a corridor as chance decides, jumps on a
//! rare cue, and loses a life at the end of each hit-stun window that the
//! melee weapon opens.

use vstd::prelude::*;
use rand::Rng;
use crate::actor::{
    apply_bias, biased, lose_life, one_life_less, Body, Tint, JUMP_SPEED, STUN_MS, WALK_SPEED,
};
use crate::round::MatchState;
use crate::space::{
    landed_among, scan_contacts, struck_among, ColliderTag, Contacts, Obstacle, Vec2,
};
use crate::timing::Timer;

verus! {

/// Lives of the opponent at the start of every round.
pub const OPPONENT_LIVES: u32 = 10;

/// How long a jump of the opponent lasts, in milliseconds.
pub const OPPONENT_JUMP_MS: u64 = 300;

/// The opponent walks right only while it is not beyond this coordinate.
pub const PATROL_RIGHT_EDGE: i32 = 300_000;

/// The opponent walks left only while it is not beyond this coordinate.
pub const PATROL_LEFT_EDGE: i32 = -500_000;

/// Number of values the walk sample can take.
pub const WALK_CHOICES: u32 = 2;

/// Number of values the jump sample can take.
pub const JUMP_CHOICES: u32 = 800;

/// The value of the walk sample that means walking right.
pub const WALK_RIGHT: u32 = 1;

/// The value of the walk sample that means walking left.
pub const WALK_LEFT: u32 = 0;

/// The one value of the jump sample that cues a jump.
pub const JUMP_CUE: u32 = 1;

/// The two samples that chance gives the opponent on one tick.
#[derive(Clone, Copy, Debug, PartialEq, Eq, Structural)]
pub struct Whim {
    /// Below `WALK_CHOICES` when drawn.
    pub walk: u32,
    /// Below `JUMP_CHOICES` when drawn.
    pub jump: u32,
}

impl Whim {
    /// Both samples are in the range they are drawn from.
    pub open spec fn in_range(self) -> bool {
        self.walk < WALK_CHOICES && self.jump < JUMP_CHOICES
    }
}

/// State of the opponent.
#[derive(Clone, Copy, Debug, PartialEq, Eq, Structural)]
pub struct Opponent {
    pub lives: u32,
    /// Inside a hit-stun window.
    pub hit: bool,
    /// Opens when a hit-stun window begins.
    pub stun_timer: Timer,
    /// The walk sample of the last tick.
    pub walk_x: u32,
    /// The jump sample of the last tick.
    pub jump_y: u32,
    /// A jump was cued and is not over yet.
    pub jump: bool,
    /// Opens when a jump is cued; the jump rises until it runs out.
    pub jump_timer: Timer,
    /// The last jump ran its full time and no landing has followed.
    pub jump_end: bool,
    pub tint: Tint,
}

impl Opponent {
    /// The opponent as a match is set up.
    pub open spec fn initial(now_ms: u64) -> Opponent {
        Opponent {
            lives: OPPONENT_LIVES,
            hit: false,
            stun_timer: Timer { duration_ms: 0, started_ms: now_ms },
            walk_x: 0,
            jump_y: 0,
            jump: false,
            jump_timer: Timer { duration_ms: OPPONENT_JUMP_MS, started_ms: now_ms },
            jump_end: true,
            tint: Tint::Normal,
        }
    }

    pub fn new(now_ms: u64) -> (o: Opponent)
        ensures
            o == Opponent::initial(now_ms),
    {
        Opponent {
            lives: OPPONENT_LIVES,
            hit: false,
            stun_timer: Timer::start(0, now_ms),
            walk_x: 0,
            jump_y: 0,
            jump: false,
            jump_timer: Timer::start(OPPONENT_JUMP_MS, now_ms),
            jump_end: true,
            tint: Tint::Normal,
        }
    }

    /// A landing ends the jump in progress and lets the next one rise.
    pub open spec fn with_landing(self, landed: bool) -> Opponent {
        if landed {
            Opponent { jump: false, jump_end: false, ..self }
        } else {
            self
        }
    }

    /// A hit-stun window opens on this tick: the opponent is struck while it
    /// has a life left and no window is open.
    pub open spec fn takes_hit(self, contacts: Contacts) -> bool {
        contacts.struck && self.lives > 0 && !self.hit
    }

    /// A strike opens a hit-stun window unless one is open already; an open
    /// window is never restarted.
    pub open spec fn with_strike(self, contacts: Contacts, now_ms: u64) -> Opponent {
        if self.takes_hit(contacts) {
            Opponent {
                hit: true,
                stun_timer: Timer { duration_ms: STUN_MS, started_ms: now_ms },
                tint: Tint::Hurt,
                ..self
            }
        } else {
            self
        }
    }

    /// A jump is cued on this tick: the jump sample has the one value that
    /// cues, and no jump is cued already.
    pub open spec fn cued_by(self, whim: Whim) -> bool {
        whim.jump == JUMP_CUE && !self.jump
    }

    /// The samples are recorded. A cue raises the jump flag and starts the
    /// jump's clock at the present; a jump that is cued already stays cued,
    /// and its clock runs on.
    pub open spec fn with_whim(self, whim: Whim, now_ms: u64) -> Opponent {
        Opponent {
            walk_x: whim.walk,
            jump_y: whim.jump,
            jump: self.jump || whim.jump == JUMP_CUE,
            jump_timer: if self.cued_by(whim) {
                Timer { duration_ms: OPPONENT_JUMP_MS, started_ms: now_ms }
            } else {
                self.jump_timer
            },
            ..self
        }
    }

    /// The opponent is being carried upward by its jump at `now_ms`.
    pub open spec fn rising_at(self, now_ms: u64) -> bool {
        self.jump && !self.jump_end && !self.jump_timer.expired_at(now_ms)
    }

    /// A cued jump is over once its time has run out.
    pub open spec fn with_jump_clock(self, now_ms: u64) -> Opponent {
        if self.jump && self.jump_timer.expired_at(now_ms) {
            Opponent { jump: false, jump_end: true, ..self }
        } else {
            self
        }
    }

    /// The hit-stun window closes at this tick.
    pub open spec fn stun_ends(self, now_ms: u64) -> bool {
        self.hit && self.lives > 0 && self.stun_timer.expired_at(now_ms)
    }

    /// The end of a hit-stun window costs one life, and only then.
    pub open spec fn with_stun_clock(self, now_ms: u64) -> Opponent {
        if self.stun_ends(now_ms) {
            Opponent { hit: false, lives: one_life_less(self.lives), tint: Tint::Normal, ..self }
        } else {
            self
        }
    }

    /// Without a life left the opponent is hidden; it stays where it is.
    pub open spec fn with_fade(self) -> Opponent {
        if self.lives == 0 {
            Opponent { tint: Tint::Hidden, ..self }
        } else {
            self
        }
    }

    /// The opponent after one tick of a round.
    pub open spec fn after_tick(self, contacts: Contacts, whim: Whim, now_ms: u64) -> Opponent {
        self.with_landing(contacts.landed).with_strike(contacts, now_ms).with_whim(
            whim,
            now_ms,
        ).with_jump_clock(now_ms).with_stun_clock(now_ms).with_fade()
    }

    /// The velocity that a tick gives the opponent.
    ///
    /// Horizontally the fixed walking speed to the right when the walk sample
    /// says right and the opponent is not beyond the right edge of its
    /// corridor, to the left when it says left and the opponent is not beyond
    /// the left edge, and else the old value. Vertically the jump speed while
    /// a cued jump rises, zero on a landing, and else the old value less the
    /// downward bias.
    pub open spec fn velocity_after(
        self,
        body: Body,
        contacts: Contacts,
        whim: Whim,
        now_ms: u64,
    ) -> Vec2 {
        Vec2 {
            x: if whim.walk == WALK_RIGHT && body.position.x <= PATROL_RIGHT_EDGE {
                WALK_SPEED
            } else if whim.walk == WALK_LEFT && body.position.x >= PATROL_LEFT_EDGE {
                (-WALK_SPEED) as i32
            } else {
                body.velocity.x
            },
            y: if self.with_landing(contacts.landed).with_whim(whim, now_ms).rising_at(now_ms) {
                JUMP_SPEED
            } else if contacts.landed {
                0
            } else {
                biased(body.velocity.y)
            },
        }
    }

    /// One tick of the opponent in a round, given what the pass over the
    /// obstacles found and what chance gave. Returns whether a hit-stun
    /// window opened, which is when the sound of a hit is due.
    pub fn tick(&mut self, body: &mut Body, contacts: Contacts, whim: Whim, now_ms: u64) -> (hurt:
        bool)
        ensures
            *final(self) == old(self).after_tick(contacts, whim, now_ms),
            final(body).velocity == old(self).velocity_after(*old(body), contacts, whim, now_ms),
            final(body).position == old(body).position,
            hurt == old(self).takes_hit(contacts),
            final(self).lives <= old(self).lives,
    {
        let mut vx: i32 = body.velocity.x;
        let mut vy: i32 = apply_bias(body.velocity.y);
        if contacts.landed {
            vy = 0;
            self.jump = false;
            self.jump_end = false;
        }
        let mut hurt: bool = false;
        if contacts.struck && self.lives > 0 && !self.hit {
            self.stun_timer = Timer::start(STUN_MS, now_ms);
            self.hit = true;
            self.tint = Tint::Hurt;
            hurt = true;
        }
        self.walk_x = whim.walk;
        self.jump_y = whim.jump;
        if self.walk_x == WALK_RIGHT && body.position.x <= PATROL_RIGHT_EDGE {
            vx = WALK_SPEED;
        } else if self.walk_x == WALK_LEFT && body.position.x >= PATROL_LEFT_EDGE {
            vx = -WALK_SPEED;
        }
        if self.jump_y == JUMP_CUE && !self.jump {
            self.jump = true;
            self.jump_timer = Timer::start(OPPONENT_JUMP_MS, now_ms);
        }
        if self.jump {
            if !self.jump_timer.expired(now_ms) {
                if !self.jump_end {
                    vy = JUMP_SPEED;
                }
            } else {
                self.jump_end = true;
                self.jump = false;
            }
        }
        if self.hit && self.lives > 0 && self.stun_timer.expired(now_ms) {
            self.hit = false;
            self.tint = Tint::Normal;
            self.lives = lose_life(self.lives);
        }
        if self.lives == 0 {
            self.tint = Tint::Hidden;
        }
        body.velocity = Vec2 { x: vx, y: vy };
        hurt
    }
}

/// What the pass over `obstacles` finds for the opponent at `position`: a
/// landing on solid ground, and a strike by the melee weapon.
pub open spec fn opponent_contacts(position: Vec2, obstacles: Seq<Obstacle>) -> Contacts {
    Contacts {
        landed: landed_among(position, obstacles),
        struck: struck_among(position, obstacles, ColliderTag::MeleeHitbox),
    }
}

/// How one tick of the opponent's controller, made with the samples `whim`,
/// relates the state before it to the state after it and to the report
/// `hurt`. Outside a round nothing changes.
pub open spec fn opponent_stepped(
    phase: MatchState,
    before: Opponent,
    body_before: Body,
    obstacles: Seq<Obstacle>,
    whim: Whim,
    now_ms: u64,
    after: Opponent,
    body_after: Body,
    hurt: bool,
) -> bool {
    match phase {
        MatchState::Menu => after == before && body_after == body_before && !hurt,
        MatchState::Fighting => {
            let contacts = opponent_contacts(body_before.position, obstacles);
            &&& after == before.after_tick(contacts, whim, now_ms)
            &&& body_after.velocity == before.velocity_after(body_before, contacts, whim, now_ms)
            &&& body_after.position == body_before.position
            &&& hurt == before.takes_hit(contacts)
        },
    }
}

/// One tick of the opponent's controller with the samples given by the
/// caller, which makes the opponent repeatable.
pub fn opponent_step(
    phase: MatchState,
    opponent: &mut Opponent,
    body: &mut Body,
    obstacles: &Vec<Obstacle>,
    whim: Whim,
    now_ms: u64,
) -> (hurt: bool)
    ensures
        opponent_stepped(
            phase,
            *old(opponent),
            *old(body),
            obstacles@,
            whim,
            now_ms,
            *final(opponent),
            *final(body),
            hurt,
        ),
        final(opponent).lives <= old(opponent).lives,
{
    match phase {
        MatchState::Menu => false,
        MatchState::Fighting => {
            let contacts: Contacts = scan_contacts(
                body.position,
                obstacles,
                ColliderTag::MeleeHitbox,
            );
            opponent.tick(body, contacts, whim, now_ms)
        },
    }
}

/// Draws one sample with `rand::Rng::gen_range` on the generator of
/// `rand::thread_rng`, from the range that starts at zero and ends before
/// `bound`. The sample lies in that range; nothing else is known of it, and
/// two draws need not agree. The range must not be empty.
#[verifier::external_body]
fn draw_below(bound: u32) -> (sample: u32)
    requires
        bound > 0,
    ensures
        sample < bound,
{
    rand::thread_rng().gen_range(0..bound)
}

/// Draws the two samples of one tick, each on its own.
pub fn draw_whim() -> (whim: Whim)
    ensures
        whim.in_range(),
{
    let walk: u32 = draw_below(WALK_CHOICES);
    let jump: u32 = draw_below(JUMP_CHOICES);
    Whim { walk, jump }
}

/// One tick of the opponent's controller with samples drawn by chance.
///
/// Whatever is drawn, the tick is the one that `opponent_step` makes with
/// some pair of samples from their ranges. Outside a round nothing is drawn.
pub fn opponent_turn(
    phase: MatchState,
    opponent: &mut Opponent,
    body: &mut Body,
    obstacles: &Vec<Obstacle>,
    now_ms: u64,
) -> (hurt: bool)
    ensures
        exists|whim: Whim|
            whim.in_range() && #[trigger] opponent_stepped(
                phase,
                *old(opponent),
                *old(body),
                obstacles@,
                whim,
                now_ms,
                *final(opponent),
                *final(body),
                hurt,
            ),
        final(opponent).lives <= old(opponent).lives,
{
    match phase {
        MatchState::Menu => {
            let idle = Whim { walk: 0, jump: 0 };
            assert(idle.in_range() && opponent_stepped(
                phase,
                *opponent,
                *body,
                obstacles@,
                idle,
                now_ms,
                *opponent,
                *body,
                false,
            ));
            false
        },
        MatchState::Fighting => {
            let whim: Whim = draw_whim();
            let ghost before = *opponent;
            let ghost body_before = *body;
            let hurt: bool = opponent_step(phase, opponent, body, obstacles, whim, now_ms);
            assert(whim.in_range() && opponent_stepped(
                phase,
                before,
                body_before,
                obstacles@,
                whim,
                now_ms,
                *opponent,
                *body,
                hurt,
            ));
            hurt
        },
    }
}

/// Everything that bears on one tick of the opponent in a round.
#[derive(Clone, Copy, Debug, PartialEq, Eq, Structural)]
pub struct OpponentTick {
    pub contacts: Contacts,
    pub whim: Whim,
    pub now_ms: u64,
}

impl Opponent {
    /// The opponent after a run of ticks, the first of the sequence first.
    pub open spec fn after_ticks(self, ticks: Seq<OpponentTick>) -> Opponent
        decreases ticks.len(),
    {
        if ticks.len() == 0 {
            self
        } else {
            let last = ticks.last();
            self.after_ticks(ticks.drop_last()).after_tick(last.contacts, last.whim, last.now_ms)
        }
    }
}

/// While a hit-stun window is open, nothing that happens restarts it or costs
/// a life: after any run of ticks that all come before the end of the window,
/// whatever strikes them, the window is the same one, it is still open, and
/// the lives are what they were.
pub proof fn lemma_opponent_stun_not_renewed(opponent: Opponent, ticks: Seq<OpponentTick>)
    requires
        opponent.hit,
        forall|i: int|
            0 <= i < ticks.len() ==> !opponent.stun_timer.expired_at((#[trigger] ticks[i]).now_ms),
    ensures
        opponent.after_ticks(ticks).hit,
        opponent.after_ticks(ticks).stun_timer == opponent.stun_timer,
        opponent.after_ticks(ticks).lives == opponent.lives,
    decreases ticks.len(),
{
    if ticks.len() > 0 {
        let earlier = ticks.drop_last();
        assert forall|i: int| 0 <= i < earlier.len() implies !opponent.stun_timer.expired_at(
            (#[trigger] earlier[i]).now_ms,
        ) by {
            assert(earlier[i] == ticks[i]);
        }
        lemma_opponent_stun_not_renewed(opponent, earlier);
        assert(!opponent.stun_timer.expired_at(ticks[ticks.len() - 1].now_ms));
    }
}

/// The tick that finds a hit-stun window over closes it and takes exactly one
/// life, whether or not the opponent is struck again on that tick. No other
/// tick changes the lives.
pub proof fn lemma_opponent_stun_costs_one_life(
    opponent: Opponent,
    contacts: Contacts,
    whim: Whim,
    now_ms: u64,
)
    ensures
        opponent.stun_ends(now_ms) ==> !opponent.after_tick(contacts, whim, now_ms).hit
            && opponent.after_tick(contacts, whim, now_ms).lives == opponent.lives - 1,
        !opponent.stun_ends(now_ms) ==> opponent.after_tick(contacts, whim, now_ms).lives
            == opponent.lives,
{
}

/// A cue on a tick that finds a landing begins a jump: the flag goes up, the
/// jump's clock starts at the present with the length of a jump, and the
/// opponent is sent upward at the jump speed.
pub proof fn lemma_opponent_cue_on_landing_lifts(
    opponent: Opponent,
    body: Body,
    contacts: Contacts,
    whim: Whim,
    now_ms: u64,
)
    requires
        contacts.landed,
        whim.jump == JUMP_CUE,
    ensures
        opponent.after_tick(contacts, whim, now_ms).jump,
        !opponent.after_tick(contacts, whim, now_ms).jump_end,
        opponent.after_tick(contacts, whim, now_ms).jump_timer == (Timer {
            duration_ms: OPPONENT_JUMP_MS,
            started_ms: now_ms,
        }),
        opponent.velocity_after(body, contacts, whim, now_ms).y == JUMP_SPEED,
{
}

/// A jump lasts its window: on a tick without a landing a jump in progress
/// rises while its clock runs, its clock untouched whatever the samples, and
/// ends on the tick that finds the clock run out, which sends the opponent
/// upward no more.
pub proof fn lemma_opponent_jump_lasts_its_window(
    opponent: Opponent,
    body: Body,
    contacts: Contacts,
    whim: Whim,
    now_ms: u64,
)
    requires
        opponent.jump,
        !opponent.jump_end,
        !contacts.landed,
    ensures
        opponent.after_tick(contacts, whim, now_ms).jump_timer == opponent.jump_timer,
        !opponent.jump_timer.expired_at(now_ms) ==> opponent.after_tick(contacts, whim, now_ms).jump
            && opponent.velocity_after(body, contacts, whim, now_ms).y == JUMP_SPEED,
        opponent.jump_timer.expired_at(now_ms) ==> !opponent.after_tick(
            contacts,
            whim,
            now_ms,
        ).jump && opponent.after_tick(contacts, whim, now_ms).jump_end && opponent.velocity_after(
            body,
            contacts,
            whim,
            now_ms,
        ).y == biased(body.velocity.y),
{
}

/// A landing ends the jump in progress: unless a jump is cued on the same
/// tick, the tick that finds a landing leaves no jump and no vertical
/// velocity.
pub proof fn lemma_opponent_landing_ends_jump(
    opponent: Opponent,
    body: Body,
    contacts: Contacts,
    whim: Whim,
    now_ms: u64,
)
    requires
        contacts.landed,
        whim.jump != JUMP_CUE,
    ensures
        !opponent.after_tick(contacts, whim, now_ms).jump,
        !opponent.after_tick(contacts, whim, now_ms).jump_end,
        opponent.after_tick(contacts, whim, now_ms).jump_timer == opponent.jump_timer,
        opponent.velocity_after(body, contacts, whim, now_ms).y == 0,
{
}

} // verus!
