//! The player's fighter: walking on held keys, a single jump per landing,
//! and a hit-stun window that delays the loss of a life to its end.

use vstd::prelude::*;
use crate::actor::{
    apply_bias, biased, lose_life, one_life_less, Body, Tint, GRAVITY_BIAS, JUMP_SPEED, STUN_MS,
    WALK_SPEED,
};
use crate::round::MatchState;
use crate::space::{
    landed_among, scan_contacts, struck_among, ColliderTag, Contacts, Obstacle, Vec2,
};
use crate::timing::Timer;

verus! {

/// Lives of the player when the match is set up.
pub const PLAYER_START_LIVES: u32 = 5;

/// How long a jump of the player lasts, in milliseconds.
pub const PLAYER_JUMP_MS: u64 = 1_000;

/// Height below which the player is put back at the origin.
pub const FALL_LIMIT: i32 = -200_000;

/// The keys that steer the player on one tick.
#[derive(Clone, Copy, Debug, PartialEq, Eq, Structural)]
pub struct PlayerInput {
    /// The key for walking left is held.
    pub left: bool,
    /// The key for walking right is held.
    pub right: bool,
    /// The jump key went down on this tick.
    pub jump_pressed: bool,
}

/// State of the player's fighter.
#[derive(Clone, Copy, Debug, PartialEq, Eq, Structural)]
pub struct Player {
    pub lives: u32,
    /// A jump has begun and no landing has ended it yet.
    pub is_jumping: bool,
    /// The jump has run its full time; the fighter no longer rises.
    pub end_jump: bool,
    /// The latch for the next jump: opened by a landing, closed by a jump.
    pub can_jump: bool,
    /// Opens when a jump begins.
    pub jump_timer: Timer,
    /// Inside a hit-stun window.
    pub hit: bool,
    /// Opens when a hit-stun window begins.
    pub stun_timer: Timer,
    pub tint: Tint,
}

impl Player {
    /// The player as a match is set up: in the air, unable to jump before the
    /// first landing.
    pub open spec fn initial(now_ms: u64) -> Player {
        Player {
            lives: PLAYER_START_LIVES,
            is_jumping: false,
            end_jump: true,
            can_jump: false,
            jump_timer: Timer { duration_ms: 0, started_ms: now_ms },
            hit: false,
            stun_timer: Timer { duration_ms: 0, started_ms: now_ms },
            tint: Tint::Normal,
        }
    }

    pub fn new(now_ms: u64) -> (p: Player)
        ensures
            p == Player::initial(now_ms),
            p.wf(),
    {
        Player {
            lives: PLAYER_START_LIVES,
            is_jumping: false,
            end_jump: true,
            can_jump: false,
            jump_timer: Timer::start(0, now_ms),
            hit: false,
            stun_timer: Timer::start(0, now_ms),
            tint: Tint::Normal,
        }
    }

    /// The flags agree with one another: while the latch is open no jump is
    /// in progress and none has run out. Setup gives such a state and every
    /// tick keeps it so.
    pub open spec fn wf(self) -> bool {
        self.can_jump ==> !self.is_jumping && !self.end_jump
    }

    /// A jump begins on this tick: the jump key went down while the latch was
    /// open.
    pub open spec fn begins_jump(self, input: PlayerInput) -> bool {
        input.jump_pressed && self.can_jump
    }

    /// The beginning of a jump closes the latch and starts the jump's clock.
    pub open spec fn with_jump(self, input: PlayerInput, now_ms: u64) -> Player {
        if self.begins_jump(input) {
            Player {
                is_jumping: true,
                can_jump: false,
                jump_timer: Timer { duration_ms: PLAYER_JUMP_MS, started_ms: now_ms },
                ..self
            }
        } else {
            self
        }
    }

    /// A landing ends the jump and opens the latch again.
    pub open spec fn with_landing(self, landed: bool) -> Player {
        if landed {
            Player { is_jumping: false, end_jump: false, can_jump: true, ..self }
        } else {
            self
        }
    }

    /// The fighter is being carried upward by its jump.
    pub open spec fn rising(self) -> bool {
        self.is_jumping && !self.end_jump
    }

    /// A rising jump is over once its time has run out.
    pub open spec fn with_jump_clock(self, now_ms: u64) -> Player {
        if self.rising() && self.jump_timer.expired_at(now_ms) {
            Player { end_jump: true, ..self }
        } else {
            self
        }
    }

    /// A strike opens a hit-stun window unless one is open already; an open
    /// window is never restarted.
    pub open spec fn with_strike(self, struck: bool, now_ms: u64) -> Player {
        if !struck {
            self
        } else if self.hit {
            Player { tint: Tint::Hurt, ..self }
        } else {
            Player {
                hit: true,
                stun_timer: Timer { duration_ms: STUN_MS, started_ms: now_ms },
                tint: Tint::Hurt,
                ..self
            }
        }
    }

    /// The hit-stun window closes at this tick.
    pub open spec fn stun_ends(self, now_ms: u64) -> bool {
        self.hit && self.stun_timer.expired_at(now_ms)
    }

    /// The end of a hit-stun window costs one life, and only then.
    pub open spec fn with_stun_clock(self, now_ms: u64) -> Player {
        if self.stun_ends(now_ms) {
            Player { hit: false, lives: one_life_less(self.lives), tint: Tint::Normal, ..self }
        } else {
            self
        }
    }

    /// The player after one tick of a round.
    pub open spec fn after_tick(
        self,
        input: PlayerInput,
        contacts: Contacts,
        now_ms: u64,
    ) -> Player {
        self.with_jump(input, now_ms).with_landing(contacts.landed).with_jump_clock(
            now_ms,
        ).with_strike(contacts.struck, now_ms).with_stun_clock(now_ms)
    }

    /// The velocity that a tick gives the player.
    ///
    /// Horizontally the fixed walking speed in the direction of the one key
    /// that is held; with none or both held the old value stays. Vertically
    /// the jump speed while the fighter rises, zero on a landing, and else
    /// the old value less the downward bias.
    pub open spec fn velocity_after(
        self,
        velocity: Vec2,
        input: PlayerInput,
        contacts: Contacts,
        now_ms: u64,
    ) -> Vec2 {
        Vec2 {
            x: if input.left && !input.right {
                (-WALK_SPEED) as i32
            } else if input.right && !input.left {
                WALK_SPEED
            } else {
                velocity.x
            },
            y: if self.with_jump(input, now_ms).with_landing(contacts.landed).rising() {
                JUMP_SPEED
            } else if contacts.landed {
                0
            } else {
                biased(velocity.y)
            },
        }
    }

    /// Where a tick leaves the player: at the origin when no life is left
    /// after the tick or the fighter has fallen below the limit, else in
    /// place.
    pub open spec fn position_after(
        self,
        position: Vec2,
        input: PlayerInput,
        contacts: Contacts,
        now_ms: u64,
    ) -> Vec2 {
        if self.after_tick(input, contacts, now_ms).lives == 0 || position.y < FALL_LIMIT {
            Vec2 { x: 0, y: 0 }
        } else {
            position
        }
    }

    /// A hit-stun window opens on this tick.
    pub open spec fn takes_hit(self, contacts: Contacts) -> bool {
        contacts.struck && !self.hit
    }

    /// One tick of the player in a round, given what the pass over the
    /// obstacles found. Returns whether a hit-stun window opened, which is
    /// when the sound of a hit is due.
    pub fn tick(
        &mut self,
        body: &mut Body,
        input: PlayerInput,
        contacts: Contacts,
        now_ms: u64,
    ) -> (hurt: bool)
        ensures
            *final(self) == old(self).after_tick(input, contacts, now_ms),
            final(body).velocity == old(self).velocity_after(
                old(body).velocity,
                input,
                contacts,
                now_ms,
            ),
            final(body).position == old(self).position_after(
                old(body).position,
                input,
                contacts,
                now_ms,
            ),
            hurt == old(self).takes_hit(contacts),
            final(self).lives <= old(self).lives,
            old(self).wf() ==> final(self).wf(),
    {
        let mut vx: i32 = body.velocity.x;
        let mut vy: i32 = apply_bias(body.velocity.y);
        if input.left && !input.right {
            vx = -WALK_SPEED;
        } else if input.right && !input.left {
            vx = WALK_SPEED;
        }
        if input.jump_pressed && self.can_jump {
            self.jump_timer = Timer::start(PLAYER_JUMP_MS, now_ms);
            self.is_jumping = true;
            self.can_jump = false;
        }
        if contacts.landed {
            vy = 0;
            self.is_jumping = false;
            self.end_jump = false;
            self.can_jump = true;
        }
        if self.is_jumping && !self.end_jump {
            vy = JUMP_SPEED;
            if self.jump_timer.expired(now_ms) {
                self.end_jump = true;
            }
        }
        let mut hurt: bool = false;
        if contacts.struck {
            if !self.hit {
                self.stun_timer = Timer::start(STUN_MS, now_ms);
                self.hit = true;
                hurt = true;
            }
            self.tint = Tint::Hurt;
        }
        if self.hit && self.stun_timer.expired(now_ms) {
            self.tint = Tint::Normal;
            self.lives = lose_life(self.lives);
            self.hit = false;
        }
        if self.lives == 0 || body.position.y < FALL_LIMIT {
            body.position = Vec2 { x: 0, y: 0 };
        }
        body.velocity = Vec2 { x: vx, y: vy };
        hurt
    }
}

/// What the pass over `obstacles` finds for the player at `position`: a
/// landing on solid ground, and a strike by a projectile.
pub open spec fn player_contacts(position: Vec2, obstacles: Seq<Obstacle>) -> Contacts {
    Contacts {
        landed: landed_among(position, obstacles),
        struck: struck_among(position, obstacles, ColliderTag::Projectile),
    }
}

/// One tick of the player's controller.
///
/// Outside a round nothing changes. In a round the player is tested against
/// every obstacle and then makes its tick with what was found. Returns
/// whether a hit-stun window opened.
pub fn player_step(
    phase: MatchState,
    player: &mut Player,
    body: &mut Body,
    input: PlayerInput,
    obstacles: &Vec<Obstacle>,
    now_ms: u64,
) -> (hurt: bool)
    ensures
        phase == MatchState::Menu ==> *final(player) == *old(player) && *final(body) == *old(body)
            && !hurt,
        phase == MatchState::Fighting ==> {
            let contacts = player_contacts(old(body).position, obstacles@);
            &&& *final(player) == old(player).after_tick(input, contacts, now_ms)
            &&& final(body).velocity == old(player).velocity_after(
                old(body).velocity,
                input,
                contacts,
                now_ms,
            )
            &&& final(body).position == old(player).position_after(
                old(body).position,
                input,
                contacts,
                now_ms,
            )
            &&& hurt == old(player).takes_hit(contacts)
        },
        final(player).lives <= old(player).lives,
        old(player).wf() ==> final(player).wf(),
{
    match phase {
        MatchState::Menu => false,
        MatchState::Fighting => {
            let contacts: Contacts = scan_contacts(
                body.position,
                obstacles,
                ColliderTag::Projectile,
            );
            player.tick(body, input, contacts, now_ms)
        },
    }
}

/// Everything that bears on one tick of the player in a round.
#[derive(Clone, Copy, Debug, PartialEq, Eq, Structural)]
pub struct PlayerTick {
    pub input: PlayerInput,
    pub contacts: Contacts,
    pub now_ms: u64,
}

impl Player {
    /// The player after a run of ticks, the first of the sequence first.
    pub open spec fn after_ticks(self, ticks: Seq<PlayerTick>) -> Player
        decreases ticks.len(),
    {
        if ticks.len() == 0 {
            self
        } else {
            let last = ticks.last();
            self.after_ticks(ticks.drop_last()).after_tick(last.input, last.contacts, last.now_ms)
        }
    }
}

/// While a hit-stun window is open, nothing that happens restarts it or costs
/// a life: after any run of ticks that all come before the end of the window,
/// whatever strikes them, the window is the same one, it is still open, and
/// the lives are what they were.
pub proof fn lemma_player_stun_not_renewed(player: Player, ticks: Seq<PlayerTick>)
    requires
        player.hit,
        forall|i: int|
            0 <= i < ticks.len() ==> !player.stun_timer.expired_at((#[trigger] ticks[i]).now_ms),
    ensures
        player.after_ticks(ticks).hit,
        player.after_ticks(ticks).stun_timer == player.stun_timer,
        player.after_ticks(ticks).lives == player.lives,
    decreases ticks.len(),
{
    if ticks.len() > 0 {
        let earlier = ticks.drop_last();
        assert forall|i: int| 0 <= i < earlier.len() implies !player.stun_timer.expired_at(
            (#[trigger] earlier[i]).now_ms,
        ) by {
            assert(earlier[i] == ticks[i]);
        }
        lemma_player_stun_not_renewed(player, earlier);
        assert(!player.stun_timer.expired_at(ticks[ticks.len() - 1].now_ms));
    }
}

/// The tick that finds a hit-stun window over closes it and takes exactly one
/// life, or none if none is left, whether or not the player is struck again
/// on that tick. No other tick changes the lives.
pub proof fn lemma_player_stun_costs_one_life(
    player: Player,
    input: PlayerInput,
    contacts: Contacts,
    now_ms: u64,
)
    ensures
        player.stun_ends(now_ms) ==> !player.after_tick(input, contacts, now_ms).hit
            && player.after_tick(input, contacts, now_ms).lives == one_life_less(player.lives),
        !player.stun_ends(now_ms) ==> player.after_tick(input, contacts, now_ms).lives
            == player.lives,
{
}

/// The player as set up is valid, and a tick of a valid player leaves a valid
/// player.
pub proof fn lemma_player_stays_valid(
    player: Player,
    input: PlayerInput,
    contacts: Contacts,
    now_ms: u64,
)
    ensures
        Player::initial(now_ms).wf(),
        player.wf() ==> player.after_tick(input, contacts, now_ms).wf(),
{
}

/// A valid player stays valid through every run of ticks.
pub proof fn lemma_player_valid_through_run(player: Player, ticks: Seq<PlayerTick>)
    requires
        player.wf(),
    ensures
        player.after_ticks(ticks).wf(),
    decreases ticks.len(),
{
    if ticks.len() > 0 {
        lemma_player_valid_through_run(player, ticks.drop_last());
    }
}

/// A tick on which a jump begins and no landing is found closes the latch,
/// starts the jump's clock at the present with the length of a jump, and, the
/// player being valid, sends the fighter upward at the jump speed.
pub proof fn lemma_player_jump_shuts_latch(
    player: Player,
    velocity: Vec2,
    input: PlayerInput,
    contacts: Contacts,
    now_ms: u64,
)
    requires
        player.begins_jump(input),
        !contacts.landed,
    ensures
        !player.after_tick(input, contacts, now_ms).can_jump,
        player.after_tick(input, contacts, now_ms).is_jumping,
        player.after_tick(input, contacts, now_ms).jump_timer == (Timer {
            duration_ms: PLAYER_JUMP_MS,
            started_ms: now_ms,
        }),
        player.wf() ==> player.velocity_after(velocity, input, contacts, now_ms).y == JUMP_SPEED,
{
}

/// With the latch closed and no jump in progress the jump key does nothing:
/// on a tick without a landing no jump begins, the clock of the last jump is
/// not started again, the latch stays closed, and the fighter is not sent
/// upward: its vertical velocity is the old one less the downward bias.
pub proof fn lemma_player_jump_refused_without_latch(
    player: Player,
    velocity: Vec2,
    input: PlayerInput,
    contacts: Contacts,
    now_ms: u64,
)
    requires
        !player.can_jump,
        !player.is_jumping,
        !contacts.landed,
    ensures
        !player.after_tick(input, contacts, now_ms).is_jumping,
        !player.after_tick(input, contacts, now_ms).can_jump,
        player.after_tick(input, contacts, now_ms).jump_timer == player.jump_timer,
        player.velocity_after(velocity, input, contacts, now_ms).y == biased(velocity.y),
        velocity.y - GRAVITY_BIAS >= i32::MIN ==> player.velocity_after(
            velocity,
            input,
            contacts,
            now_ms,
        ).y == velocity.y - GRAVITY_BIAS,
{
}

/// With the latch closed no jump can begin before a landing: after any run of
/// ticks without a landing, whatever the keys, the latch is still closed and
/// the clock of the last jump has not been started again.
pub proof fn lemma_player_no_jump_before_landing(player: Player, ticks: Seq<PlayerTick>)
    requires
        !player.can_jump,
        forall|i: int| 0 <= i < ticks.len() ==> !(#[trigger] ticks[i]).contacts.landed,
    ensures
        !player.after_ticks(ticks).can_jump,
        player.after_ticks(ticks).jump_timer == player.jump_timer,
    decreases ticks.len(),
{
    if ticks.len() > 0 {
        let earlier = ticks.drop_last();
        assert forall|i: int| 0 <= i < earlier.len() implies !(
        #[trigger] earlier[i]).contacts.landed by {
            assert(earlier[i] == ticks[i]);
        }
        lemma_player_no_jump_before_landing(player, earlier);
        assert(!ticks[ticks.len() - 1].contacts.landed);
    }
}

/// Only a landing opens the latch: a tick that leaves it open either found a
/// landing or found the latch open and no jump beginning.
pub proof fn lemma_player_latch_opens_on_landing(
    player: Player,
    input: PlayerInput,
    contacts: Contacts,
    now_ms: u64,
)
    ensures
        player.after_tick(input, contacts, now_ms).can_jump <==> contacts.landed || (
        player.can_jump && !input.jump_pressed),
{
}

} // verus!
