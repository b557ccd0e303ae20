//! The opponent's two ranged weapons: a gun that is armed while the player is
//! far away and a shotgun that is armed while the player is near. Both are
//! pinned to the opponent, aim at the player, and fire on a cooldown.

use vstd::prelude::*;
use crate::projectile::{Heading, Projectile};
use crate::round::MatchState;
use crate::space::{clamp_coord, clamp_to_coord, Vec2};
use crate::timing::{lemma_open_before_end, Timer};

verus! {

/// How far below the opponent its weapons are held.
pub const MOUNT_DROP: i64 = 10_000;

/// Horizontal distance at which the gun's zone ends and the shotgun's begins.
/// At exactly this distance both weapons are armed.
pub const ZONE_EDGE: i64 = 400_000;

/// Cooldown of the gun, in milliseconds.
pub const GUN_COOLDOWN_MS: u64 = 569;

/// Cooldown of the shotgun, in milliseconds.
pub const SHOTGUN_COOLDOWN_MS: u64 = 5_000;

/// Where a weapon of the opponent is held.
pub open spec fn mount_point(opponent: Vec2) -> Vec2 {
    Vec2 { x: opponent.x, y: clamp_coord(opponent.y - MOUNT_DROP) as i32 }
}

/// Horizontal distance between two points.
pub open spec fn horizontal_gap(a: Vec2, b: Vec2) -> int {
    if a.x >= b.x {
        a.x - b.x
    } else {
        b.x - a.x
    }
}

/// The vector from `target` to `weapon`. A projectile launched with it as
/// heading travels against it, toward where the target stood.
pub open spec fn aim_at(weapon: Vec2, target: Vec2) -> Heading {
    Heading { dx: (weapon.x - target.x) as i64, dy: (weapon.y - target.y) as i64 }
}

/// Half of `v`, rounded toward zero.
pub open spec fn half(v: int) -> int {
    if v >= 0 {
        v / 2
    } else {
        -((-v) / 2)
    }
}

/// The heading of a shotgun pellet: as `aim_at`, but with the target's height
/// taken as `target_y` in place of the target's own.
pub open spec fn aim_at_height(weapon: Vec2, target: Vec2, target_y: int) -> Heading {
    Heading { dx: (weapon.x - target.x) as i64, dy: (weapon.y - target_y) as i64 }
}

fn place_mount(opponent: Vec2) -> (m: Vec2)
    ensures
        m == mount_point(opponent),
{
    Vec2 { x: opponent.x, y: clamp_to_coord(opponent.y as i64 - MOUNT_DROP) }
}

fn gap_between(a: Vec2, b: Vec2) -> (g: i64)
    ensures
        g == horizontal_gap(a, b),
{
    if a.x >= b.x {
        a.x as i64 - b.x as i64
    } else {
        b.x as i64 - a.x as i64
    }
}

fn aim(weapon: Vec2, target: Vec2) -> (h: Heading)
    ensures
        h == aim_at(weapon, target),
        h.wf(),
{
    Heading { dx: weapon.x as i64 - target.x as i64, dy: weapon.y as i64 - target.y as i64 }
}

fn aim_height(weapon: Vec2, target: Vec2, target_y: i64) -> (h: Heading)
    requires
        -4_294_967_296 <= target_y <= 4_294_967_296,
    ensures
        h == aim_at_height(weapon, target, target_y as int),
        h.wf(),
{
    Heading { dx: weapon.x as i64 - target.x as i64, dy: weapon.y as i64 - target_y }
}

/// The gun: armed while the player is at least `ZONE_EDGE` away.
#[derive(Clone, Copy, Debug, PartialEq, Eq, Structural)]
pub struct Gun {
    pub active: bool,
    /// Shown exactly while armed.
    pub visible: bool,
    /// Opens at the last shot; the gun cannot fire before it is over.
    pub cooldown: Timer,
}

/// What one tick of the gun asks of its surroundings.
#[derive(Clone, Copy, Debug, PartialEq, Eq, Structural)]
pub struct GunReport {
    /// The vector from the player to where the gun was before this tick; the
    /// gun is turned to the angle of this vector. `None` outside a round.
    pub facing: Option<Heading>,
    /// The projectile to spawn, if the gun fired.
    pub fired: Option<Projectile>,
}

impl Gun {
    /// The gun as a match is set up: not yet shown, with its cooldown running
    /// from the time of setup.
    pub open spec fn initial(now_ms: u64) -> Gun {
        Gun {
            active: true,
            visible: false,
            cooldown: Timer { duration_ms: GUN_COOLDOWN_MS, started_ms: now_ms },
        }
    }

    pub fn new(now_ms: u64) -> (g: Gun)
        ensures
            g == Gun::initial(now_ms),
    {
        Gun { active: true, visible: false, cooldown: Timer::start(GUN_COOLDOWN_MS, now_ms) }
    }

    /// The gun held at `mount` is in its zone.
    pub open spec fn armed(mount: Vec2, player: Vec2) -> bool {
        horizontal_gap(mount, player) >= ZONE_EDGE
    }

    /// The gun fires on a tick at `now_ms`.
    pub open spec fn fires(self, mount: Vec2, player: Vec2, now_ms: u64) -> bool {
        Gun::armed(mount, player) && self.cooldown.expired_at(now_ms)
    }

    /// The gun after a tick at `now_ms`.
    pub open spec fn after_tick(self, mount: Vec2, player: Vec2, now_ms: u64) -> Gun {
        if !Gun::armed(mount, player) {
            Gun { active: false, visible: false, cooldown: self.cooldown }
        } else if self.cooldown.expired_at(now_ms) {
            Gun {
                active: true,
                visible: true,
                cooldown: Timer { duration_ms: GUN_COOLDOWN_MS, started_ms: now_ms },
            }
        } else {
            Gun { active: true, visible: true, cooldown: self.cooldown }
        }
    }

    /// The projectile of a shot from `mount` at `now_ms`.
    pub open spec fn shot(mount: Vec2, player: Vec2, now_ms: u64) -> Projectile {
        Projectile::launched(mount, aim_at(mount, player), now_ms)
    }
}

/// One tick of the gun.
///
/// Outside a round nothing happens. In a round the gun is moved to its mount
/// below the opponent and turned toward the player; it is armed, and shown,
/// exactly while the player is at least `ZONE_EDGE` away horizontally; armed
/// and with its cooldown over, it fires one projectile from the mount, aimed
/// at where the player stands now, and the cooldown starts again.
pub fn gun_step(
    phase: MatchState,
    gun: &mut Gun,
    mount: &mut Vec2,
    opponent: Vec2,
    player: Vec2,
    now_ms: u64,
) -> (report: GunReport)
    ensures
        phase == MatchState::Menu ==> *final(gun) == *old(gun) && *final(mount) == *old(mount)
            && report == (GunReport { facing: None, fired: None }),
        phase == MatchState::Fighting ==> {
            &&& *final(mount) == mount_point(opponent)
            &&& *final(gun) == old(gun).after_tick(mount_point(opponent), player, now_ms)
            &&& report.facing == Some(aim_at(*old(mount), player))
            &&& report.fired == if old(gun).fires(mount_point(opponent), player, now_ms) {
                Some(Gun::shot(mount_point(opponent), player, now_ms))
            } else {
                None
            }
        },
        report.fired.is_some() ==> report.fired.unwrap().wf(),
{
    match phase {
        MatchState::Menu => GunReport { facing: None, fired: None },
        MatchState::Fighting => {
            let facing: Heading = aim(*mount, player);
            let held: Vec2 = place_mount(opponent);
            *mount = held;
            gun.active = gap_between(held, player) >= ZONE_EDGE;
            gun.visible = gun.active;
            let mut fired: Option<Projectile> = None;
            if gun.active && gun.cooldown.expired(now_ms) {
                gun.cooldown = Timer::start(GUN_COOLDOWN_MS, now_ms);
                fired = Some(Projectile::launch(held, aim(held, player), now_ms));
            }
            GunReport { facing: Some(facing), fired }
        },
    }
}

/// While the gun's cooldown lasts the gun does not fire and the cooldown is
/// not touched, wherever the fighters stand; a shot restarts the cooldown at
/// the time of the shot.
pub proof fn lemma_gun_respects_cooldown(gun: Gun, mount: Vec2, player: Vec2, now_ms: u64)
    ensures
        !gun.cooldown.expired_at(now_ms) ==> !gun.fires(mount, player, now_ms) && gun.after_tick(
            mount,
            player,
            now_ms,
        ).cooldown == gun.cooldown,
        gun.fires(mount, player, now_ms) ==> gun.after_tick(mount, player, now_ms).cooldown == (
        Timer { duration_ms: GUN_COOLDOWN_MS, started_ms: now_ms }),
        !gun.fires(mount, player, now_ms) ==> gun.after_tick(mount, player, now_ms).cooldown
            == gun.cooldown,
{
}

/// The shotgun: armed while the player is at most `ZONE_EDGE` away.
#[derive(Clone, Copy, Debug, PartialEq, Eq, Structural)]
pub struct Shotgun {
    pub active: bool,
    /// Shown exactly while armed.
    pub visible: bool,
    /// Opens at the last shot; the shotgun cannot fire before it is over.
    pub cooldown: Timer,
}

/// What one tick of the shotgun asks of its surroundings.
#[derive(Debug)]
pub struct ShotgunReport {
    /// As for the gun.
    pub facing: Option<Heading>,
    /// The projectiles to spawn: three if the shotgun fired, else none.
    pub fired: Vec<Projectile>,
}

impl Shotgun {
    /// The shotgun as a match begins.
    pub open spec fn initial(now_ms: u64) -> Shotgun {
        Shotgun {
            active: false,
            visible: true,
            cooldown: Timer { duration_ms: SHOTGUN_COOLDOWN_MS, started_ms: now_ms },
        }
    }

    pub fn new(now_ms: u64) -> (s: Shotgun)
        ensures
            s == Shotgun::initial(now_ms),
    {
        Shotgun {
            active: false,
            visible: true,
            cooldown: Timer::start(SHOTGUN_COOLDOWN_MS, now_ms),
        }
    }

    /// The shotgun held at `mount` is in its zone.
    pub open spec fn armed(mount: Vec2, player: Vec2) -> bool {
        horizontal_gap(mount, player) <= ZONE_EDGE
    }

    /// The shotgun fires on a tick at `now_ms`.
    pub open spec fn fires(self, mount: Vec2, player: Vec2, now_ms: u64) -> bool {
        Shotgun::armed(mount, player) && self.cooldown.expired_at(now_ms)
    }

    /// The shotgun after a tick at `now_ms`.
    pub open spec fn after_tick(self, mount: Vec2, player: Vec2, now_ms: u64) -> Shotgun {
        if !Shotgun::armed(mount, player) {
            Shotgun { active: false, visible: false, cooldown: self.cooldown }
        } else if self.cooldown.expired_at(now_ms) {
            Shotgun {
                active: true,
                visible: true,
                cooldown: Timer { duration_ms: SHOTGUN_COOLDOWN_MS, started_ms: now_ms },
            }
        } else {
            Shotgun { active: true, visible: true, cooldown: self.cooldown }
        }
    }

    /// The three projectiles of a shot from `mount` at `now_ms`. All leave
    /// the mount together; they are aimed at the player's height, at half of
    /// it and at twice it, which spreads them vertically.
    pub open spec fn volley(mount: Vec2, player: Vec2, now_ms: u64) -> Seq<Projectile> {
        seq![
            Projectile::launched(mount, aim_at_height(mount, player, player.y as int), now_ms),
            Projectile::launched(
                mount,
                aim_at_height(mount, player, half(player.y as int)),
                now_ms,
            ),
            Projectile::launched(mount, aim_at_height(mount, player, 2 * player.y), now_ms),
        ]
    }
}

/// One tick of the shotgun.
///
/// Outside a round nothing happens. In a round the shotgun is moved to its
/// mount and turned toward the player like the gun; it is armed, and shown,
/// exactly while the player is at most `ZONE_EDGE` away horizontally; armed
/// and with its cooldown over, it fires its volley and the cooldown starts
/// again.
pub fn shotgun_step(
    phase: MatchState,
    shotgun: &mut Shotgun,
    mount: &mut Vec2,
    opponent: Vec2,
    player: Vec2,
    now_ms: u64,
) -> (report: ShotgunReport)
    ensures
        phase == MatchState::Menu ==> *final(shotgun) == *old(shotgun) && *final(mount) == *old(
            mount,
        ) && report.facing.is_none() && report.fired@ == Seq::<Projectile>::empty(),
        phase == MatchState::Fighting ==> {
            &&& *final(mount) == mount_point(opponent)
            &&& *final(shotgun) == old(shotgun).after_tick(mount_point(opponent), player, now_ms)
            &&& report.facing == Some(aim_at(*old(mount), player))
            &&& report.fired@ == if old(shotgun).fires(mount_point(opponent), player, now_ms) {
                Shotgun::volley(mount_point(opponent), player, now_ms)
            } else {
                Seq::<Projectile>::empty()
            }
        },
        forall|i: int| 0 <= i < report.fired.len() ==> (#[trigger] report.fired[i]).wf(),
{
    let mut fired: Vec<Projectile> = Vec::new();
    match phase {
        MatchState::Menu => ShotgunReport { facing: None, fired },
        MatchState::Fighting => {
            let facing: Heading = aim(*mount, player);
            let held: Vec2 = place_mount(opponent);
            *mount = held;
            shotgun.active = gap_between(held, player) <= ZONE_EDGE;
            shotgun.visible = shotgun.active;
            if shotgun.active && shotgun.cooldown.expired(now_ms) {
                shotgun.cooldown = Timer::start(SHOTGUN_COOLDOWN_MS, now_ms);
                let level: i64 = player.y as i64;
                fired.push(Projectile::launch(held, aim_height(held, player, level), now_ms));
                fired.push(Projectile::launch(held, aim_height(held, player, level / 2), now_ms));
                fired.push(Projectile::launch(held, aim_height(held, player, 2 * level), now_ms));
                assert(fired@ =~= Shotgun::volley(held, player, now_ms));
            }
            ShotgunReport { facing: Some(facing), fired }
        },
    }
}

/// While the shotgun's cooldown lasts the shotgun does not fire and the
/// cooldown is not touched, wherever the fighters stand; a shot restarts the
/// cooldown at the time of the shot.
pub proof fn lemma_shotgun_respects_cooldown(
    shotgun: Shotgun,
    mount: Vec2,
    player: Vec2,
    now_ms: u64,
)
    ensures
        !shotgun.cooldown.expired_at(now_ms) ==> !shotgun.fires(mount, player, now_ms)
            && shotgun.after_tick(mount, player, now_ms).cooldown == shotgun.cooldown,
        shotgun.fires(mount, player, now_ms) ==> shotgun.after_tick(
            mount,
            player,
            now_ms,
        ).cooldown == (Timer { duration_ms: SHOTGUN_COOLDOWN_MS, started_ms: now_ms }),
        !shotgun.fires(mount, player, now_ms) ==> shotgun.after_tick(
            mount,
            player,
            now_ms,
        ).cooldown == shotgun.cooldown,
{
}

/// Where the fighters stand, and the time, on one tick of a ranged weapon.
#[derive(Clone, Copy, Debug, PartialEq, Eq, Structural)]
pub struct RangedTick {
    pub opponent: Vec2,
    pub player: Vec2,
    pub now_ms: u64,
}

impl Gun {
    /// The gun after a run of ticks of a round, the first of the sequence
    /// first.
    pub open spec fn after_ticks(self, ticks: Seq<RangedTick>) -> Gun
        decreases ticks.len(),
    {
        if ticks.len() == 0 {
            self
        } else {
            let last = ticks.last();
            self.after_ticks(ticks.drop_last()).after_tick(
                mount_point(last.opponent),
                last.player,
                last.now_ms,
            )
        }
    }

    /// The gun fires on the tick of the run with index `i`.
    pub open spec fn fires_on(self, ticks: Seq<RangedTick>, i: int) -> bool {
        self.after_ticks(ticks.take(i)).fires(
            mount_point(ticks[i].opponent),
            ticks[i].player,
            ticks[i].now_ms,
        )
    }
}

impl Shotgun {
    /// The shotgun after a run of ticks of a round, the first of the sequence
    /// first.
    pub open spec fn after_ticks(self, ticks: Seq<RangedTick>) -> Shotgun
        decreases ticks.len(),
    {
        if ticks.len() == 0 {
            self
        } else {
            let last = ticks.last();
            self.after_ticks(ticks.drop_last()).after_tick(
                mount_point(last.opponent),
                last.player,
                last.now_ms,
            )
        }
    }

    /// The shotgun fires on the tick of the run with index `i`.
    pub open spec fn fires_on(self, ticks: Seq<RangedTick>, i: int) -> bool {
        self.after_ticks(ticks.take(i)).fires(
            mount_point(ticks[i].opponent),
            ticks[i].player,
            ticks[i].now_ms,
        )
    }
}

/// On no tick of a run whose ticks all come before the end of the cooldown
/// does the gun fire, wherever the fighters stand, and the cooldown is left
/// as it was.
pub proof fn lemma_gun_silent_during_cooldown(gun: Gun, ticks: Seq<RangedTick>)
    requires
        forall|i: int|
            0 <= i < ticks.len() ==> !gun.cooldown.expired_at((#[trigger] ticks[i]).now_ms),
    ensures
        gun.after_ticks(ticks).cooldown == gun.cooldown,
        forall|i: int| 0 <= i < ticks.len() ==> !#[trigger] gun.fires_on(ticks, i),
    decreases ticks.len(),
{
    if ticks.len() > 0 {
        let n = ticks.len() - 1;
        let earlier = ticks.drop_last();
        assert forall|i: int| 0 <= i < earlier.len() implies !gun.cooldown.expired_at(
            (#[trigger] earlier[i]).now_ms,
        ) by {
            assert(earlier[i] == ticks[i]);
        }
        lemma_gun_silent_during_cooldown(gun, earlier);
        assert(!gun.cooldown.expired_at(ticks[n].now_ms));
        assert(ticks.take(n) == earlier);
        assert forall|i: int| 0 <= i < ticks.len() implies !#[trigger] gun.fires_on(ticks, i) by {
            if i < n {
                assert(ticks.take(i) == earlier.take(i));
                assert(ticks[i] == earlier[i]);
                assert(!gun.fires_on(earlier, i));
            }
        }
    }
}

/// A gun that fires at one time cannot fire again before that time plus its
/// cooldown: on no tick of a run that follows the shot and ends before then
/// does it fire.
pub proof fn lemma_gun_waits_after_shot(
    gun: Gun,
    mount: Vec2,
    player: Vec2,
    shot_ms: u64,
    ticks: Seq<RangedTick>,
)
    requires
        gun.fires(mount, player, shot_ms),
        forall|i: int|
            0 <= i < ticks.len() ==> (#[trigger] ticks[i]).now_ms < shot_ms + GUN_COOLDOWN_MS,
    ensures
        forall|i: int|
            0 <= i < ticks.len() ==> !#[trigger] gun.after_tick(mount, player, shot_ms).fires_on(
                ticks,
                i,
            ),
{
    let next = gun.after_tick(mount, player, shot_ms);
    assert forall|i: int| 0 <= i < ticks.len() implies !next.cooldown.expired_at(
        (#[trigger] ticks[i]).now_ms,
    ) by {
        lemma_open_before_end(next.cooldown, ticks[i].now_ms);
    }
    lemma_gun_silent_during_cooldown(next, ticks);
}

/// On no tick of a run whose ticks all come before the end of the cooldown
/// does the shotgun fire, wherever the fighters stand, and the cooldown is
/// left as it was.
pub proof fn lemma_shotgun_silent_during_cooldown(shotgun: Shotgun, ticks: Seq<RangedTick>)
    requires
        forall|i: int|
            0 <= i < ticks.len() ==> !shotgun.cooldown.expired_at((#[trigger] ticks[i]).now_ms),
    ensures
        shotgun.after_ticks(ticks).cooldown == shotgun.cooldown,
        forall|i: int| 0 <= i < ticks.len() ==> !#[trigger] shotgun.fires_on(ticks, i),
    decreases ticks.len(),
{
    if ticks.len() > 0 {
        let n = ticks.len() - 1;
        let earlier = ticks.drop_last();
        assert forall|i: int| 0 <= i < earlier.len() implies !shotgun.cooldown.expired_at(
            (#[trigger] earlier[i]).now_ms,
        ) by {
            assert(earlier[i] == ticks[i]);
        }
        lemma_shotgun_silent_during_cooldown(shotgun, earlier);
        assert(!shotgun.cooldown.expired_at(ticks[n].now_ms));
        assert(ticks.take(n) == earlier);
        assert forall|i: int| 0 <= i < ticks.len() implies !#[trigger] shotgun.fires_on(
            ticks,
            i,
        ) by {
            if i < n {
                assert(ticks.take(i) == earlier.take(i));
                assert(ticks[i] == earlier[i]);
                assert(!shotgun.fires_on(earlier, i));
            }
        }
    }
}

/// A shotgun that fires at one time cannot fire again before that time plus
/// its cooldown: on no tick of a run that follows the shot and ends before
/// then does it fire.
pub proof fn lemma_shotgun_waits_after_shot(
    shotgun: Shotgun,
    mount: Vec2,
    player: Vec2,
    shot_ms: u64,
    ticks: Seq<RangedTick>,
)
    requires
        shotgun.fires(mount, player, shot_ms),
        forall|i: int|
            0 <= i < ticks.len() ==> (#[trigger] ticks[i]).now_ms < shot_ms
                + SHOTGUN_COOLDOWN_MS,
    ensures
        forall|i: int|
            0 <= i < ticks.len() ==> !#[trigger] shotgun.after_tick(
                mount,
                player,
                shot_ms,
            ).fires_on(ticks, i),
{
    let next = shotgun.after_tick(mount, player, shot_ms);
    assert forall|i: int| 0 <= i < ticks.len() implies !next.cooldown.expired_at(
        (#[trigger] ticks[i]).now_ms,
    ) by {
        lemma_open_before_end(next.cooldown, ticks[i].now_ms);
    }
    lemma_shotgun_silent_during_cooldown(next, ticks);
}

/// The two zones cover every distance: wherever the fighters stand, the gun
/// or the shotgun is armed, and both are armed only at exactly `ZONE_EDGE`.
pub proof fn lemma_zones_cover(mount: Vec2, player: Vec2)
    ensures
        Gun::armed(mount, player) || Shotgun::armed(mount, player),
        Gun::armed(mount, player) && Shotgun::armed(mount, player) <==> horizontal_gap(
            mount,
            player,
        ) == ZONE_EDGE,
{
}

/// After every tick of a round each weapon is shown exactly while it is
/// armed, whether or not it fires on that tick.
pub proof fn lemma_shown_while_armed(
    gun: Gun,
    shotgun: Shotgun,
    mount: Vec2,
    player: Vec2,
    now_ms: u64,
)
    ensures
        gun.after_tick(mount, player, now_ms).active == Gun::armed(mount, player),
        gun.after_tick(mount, player, now_ms).visible == Gun::armed(mount, player),
        shotgun.after_tick(mount, player, now_ms).active == Shotgun::armed(mount, player),
        shotgun.after_tick(mount, player, now_ms).visible == Shotgun::armed(mount, player),
{
}

} // verus!
