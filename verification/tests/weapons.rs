use arena_duel::actor::Body;
use arena_duel::melee::{melee_step, Melee, MeleeInput, SWING_MS};
use arena_duel::projectile::{Heading, Projectile};
use arena_duel::ranged::{
    gun_step, shotgun_step, Gun, GunReport, Shotgun, GUN_COOLDOWN_MS, SHOTGUN_COOLDOWN_MS,
    ZONE_EDGE,
};
use arena_duel::round::MatchState;
use arena_duel::space::Vec2;
use arena_duel::timing::Timer;

fn at(x: i32, y: i32) -> Vec2 {
    Vec2 { x, y }
}

#[test]
fn gun_is_set_up_with_its_cooldown_running() {
    let g = Gun::new(3);
    assert!(g.active && !g.visible);
    assert_eq!(g.cooldown, Timer { duration_ms: GUN_COOLDOWN_MS, started_ms: 3 });
    assert_eq!(GUN_COOLDOWN_MS, 569);
    assert_eq!(g.cooldown, Timer { duration_ms: 569, started_ms: 3 });
    assert_eq!(ZONE_EDGE, 400_000);
}

#[test]
fn gun_is_armed_at_450_and_hidden_at_350() {
    let mut g = Gun::new(0);
    let mut mount = at(0, 0);
    gun_step(MatchState::Fighting, &mut g, &mut mount, at(450_000, 0), at(0, 0), 1_000);
    assert!(g.active);
    assert!(g.visible);
    gun_step(MatchState::Fighting, &mut g, &mut mount, at(350_000, 0), at(0, 0), 1_016);
    assert!(!g.active);
    assert!(!g.visible);
    gun_step(MatchState::Fighting, &mut g, &mut mount, at(-450_000, 0), at(0, 0), 1_032);
    assert!(g.active);
}

#[test]
fn gun_is_shown_while_armed_whether_or_not_it_fires() {
    let mut g = Gun::new(0);
    let mut mount = at(0, 0);
    // in the zone with the cooldown still running: armed and shown, no shot
    let waiting = gun_step(MatchState::Fighting, &mut g, &mut mount, at(450_000, 0), at(0, 0), 10);
    assert_eq!(waiting.fired, None);
    assert!(g.active && g.visible);
    let out = gun_step(MatchState::Fighting, &mut g, &mut mount, at(350_000, 0), at(0, 0), 20);
    assert_eq!(out.fired, None);
    assert!(!g.active && !g.visible);
    // back in the zone, still before the first shot
    let back = gun_step(MatchState::Fighting, &mut g, &mut mount, at(450_000, 0), at(0, 0), 30);
    assert_eq!(back.fired, None);
    assert!(g.active && g.visible);
    // after a shot, through the whole cooldown
    assert!(gun_step(MatchState::Fighting, &mut g, &mut mount, at(450_000, 0), at(0, 0), 600).fired.is_some());
    assert!(g.visible);
    gun_step(MatchState::Fighting, &mut g, &mut mount, at(450_000, 0), at(0, 0), 700);
    assert!(g.active && g.visible);
}

#[test]
fn gun_zone_includes_its_edge() {
    let mut g = Gun::new(0);
    let mut mount = at(0, 0);
    gun_step(MatchState::Fighting, &mut g, &mut mount, at(400_000, 0), at(0, 0), 0);
    assert!(g.active);
    gun_step(MatchState::Fighting, &mut g, &mut mount, at(399_999, 0), at(0, 0), 0);
    assert!(!g.active);
    gun_step(MatchState::Fighting, &mut g, &mut mount, at(-100_000, 0), at(300_000, 0), 0);
    assert!(g.active);
}

#[test]
fn gun_is_held_below_the_opponent_and_faces_the_player() {
    let mut g = Gun::new(0);
    let mut mount = at(7_000, 9_000);
    let r = gun_step(MatchState::Fighting, &mut g, &mut mount, at(300_000, 200_000), at(1_000, 2_000), 0);
    assert_eq!(mount, at(300_000, 190_000));
    // the facing is taken from where the gun was before the tick
    assert_eq!(r.facing, Some(Heading { dx: 6_000, dy: 7_000 }));
    assert_eq!(r.fired, None);
    let mut low = at(0, 0);
    gun_step(MatchState::Fighting, &mut g, &mut low, at(5, i32::MIN + 3), at(0, 0), 0);
    assert_eq!(low, at(5, i32::MIN));
}

#[test]
fn gun_fires_one_projectile_with_a_frozen_heading() {
    let mut g = Gun::new(0);
    let mut mount = at(0, 0);
    let opponent = at(500_000, 100_000);
    let player = at(20_000, 30_000);
    let early = gun_step(MatchState::Fighting, &mut g, &mut mount, opponent, player, 568);
    assert_eq!(early.fired, None);
    assert!(g.active && g.visible);
    assert_eq!(g.cooldown, Timer { duration_ms: 569, started_ms: 0 });
    let r = gun_step(MatchState::Fighting, &mut g, &mut mount, opponent, player, 569);
    let shot = r.fired.unwrap();
    assert_eq!(shot.position, at(500_000, 90_000));
    assert_eq!(shot.heading, Heading { dx: 480_000, dy: 60_000 });
    assert_eq!(shot.timer, Timer { duration_ms: 4_000, started_ms: 569 });
    assert!(g.visible);
    assert_eq!(g.cooldown, Timer { duration_ms: 569, started_ms: 569 });
    assert_eq!(r.facing, Some(Heading { dx: 480_000, dy: 60_000 }));
}

#[test]
fn gun_waits_out_its_cooldown() {
    let mut g = Gun::new(0);
    let mut mount = at(0, 0);
    let opponent = at(500_000, 0);
    assert!(gun_step(MatchState::Fighting, &mut g, &mut mount, opponent, at(0, 0), 1_000).fired.is_some());
    let mut now: u64 = 1_001;
    while now < 1_569 {
        // wherever the player goes
        let player = at((now as i32) * 1_000 - 1_200_000, 0);
        let r = gun_step(MatchState::Fighting, &mut g, &mut mount, opponent, player, now);
        assert_eq!(r.fired, None);
        assert_eq!(g.cooldown, Timer { duration_ms: 569, started_ms: 1_000 });
        now += 1;
    }
    // a clock that reads earlier than the shot does not release the gun either
    assert_eq!(gun_step(MatchState::Fighting, &mut g, &mut mount, opponent, at(0, 0), 10).fired, None);
    assert!(gun_step(MatchState::Fighting, &mut g, &mut mount, opponent, at(0, 0), 1_569).fired.is_some());
    assert_eq!(g.cooldown.started_ms, 1_569);
}

#[test]
fn gun_out_of_its_zone_holds_fire_and_keeps_its_clock() {
    let mut g = Gun::new(0);
    let mut mount = at(0, 0);
    let r = gun_step(MatchState::Fighting, &mut g, &mut mount, at(100_000, 0), at(0, 0), 10_000);
    assert_eq!(r.fired, None);
    assert_eq!(g.cooldown, Timer { duration_ms: 569, started_ms: 0 });
    assert!(!g.active && !g.visible);
}

#[test]
fn gun_is_inert_in_the_menu() {
    let mut g = Gun::new(0);
    let mut mount = at(1, 2);
    let r = gun_step(MatchState::Menu, &mut g, &mut mount, at(500_000, 0), at(0, 0), 10_000);
    assert_eq!(r, GunReport { facing: None, fired: None });
    assert_eq!(g, Gun::new(0));
    assert_eq!(mount, at(1, 2));
}

#[test]
fn shotgun_is_armed_near_and_shown_while_armed() {
    let mut s = Shotgun::new(0);
    assert!(!s.active && s.visible);
    assert_eq!(s.cooldown, Timer { duration_ms: SHOTGUN_COOLDOWN_MS, started_ms: 0 });
    let mut mount = at(0, 0);
    shotgun_step(MatchState::Fighting, &mut s, &mut mount, at(350_000, 0), at(0, 0), 10);
    assert!(s.active && s.visible);
    shotgun_step(MatchState::Fighting, &mut s, &mut mount, at(400_000, 0), at(0, 0), 20);
    assert!(s.active && s.visible);
    shotgun_step(MatchState::Fighting, &mut s, &mut mount, at(400_001, 0), at(0, 0), 30);
    assert!(!s.active && !s.visible);
    shotgun_step(MatchState::Fighting, &mut s, &mut mount, at(450_000, 0), at(0, 0), 40);
    assert!(!s.active && !s.visible);
}

#[test]
fn both_weapons_are_armed_on_the_edge() {
    let mut g = Gun::new(0);
    let mut s = Shotgun::new(0);
    let mut gm = at(0, 0);
    let mut sm = at(0, 0);
    gun_step(MatchState::Fighting, &mut g, &mut gm, at(0, 0), at(400_000, 0), 1);
    shotgun_step(MatchState::Fighting, &mut s, &mut sm, at(0, 0), at(400_000, 0), 1);
    assert!(g.active && s.active);
}

#[test]
fn shotgun_fires_three_projectiles_spread_vertically() {
    let mut s = Shotgun::new(0);
    let mut mount = at(9, 9);
    let opponent = at(300_000, 210_000);
    let player = at(50_000, 80_000);
    let early = shotgun_step(MatchState::Fighting, &mut s, &mut mount, opponent, player, 4_999);
    assert!(early.fired.is_empty());
    assert_eq!(early.facing, Some(Heading { dx: 9 - 50_000, dy: 9 - 80_000 }));
    let r = shotgun_step(MatchState::Fighting, &mut s, &mut mount, opponent, player, 5_000);
    assert_eq!(mount, at(300_000, 200_000));
    assert_eq!(r.fired.len(), 3);
    for p in r.fired.iter() {
        assert_eq!(p.position, at(300_000, 200_000));
        assert_eq!(p.timer, Timer { duration_ms: 4_000, started_ms: 5_000 });
        assert_eq!(p.heading.dx, 250_000);
    }
    assert_eq!(r.fired[0].heading.dy, 120_000);
    assert_eq!(r.fired[1].heading.dy, 160_000);
    assert_eq!(r.fired[2].heading.dy, 40_000);
    assert_eq!(s.cooldown, Timer { duration_ms: 5_000, started_ms: 5_000 });
}

#[test]
fn shotgun_halves_toward_zero() {
    let mut s = Shotgun::new(0);
    let mut mount = at(0, 0);
    let r = shotgun_step(MatchState::Fighting, &mut s, &mut mount, at(0, 10_000), at(0, -3), 5_000);
    assert_eq!(r.fired[0].heading, Heading { dx: 0, dy: 3 });
    assert_eq!(r.fired[1].heading, Heading { dx: 0, dy: 1 });
    assert_eq!(r.fired[2].heading, Heading { dx: 0, dy: 6 });
}

#[test]
fn shotgun_aims_from_the_far_corners() {
    let mut s = Shotgun::new(0);
    let mut mount = at(0, 0);
    let r = shotgun_step(MatchState::Fighting, &mut s, &mut mount, at(i32::MAX, i32::MAX), at(i32::MAX, i32::MIN), 5_000);
    assert_eq!(r.fired.len(), 3);
    assert_eq!(r.fired[2].heading.dy, i32::MAX as i64 - 10_000 - 2 * (i32::MIN as i64));
    let mut flying: Vec<Projectile> = r.fired;
    arena_duel::projectile::advance_projectiles(&mut flying, 5_001);
    assert_eq!(flying.len(), 3);
    assert_eq!(flying[2].position, at(i32::MAX, i32::MAX - 10_000 - 3_000));
}

#[test]
fn shotgun_waits_out_its_cooldown() {
    let mut s = Shotgun::new(0);
    let mut mount = at(0, 0);
    assert_eq!(shotgun_step(MatchState::Fighting, &mut s, &mut mount, at(0, 0), at(0, 0), 6_000).fired.len(), 3);
    let mut now: u64 = 6_001;
    while now < 11_000 {
        let r = shotgun_step(MatchState::Fighting, &mut s, &mut mount, at(0, 0), at(0, 0), now);
        assert!(r.fired.is_empty());
        assert_eq!(s.cooldown.started_ms, 6_000);
        now += 7;
    }
    assert_eq!(shotgun_step(MatchState::Fighting, &mut s, &mut mount, at(0, 0), at(0, 0), 11_000).fired.len(), 3);
}

#[test]
fn shotgun_is_inert_in_the_menu() {
    let mut s = Shotgun::new(0);
    let mut mount = at(1, 2);
    let r = shotgun_step(MatchState::Menu, &mut s, &mut mount, at(0, 0), at(0, 0), 10_000);
    assert!(r.fired.is_empty());
    assert_eq!(r.facing, None);
    assert_eq!(s, Shotgun::new(0));
    assert_eq!(mount, at(1, 2));
}

fn rest() -> Body {
    Body { position: at(0, 200_000), velocity: at(0, 0) }
}

const IDLE: MeleeInput = MeleeInput { pressed: false, reach: Vec2 { x: 0, y: 0 } };

#[test]
fn melee_trails_the_player() {
    let mut m = Melee::new(0);
    let mut b = rest();
    assert!(!melee_step(MatchState::Fighting, &mut m, &mut b, at(12_000, -34_000), IDLE, 16));
    assert_eq!(b.position, at(12_000, -34_000));
    assert_eq!(m.pivot, at(12_000, -34_000));
    assert_eq!(m.offset, at(0, 0));
    assert_eq!(b.velocity, at(0, 0));
    assert!(!m.swinging && m.swing_over);
}

#[test]
fn melee_swing_grows_then_ends() {
    let mut m = Melee::new(0);
    let mut b = rest();
    let player = at(10_000, 20_000);
    let reach = at(150_000, -80_000);
    assert_eq!(SWING_MS, 400);
    assert!(melee_step(MatchState::Fighting, &mut m, &mut b, player, MeleeInput { pressed: true, reach }, 0));
    assert!(m.swinging && !m.swing_over);
    assert_eq!(m.window, Timer { duration_ms: 400, started_ms: 0 });
    assert_eq!(m.offset, at(0, 0));
    // first tick of the swing: seeded with a hundredth of the reach, then grown
    melee_step(MatchState::Fighting, &mut m, &mut b, player, MeleeInput { pressed: false, reach }, 50);
    assert_eq!(m.offset, at(1_605, -856));
    assert_eq!(b.position, at(11_605, 19_144));
    assert_eq!(b.velocity, reach);
    melee_step(MatchState::Fighting, &mut m, &mut b, player, MeleeInput { pressed: false, reach }, 100);
    assert_eq!(m.offset, at(1_717, -915));
    let at_100 = m.offset;
    melee_step(MatchState::Fighting, &mut m, &mut b, player, MeleeInput { pressed: false, reach }, 150);
    assert!(m.offset.x > at_100.x && m.offset.y < at_100.y);
    assert!(m.swinging);
    // past the end of the window the swing is over and the weapon is back
    melee_step(MatchState::Fighting, &mut m, &mut b, player, MeleeInput { pressed: false, reach }, 500);
    assert!(!m.swinging && m.swing_over);
    assert_eq!(m.offset, at(0, 0));
    assert_eq!(b.position, player);
    assert_eq!(m.window, Timer { duration_ms: 400, started_ms: 500 });
}

#[test]
fn melee_swing_cannot_begin_again_midway() {
    let mut m = Melee::new(0);
    let mut b = rest();
    let press = MeleeInput { pressed: true, reach: at(100_000, 100_000) };
    assert!(melee_step(MatchState::Fighting, &mut m, &mut b, at(0, 0), press, 1_000));
    let mut now: u64 = 1_010;
    while now < 1_400 {
        assert!(!melee_step(MatchState::Fighting, &mut m, &mut b, at(0, 0), press, now));
        assert_eq!(m.window, Timer { duration_ms: 400, started_ms: 1_000 });
        assert!(m.swinging);
        now += 10;
    }
    // the tick that finds the window over ends the swing and begins the next
    assert!(melee_step(MatchState::Fighting, &mut m, &mut b, at(0, 0), press, 1_400));
    assert_eq!(m.window, Timer { duration_ms: 400, started_ms: 1_400 });
    assert_eq!(m.offset, at(0, 0));
    assert!(m.swinging && !m.swing_over);
}

#[test]
fn melee_offset_stops_at_the_edge_of_the_range() {
    let mut m = Melee::new(0);
    m.swinging = true;
    m.swing_over = false;
    m.window = Timer { duration_ms: 400, started_ms: 0 };
    m.offset = at(i32::MAX - 5, i32::MIN + 5);
    let mut b = rest();
    melee_step(MatchState::Fighting, &mut m, &mut b, at(1_000, -1_000), IDLE, 10);
    assert_eq!(m.offset, at(i32::MAX, i32::MIN));
    assert_eq!(b.position, at(i32::MAX, i32::MIN));
}

#[test]
fn melee_without_a_cursor_stays_on_the_player() {
    let mut m = Melee::new(0);
    let mut b = rest();
    melee_step(MatchState::Fighting, &mut m, &mut b, at(5, 5), MeleeInput { pressed: true, reach: at(0, 0) }, 0);
    melee_step(MatchState::Fighting, &mut m, &mut b, at(5, 5), IDLE, 100);
    assert_eq!(m.offset, at(0, 0));
    assert_eq!(b.position, at(5, 5));
    // a reach of less than a hundred steps seeds nothing
    melee_step(MatchState::Fighting, &mut m, &mut b, at(5, 5), MeleeInput { pressed: false, reach: at(99, -99) }, 200);
    assert_eq!(m.offset, at(0, 0));
}

#[test]
fn melee_is_inert_in_the_menu() {
    let mut m = Melee::new(0);
    let mut b = rest();
    let press = MeleeInput { pressed: true, reach: at(100_000, 100_000) };
    assert!(!melee_step(MatchState::Menu, &mut m, &mut b, at(7, 7), press, 1_000));
    assert_eq!(m, Melee::new(0));
    assert_eq!(b, rest());
}

#[test]
fn one_weapon_is_armed_at_every_distance() {
    let mut gap: i32 = 0;
    while gap <= 800_000 {
        let mut g = Gun::new(0);
        let mut s = Shotgun::new(0);
        let mut gm = at(0, 0);
        let mut sm = at(0, 0);
        gun_step(MatchState::Fighting, &mut g, &mut gm, at(gap - 100_000, 0), at(-100_000, 0), 1);
        shotgun_step(MatchState::Fighting, &mut s, &mut sm, at(gap - 100_000, 0), at(-100_000, 0), 1);
        assert!(g.active || s.active);
        assert_eq!(g.active && s.active, gap == 400_000);
        gap += 12_500;
    }
}
