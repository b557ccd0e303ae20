use arena_duel::actor::{apply_bias, lose_life, Body, Tint, GRAVITY_BIAS, JUMP_SPEED, STUN_MS, WALK_SPEED};
use arena_duel::opponent::{
    draw_whim, opponent_step, opponent_turn, Opponent, Whim, JUMP_CHOICES, OPPONENT_JUMP_MS,
    OPPONENT_LIVES, WALK_CHOICES,
};
use arena_duel::player::{player_step, Player, PlayerInput, PLAYER_JUMP_MS, PLAYER_START_LIVES};
use arena_duel::round::MatchState;
use arena_duel::space::{ColliderTag, Contacts, Obstacle, Vec2};
use arena_duel::timing::Timer;

const NO_KEYS: PlayerInput = PlayerInput { left: false, right: false, jump_pressed: false };
const JUMP_KEY: PlayerInput = PlayerInput { left: false, right: false, jump_pressed: true };
const CLEAR: Contacts = Contacts { landed: false, struck: false };
const LANDED: Contacts = Contacts { landed: true, struck: false };
const STRUCK: Contacts = Contacts { landed: false, struck: true };
const STILL: Whim = Whim { walk: 7, jump: 0 };

fn body_at(x: i32, y: i32) -> Body {
    Body { position: Vec2 { x, y }, velocity: Vec2 { x: 0, y: 0 } }
}

fn ground() -> Obstacle {
    Obstacle { tag: ColliderTag::Solid, position: Vec2 { x: 0, y: -200_000 } }
}

#[test]
fn bias_and_lives_saturate() {
    assert_eq!(GRAVITY_BIAS, 500_000);
    assert_eq!(apply_bias(0), -500_000);
    assert_eq!(apply_bias(500_000), 0);
    assert_eq!(apply_bias(i32::MIN), i32::MIN);
    assert_eq!(apply_bias(i32::MIN + 499_999), i32::MIN);
    assert_eq!(apply_bias(i32::MIN + 500_001), i32::MIN + 1);
    assert_eq!(lose_life(3), 2);
    assert_eq!(lose_life(1), 0);
    assert_eq!(lose_life(0), 0);
}

#[test]
fn player_is_set_up_in_the_air() {
    let p = Player::new(42);
    assert_eq!(p.lives, PLAYER_START_LIVES);
    assert_eq!(p.lives, 5);
    assert!(!p.is_jumping && p.end_jump && !p.can_jump && !p.hit);
    assert_eq!(p.tint, Tint::Normal);
    assert_eq!(p.jump_timer, Timer { duration_ms: 0, started_ms: 42 });
    assert_eq!(p.stun_timer, Timer { duration_ms: 0, started_ms: 42 });
}

#[test]
fn player_holding_right_moves_right_and_falls() {
    let mut p = Player::new(0);
    let mut b = body_at(0, 0);
    let keys = PlayerInput { left: false, right: true, jump_pressed: false };
    let hurt = player_step(MatchState::Fighting, &mut p, &mut b, keys, &Vec::new(), 16);
    assert!(!hurt);
    assert_eq!(b.velocity, Vec2 { x: WALK_SPEED, y: -500_000 });
    assert_eq!(b.velocity, Vec2 { x: 200_000, y: -500_000 });
    assert_eq!(b.position, Vec2 { x: 0, y: 0 });
    assert_eq!(p, Player::new(0));
}

#[test]
fn player_walks_by_the_one_held_key() {
    let mut p = Player::new(0);
    let mut b = body_at(0, 0);
    b.velocity = Vec2 { x: 123, y: 0 };
    p.tick(&mut b, PlayerInput { left: true, right: false, jump_pressed: false }, CLEAR, 1);
    assert_eq!(b.velocity.x, -200_000);
    // no key: the old speed stays
    p.tick(&mut b, NO_KEYS, CLEAR, 2);
    assert_eq!(b.velocity.x, -200_000);
    // both keys: the old speed stays
    p.tick(&mut b, PlayerInput { left: true, right: true, jump_pressed: false }, CLEAR, 3);
    assert_eq!(b.velocity.x, -200_000);
    p.tick(&mut b, PlayerInput { left: false, right: true, jump_pressed: false }, CLEAR, 4);
    assert_eq!(b.velocity.x, 200_000);
}

#[test]
fn player_falls_faster_every_tick() {
    let mut p = Player::new(0);
    let mut b = body_at(0, 0);
    p.tick(&mut b, NO_KEYS, CLEAR, 1);
    p.tick(&mut b, NO_KEYS, CLEAR, 2);
    p.tick(&mut b, NO_KEYS, CLEAR, 3);
    assert_eq!(b.velocity.y, -1_500_000);
    b.velocity.y = i32::MIN + 10;
    p.tick(&mut b, NO_KEYS, CLEAR, 4);
    assert_eq!(b.velocity.y, i32::MIN);
}

#[test]
fn player_is_inert_in_the_menu() {
    let mut p = Player::new(0);
    p.can_jump = true;
    let mut b = body_at(5, -300_000);
    b.velocity = Vec2 { x: 1, y: 2 };
    let bullet = Obstacle { tag: ColliderTag::Projectile, position: Vec2 { x: 40_000, y: -300_000 } };
    let keys = PlayerInput { left: true, right: false, jump_pressed: true };
    let before = (p, b);
    let hurt = player_step(MatchState::Menu, &mut p, &mut b, keys, &vec![bullet, ground()], 9_999);
    assert!(!hurt);
    assert_eq!((p, b), before);
}

#[test]
fn landing_stops_the_fall_and_opens_the_latch() {
    let mut p = Player::new(0);
    let mut b = body_at(0, -100_000);
    b.velocity = Vec2 { x: 0, y: -2_000_000 };
    player_step(MatchState::Fighting, &mut p, &mut b, NO_KEYS, &vec![ground()], 10);
    assert_eq!(b.velocity.y, 0);
    assert!(p.can_jump && !p.is_jumping && !p.end_jump);
}

#[test]
fn jump_needs_the_latch() {
    let mut p = Player::new(0);
    let mut b = body_at(0, 0);
    p.tick(&mut b, JUMP_KEY, CLEAR, 10);
    assert!(!p.is_jumping);
    assert_eq!(b.velocity.y, -500_000);
    assert_eq!(p.jump_timer, Timer { duration_ms: 0, started_ms: 0 });
}

#[test]
fn jump_rises_for_one_second() {
    let mut p = Player::new(0);
    let mut b = body_at(0, 0);
    p.tick(&mut b, NO_KEYS, LANDED, 100);
    p.tick(&mut b, JUMP_KEY, CLEAR, 200);
    assert!(p.is_jumping && !p.can_jump && !p.end_jump);
    assert_eq!(p.jump_timer, Timer { duration_ms: PLAYER_JUMP_MS, started_ms: 200 });
    assert_eq!(b.velocity.y, JUMP_SPEED);
    p.tick(&mut b, NO_KEYS, CLEAR, 1_199);
    assert_eq!(b.velocity.y, 500_000);
    assert!(!p.end_jump);
    // the tick that finds the time up still rises, and ends the rise
    p.tick(&mut b, NO_KEYS, CLEAR, 1_200);
    assert_eq!(b.velocity.y, 500_000);
    assert!(p.end_jump && p.is_jumping);
    p.tick(&mut b, NO_KEYS, CLEAR, 1_216);
    assert_eq!(b.velocity.y, 0);
    p.tick(&mut b, NO_KEYS, CLEAR, 1_232);
    assert_eq!(b.velocity.y, -500_000);
}

#[test]
fn jump_cannot_begin_again_before_a_landing() {
    let mut p = Player::new(0);
    let mut b = body_at(0, 0);
    p.tick(&mut b, NO_KEYS, LANDED, 100);
    p.tick(&mut b, JUMP_KEY, CLEAR, 200);
    let started = p.jump_timer;
    let mut now: u64 = 216;
    while now < 3_000 {
        p.tick(&mut b, JUMP_KEY, STRUCK, now);
        assert!(!p.can_jump);
        assert_eq!(p.jump_timer, started);
        now += 16;
    }
    p.tick(&mut b, NO_KEYS, LANDED, 3_000);
    assert!(p.can_jump && !p.is_jumping);
    p.tick(&mut b, JUMP_KEY, CLEAR, 3_016);
    assert_eq!(p.jump_timer, Timer { duration_ms: 1_000, started_ms: 3_016 });
    assert!(p.is_jumping && !p.can_jump);
}

#[test]
fn a_jump_that_begins_on_a_landing_ends_at_once() {
    let mut p = Player::new(0);
    let mut b = body_at(0, 0);
    p.tick(&mut b, NO_KEYS, LANDED, 100);
    p.tick(&mut b, JUMP_KEY, LANDED, 200);
    assert!(!p.is_jumping && p.can_jump);
    assert_eq!(b.velocity.y, 0);
    assert_eq!(p.jump_timer, Timer { duration_ms: 1_000, started_ms: 200 });
}

#[test]
fn player_loses_one_life_at_the_end_of_the_stun() {
    let mut p = Player::new(0);
    let mut b = body_at(0, 0);
    assert!(p.tick(&mut b, NO_KEYS, STRUCK, 1_000));
    assert!(p.hit);
    assert_eq!(p.tint, Tint::Hurt);
    assert_eq!(p.stun_timer, Timer { duration_ms: STUN_MS, started_ms: 1_000 });
    assert_eq!(p.lives, 5);
    let mut now: u64 = 1_016;
    while now < 4_000 {
        // struck again and again: no new window, no new report, no life lost
        assert!(!p.tick(&mut b, NO_KEYS, STRUCK, now));
        assert!(p.hit);
        assert_eq!(p.stun_timer, Timer { duration_ms: 3_000, started_ms: 1_000 });
        assert_eq!(p.lives, 5);
        now += 16;
    }
    assert!(!p.tick(&mut b, NO_KEYS, STRUCK, 4_000));
    assert!(!p.hit);
    assert_eq!(p.lives, 4);
    assert_eq!(p.tint, Tint::Normal);
    // the next strike opens a new window
    assert!(p.tick(&mut b, NO_KEYS, STRUCK, 4_016));
    assert_eq!(p.stun_timer, Timer { duration_ms: 3_000, started_ms: 4_016 });
    assert_eq!(p.lives, 4);
    p.tick(&mut b, NO_KEYS, CLEAR, 7_016);
    assert_eq!(p.lives, 3);
}

#[test]
fn player_lives_never_go_below_zero() {
    let mut p = Player::new(0);
    p.lives = 0;
    p.hit = true;
    p.stun_timer = Timer { duration_ms: 3_000, started_ms: 0 };
    let mut b = body_at(7, 7);
    p.tick(&mut b, NO_KEYS, CLEAR, 3_000);
    assert_eq!(p.lives, 0);
    assert!(!p.hit);
    assert_eq!(b.position, Vec2 { x: 0, y: 0 });
}

#[test]
fn player_is_struck_by_a_projectile_only() {
    let mut p = Player::new(0);
    let mut b = body_at(0, 0);
    let glove = Obstacle { tag: ColliderTag::MeleeHitbox, position: Vec2 { x: 40_000, y: 0 } };
    assert!(!player_step(MatchState::Fighting, &mut p, &mut b, NO_KEYS, &vec![glove], 5));
    assert!(!p.hit);
    let bullet = Obstacle { tag: ColliderTag::Projectile, position: Vec2 { x: 40_000, y: 0 } };
    assert!(player_step(MatchState::Fighting, &mut p, &mut b, NO_KEYS, &vec![glove, bullet], 6));
    assert!(p.hit);
    assert_eq!(p.stun_timer.started_ms, 6);
}

#[test]
fn player_returns_to_the_origin_from_below_the_limit() {
    let mut p = Player::new(0);
    let mut b = body_at(55_000, -200_001);
    p.tick(&mut b, NO_KEYS, CLEAR, 1);
    assert_eq!(b.position, Vec2 { x: 0, y: 0 });
    let mut at_limit = body_at(55_000, -200_000);
    p.tick(&mut at_limit, NO_KEYS, CLEAR, 2);
    assert_eq!(at_limit.position, Vec2 { x: 55_000, y: -200_000 });
}

#[test]
fn player_returns_to_the_origin_with_the_last_life() {
    let mut p = Player::new(0);
    p.lives = 1;
    let mut b = body_at(55_000, 10_000);
    p.tick(&mut b, NO_KEYS, STRUCK, 0);
    p.tick(&mut b, NO_KEYS, CLEAR, 2_999);
    assert_eq!(b.position, Vec2 { x: 55_000, y: 10_000 });
    p.tick(&mut b, NO_KEYS, CLEAR, 3_000);
    assert_eq!(p.lives, 0);
    assert_eq!(b.position, Vec2 { x: 0, y: 0 });
}

#[test]
fn opponent_is_set_up_with_ten_lives() {
    let o = Opponent::new(5);
    assert_eq!(o.lives, OPPONENT_LIVES);
    assert_eq!(o.lives, 10);
    assert!(!o.hit && !o.jump && o.jump_end);
    assert_eq!(o.jump_timer, Timer { duration_ms: OPPONENT_JUMP_MS, started_ms: 5 });
    assert_eq!(o.jump_timer.duration_ms, 300);
    assert_eq!(o.tint, Tint::Normal);
}

#[test]
fn opponent_patrols_its_corridor() {
    let mut o = Opponent::new(0);
    let right = Whim { walk: 1, jump: 0 };
    let left = Whim { walk: 0, jump: 0 };
    let mut b = body_at(300_000, 0);
    o.tick(&mut b, CLEAR, right, 1);
    assert_eq!(b.velocity.x, 200_000);
    assert_eq!(o.walk_x, 1);
    let mut beyond = body_at(300_001, 0);
    beyond.velocity.x = -5;
    o.tick(&mut beyond, CLEAR, right, 2);
    assert_eq!(beyond.velocity.x, -5);
    o.tick(&mut beyond, CLEAR, left, 3);
    assert_eq!(beyond.velocity.x, -200_000);
    let mut west = body_at(-500_000, 0);
    o.tick(&mut west, CLEAR, left, 4);
    assert_eq!(west.velocity.x, -200_000);
    let mut far_west = body_at(-500_001, 0);
    far_west.velocity.x = 9;
    o.tick(&mut far_west, CLEAR, left, 5);
    assert_eq!(far_west.velocity.x, 9);
    o.tick(&mut far_west, CLEAR, right, 6);
    assert_eq!(far_west.velocity.x, 200_000);
    // a sample that is neither direction leaves the speed alone
    o.tick(&mut far_west, CLEAR, STILL, 7);
    assert_eq!(far_west.velocity.x, 200_000);
    assert_eq!(far_west.position, Vec2 { x: -500_001, y: 0 });
}

#[test]
fn opponent_jumps_on_the_cue_only() {
    let mut o = Opponent::new(0);
    let mut b = body_at(0, 0);
    o.tick(&mut b, LANDED, Whim { walk: 7, jump: 0 }, 1_000);
    assert_eq!(b.velocity.y, 0);
    assert!(!o.jump && !o.jump_end);
    o.tick(&mut b, LANDED, Whim { walk: 7, jump: 2 }, 1_008);
    assert!(!o.jump);
    assert_eq!(o.jump_timer, Timer { duration_ms: 300, started_ms: 0 });
    o.tick(&mut b, LANDED, Whim { walk: 7, jump: 1 }, 1_016);
    assert!(o.jump);
    assert_eq!(o.jump_y, 1);
    assert_eq!(b.velocity.y, 500_000);
    assert_eq!(o.jump_timer, Timer { duration_ms: 300, started_ms: 1_016 });
}

#[test]
fn opponent_jump_lasts_300_ms_from_its_cue() {
    let mut o = Opponent::new(0);
    let mut b = body_at(0, 0);
    // long on the ground before the cue: the jump still gets its full time
    o.tick(&mut b, LANDED, STILL, 100);
    o.tick(&mut b, LANDED, Whim { walk: 7, jump: 1 }, 60_000);
    assert!(o.jump && !o.jump_end);
    assert_eq!(b.velocity.y, JUMP_SPEED);
    assert_eq!(o.jump_timer, Timer { duration_ms: OPPONENT_JUMP_MS, started_ms: 60_000 });
    // a second cue in the air does not start the clock again
    o.tick(&mut b, CLEAR, Whim { walk: 7, jump: 1 }, 60_150);
    assert_eq!(b.velocity.y, 500_000);
    assert_eq!(o.jump_timer.started_ms, 60_000);
    o.tick(&mut b, CLEAR, STILL, 60_299);
    assert_eq!(b.velocity.y, 500_000);
    assert!(o.jump);
    // 300 ms after the cue the jump is over
    o.tick(&mut b, CLEAR, STILL, 60_300);
    assert!(!o.jump && o.jump_end);
    assert_eq!(b.velocity.y, 0);
    o.tick(&mut b, CLEAR, STILL, 60_316);
    assert_eq!(b.velocity.y, -500_000);
    assert_eq!(o.jump_timer.started_ms, 60_000);
}

#[test]
fn opponent_cannot_jump_again_in_the_air() {
    let mut o = Opponent::new(0);
    let mut b = body_at(0, 0);
    // set up in the air: a cue raises the flag but gives no lift
    o.tick(&mut b, CLEAR, Whim { walk: 7, jump: 1 }, 50);
    assert!(o.jump && o.jump_end);
    assert_eq!(o.jump_timer, Timer { duration_ms: 300, started_ms: 50 });
    assert_eq!(b.velocity.y, -500_000);
    o.tick(&mut b, CLEAR, STILL, 350);
    assert!(!o.jump && o.jump_end);
    // after a spent jump, too
    o.tick(&mut b, LANDED, Whim { walk: 7, jump: 1 }, 1_000);
    assert_eq!(b.velocity.y, 500_000);
    o.tick(&mut b, CLEAR, STILL, 1_300);
    assert!(!o.jump && o.jump_end);
    assert_eq!(b.velocity.y, 0);
    o.tick(&mut b, CLEAR, Whim { walk: 7, jump: 1 }, 1_316);
    assert!(o.jump && o.jump_end);
    assert_eq!(b.velocity.y, -500_000);
}

#[test]
fn a_landing_ends_the_opponents_jump() {
    let mut o = Opponent::new(0);
    let mut b = body_at(0, 0);
    o.tick(&mut b, CLEAR, STILL, 1_000);
    o.tick(&mut b, LANDED, Whim { walk: 7, jump: 1 }, 1_010);
    assert!(o.jump);
    o.tick(&mut b, LANDED, STILL, 1_020);
    assert!(!o.jump && !o.jump_end);
    assert_eq!(b.velocity.y, 0);
}

#[test]
fn opponent_loses_one_life_at_the_end_of_the_stun() {
    let mut o = Opponent::new(0);
    let mut b = body_at(0, 0);
    assert!(o.tick(&mut b, STRUCK, STILL, 500));
    assert!(o.hit);
    assert_eq!(o.tint, Tint::Hurt);
    assert_eq!(o.stun_timer, Timer { duration_ms: 3_000, started_ms: 500 });
    let mut now: u64 = 516;
    while now < 3_500 {
        assert!(!o.tick(&mut b, STRUCK, STILL, now));
        assert_eq!(o.stun_timer.started_ms, 500);
        assert_eq!(o.lives, 10);
        assert!(o.hit);
        now += 16;
    }
    assert!(!o.tick(&mut b, STRUCK, STILL, 3_500));
    assert_eq!(o.lives, 9);
    assert!(!o.hit);
    assert_eq!(o.tint, Tint::Normal);
}

#[test]
fn opponent_without_lives_is_hidden_and_cannot_be_hit() {
    let mut o = Opponent::new(0);
    o.lives = 1;
    let mut b = body_at(120_000, -90_000);
    o.tick(&mut b, STRUCK, STILL, 0);
    o.tick(&mut b, CLEAR, STILL, 3_000);
    assert_eq!(o.lives, 0);
    assert_eq!(o.tint, Tint::Hidden);
    assert_eq!(b.position, Vec2 { x: 120_000, y: -90_000 });
    assert!(!o.tick(&mut b, STRUCK, STILL, 3_016));
    assert!(!o.hit);
    assert_eq!(o.lives, 0);
}

#[test]
fn opponent_is_struck_by_the_melee_weapon_only() {
    let mut o = Opponent::new(0);
    let mut b = body_at(0, 0);
    let bullet = Obstacle { tag: ColliderTag::Projectile, position: Vec2 { x: 40_000, y: 0 } };
    assert!(!opponent_step(MatchState::Fighting, &mut o, &mut b, &vec![bullet], STILL, 5));
    let glove = Obstacle { tag: ColliderTag::MeleeHitbox, position: Vec2 { x: 40_000, y: 0 } };
    assert!(opponent_step(MatchState::Fighting, &mut o, &mut b, &vec![bullet, glove, ground()], STILL, 6));
    assert_eq!(o.stun_timer.started_ms, 6);
}

#[test]
fn opponent_is_inert_in_the_menu() {
    let mut o = Opponent::new(0);
    let mut b = body_at(0, -100_000);
    b.velocity = Vec2 { x: 3, y: 4 };
    let glove = Obstacle { tag: ColliderTag::MeleeHitbox, position: Vec2 { x: 40_000, y: -100_000 } };
    let before = (o, b);
    assert!(!opponent_step(MatchState::Menu, &mut o, &mut b, &vec![glove, ground()], Whim { walk: 1, jump: 1 }, 77));
    assert_eq!((o, b), before);
    assert!(!opponent_turn(MatchState::Menu, &mut o, &mut b, &vec![glove, ground()], 78));
    assert_eq!((o, b), before);
}

#[test]
fn drawn_samples_are_in_their_ranges() {
    assert_eq!(WALK_CHOICES, 2);
    assert_eq!(JUMP_CHOICES, 800);
    let mut seen_left = false;
    let mut seen_right = false;
    let mut seen_high = false;
    let mut i = 0;
    while i < 4_000 {
        let w = draw_whim();
        assert!(w.walk < 2);
        assert!(w.jump < 800);
        seen_left = seen_left || w.walk == 0;
        seen_right = seen_right || w.walk == 1;
        seen_high = seen_high || w.jump >= 2;
        i += 1;
    }
    assert!(seen_left && seen_right && seen_high);
}

#[test]
fn a_turn_by_chance_is_a_step_with_some_samples() {
    let mut i = 0;
    while i < 500 {
        let start = Opponent::new(0);
        let start_body = body_at(0, -100_000);
        let mut o = start;
        let mut b = start_body;
        let hurt = opponent_turn(MatchState::Fighting, &mut o, &mut b, &vec![ground()], 10);
        assert!(o.walk_x < 2 && o.jump_y < 800);
        let mut again = start;
        let mut again_body = start_body;
        let whim = Whim { walk: o.walk_x, jump: o.jump_y };
        let same = opponent_step(MatchState::Fighting, &mut again, &mut again_body, &vec![ground()], whim, 10);
        assert_eq!((o, b, hurt), (again, again_body, same));
        assert!(b.velocity.x == 200_000 || b.velocity.x == -200_000);
        i += 1;
    }
}
