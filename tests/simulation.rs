use asteroidy::game::Game;
use asteroidy::geometry::{clamp_component, wrap_component, Body, Vec2, Viewport};
use asteroidy::input::{action_for_key_code, Action, ControllerInput};
use asteroidy::player::{turn, Player};
use asteroidy::projectile::Projectile;
use asteroidy::trig::{cosine, sine, DIR_ONE, HALF_TURN, QUARTER_TURN};
use asteroidy::units::{
    INITIAL_ANGLE, MAX_SPEED, PIXEL, PIXEL_PER_SECOND, PLAYER_SIZE, ROCKET_SIZE, SPEED_LIMIT,
};

fn idle() -> ControllerInput {
    ControllerInput::new()
}

fn rocket_shape() -> Vec<Vec2> {
    vec![
        Vec2::new(-5 * PIXEL, -4 * PIXEL),
        Vec2::new(5 * PIXEL, 0),
        Vec2::new(-5 * PIXEL, 4 * PIXEL),
    ]
}

fn ship_at(x: i64, y: i64) -> Player {
    Player::new(Vec::new(), Vec2::new(x * PIXEL, y * PIXEL), Vec2::zero())
}

#[test]
fn sine_and_cosine_at_quarter_turns() {
    assert_eq!(sine(0), 0);
    assert_eq!(cosine(0), DIR_ONE);
    assert_eq!(sine(QUARTER_TURN as u32), DIR_ONE);
    assert_eq!(cosine(QUARTER_TURN as u32), 0);
    assert_eq!(sine(HALF_TURN as u32), 0);
    assert_eq!(cosine(HALF_TURN as u32), -DIR_ONE);
    assert_eq!(sine(3 * QUARTER_TURN as u32), -DIR_ONE);
}

#[test]
fn sine_and_cosine_at_thirty_degrees() {
    let a: u32 = 357_913_941;
    assert_eq!(sine(a), 499);
    assert_eq!(cosine(a), 864);
    assert_eq!(sine(INITIAL_ANGLE), 973);
    assert_eq!(cosine(INITIAL_ANGLE), 230);
}

#[test]
fn clamp_speed_caps_each_axis() {
    let mut b = Body::new(
        Vec2::zero(),
        Vec2::new(250 * PIXEL_PER_SECOND, -300 * PIXEL_PER_SECOND),
        0,
    );
    b.clamp_speed(MAX_SPEED);
    assert_eq!(b.vel, Vec2::new(MAX_SPEED, -MAX_SPEED));
    let mut c = Body::new(Vec2::zero(), Vec2::new(7, -9), 0);
    c.clamp_speed(MAX_SPEED);
    assert_eq!(c.vel, Vec2::new(7, -9));
    assert_eq!(clamp_component(i64::MIN, 5), -5);
    assert_eq!(clamp_component(i64::MAX, 5), 5);
}

#[test]
fn integrate_updates_velocity_then_position() {
    let mut b = Body::new(Vec2::new(10, 20), Vec2::new(1, 2), 0);
    b.integrate(3, Vec2::new(4, -5));
    assert_eq!(b.vel, Vec2::new(13, -13));
    assert_eq!(b.pos, Vec2::new(10 + 39, 20 - 39));
}

#[test]
fn wrap_at_exact_boundary_does_not_move() {
    let w = 800 * PIXEL;
    assert_eq!(wrap_component(0, w, PLAYER_SIZE), 0);
    assert_eq!(wrap_component(w - PLAYER_SIZE, w, PLAYER_SIZE), w - PLAYER_SIZE);
    assert_eq!(wrap_component(w - PLAYER_SIZE + 1, w, PLAYER_SIZE), 0);
    assert_eq!(wrap_component(-1, w, PLAYER_SIZE), w - PLAYER_SIZE);
}

#[test]
fn wrap_on_one_axis_keeps_the_other() {
    let vp = Viewport::new(800, 600);
    let mut p = Player::new(Vec::new(), Vec2::new(-PIXEL, 250 * PIXEL), Vec2::zero());
    p.update_collision(&vp);
    assert_eq!(p.body.pos, Vec2::new(790 * PIXEL, 250 * PIXEL));
    let mut q = Player::new(Vec::new(), Vec2::new(123 * PIXEL, 601 * PIXEL), Vec2::zero());
    q.update_collision(&vp);
    assert_eq!(q.body.pos, Vec2::new(123 * PIXEL, 0));
}

#[test]
fn player_wraps_past_right_edge() {
    let vp = Viewport::new(800, 600);
    let mut p = Player::new(
        Vec::new(),
        Vec2::new(799 * PIXEL, 300 * PIXEL),
        Vec2::new(50 * PIXEL_PER_SECOND, 0),
    );
    p.update_movement(100, &idle());
    assert_eq!(p.body.pos, Vec2::new(804 * PIXEL, 300 * PIXEL));
    assert!(p.body.pos.x > 800 * PIXEL - PLAYER_SIZE);
    p.update_collision(&vp);
    assert_eq!(p.body.pos, Vec2::new(0, 300 * PIXEL));
    assert_eq!(p.body.vel, Vec2::new(50 * PIXEL_PER_SECOND, 0));
}

#[test]
fn player_update_moves_then_wraps() {
    let vp = Viewport::new(800, 600);
    let mut p = Player::new(
        Vec::new(),
        Vec2::new(799 * PIXEL, 300 * PIXEL),
        Vec2::new(50 * PIXEL_PER_SECOND, 0),
    );
    p.update(100, &idle(), &vp);
    assert_eq!(p.body.pos, Vec2::new(0, 300 * PIXEL));
}

#[test]
fn thrust_follows_heading() {
    let mut p = ship_at(100, 100);
    let mut input = idle();
    input.press(Action::Forward);
    p.update_movement(100, &input);
    assert_eq!(p.body.vel, Vec2::new(1_725_000, 7_297_500));
    assert_eq!(p.body.pos, Vec2::new(100 * PIXEL + 172_500_000, 100 * PIXEL + 729_750_000));
    assert_eq!(p.body.angle, INITIAL_ANGLE);
}

#[test]
fn thrust_is_capped_at_max_speed() {
    let mut p = Player::new(Vec::new(), Vec2::new(0, 0), Vec2::new(0, MAX_SPEED));
    let mut input = idle();
    input.press(Action::Forward);
    p.update_movement(1000, &input);
    assert_eq!(p.body.vel.y, MAX_SPEED);
}

#[test]
fn opposite_turns_cancel() {
    let mut p = ship_at(100, 100);
    let mut input = idle();
    input.press(Action::TurnLeft);
    input.press(Action::TurnRight);
    p.update_movement(1000, &input);
    assert_eq!(p.body.angle, INITIAL_ANGLE);
}

#[test]
fn single_turns_wrap_around_full_turn() {
    let mut input = idle();
    input.press(Action::TurnLeft);
    assert_eq!(turn(INITIAL_ANGLE, 1000, &input), 4_253_953_765);
    let mut right = idle();
    right.press(Action::TurnRight);
    assert_eq!(turn(INITIAL_ANGLE, 1000, &right), 1_872_968_469);
    assert_eq!(turn(u32::MAX, 1, &right), 956_990);
}

#[test]
fn projectile_flight_from_rest() {
    let mut r = Projectile::new(rocket_shape(), Vec2::new(100 * PIXEL, 100 * PIXEL), 0);
    r.update(50);
    assert_eq!(r.body.vel, Vec2::new(10 * PIXEL_PER_SECOND, 0));
    assert_eq!(r.body.pos, Vec2::new(100_500_000_000, 100 * PIXEL));
    assert_eq!(r.shape, rocket_shape());
}

#[test]
fn projectile_expiry_predicate() {
    let vp = Viewport::new(800, 600);
    let inside = Projectile::new(Vec::new(), Vec2::new(800 * PIXEL - ROCKET_SIZE, 0), 0);
    assert!(!inside.is_expired(&vp));
    let right = Projectile::new(Vec::new(), Vec2::new(800 * PIXEL - ROCKET_SIZE + 1, 0), 0);
    assert!(right.is_expired(&vp));
    let above = Projectile::new(Vec::new(), Vec2::new(0, -1), 0);
    assert!(above.is_expired(&vp));
    let below = Projectile::new(Vec::new(), Vec2::new(0, 600 * PIXEL - ROCKET_SIZE + 1), 0);
    assert!(below.is_expired(&vp));
}

#[test]
fn fired_projectile_is_present_after_its_tick() {
    let vp = Viewport::new(800, 600);
    let mut g = Game::new(ship_at(100, 100), rocket_shape());
    let mut input = idle();
    input.press(Action::Fire);
    g.step(16, &input, &vp);
    assert_eq!(g.player.projectiles.len(), 1);
    let r = &g.player.projectiles[0];
    assert_eq!(r.body.pos, g.player.body.pos);
    assert_eq!(r.body.vel, Vec2::zero());
    assert_eq!(r.body.angle, g.player.body.angle);
    assert_eq!(r.shape, rocket_shape());
}

#[test]
fn held_fire_launches_once_per_press() {
    let vp = Viewport::new(800, 600);
    let mut g = Game::new(ship_at(100, 100), rocket_shape());
    let mut input = idle();
    input.press(Action::Fire);
    for _ in 0..5 {
        g.step(16, &input, &vp);
    }
    assert_eq!(g.player.projectiles.len(), 1);
    input.release(Action::Fire);
    g.step(16, &input, &vp);
    assert_eq!(g.player.projectiles.len(), 1);
    input.press(Action::Fire);
    g.step(16, &input, &vp);
    g.step(16, &input, &vp);
    assert_eq!(g.player.projectiles.len(), 2);
}

#[test]
fn projectile_leaving_viewport_is_removed() {
    let vp = Viewport::new(800, 600);
    let mut g = Game::new(ship_at(700, 300), rocket_shape());
    g.player.body.angle = 0;
    let mut input = idle();
    input.press(Action::Fire);
    g.step(16, &input, &vp);
    assert_eq!(g.player.projectiles.len(), 1);
    input.release(Action::Fire);
    g.step(500, &input, &vp);
    assert_eq!(g.player.projectiles.len(), 1);
    assert_eq!(g.player.projectiles[0].body.pos.x, 750 * PIXEL);
    g.step(1000, &input, &vp);
    assert_eq!(g.player.projectiles.len(), 0);
}

#[test]
fn survivors_keep_their_order() {
    let vp = Viewport::new(800, 600);
    let mut g = Game::new(ship_at(100, 100), rocket_shape());
    g.player.body.angle = 0;
    g.player.projectiles.push(Projectile::new(Vec::new(), Vec2::new(10 * PIXEL, 10 * PIXEL), 0));
    g.player.projectiles.push(Projectile::new(Vec::new(), Vec2::new(794 * PIXEL, 20 * PIXEL), 0));
    g.player.projectiles.push(Projectile::new(Vec::new(), Vec2::new(30 * PIXEL, 30 * PIXEL), 0));
    g.step(100, &idle(), &vp);
    assert_eq!(g.player.projectiles.len(), 2);
    assert_eq!(g.player.projectiles[0].body.pos.y, 10 * PIXEL);
    assert_eq!(g.player.projectiles[1].body.pos.y, 30 * PIXEL);
    assert_eq!(g.player.projectiles[0].body.pos.x, 12 * PIXEL);
}

#[test]
fn step_advances_the_player() {
    let vp = Viewport::new(800, 600);
    let mut g = Game::new(
        Player::new(Vec::new(), Vec2::new(799 * PIXEL, 300 * PIXEL), Vec2::new(50 * PIXEL_PER_SECOND, 0)),
        rocket_shape(),
    );
    g.step(100, &idle(), &vp);
    assert_eq!(g.player.body.pos, Vec2::new(0, 300 * PIXEL));
    assert!(g.player.projectiles.is_empty());
    assert!(!g.fire_held);
}

#[test]
fn input_press_and_release() {
    let mut input = ControllerInput::new();
    assert!(!input.move_forward && !input.turn_left && !input.turn_right && !input.fire);
    input.press(Action::TurnRight);
    assert!(input.turn_right && !input.turn_left);
    input.press(Action::Fire);
    input.release(Action::TurnRight);
    assert!(!input.turn_right && input.fire);
}

#[test]
fn key_codes_map_to_actions() {
    assert_eq!(action_for_key_code(0x77), Some(Action::Forward));
    assert_eq!(action_for_key_code(0x61), Some(Action::TurnLeft));
    assert_eq!(action_for_key_code(0x64), Some(Action::TurnRight));
    assert_eq!(action_for_key_code(0x20), Some(Action::Fire));
    assert_eq!(action_for_key_code(0x73), None);
}

#[test]
fn projectile_speed_is_not_capped() {
    let mut r = Projectile::new(Vec::new(), Vec2::new(100 * PIXEL, 100 * PIXEL), 0);
    r.body.vel = Vec2::new(100_000 * PIXEL_PER_SECOND, 0);
    assert!(r.can_fly(1000));
    r.update(1000);
    assert_eq!(r.body.vel.x, 100_000 * PIXEL_PER_SECOND + 200 * PIXEL_PER_SECOND);
    assert_eq!(r.body.pos.x, 100 * PIXEL + 100_200 * PIXEL);
}

#[test]
fn flight_past_speed_limit_is_refused() {
    let mut r = Projectile::new(Vec::new(), Vec2::new(0, 0), 0);
    r.body.vel = Vec2::new(SPEED_LIMIT, 0);
    assert!(!r.can_fly(1));
    assert!(r.can_fly(0));
    let mut g = Game::new(ship_at(100, 100), rocket_shape());
    assert!(g.can_step(16));
    g.player.projectiles.push(r);
    assert!(!g.can_step(16));
    assert!(g.can_step(0));
}

#[test]
fn check_player_leaves_ship_unchanged() {
    let mut p = ship_at(10, 20);
    p.check_player();
    assert_eq!(p.body, ship_at(10, 20).body);
    assert!(p.projectiles.is_empty());
}
