use pong::game_object::{GameObject, Vec2};
use pong::pong::{Config, Key, Player, Pong, Serve, StepError};

fn v(x: i64, y: i64) -> Vec2 {
    Vec2 { x, y }
}

fn boxed(pos: Vec2, size: Vec2) -> GameObject {
    GameObject { pos, vel: v(0, 0), size }
}

// Positions are in pixels and time in tenths of a second: a velocity of 10 is
// 100 pixels per second, and an acceleration of 40 is 4000 pixels per second
// squared.
fn field() -> Config {
    Config { width: 512, height: 512, paddle_accel: 40, friction_num: 1, friction_den: 2 }
}

fn started() -> Pong {
    let mut p = Pong::new(field(), v(8, 32), v(8, 8)).unwrap();
    p.start(Serve { speed_x: 20, vel_y: 5 });
    p
}

#[test]
fn intersects_is_symmetric() {
    let a = boxed(v(10, 10), v(8, 8));
    let b = boxed(v(15, 12), v(4, 20));
    let c = boxed(v(40, 10), v(8, 8));
    assert!(a.intersects(&b));
    assert!(b.intersects(&a));
    assert!(!a.intersects(&c));
    assert!(!c.intersects(&a));
}

#[test]
fn separated_boxes_have_no_normal() {
    let a = boxed(v(0, 0), v(10, 10));
    let right = boxed(v(11, 0), v(10, 10));
    let below = boxed(v(0, 12), v(10, 10));
    assert!(!a.intersects(&right));
    assert_eq!(a.collision_normal(&right), None);
    assert!(!a.intersects(&below));
    assert_eq!(a.collision_normal(&below), None);
}

#[test]
fn touching_edges_do_not_intersect() {
    let a = boxed(v(0, 0), v(10, 10));
    let b = boxed(v(10, 0), v(10, 10));
    assert!(!a.intersects(&b));
    assert_eq!(a.collision_normal(&b), None);
}

#[test]
fn odd_sizes_compare_exactly() {
    // Edges at 1.5 and 1.5: touching, not overlapping.
    let a = boxed(v(0, 0), v(3, 3));
    let b = boxed(v(3, 0), v(3, 3));
    assert!(!a.intersects(&b));
    let c = boxed(v(2, 0), v(2, 3));
    assert!(a.intersects(&c));
}

#[test]
fn penetration_from_the_left_pushes_left() {
    // A's right edge at 11, B's left edge at 10; A lies inside B vertically.
    let a = boxed(v(7, 50), v(8, 8));
    let b = boxed(v(30, 50), v(40, 40));
    assert_eq!(a.collision_normal(&b), Some(v(-1, 0)));
}

#[test]
fn penetration_from_the_right_pushes_right() {
    let a = boxed(v(53, 50), v(8, 8));
    let b = boxed(v(30, 50), v(40, 40));
    assert_eq!(a.collision_normal(&b), Some(v(1, 0)));
}

#[test]
fn vertical_penetrations_push_up_and_down() {
    let b = boxed(v(50, 50), v(40, 40));
    let from_above = boxed(v(50, 27), v(8, 8));
    assert_eq!(from_above.collision_normal(&b), Some(v(0, 1)));
    let from_below = boxed(v(50, 73), v(8, 8));
    assert_eq!(from_below.collision_normal(&b), Some(v(0, -1)));
}

#[test]
fn equal_depths_keep_the_first_side() {
    let a = boxed(v(0, 0), v(10, 10));
    assert_eq!(a.collision_normal(&a), Some(v(1, 0)));
}

#[test]
fn with_size_rejects_non_positive_extents() {
    assert!(GameObject::with_size(v(0, 4)).is_none());
    assert!(GameObject::with_size(v(4, -1)).is_none());
    let o = GameObject::with_size(v(4, 6)).unwrap();
    assert_eq!(o.size, v(4, 6));
    assert_eq!(o.pos, v(0, 0));
}

#[test]
fn default_is_a_unit_box_at_rest() {
    let o = GameObject::default();
    assert_eq!(o.pos, v(0, 0));
    assert_eq!(o.vel, v(0, 0));
    assert_eq!(o.size, v(1, 1));
}

#[test]
fn new_rejects_bad_setup() {
    assert!(Pong::new(field(), v(0, 32), v(8, 8)).is_none());
    assert!(Pong::new(field(), v(8, 32), v(8, -8)).is_none());
    let mut cfg = field();
    cfg.friction_den = 0;
    assert!(Pong::new(cfg, v(8, 32), v(8, 8)).is_none());
    let p = Pong::new(field(), v(8, 32), v(8, 8)).unwrap();
    assert!(p.is_valid());
    assert_eq!(p.server, Player::Left);
}

#[test]
fn start_places_paddles_and_serves_left() {
    let p = started();
    assert_eq!(p.p1.pos, v(8, 256));
    assert_eq!(p.p2.pos, v(504, 256));
    assert_eq!(p.ball.pos, v(256, 256));
    assert_eq!(p.ball.vel, v(-20, 5));
    assert_eq!(p.serve_direction(), -1);
}

#[test]
fn keys_set_and_clear_flags() {
    let mut p = started();
    p.key_press(Key::Up);
    assert!(p.up && !p.down);
    p.key_press(Key::Down);
    assert!(p.up && p.down);
    p.key_release(Key::Up);
    assert!(!p.up && p.down);
    p.key_press(Key::Other);
    p.key_release(Key::Other);
    assert!(!p.up && p.down);
    p.key_release(Key::Down);
    assert!(!p.up && !p.down);
}

#[test]
fn paddle_accelerates_while_key_held() {
    let mut paddle = boxed(v(8, 256), v(8, 32));
    assert!(Pong::handle_paddle(&mut paddle, true, false, 40, 2));
    assert_eq!(paddle.vel.y, -80);
    assert!(Pong::handle_paddle(&mut paddle, false, true, 40, 1));
    assert_eq!(paddle.vel.y, -40);
}

#[test]
fn brake_settles_at_zero_without_reversing() {
    let mut paddle = boxed(v(8, 256), v(8, 32));
    paddle.vel.y = 100;
    let mut seen = Vec::new();
    for _ in 0..6 {
        assert!(Pong::handle_paddle(&mut paddle, false, false, 30, 1));
        seen.push(paddle.vel.y);
    }
    assert_eq!(seen, vec![70, 40, 10, 0, 0, 0]);
    paddle.vel.y = -45;
    assert!(Pong::handle_paddle(&mut paddle, false, false, 30, 1));
    assert_eq!(paddle.vel.y, -15);
    assert!(Pong::handle_paddle(&mut paddle, false, false, 30, 1));
    assert_eq!(paddle.vel.y, 0);
}

#[test]
fn ball_bounces_off_bottom_wall() {
    let mut ball = boxed(v(100, 500), v(8, 8));
    ball.vel = v(3, 10);
    assert!(Pong::handle_game_object(&mut ball, 2, true, 512));
    assert_eq!(ball.pos, v(106, 508));
    assert_eq!(ball.vel, v(3, -10));
}

#[test]
fn paddle_stops_at_bottom_wall() {
    let mut paddle = boxed(v(8, 490), v(8, 32));
    paddle.vel = v(0, 10);
    assert!(Pong::handle_game_object(&mut paddle, 2, false, 512));
    assert_eq!(paddle.pos, v(8, 496));
    assert_eq!(paddle.vel, v(0, 0));
}

#[test]
fn ball_bounces_off_top_wall() {
    let mut ball = boxed(v(100, 10), v(8, 8));
    ball.vel = v(0, -10);
    assert!(Pong::handle_game_object(&mut ball, 1, true, 512));
    assert_eq!(ball.pos, v(100, 4));
    assert_eq!(ball.vel, v(0, 10));
}

#[test]
fn odd_height_clamps_inside_the_field() {
    let mut ball = boxed(v(100, 500), v(8, 7));
    ball.vel = v(0, 10);
    assert!(Pong::handle_game_object(&mut ball, 2, true, 512));
    assert_eq!(ball.pos.y, 508);
}

#[test]
fn paddle_hit_reverses_ball_and_adds_spin() {
    let mut p = started();
    p.p1.vel = v(0, 30);
    p.ball.pos = v(14, 256);
    p.ball.vel = v(-10, 2);
    assert!(p.handle_ball(Serve { speed_x: 20, vel_y: 0 }));
    assert_eq!(p.ball.vel, v(10, 17));
    assert_eq!(p.ball.pos, v(14, 256));
    p.p1.vel = v(0, -5);
    p.ball.vel = v(-10, 0);
    assert!(p.handle_ball(Serve { speed_x: 20, vel_y: 0 }));
    assert_eq!(p.ball.vel, v(10, -2));
}

#[test]
fn ball_past_right_edge_gives_right_the_serve() {
    let mut p = started();
    assert_eq!(p.server, Player::Left);
    p.ball.pos = v(513, 100);
    assert!(p.handle_ball(Serve { speed_x: 20, vel_y: -3 }));
    assert_eq!(p.server, Player::Right);
    assert_eq!(p.ball.pos, v(256, 256));
    assert_eq!(p.ball.vel, v(20, -3));
}

#[test]
fn ball_past_left_edge_gives_left_the_serve() {
    let mut p = started();
    p.server = Player::Right;
    p.ball.pos = v(-1, 100);
    p.score(Player::Right, Serve { speed_x: 20, vel_y: 4 });
    assert_eq!(p.server, Player::Left);
    assert_eq!(p.ball.pos, v(256, 256));
    assert_eq!(p.ball.vel, v(-20, 4));
}

#[test]
fn reset_keeps_the_paddles() {
    let mut p = started();
    p.p1.vel = v(0, 7);
    p.p2.pos = v(504, 100);
    p.server = Player::Right;
    p.reset(Serve { speed_x: 9, vel_y: 1 });
    assert_eq!(p.p1.vel, v(0, 7));
    assert_eq!(p.p2.pos, v(504, 100));
    assert_eq!(p.ball.vel, v(9, 1));
    assert_eq!(p.serve_direction(), 1);
}

#[test]
fn ai_paddle_tracks_approaching_ball() {
    let mut p = started();
    p.ball.pos = v(256, 400);
    p.ball.vel = v(10, 0);
    assert_eq!(p.update(1, Serve { speed_x: 20, vel_y: 0 }), Ok(()));
    assert_eq!(p.p2.vel.y, 40);
    assert_eq!(p.p2.pos.y, 296);
    p.ball.pos = v(256, 100);
    p.ball.vel = v(-10, 0);
    assert_eq!(p.update(1, Serve { speed_x: 20, vel_y: 0 }), Ok(()));
    assert_eq!(p.p2.vel.y, 0);
}

#[test]
fn scenario_ball_exits_right_and_right_serves() {
    let mut p = started();
    p.ball.pos = v(500, 256);
    p.ball.vel = v(10, 0);
    let serve = Serve { speed_x: 20, vel_y: 0 };
    assert_eq!(p.update(2, serve), Ok(()));
    assert_eq!(p.server, Player::Right);
    assert_eq!(p.ball.pos, v(256, 256));
    assert!(p.ball.vel.x > 0);
    assert_eq!(p.ball.vel, v(20, 0));
    assert_eq!(p.update(2, serve), Ok(()));
    assert_eq!(p.ball.pos, v(296, 256));
    assert_eq!(p.server, Player::Right);
}

#[test]
fn negative_time_is_refused() {
    let mut p = started();
    let before = p;
    assert_eq!(p.update(-1, Serve { speed_x: 20, vel_y: 0 }), Err(StepError::NegativeTime));
    assert_eq!(p, before);
}

#[test]
fn overflowing_step_is_refused() {
    let mut p = started();
    p.ball.vel = v(i64::MAX, 0);
    let before = p;
    assert_eq!(p.update(2, Serve { speed_x: 20, vel_y: 0 }), Err(StepError::Overflow));
    assert_eq!(p, before);
}
