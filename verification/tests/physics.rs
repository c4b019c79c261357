use pong_core::collision::{resolve, CollisionOutcome};
use pong_core::config::{scale_toward_zero, GameConfig, DRAG_DEN, DRAG_NUM};
use pong_core::entity::{Ball, Paddle, PaddleCommand};
use pong_core::vector::Vector2;

fn cfg() -> GameConfig {
    GameConfig::new(800, 600, 20, 100, 10, 5, 10, 3, 3)
}

fn paddle_at(x: i64, y: i64, c: &GameConfig) -> Paddle {
    Paddle::new(x, y, 0xFFFFFF, c)
}

fn ball_at(x: i64, y: i64, vx: i64, vy: i64, c: &GameConfig) -> Ball {
    Ball::new(x, y, vx, vy, 0xFF0000, c)
}

#[test]
fn paddle_never_leaves_field_upward() {
    let c = cfg();
    let mut p = paddle_at(0, 0, &c);
    for _ in 0..50 {
        p.update(PaddleCommand::MoveUp, &c);
        assert!(p.position.y >= 0);
        assert!(p.position.y <= 600 - 100);
    }
    assert_eq!(p.position.y, 0);
}

#[test]
fn paddle_never_leaves_field_downward() {
    let c = cfg();
    let mut p = paddle_at(0, 450, &c);
    for _ in 0..50 {
        p.update(PaddleCommand::MoveDown, &c);
        assert!(p.position.y >= 0);
        assert!(p.position.y <= 600 - 100);
    }
    assert_eq!(p.position.y, 500);
}

#[test]
fn paddle_update_from_rest_is_exact() {
    let c = cfg();
    let mut p = paddle_at(0, 200, &c);
    p.update(PaddleCommand::MoveDown, &c);
    // velocity integrates to 5, the position follows, drag leaves 5*85/100 = 4
    assert_eq!(p.position.y, 205);
    assert_eq!(p.velocity.y, 4);
    assert_eq!(p.acceleration.y, 0);
    p.update(PaddleCommand::Stay, &c);
    // coasting: position moves by the dragged velocity, 4*85/100 = 3 remains
    assert_eq!(p.position.y, 209);
    assert_eq!(p.velocity.y, 3);
}

#[test]
fn drag_rounds_toward_zero_on_both_signs() {
    assert_eq!(scale_toward_zero(5, DRAG_NUM, DRAG_DEN), 4);
    assert_eq!(scale_toward_zero(-5, DRAG_NUM, DRAG_DEN), -4);
    assert_eq!(scale_toward_zero(0, DRAG_NUM, DRAG_DEN), 0);
    assert_eq!(scale_toward_zero(100, DRAG_NUM, DRAG_DEN), 85);
}

#[test]
fn ball_bounces_off_top_wall() {
    let c = cfg();
    let mut b = ball_at(100, 3, 2, -8, &c);
    b.update(&c);
    assert_eq!(b.position.y, 0);
    assert_eq!(b.velocity.y, 8);
    assert_eq!(b.position.x, 102);
    assert_eq!(b.velocity.x, 2);
}

#[test]
fn ball_bounces_off_bottom_wall() {
    let c = cfg();
    let mut b = ball_at(100, 587, 2, 8, &c);
    b.update(&c);
    assert_eq!(b.position.y, 590);
    assert_eq!(b.velocity.y, -8);
}

#[test]
fn ball_moves_freely_between_walls() {
    let c = cfg();
    let mut b = ball_at(100, 300, -2, 6, &c);
    b.update(&c);
    assert_eq!(b.position.x, 98);
    assert_eq!(b.position.y, 306);
    assert_eq!(b.velocity.x, -2);
    assert_eq!(b.velocity.y, 6);
}

#[test]
fn left_paddle_bounce_reflects_snaps_and_grows_speed() {
    let c = cfg();
    let p1 = paddle_at(0, 295, &c);
    let p2 = paddle_at(780, 295, &c);
    let mut b = ball_at(15, 300, -8, 1, &c);
    let outcome = resolve(&mut b, &p1, &p2, &c);
    assert_eq!(outcome, CollisionOutcome::LeftBounce);
    // the ball leaves moving right at 8*115/100 = 9, flush with the paddle edge
    assert!(b.velocity.x > 0);
    assert_eq!(b.velocity.x, 9);
    assert_eq!(b.position.x, 20);
    assert_eq!(b.velocity.y, 1);
    assert_eq!(b.position.y, 300);
}

#[test]
fn right_paddle_bounce_is_symmetric() {
    let c = cfg();
    let p1 = paddle_at(0, 295, &c);
    let p2 = paddle_at(780, 295, &c);
    let mut b = ball_at(775, 300, 8, 0, &c);
    let outcome = resolve(&mut b, &p1, &p2, &c);
    assert_eq!(outcome, CollisionOutcome::RightBounce);
    assert!(b.velocity.x < 0);
    assert_eq!(b.velocity.x, -9);
    assert_eq!(b.position.x, 770);
}

#[test]
fn bounce_speed_is_capped_at_max_speed() {
    let c = cfg();
    let p1 = paddle_at(0, 295, &c);
    let p2 = paddle_at(780, 295, &c);
    let mut b = ball_at(15, 300, -10, 0, &c);
    let outcome = resolve(&mut b, &p1, &p2, &c);
    assert_eq!(outcome, CollisionOutcome::LeftBounce);
    // 10*115/100 = 11 would exceed the cap of 10
    assert_eq!(b.velocity.x, 10);
}

#[test]
fn no_overlap_passes_ball_through_unchanged() {
    let c = cfg();
    let p1 = paddle_at(0, 0, &c);
    let p2 = paddle_at(780, 0, &c);
    let mut b = ball_at(400, 300, -3, 2, &c);
    let outcome = resolve(&mut b, &p1, &p2, &c);
    assert_eq!(outcome, CollisionOutcome::NoContact);
    assert_eq!(b.position, Vector2::new(400, 300));
    assert_eq!(b.velocity, Vector2::new(-3, 2));
}

#[test]
fn check_collision_matches_aabb_overlap() {
    let c = cfg();
    let p = paddle_at(0, 250, &c);
    assert!(ball_at(15, 300, 0, 0, &c).check_collision(&p));
    // touching edge to edge is not overlap
    assert!(!ball_at(20, 300, 0, 0, &c).check_collision(&p));
    assert!(!ball_at(15, 360, 0, 0, &c).check_collision(&p));
    assert!(!ball_at(15, 240, 0, 0, &c).check_collision(&p));
}

#[test]
fn vector_clamp_acts_on_both_components() {
    let mut v = Vector2::new(5, -7);
    v.clamp(-3, 3);
    assert_eq!(v, Vector2::new(3, -3));
}
