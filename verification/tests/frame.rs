use pong_core::config::GameConfig;
use pong_core::entity::{Ball, PaddleCommand};
use pong_core::game::{command_for, next_loop_state, GameState, LoopState};
use pong_core::score::{check_scoring, reset_velocity, Score, Scorer};
use pong_core::vector::Vector2;

fn cfg() -> GameConfig {
    GameConfig::new(800, 600, 20, 100, 10, 5, 10, 10, 5)
}

#[test]
fn scoring_left_exit_gives_player_two_one_point() {
    let c = cfg();
    let mut b = Ball::new(0, 300, -3, 0, 0xFF0000, &c);
    b.position.x = -3;
    let mut s = Score::new();
    let event = check_scoring(&mut b, &mut s, &c);
    assert_eq!(s.player2, 1);
    assert_eq!(s.player1, 0);
    assert_eq!(event.map(|e| e.scorer), Some(Scorer::PlayerTwo));
    assert_eq!(b.position, Vector2::new(395, 295));
    assert!(b.velocity.x != 0 || b.velocity.y != 0);
    assert!(-10 <= b.velocity.x && b.velocity.x <= 10);
    assert!(-5 <= b.velocity.y && b.velocity.y <= 5);
}

#[test]
fn scoring_right_exit_gives_player_one_one_point() {
    let c = cfg();
    let mut b = Ball::new(790, 300, 3, 0, 0xFF0000, &c);
    b.position.x = 795;
    let mut s = Score::new();
    let event = check_scoring(&mut b, &mut s, &c);
    assert_eq!(s.player1, 1);
    assert_eq!(s.player2, 0);
    assert_eq!(event.map(|e| e.scorer), Some(Scorer::PlayerOne));
    assert_eq!(b.position, Vector2::new(395, 295));
    assert!(b.velocity.x != 0 || b.velocity.y != 0);
}

#[test]
fn ball_on_field_scores_nothing() {
    let c = cfg();
    let mut b = Ball::new(400, 300, 3, 1, 0xFF0000, &c);
    let mut s = Score::new();
    let event = check_scoring(&mut b, &mut s, &c);
    assert!(event.is_none());
    assert_eq!(s.player1, 0);
    assert_eq!(s.player2, 0);
    assert_eq!(b.position, Vector2::new(400, 300));
    assert_eq!(b.velocity, Vector2::new(3, 1));
}

#[test]
fn reset_velocity_is_never_stationary() {
    let v = reset_velocity(0, 0);
    assert_eq!(v, Vector2::new(1, 0));
    let w = reset_velocity(2, -1);
    assert_eq!(w, Vector2::new(2, -1));
    assert!(w.x != 0 || w.y != 0);
}

#[test]
fn repeated_resets_stay_in_scale_and_never_stall() {
    let c = GameConfig::new(800, 600, 20, 100, 10, 5, 10, 1, 1);
    for _ in 0..100 {
        let mut b = Ball::new(0, 300, -1, 0, 0xFF0000, &c);
        let mut s = Score::new();
        check_scoring(&mut b, &mut s, &c);
        assert!(-1 <= b.velocity.x && b.velocity.x <= 1);
        assert!(-1 <= b.velocity.y && b.velocity.y <= 1);
        assert!(b.velocity.x != 0 || b.velocity.y != 0);
    }
}

#[test]
fn frame_with_left_exit_scores_recenters_and_draws() {
    let c = cfg();
    let mut g = GameState::new(c, 0xFFFFFF, 0xFF0000, 0x000000);
    // move the paddles out of the ball's row so nothing blocks the exit
    g.player1.position.y = 0;
    g.player2.position.y = 0;
    g.ball.position = Vector2::new(0, 300);
    g.ball.velocity = Vector2::new(-3, 0);
    g.step_frame(PaddleCommand::Stay, PaddleCommand::Stay);
    assert_eq!(g.score.player2, 1);
    assert_eq!(g.score.player1, 0);
    assert_eq!(g.ball.position, Vector2::new(395, 295));
    assert!(g.ball.velocity.x != 0 || g.ball.velocity.y != 0);
    // the re-centered ball is rasterized at its new position
    assert_eq!(g.buffer[295 * 800 + 395], 0xFF0000);
    // the left paddle sits at the origin, the right one at the far column
    assert_eq!(g.buffer[0], 0xFFFFFF);
    assert_eq!(g.buffer[799], 0xFFFFFF);
    // an empty cell keeps the background
    assert_eq!(g.buffer[599 * 800], 0x000000);
}

#[test]
fn frame_without_exit_keeps_score_and_moves_ball() {
    let c = cfg();
    let mut g = GameState::new(c, 0xFFFFFF, 0xFF0000, 0x000000);
    g.ball.position = Vector2::new(400, 300);
    g.ball.velocity = Vector2::new(2, 1);
    g.step_frame(PaddleCommand::Stay, PaddleCommand::Stay);
    assert_eq!(g.score.player1, 0);
    assert_eq!(g.score.player2, 0);
    assert_eq!(g.ball.position, Vector2::new(402, 301));
    assert_eq!(g.buffer[301 * 800 + 402], 0xFF0000);
}

#[test]
fn initial_state_layout() {
    let c = cfg();
    let g = GameState::new(c, 0xFFFFFF, 0xFF0000, 0x123456);
    assert_eq!(g.player1.position, Vector2::new(0, 250));
    assert_eq!(g.player2.position, Vector2::new(780, 250));
    assert_eq!(g.ball.position, Vector2::new(395, 295));
    assert!(g.ball.velocity.x != 0 || g.ball.velocity.y != 0);
    assert_eq!(g.score.player1, 0);
    assert_eq!(g.score.player2, 0);
    assert_eq!(g.buffer.len(), 800 * 600);
    assert!(g.buffer.iter().all(|&p| p == 0x123456));
}

#[test]
fn loop_state_machine_transitions() {
    assert_eq!(next_loop_state(LoopState::Running, true, false), LoopState::Running);
    assert_eq!(next_loop_state(LoopState::Running, false, false), LoopState::Closed);
    assert_eq!(next_loop_state(LoopState::Running, true, true), LoopState::Closed);
    assert_eq!(next_loop_state(LoopState::Closed, true, false), LoopState::Closed);
}

#[test]
fn commands_map_from_key_snapshot() {
    assert_eq!(command_for(true, false), PaddleCommand::MoveUp);
    assert_eq!(command_for(false, true), PaddleCommand::MoveDown);
    assert_eq!(command_for(false, false), PaddleCommand::Stay);
    assert_eq!(command_for(true, true), PaddleCommand::MoveUp);
}
