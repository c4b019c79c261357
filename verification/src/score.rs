use crate::config::GameConfig;
use crate::entity::Ball;
use crate::rng::sample_in_range;
use crate::vector::Vector2;
use vstd::prelude::*;

verus! {

/// Both players' tallies; each grows by exactly one per qualifying
/// out-of-bounds event and never decreases.
#[derive(Clone, Copy, PartialEq, Eq, Structural, Debug)]
pub struct Score {
    pub player1: u64,
    pub player2: u64,
}

impl Score {
    pub fn new() -> (s: Score)
        ensures
            s.player1 == 0,
            s.player2 == 0,
    {
        Score { player1: 0, player2: 0 }
    }
}

/// Which player the point went to.
#[derive(Clone, Copy, PartialEq, Eq, Structural, Debug)]
pub enum Scorer {
    PlayerOne,
    PlayerTwo,
}

/// Emitted when a point was scored and the ball was re-centered with a fresh
/// random velocity.
#[derive(Clone, Copy, PartialEq, Eq, Structural, Debug)]
pub struct ResetEvent {
    pub scorer: Scorer,
}

/// The ball has fully exited past the left wall, so player two scores.
pub open spec fn left_exit(b: Ball) -> bool {
    b.position.x <= 0
}

/// The ball has crossed the right wall, so player one scores.
pub open spec fn right_exit(b: Ball, cfg: GameConfig) -> bool {
    b.position.x + b.dimensions.x >= cfg.surface_width
}

/// What a reset leaves behind: the ball re-centered on the field, sizes and
/// color untouched, and a velocity inside the configured scales on each axis
/// that is not zero on both axes — a reset never yields a stalled ball.
pub open spec fn reset_outcome(new: Ball, prior: Ball, cfg: GameConfig) -> bool {
    &&& new.position.x == cfg.center_x()
    &&& new.position.y == cfg.center_y()
    &&& -cfg.reset_scale_x <= new.velocity.x <= cfg.reset_scale_x
    &&& -cfg.reset_scale_y <= new.velocity.y <= cfg.reset_scale_y
    &&& !(new.velocity.x == 0 && new.velocity.y == 0)
    &&& new.dimensions == prior.dimensions
    &&& new.color == prior.color
}

/// Turns the two raw velocity draws into the ball's reset velocity: the draws
/// pass through unchanged unless both are zero, in which case the sampler's
/// bias replaces them with a unit push to the right, so the result is never
/// zero on both axes.
pub fn reset_velocity(raw_x: i64, raw_y: i64) -> (v: Vector2)
    ensures
        raw_x != 0 || raw_y != 0 ==> v == (Vector2 { x: raw_x, y: raw_y }),
        raw_x == 0 && raw_y == 0 ==> v == (Vector2 { x: 1, y: 0 }),
        v.x != 0 || v.y != 0,
{
    if raw_x == 0 && raw_y == 0 {
        Vector2::new(1, 0)
    } else {
        Vector2::new(raw_x, raw_y)
    }
}

/// Re-centers the ball on the field and gives it a fresh random velocity
/// drawn per axis from the configured symmetric scales, biased away from a
/// velocity that is zero on both axes.
pub fn reset_ball(ball: &mut Ball, cfg: &GameConfig)
    requires
        cfg.wf(),
    ensures
        reset_outcome(*final(ball), *old(ball), *cfg),
{
    let half_w: i64 = ((cfg.surface_width as u64) / 2) as i64;
    let half_h: i64 = ((cfg.surface_height as u64) / 2) as i64;
    let half_b: i64 = ((cfg.ball_size as u64) / 2) as i64;
    ball.position = Vector2::new(half_w - half_b, half_h - half_b);
    let raw_x: i64 = sample_in_range(-cfg.reset_scale_x, cfg.reset_scale_x);
    let raw_y: i64 = sample_in_range(-cfg.reset_scale_y, cfg.reset_scale_y);
    ball.velocity = reset_velocity(raw_x, raw_y);
}

/// The scoring decision for one frame, taken on the ball as collision
/// resolution left it. A ball fully past the left wall gives player two
/// exactly one point; a ball across the right wall gives player one exactly
/// one point; at most one of the two happens, the other tally is untouched,
/// and a point is always followed by a reset of the ball. A ball still on the
/// field leaves ball and score exactly as they were, and no event is emitted.
pub fn check_scoring(ball: &mut Ball, score: &mut Score, cfg: &GameConfig) -> (r: Option<
    ResetEvent,
>)
    requires
        cfg.wf(),
        old(ball).mid_frame(*cfg),
        old(score).player1 < u64::MAX,
        old(score).player2 < u64::MAX,
    ensures
        left_exit(*old(ball)) ==> {
            &&& r == Some(ResetEvent { scorer: Scorer::PlayerTwo })
            &&& final(score).player2 == old(score).player2 + 1
            &&& final(score).player1 == old(score).player1
            &&& reset_outcome(*final(ball), *old(ball), *cfg)
        },
        !left_exit(*old(ball)) && right_exit(*old(ball), *cfg) ==> {
            &&& r == Some(ResetEvent { scorer: Scorer::PlayerOne })
            &&& final(score).player1 == old(score).player1 + 1
            &&& final(score).player2 == old(score).player2
            &&& reset_outcome(*final(ball), *old(ball), *cfg)
        },
        !left_exit(*old(ball)) && !right_exit(*old(ball), *cfg) ==> {
            &&& r is None
            &&& *final(ball) == *old(ball)
            &&& *final(score) == *old(score)
        },
        final(score).player1 >= old(score).player1,
        final(score).player2 >= old(score).player2,
        final(ball).wf(*cfg),
{
    if ball.position.x <= 0 {
        score.player2 = score.player2 + 1;
        reset_ball(ball, cfg);
        proof {
            lemma_center_on_field(*cfg);
        }
        Some(ResetEvent { scorer: Scorer::PlayerTwo })
    } else if ball.position.x + ball.dimensions.x >= cfg.surface_width {
        score.player1 = score.player1 + 1;
        reset_ball(ball, cfg);
        proof {
            lemma_center_on_field(*cfg);
        }
        Some(ResetEvent { scorer: Scorer::PlayerOne })
    } else {
        None
    }
}

/// The reset position lies on the field: for a ball smaller than the surface,
/// `size/2 - ball/2` falls within `[0, size - ball]` on each axis.
proof fn lemma_center_on_field(cfg: GameConfig)
    requires
        cfg.wf(),
    ensures
        0 <= cfg.center_x() <= cfg.surface_width - cfg.ball_size,
        0 <= cfg.center_y() <= cfg.surface_height - cfg.ball_size,
{
}

} // verus!
