use crate::config::GameConfig;
use crate::config::SPEED_INCREASE_DEN;
use crate::config::SPEED_INCREASE_NUM;
use crate::config::scale_toward_zero;
use crate::config::scaled_toward_zero;
use crate::entity::Ball;
use crate::entity::Paddle;
use crate::vector::Vector2;
use crate::vector::clamped;
use vstd::arithmetic::div_mod::lemma_div_is_ordered;
use vstd::arithmetic::div_mod::lemma_div_pos_is_pos;
use vstd::prelude::*;

verus! {

/// What collision resolution did to the ball this frame.
#[derive(Clone, Copy, PartialEq, Eq, Structural, Debug)]
pub enum CollisionOutcome {
    NoContact,
    LeftBounce,
    RightBounce,
}

/// Axis-aligned bounding-box overlap: the rectangle at `apos` with extents
/// `adim` overlaps the one at `bpos` with extents `bdim`.
pub open spec fn overlaps(apos: Vector2, adim: Vector2, bpos: Vector2, bdim: Vector2) -> bool {
    &&& apos.x < bpos.x + bdim.x
    &&& apos.x + adim.x > bpos.x
    &&& apos.y < bpos.y + bdim.y
    &&& apos.y + adim.y > bpos.y
}

/// The magnitude of one velocity component.
pub open spec fn speed_mag(v: int) -> int {
    if v >= 0 {
        v
    } else {
        -v
    }
}

/// The incoming horizontal magnitude grown by the speed-increase factor,
/// rounded toward zero.
pub open spec fn grown_speed(vx: int) -> int {
    scaled_toward_zero(speed_mag(vx), SPEED_INCREASE_NUM as int, SPEED_INCREASE_DEN as int)
}

/// The horizontal speed a bounce hands back: the grown magnitude, capped at
/// the speed limit.
pub open spec fn bounced_speed(vx: int, cfg: GameConfig) -> int {
    clamped(grown_speed(vx), 0, cfg.max_speed as int)
}

/// Collision resolution in one step. On overlap with the left paddle the ball
/// moves right at the grown speed and sits flush against that paddle's
/// trailing edge; symmetrically for the right paddle, whose bounce sends the
/// ball left and snaps it to the paddle's leading edge. At most one paddle
/// resolves; with no overlap the ball passes through unchanged.
pub open spec fn resolve_step(b: Ball, p1: Paddle, p2: Paddle, cfg: GameConfig) -> (Ball, CollisionOutcome) {
    if overlaps(b.position, b.dimensions, p1.position, p1.dimensions) {
        (
            Ball {
                position: Vector2 { x: (p1.position.x + p1.dimensions.x) as i64, y: b.position.y },
                velocity: Vector2 { x: bounced_speed(b.velocity.x as int, cfg) as i64, y: b.velocity.y },
                dimensions: b.dimensions,
                color: b.color,
            },
            CollisionOutcome::LeftBounce,
        )
    } else if overlaps(b.position, b.dimensions, p2.position, p2.dimensions) {
        (
            Ball {
                position: Vector2 { x: (p2.position.x - b.dimensions.x) as i64, y: b.position.y },
                velocity: Vector2 { x: (-bounced_speed(b.velocity.x as int, cfg)) as i64, y: b.velocity.y },
                dimensions: b.dimensions,
                color: b.color,
            },
            CollisionOutcome::RightBounce,
        )
    } else {
        (b, CollisionOutcome::NoContact)
    }
}

/// The grown speed is positive whenever the incoming horizontal velocity is
/// nonzero, never exceeds the cap, and equals the exact grown magnitude while
/// that magnitude stays under the cap.
pub proof fn lemma_bounced_speed(vx: int, cfg: GameConfig)
    requires
        cfg.wf(),
        -0x4000 <= vx <= 0x4000,
    ensures
        0 <= bounced_speed(vx, cfg) <= cfg.max_speed,
        vx != 0 ==> bounced_speed(vx, cfg) >= 1,
        grown_speed(vx) <= cfg.max_speed ==> bounced_speed(vx, cfg) == grown_speed(vx),
{
    let mag = speed_mag(vx);
    lemma_div_pos_is_pos(mag * 115, 100);
    if vx != 0 {
        assert(mag >= 1);
        assert(mag * 115 >= 115);
        lemma_div_is_ordered(115, mag * 115, 100);
        assert(115int / 100 == 1);
    }
}

impl Ball {
    /// True when this ball's bounding box overlaps the paddle's.
    pub fn check_collision(&self, paddle: &Paddle) -> (hit: bool)
        requires
            -0x100000 <= self.position.x <= 0x100000,
            -0x100000 <= self.position.y <= 0x100000,
            0 <= self.dimensions.x <= 0x100000,
            0 <= self.dimensions.y <= 0x100000,
            -0x100000 <= paddle.position.x <= 0x100000,
            -0x100000 <= paddle.position.y <= 0x100000,
            0 <= paddle.dimensions.x <= 0x100000,
            0 <= paddle.dimensions.y <= 0x100000,
        ensures
            hit == overlaps(self.position, self.dimensions, paddle.position, paddle.dimensions),
    {
        self.position.x < paddle.position.x + paddle.dimensions.x
            && self.position.x + self.dimensions.x > paddle.position.x
            && self.position.y < paddle.position.y + paddle.dimensions.y
            && self.position.y + self.dimensions.y > paddle.position.y
    }
}

/// Resolves the ball against both paddles for this frame, right after the
/// ball's position has integrated. On overlap with the left paddle the ball
/// leaves moving right (`velocity.x > 0` whenever it came in moving at all),
/// flush against that paddle's trailing edge, at the pre-bounce magnitude
/// grown by the speed-increase factor until the cap; symmetrically on the
/// right. With no overlap, ball and velocity pass through unchanged.
pub fn resolve(ball: &mut Ball, paddle1: &Paddle, paddle2: &Paddle, cfg: &GameConfig) -> (outcome:
    CollisionOutcome)
    requires
        cfg.wf(),
        old(ball).mid_frame(*cfg),
        paddle1.wf(*cfg),
        paddle2.wf(*cfg),
    ensures
        (*final(ball), outcome) == resolve_step(*old(ball), *paddle1, *paddle2, *cfg),
        final(ball).mid_frame(*cfg),
        outcome == CollisionOutcome::LeftBounce ==> {
            &&& old(ball).velocity.x != 0 ==> final(ball).velocity.x > 0
            &&& final(ball).velocity.x >= 0
            &&& final(ball).position.x == paddle1.position.x + paddle1.dimensions.x
        },
        outcome == CollisionOutcome::RightBounce ==> {
            &&& old(ball).velocity.x != 0 ==> final(ball).velocity.x < 0
            &&& final(ball).velocity.x <= 0
            &&& final(ball).position.x == paddle2.position.x - old(ball).dimensions.x
        },
        outcome == CollisionOutcome::NoContact ==> *final(ball) == *old(ball),
        outcome != CollisionOutcome::NoContact ==> {
            &&& speed_mag(final(ball).velocity.x as int) == bounced_speed(
                old(ball).velocity.x as int,
                *cfg,
            )
            &&& grown_speed(old(ball).velocity.x as int) <= cfg.max_speed ==> speed_mag(
                final(ball).velocity.x as int,
            ) == grown_speed(old(ball).velocity.x as int)
        },
        final(ball).velocity.y == old(ball).velocity.y,
        final(ball).position.y == old(ball).position.y,
{
    proof {
        lemma_bounced_speed(old(ball).velocity.x as int, *cfg);
    }
    if ball.check_collision(paddle1) {
        let grown: i64 = scale_toward_zero(
            abs_speed(ball.velocity.x),
            SPEED_INCREASE_NUM,
            SPEED_INCREASE_DEN,
        );
        ball.velocity.x = if grown > cfg.max_speed {
            cfg.max_speed
        } else {
            grown
        };
        ball.position.x = paddle1.position.x + paddle1.dimensions.x;
        CollisionOutcome::LeftBounce
    } else if ball.check_collision(paddle2) {
        let grown: i64 = scale_toward_zero(
            abs_speed(ball.velocity.x),
            SPEED_INCREASE_NUM,
            SPEED_INCREASE_DEN,
        );
        ball.velocity.x = if grown > cfg.max_speed {
            -cfg.max_speed
        } else {
            -grown
        };
        ball.position.x = paddle2.position.x - ball.dimensions.x;
        CollisionOutcome::RightBounce
    } else {
        CollisionOutcome::NoContact
    }
}

/// The magnitude of a bounded velocity component.
fn abs_speed(v: i64) -> (m: i64)
    requires
        -0x100000 <= v <= 0x100000,
    ensures
        m == speed_mag(v as int),
        0 <= m <= 0x100000,
{
    if v >= 0 {
        v
    } else {
        -v
    }
}

} // verus!
