use crate::collision::resolve;
use crate::collision::resolve_step;
use crate::config::GameConfig;
use crate::entity::Ball;
use crate::entity::Paddle;
use crate::entity::PaddleCommand;
use crate::entity::ball_move;
use crate::entity::paddle_step;
use crate::raster::background;
use crate::raster::covers;
use crate::score::Score;
use crate::score::check_scoring;
use crate::score::left_exit;
use crate::score::reset_outcome;
use crate::score::right_exit;
use crate::vector::Vector2;
use vstd::prelude::*;

verus! {

/// The two states of the game loop: `Running` is initial, `Closed` terminal.
#[derive(Clone, Copy, PartialEq, Eq, Structural, Debug)]
pub enum LoopState {
    Running,
    Closed,
}

/// The loop's only transition: `Running` gives way to `Closed` when the
/// presentation surface reports closed or the quit input is observed; nothing
/// leaves `Closed`.
pub open spec fn loop_transition(current: LoopState, surface_open: bool, quit_requested: bool) -> LoopState {
    match current {
        LoopState::Closed => LoopState::Closed,
        LoopState::Running => if !surface_open || quit_requested {
            LoopState::Closed
        } else {
            LoopState::Running
        },
    }
}

pub fn next_loop_state(current: LoopState, surface_open: bool, quit_requested: bool) -> (s:
    LoopState)
    ensures
        s == loop_transition(current, surface_open, quit_requested),
{
    match current {
        LoopState::Closed => LoopState::Closed,
        LoopState::Running => {
            if !surface_open || quit_requested {
                LoopState::Closed
            } else {
                LoopState::Running
            }
        },
    }
}

/// Maps one player's per-frame key snapshot to an intent; up wins when both
/// keys are held.
pub fn command_for(up_held: bool, down_held: bool) -> (c: PaddleCommand)
    ensures
        c == (if up_held {
            PaddleCommand::MoveUp
        } else if down_held {
            PaddleCommand::MoveDown
        } else {
            PaddleCommand::Stay
        }),
{
    if up_held {
        PaddleCommand::MoveUp
    } else if down_held {
        PaddleCommand::MoveDown
    } else {
        PaddleCommand::Stay
    }
}

/// Everything one running game owns: configuration, both paddles, the ball,
/// the score, and the pixel buffer that each frame overwrites.
#[derive(Clone, Debug)]
pub struct GameState {
    pub config: GameConfig,
    pub player1: Paddle,
    pub player2: Paddle,
    pub ball: Ball,
    pub score: Score,
    pub buffer: Vec<u32>,
    pub background_color: u32,
}

/// The ball as collision resolution leaves it this frame, before the scoring
/// decision: paddles step first, the ball integrates and bounces off walls,
/// then resolves against the stepped paddles.
pub open spec fn post_collision_ball(g: GameState, d1: int, d2: int) -> Ball {
    resolve_step(
        ball_move(g.ball, g.config),
        paddle_step(g.player1, d1, g.config),
        paddle_step(g.player2, d2, g.config),
        g.config,
    ).0
}

/// The color one frame leaves in buffer cell `i`: entities are rasterized
/// over the background in draw order paddle one, paddle two, ball, so a later
/// rectangle wins where they overlap.
pub open spec fn frame_pixel(i: int, g: GameState) -> u32 {
    let w = g.config.surface_width as int;
    if covers(
        i,
        w,
        g.ball.position.x as int,
        g.ball.position.y as int,
        g.ball.dimensions.x as int,
        g.ball.dimensions.y as int,
    ) {
        g.ball.color
    } else if covers(
        i,
        w,
        g.player2.position.x as int,
        g.player2.position.y as int,
        g.player2.dimensions.x as int,
        g.player2.dimensions.y as int,
    ) {
        g.player2.color
    } else if covers(
        i,
        w,
        g.player1.position.x as int,
        g.player1.position.y as int,
        g.player1.dimensions.x as int,
        g.player1.dimensions.y as int,
    ) {
        g.player1.color
    } else {
        g.background_color
    }
}

impl GameState {
    /// Well-formed between frames: a well-formed configuration, both paddles
    /// and the ball on the field within their invariants, and a pixel buffer
    /// of exactly `surface_width * surface_height` cells.
    pub open spec fn wf(self) -> bool {
        &&& self.config.wf()
        &&& self.player1.wf(self.config)
        &&& self.player2.wf(self.config)
        &&& self.ball.wf(self.config)
        &&& self.buffer@.len() == self.config.buffer_len()
    }

    /// Builds the initial state: the left paddle flush against the left wall,
    /// the right paddle flush against the right wall, both centered
    /// vertically; the ball centered with a fresh random velocity; the score
    /// at zero; and a buffer cleared to the background color.
    pub fn new(cfg: GameConfig, paddle_color: u32, ball_color: u32, background_color: u32) -> (g:
        GameState)
        requires
            cfg.wf(),
        ensures
            g.wf(),
            g.config == cfg,
            g.score == (Score { player1: 0, player2: 0 }),
            g.background_color == background_color,
            g.player1.position.x == 0,
            g.player2.position.x == cfg.surface_width - cfg.paddle_width,
            g.player1.position.y == cfg.surface_height / 2 - cfg.paddle_height / 2,
            g.player2.position.y == g.player1.position.y,
            g.ball.position.x == cfg.center_x(),
            g.ball.position.y == cfg.center_y(),
            !(g.ball.velocity.x == 0 && g.ball.velocity.y == 0),
            forall|i: int| 0 <= i < g.buffer@.len() ==> g.buffer@[i] == background_color,
    {
        let half_w: i64 = ((cfg.surface_width as u64) / 2) as i64;
        let half_h: i64 = ((cfg.surface_height as u64) / 2) as i64;
        let half_p: i64 = ((cfg.paddle_height as u64) / 2) as i64;
        let paddle_y: i64 = half_h - half_p;
        let player1 = Paddle::new(0, paddle_y, paddle_color, &cfg);
        let player2 = Paddle::new(
            cfg.surface_width - cfg.paddle_width,
            paddle_y,
            paddle_color,
            &cfg,
        );
        let mut ball = Ball::new(0, 0, 0, 0, ball_color, &cfg);
        crate::score::reset_ball(&mut ball, &cfg);
        proof {
            assert(cfg.surface_width * cfg.surface_height <= 0x4000 * 0x4000) by (nonlinear_arith)
                requires
                    1 <= cfg.surface_width <= 0x4000,
                    1 <= cfg.surface_height <= 0x4000,
            ;
            assert(cfg.surface_width * cfg.surface_height >= 0) by (nonlinear_arith)
                requires
                    1 <= cfg.surface_width,
                    1 <= cfg.surface_height,
            ;
        }
        let n: usize = (cfg.surface_width * cfg.surface_height) as usize;
        let mut buffer: Vec<u32> = Vec::new();
        while buffer.len() < n
            invariant
                buffer@.len() <= n,
                forall|i: int| 0 <= i < buffer@.len() ==> buffer@[i] == background_color,
            decreases n - buffer@.len(),
        {
            buffer.push(background_color);
        }
        GameState { config: cfg, player1, player2, ball, score: Score::new(), buffer, background_color }
    }

    /// One full frame while running: clear the buffer, apply both players'
    /// commands, integrate the paddles and the ball, resolve collisions
    /// against walls and paddles, settle scoring (exactly one increment in a
    /// frame whose resolved ball is out of bounds, with a reset to center),
    /// and rasterize background, paddles and ball into the buffer.
    pub fn step_frame(&mut self, cmd1: PaddleCommand, cmd2: PaddleCommand)
        requires
            old(self).wf(),
            old(self).score.player1 < u64::MAX,
            old(self).score.player2 < u64::MAX,
        ensures
            final(self).wf(),
            final(self).config == old(self).config,
            final(self).background_color == old(self).background_color,
            final(self).player1 == paddle_step(
                old(self).player1,
                cmd1.direction(),
                old(self).config,
            ),
            final(self).player2 == paddle_step(
                old(self).player2,
                cmd2.direction(),
                old(self).config,
            ),
            left_exit(post_collision_ball(*old(self), cmd1.direction(), cmd2.direction())) ==> {
                &&& final(self).score.player2 == old(self).score.player2 + 1
                &&& final(self).score.player1 == old(self).score.player1
                &&& reset_outcome(
                    final(self).ball,
                    post_collision_ball(*old(self), cmd1.direction(), cmd2.direction()),
                    old(self).config,
                )
            },
            !left_exit(post_collision_ball(*old(self), cmd1.direction(), cmd2.direction()))
                && right_exit(
                post_collision_ball(*old(self), cmd1.direction(), cmd2.direction()),
                old(self).config,
            ) ==> {
                &&& final(self).score.player1 == old(self).score.player1 + 1
                &&& final(self).score.player2 == old(self).score.player2
                &&& reset_outcome(
                    final(self).ball,
                    post_collision_ball(*old(self), cmd1.direction(), cmd2.direction()),
                    old(self).config,
                )
            },
            !left_exit(post_collision_ball(*old(self), cmd1.direction(), cmd2.direction()))
                && !right_exit(
                post_collision_ball(*old(self), cmd1.direction(), cmd2.direction()),
                old(self).config,
            ) ==> {
                &&& final(self).score == old(self).score
                &&& final(self).ball == post_collision_ball(
                    *old(self),
                    cmd1.direction(),
                    cmd2.direction(),
                )
            },
            final(self).score.player1 >= old(self).score.player1,
            final(self).score.player2 >= old(self).score.player2,
            final(self).buffer@.len() == old(self).buffer@.len(),
            forall|i: int|
                0 <= i < final(self).buffer@.len() ==> final(self).buffer@[i] == frame_pixel(
                    i,
                    *final(self),
                ),
    {
        let cfg = self.config;
        background(&mut self.buffer, self.background_color);
        self.player1.update(cmd1, &cfg);
        self.player2.update(cmd2, &cfg);
        self.ball.update(&cfg);
        let _outcome = resolve(&mut self.ball, &self.player1, &self.player2, &cfg);
        let _event = check_scoring(&mut self.ball, &mut self.score, &cfg);
        let player1 = self.player1;
        let player2 = self.player2;
        let ball = self.ball;
        player1.draw(&mut self.buffer, &cfg);
        player2.draw(&mut self.buffer, &cfg);
        ball.draw(&mut self.buffer, &cfg);
    }
}

} // verus!
