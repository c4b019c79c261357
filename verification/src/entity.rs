use crate::config::DRAG_DEN;
use crate::config::DRAG_NUM;
use crate::config::GameConfig;
use crate::config::scale_toward_zero;
use crate::config::scaled_toward_zero;
use crate::raster::covers;
use crate::raster::draw_rect;
use crate::vector::Vector2;
use crate::vector::clamped;
use vstd::prelude::*;

verus! {

/// Per-frame intent for one paddle, decoupled from whatever device produced
/// it; up and down move the paddle toward the top and bottom of the screen.
#[derive(Clone, Copy, PartialEq, Eq, Structural, Debug)]
pub enum PaddleCommand {
    MoveUp,
    Stay,
    MoveDown,
}

impl PaddleCommand {
    /// The sign this command gives the paddle's vertical acceleration.
    pub open spec fn direction(self) -> int {
        match self {
            PaddleCommand::MoveUp => -1,
            PaddleCommand::Stay => 0,
            PaddleCommand::MoveDown => 1,
        }
    }
}

/// A paddle: a rectangle at a fixed horizontal position, driven vertically by
/// per-frame commands, with drag and a symmetric speed cap.
#[derive(Clone, Copy, PartialEq, Eq, Structural, Debug)]
pub struct Paddle {
    pub position: Vector2,
    pub velocity: Vector2,
    pub acceleration: Vector2,
    pub dimensions: Vector2,
    pub color: u32,
}

/// The whole paddle frame in one step: the command sets the vertical
/// acceleration, velocity and position integrate, drag damps the velocity
/// toward zero, the velocity is clamped symmetrically into
/// `[-max_speed, max_speed]`, the acceleration is zeroed again (it is a
/// per-frame input, not accumulated state), and the position is clamped back
/// onto the field.
pub open spec fn paddle_step(p: Paddle, dir: int, cfg: GameConfig) -> Paddle {
    let vy_integrated = p.velocity.y + dir * cfg.paddle_speed;
    let py_integrated = p.position.y + vy_integrated;
    let vy_dragged = scaled_toward_zero(vy_integrated, DRAG_NUM as int, DRAG_DEN as int);
    let vy_new = clamped(vy_dragged, -(cfg.max_speed as int), cfg.max_speed as int);
    let py_new = clamped(py_integrated, 0, cfg.surface_height - cfg.paddle_height);
    Paddle {
        position: Vector2 { x: p.position.x, y: py_new as i64 },
        velocity: Vector2 { x: p.velocity.x, y: vy_new as i64 },
        acceleration: Vector2 { x: p.acceleration.x, y: 0 },
        dimensions: p.dimensions,
        color: p.color,
    }
}

impl Paddle {
    /// Well-formed between frames: paddle-sized, on the field, velocity within
    /// the cap, horizontal motion and carried-over acceleration both zero.
    pub open spec fn wf(self, cfg: GameConfig) -> bool {
        &&& self.dimensions.x == cfg.paddle_width
        &&& self.dimensions.y == cfg.paddle_height
        &&& 0 <= self.position.x <= cfg.surface_width - cfg.paddle_width
        &&& 0 <= self.position.y <= cfg.surface_height - cfg.paddle_height
        &&& self.velocity.x == 0
        &&& -cfg.max_speed <= self.velocity.y <= cfg.max_speed
        &&& self.acceleration.x == 0
        &&& self.acceleration.y == 0
    }

    pub fn new(x: i64, y: i64, color: u32, cfg: &GameConfig) -> (p: Paddle)
        requires
            cfg.wf(),
            0 <= x <= cfg.surface_width - cfg.paddle_width,
            0 <= y <= cfg.surface_height - cfg.paddle_height,
        ensures
            p.wf(*cfg),
            p.position == (Vector2 { x, y }),
            p.velocity == (Vector2 { x: 0, y: 0 }),
            p.color == color,
    {
        Paddle {
            position: Vector2::new(x, y),
            velocity: Vector2::new(0, 0),
            acceleration: Vector2::new(0, 0),
            dimensions: Vector2::new(cfg.paddle_width, cfg.paddle_height),
            color,
        }
    }

    /// One frame of paddle motion. Whatever the command and the prior
    /// velocity, the paddle ends the frame on the field: its top edge lies in
    /// `[0, surface_height - paddle_height]`.
    pub fn update(&mut self, cmd: PaddleCommand, cfg: &GameConfig)
        requires
            cfg.wf(),
            old(self).wf(*cfg),
        ensures
            *final(self) == paddle_step(*old(self), cmd.direction(), *cfg),
            final(self).wf(*cfg),
            0 <= final(self).position.y <= cfg.surface_height - cfg.paddle_height,
    {
        match cmd {
            PaddleCommand::MoveUp => {
                self.acceleration.y = -cfg.paddle_speed;
            },
            PaddleCommand::Stay => {
                self.acceleration.y = 0;
            },
            PaddleCommand::MoveDown => {
                self.acceleration.y = cfg.paddle_speed;
            },
        }
        self.velocity.y = self.velocity.y + self.acceleration.y;
        self.position.y = self.position.y + self.velocity.y;
        self.velocity.y = scale_toward_zero(self.velocity.y, DRAG_NUM, DRAG_DEN);
        let cap: i64 = cfg.max_speed;
        if self.velocity.y < -cap {
            self.velocity.y = -cap;
        } else if self.velocity.y > cap {
            self.velocity.y = cap;
        }
        self.acceleration.y = 0;
        let floor: i64 = cfg.surface_height - cfg.paddle_height;
        if self.position.y < 0 {
            self.position.y = 0;
        } else if self.position.y > floor {
            self.position.y = floor;
        }
    }

    /// Rasterizes this paddle into the pixel buffer, clipped to the surface.
    pub fn draw(&self, buffer: &mut Vec<u32>, cfg: &GameConfig)
        requires
            cfg.wf(),
            old(buffer)@.len() == cfg.buffer_len(),
            -0x100000 <= self.position.x <= 0x100000,
            -0x100000 <= self.position.y <= 0x100000,
            0 <= self.dimensions.x <= 0x100000,
            0 <= self.dimensions.y <= 0x100000,
        ensures
            final(buffer)@.len() == old(buffer)@.len(),
            forall|i: int|
                0 <= i < old(buffer)@.len() ==> final(buffer)@[i] == (if covers(
                    i,
                    cfg.surface_width as int,
                    self.position.x as int,
                    self.position.y as int,
                    self.dimensions.x as int,
                    self.dimensions.y as int,
                ) {
                    self.color
                } else {
                    old(buffer)@[i]
                }),
    {
        draw_rect(
            buffer,
            cfg.surface_width,
            cfg.surface_height,
            self.position.x,
            self.position.y,
            self.dimensions.x,
            self.dimensions.y,
            self.color,
        );
    }
}

/// The ball: a square driven by its velocity alone; its speed changes only in
/// collision response and on a reset after scoring.
#[derive(Clone, Copy, PartialEq, Eq, Structural, Debug)]
pub struct Ball {
    pub position: Vector2,
    pub velocity: Vector2,
    pub dimensions: Vector2,
    pub color: u32,
}

/// One frame of ball motion: the position integrates from the velocity
/// unconditionally; then, if the ball has reached past the top or bottom wall,
/// the vertical velocity flips sign and the position snaps exactly onto the
/// boundary it crossed, so no sub-pixel penetration accumulates.
pub open spec fn ball_move(b: Ball, cfg: GameConfig) -> Ball {
    let px = b.position.x + b.velocity.x;
    let py = b.position.y + b.velocity.y;
    let bottom = cfg.surface_height - cfg.ball_size;
    if py <= 0 {
        Ball {
            position: Vector2 { x: px as i64, y: 0 },
            velocity: Vector2 { x: b.velocity.x, y: (-b.velocity.y) as i64 },
            dimensions: b.dimensions,
            color: b.color,
        }
    } else if py >= bottom {
        Ball {
            position: Vector2 { x: px as i64, y: bottom as i64 },
            velocity: Vector2 { x: b.velocity.x, y: (-b.velocity.y) as i64 },
            dimensions: b.dimensions,
            color: b.color,
        }
    } else {
        Ball {
            position: Vector2 { x: px as i64, y: py as i64 },
            velocity: b.velocity,
            dimensions: b.dimensions,
            color: b.color,
        }
    }
}

impl Ball {
    /// Well-formed between frames: ball-sized, fully on the field, velocity
    /// within the symmetric speed cap.
    pub open spec fn wf(self, cfg: GameConfig) -> bool {
        &&& self.dimensions.x == cfg.ball_size
        &&& self.dimensions.y == cfg.ball_size
        &&& 0 <= self.position.x <= cfg.surface_width - cfg.ball_size
        &&& 0 <= self.position.y <= cfg.surface_height - cfg.ball_size
        &&& -cfg.max_speed <= self.velocity.x <= cfg.max_speed
        &&& -cfg.max_speed <= self.velocity.y <= cfg.max_speed
    }

    /// Mid-frame shape, between integration and the scoring decision: the ball
    /// is still ball-sized, vertically on the field and within the speed cap,
    /// but may stand off the field horizontally while collision resolution and
    /// scoring have not yet run.
    pub open spec fn mid_frame(self, cfg: GameConfig) -> bool {
        &&& self.dimensions.x == cfg.ball_size
        &&& self.dimensions.y == cfg.ball_size
        &&& -0x8000 <= self.position.x <= 0x8000
        &&& 0 <= self.position.y <= cfg.surface_height - cfg.ball_size
        &&& -cfg.max_speed <= self.velocity.x <= cfg.max_speed
        &&& -cfg.max_speed <= self.velocity.y <= cfg.max_speed
    }

    pub fn new(x: i64, y: i64, vx: i64, vy: i64, color: u32, cfg: &GameConfig) -> (b: Ball)
        requires
            cfg.wf(),
            0 <= x <= cfg.surface_width - cfg.ball_size,
            0 <= y <= cfg.surface_height - cfg.ball_size,
            -cfg.max_speed <= vx <= cfg.max_speed,
            -cfg.max_speed <= vy <= cfg.max_speed,
        ensures
            b.wf(*cfg),
            b.position == (Vector2 { x, y }),
            b.velocity == (Vector2 { x: vx, y: vy }),
            b.color == color,
    {
        Ball {
            position: Vector2::new(x, y),
            velocity: Vector2::new(vx, vy),
            dimensions: Vector2::new(cfg.ball_size, cfg.ball_size),
            color,
        }
    }

    /// One frame of ball motion against the walls. Hitting the top wall
    /// (integrated `position.y <= 0`) flips the sign of `velocity.y` and
    /// clamps `position.y` to exactly `0`; symmetrically for the bottom wall.
    pub fn update(&mut self, cfg: &GameConfig)
        requires
            cfg.wf(),
            old(self).wf(*cfg),
        ensures
            *final(self) == ball_move(*old(self), *cfg),
            final(self).mid_frame(*cfg),
            old(self).position.y + old(self).velocity.y <= 0 ==> final(self).velocity.y
                == -old(self).velocity.y && final(self).position.y == 0,
            old(self).position.y + old(self).velocity.y >= cfg.surface_height - cfg.ball_size
                ==> final(self).velocity.y == -old(self).velocity.y && final(self).position.y
                == cfg.surface_height - cfg.ball_size,
            0 < old(self).position.y + old(self).velocity.y < cfg.surface_height - cfg.ball_size
                ==> final(self).velocity.y == old(self).velocity.y && final(self).position.y
                == old(self).position.y + old(self).velocity.y,
            final(self).position.x == old(self).position.x + old(self).velocity.x,
            final(self).velocity.x == old(self).velocity.x,
    {
        self.position.x = self.position.x + self.velocity.x;
        self.position.y = self.position.y + self.velocity.y;
        let bottom: i64 = cfg.surface_height - cfg.ball_size;
        if self.position.y <= 0 {
            self.position.y = 0;
            self.velocity.y = -self.velocity.y;
        } else if self.position.y >= bottom {
            self.position.y = bottom;
            self.velocity.y = -self.velocity.y;
        }
    }

    /// Rasterizes this ball into the pixel buffer, clipped to the surface.
    pub fn draw(&self, buffer: &mut Vec<u32>, cfg: &GameConfig)
        requires
            cfg.wf(),
            old(buffer)@.len() == cfg.buffer_len(),
            -0x100000 <= self.position.x <= 0x100000,
            -0x100000 <= self.position.y <= 0x100000,
            0 <= self.dimensions.x <= 0x100000,
            0 <= self.dimensions.y <= 0x100000,
        ensures
            final(buffer)@.len() == old(buffer)@.len(),
            forall|i: int|
                0 <= i < old(buffer)@.len() ==> final(buffer)@[i] == (if covers(
                    i,
                    cfg.surface_width as int,
                    self.position.x as int,
                    self.position.y as int,
                    self.dimensions.x as int,
                    self.dimensions.y as int,
                ) {
                    self.color
                } else {
                    old(buffer)@[i]
                }),
    {
        draw_rect(
            buffer,
            cfg.surface_width,
            cfg.surface_height,
            self.position.x,
            self.position.y,
            self.dimensions.x,
            self.dimensions.y,
            self.color,
        );
    }
}

} // verus!
