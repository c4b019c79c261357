use vstd::prelude::*;

verus! {

/// Numerator and denominator of the per-frame velocity damping factor: after a
/// paddle integrates its acceleration, each velocity component is scaled by
/// `DRAG_NUM / DRAG_DEN`, a factor in `(0, 1)`, toward zero.
pub const DRAG_NUM: i64 = 85;

pub const DRAG_DEN: i64 = 100;

/// Numerator and denominator of the multiplier applied to the ball's horizontal
/// speed on every paddle bounce: a factor above 1, so the ball gets faster with
/// each exchange until the speed cap takes over.
pub const SPEED_INCREASE_NUM: i64 = 115;

pub const SPEED_INCREASE_DEN: i64 = 100;

/// The fixed parameters of one game: surface size, entity sizes, speed bounds,
/// and the scales of the randomized velocity a reset assigns to the ball.
/// Lengths are in pixels, speeds in pixels per frame.
#[derive(Clone, Copy, PartialEq, Eq, Structural, Debug)]
pub struct GameConfig {
    pub surface_width: i64,
    pub surface_height: i64,
    pub paddle_width: i64,
    pub paddle_height: i64,
    pub ball_size: i64,
    pub paddle_speed: i64,
    pub max_speed: i64,
    pub reset_scale_x: i64,
    pub reset_scale_y: i64,
}

impl GameConfig {
    /// A configuration is well formed when every entity fits the surface, the
    /// speeds are bounded by the speed cap, and every length is small enough
    /// that per-frame arithmetic stays far from `i64` overflow.
    pub open spec fn wf(self) -> bool {
        &&& 1 <= self.paddle_width <= self.surface_width
        &&& 1 <= self.paddle_height <= self.surface_height
        &&& 1 <= self.ball_size
        &&& self.ball_size < self.surface_width
        &&& self.ball_size < self.surface_height
        &&& self.surface_width <= 0x4000
        &&& self.surface_height <= 0x4000
        &&& 0 <= self.paddle_speed <= self.max_speed
        &&& 1 <= self.max_speed <= 0x4000
        &&& 1 <= self.reset_scale_x <= self.max_speed
        &&& 1 <= self.reset_scale_y <= self.max_speed
    }

    /// Number of cells of the pixel buffer this configuration calls for.
    pub open spec fn buffer_len(self) -> int {
        self.surface_width * self.surface_height
    }

    /// Horizontal position at which a reset centers the ball.
    pub open spec fn center_x(self) -> int {
        self.surface_width / 2 - self.ball_size / 2
    }

    /// Vertical position at which a reset centers the ball.
    pub open spec fn center_y(self) -> int {
        self.surface_height / 2 - self.ball_size / 2
    }

    pub fn new(
        surface_width: i64,
        surface_height: i64,
        paddle_width: i64,
        paddle_height: i64,
        ball_size: i64,
        paddle_speed: i64,
        max_speed: i64,
        reset_scale_x: i64,
        reset_scale_y: i64,
    ) -> (c: GameConfig)
        requires
            1 <= paddle_width <= surface_width,
            1 <= paddle_height <= surface_height,
            1 <= ball_size,
            ball_size < surface_width,
            ball_size < surface_height,
            surface_width <= 0x4000,
            surface_height <= 0x4000,
            0 <= paddle_speed <= max_speed,
            1 <= max_speed <= 0x4000,
            1 <= reset_scale_x <= max_speed,
            1 <= reset_scale_y <= max_speed,
        ensures
            c.wf(),
            c == (GameConfig {
                surface_width,
                surface_height,
                paddle_width,
                paddle_height,
                ball_size,
                paddle_speed,
                max_speed,
                reset_scale_x,
                reset_scale_y,
            }),
    {
        GameConfig {
            surface_width,
            surface_height,
            paddle_width,
            paddle_height,
            ball_size,
            paddle_speed,
            max_speed,
            reset_scale_x,
            reset_scale_y,
        }
    }

    /// Runtime test of `wf`, for callers outside verified code that must
    /// establish it before driving a game.
    pub fn is_wf(&self) -> (b: bool)
        ensures
            b == self.wf(),
    {
        1 <= self.paddle_width && self.paddle_width <= self.surface_width
            && 1 <= self.paddle_height && self.paddle_height <= self.surface_height
            && 1 <= self.ball_size && self.ball_size < self.surface_width
            && self.ball_size < self.surface_height && self.surface_width <= 0x4000
            && self.surface_height <= 0x4000 && 0 <= self.paddle_speed
            && self.paddle_speed <= self.max_speed && 1 <= self.max_speed
            && self.max_speed <= 0x4000 && 1 <= self.reset_scale_x
            && self.reset_scale_x <= self.max_speed && 1 <= self.reset_scale_y
            && self.reset_scale_y <= self.max_speed
    }
}

/// `v` scaled by the nonnegative factor `num / den`, rounded toward zero; the
/// result keeps the sign of `v` and, for `num <= den`, never grows in
/// magnitude. (Both divisions below act on nonnegative operands, where
/// mathematical and machine division agree.)
pub open spec fn scaled_toward_zero(v: int, num: int, den: int) -> int {
    if v >= 0 {
        v * num / den
    } else {
        -((-v) * num / den)
    }
}

/// Exact implementation of `scaled_toward_zero` on bounded inputs.
pub fn scale_toward_zero(v: i64, num: i64, den: i64) -> (r: i64)
    requires
        -0x100000 <= v <= 0x100000,
        0 <= num <= 1000,
        1 <= den <= 1000,
    ensures
        r == scaled_toward_zero(v as int, num as int, den as int),
    {
    let mag: u64 = if v >= 0 {
        v as u64
    } else {
        (-v) as u64
    };
    proof {
        assert(mag * (num as u64) <= 0x100000 * 1000) by (nonlinear_arith)
            requires
                mag <= 0x100000,
                num as u64 <= 1000,
        ;
    }
    let m: u64 = mag * (num as u64);
    proof {
        assert(m / (den as u64) <= m) by (nonlinear_arith)
            requires
                den as u64 >= 1,
        ;
    }
    let q: i64 = (m / (den as u64)) as i64;
    if v >= 0 {
        q
    } else {
        -q
    }
}

} // verus!
