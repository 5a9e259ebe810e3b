use crate::color::{color_at, palette, Color, PALETTE_SIZE};
use vstd::prelude::*;

verus! {

/// Sub-pixel units per pixel: positions and sizes are held in thousandths of a pixel.
pub const SUBPIXELS: i64 = 1000;

/// The shaping ratio between a logo's distance from the centre and its extent, as a fraction.
pub const SIZE_NUM: i64 = 22;

/// Denominator of the shaping ratio.
pub const SIZE_DEN: i64 = 100;

/// Speeds are in thousandths per second and time steps in milliseconds.
pub const RATE_DEN: u128 = 1000000;

/// Largest coordinate magnitude a logo may hold between ticks (2^44 sub-pixels).
pub const POSITION_LIMIT: i64 = 17592186044416;

/// Largest coordinate magnitude an integration step reports (2^45 sub-pixels); beyond it
/// a logo is far outside any viewport.
pub const STEP_LIMIT: i64 = 35184372088832;

/// Number of distinct values of a random draw (2^32): a draw `r` stands for `r / 2^32`.
pub const DRAW_RANGE: u128 = 4294967296;

/// Viewport extent in whole pixels.
#[derive(Debug, Clone, Copy, PartialEq, Eq, Structural)]
pub struct Dimensions {
    pub width: u32,
    pub height: u32,
}

/// A position in sub-pixels.
#[derive(Debug, Clone, Copy, PartialEq, Eq, Structural)]
pub struct Coords2d(pub i64, pub i64);

/// A logo's rendered extent in sub-pixels.
#[derive(Debug, Clone, Copy, PartialEq, Eq, Structural)]
pub struct LogoSize {
    pub width: i64,
    pub height: i64,
}

/// Uniform random draws over `[0, 2^32)` that decide one respawn: the colour, whether the
/// logo is placed near the centre, and the two coordinates.
#[derive(Debug, Clone, Copy, PartialEq, Eq, Structural)]
pub struct RandomDraw {
    pub color: u32,
    pub bias: u32,
    pub x: u32,
    pub y: u32,
}

/// The abstract state of a logo.
pub ghost struct LogoView {
    pub x: int,
    pub y: int,
    pub width: int,
    pub height: int,
    pub speed: int,
    pub color: Color,
}

/// The viewport's extent along one axis, in sub-pixels.
pub open spec fn extent(px: u32) -> int {
    px * SUBPIXELS
}

/// The viewport's centre along one axis, in sub-pixels.
pub open spec fn center(px: u32) -> int {
    px * (SUBPIXELS / 2)
}

pub open spec fn abs(v: int) -> int {
    if v < 0 {
        -v
    } else {
        v
    }
}

/// Extent of a logo whose coordinate is `p` on an axis whose centre is `c`.
pub open spec fn size_of(p: int, c: int) -> int {
    SIZE_NUM * abs(p - c) / (SIZE_DEN as int)
}

/// How far a logo at distance `d >= 0` from the centre moves away from it in `dt` milliseconds.
pub open spec fn drift(d: int, speed: int, dt: int) -> int {
    d * speed * dt / (RATE_DEN as int)
}

/// One integration step of a coordinate `p`: it moves away from `c` in proportion to its distance.
pub open spec fn stepped(p: int, c: int, speed: int, dt: int) -> int {
    if p >= c {
        p + drift(p - c, speed, dt)
    } else {
        p - drift(c - p, speed, dt)
    }
}

/// The logo at `(x, y)` with extent `(w, h)` lies wholly outside the viewport.
pub open spec fn out_of_bounds(x: int, y: int, w: int, h: int, vp: Dimensions) -> bool {
    x > extent(vp.width) + w || x < -w || y > extent(vp.height) + h || y < -h
}

/// A draw `r` scaled onto `[0, n)`.
pub open spec fn scaled_draw(r: u32, n: int) -> int {
    r * n / (DRAW_RANGE as int)
}

/// The colour picked by a draw: each palette entry receives an equal share of draws.
pub open spec fn drawn_color(r: u32) -> Color {
    palette(scaled_draw(r, PALETTE_SIZE as int))
}

/// A draw picks the centred placement for one third of its values.
pub open spec fn picks_centered(bias: u32) -> bool {
    scaled_draw(bias, 3) == 0
}

/// A respawn coordinate on an axis of `px` pixels: within its middle half when `centered`,
/// anywhere in it otherwise.
pub open spec fn placed_coord(r: u32, px: u32, centered: bool) -> int {
    if centered {
        px * (SUBPIXELS / 4) + scaled_draw(r, px * (SUBPIXELS / 2))
    } else {
        scaled_draw(r, extent(px))
    }
}

/// A freshly placed logo of speed `speed` in viewport `vp`.
pub open spec fn spawned(speed: int, vp: Dimensions, d: RandomDraw) -> LogoView {
    LogoView {
        x: placed_coord(d.x, vp.width, picks_centered(d.bias)),
        y: placed_coord(d.y, vp.height, picks_centered(d.bias)),
        width: 0,
        height: 0,
        speed,
        color: drawn_color(d.color),
    }
}

/// Respawning keeps the speed and redraws position and colour.
pub open spec fn recycled(l: LogoView, vp: Dimensions, d: RandomDraw) -> LogoView {
    spawned(l.speed, vp, d)
}

/// The logo after the motion law, before the bounds test: the size follows the distance from
/// the centre before the move.
pub open spec fn integrated(l: LogoView, vp: Dimensions, dt: int) -> LogoView {
    LogoView {
        x: stepped(l.x, center(vp.width), l.speed, dt),
        y: stepped(l.y, center(vp.height), l.speed, dt),
        width: size_of(l.x, center(vp.width)),
        height: size_of(l.y, center(vp.height)),
        speed: l.speed,
        color: l.color,
    }
}

pub open spec fn is_out(l: LogoView, vp: Dimensions) -> bool {
    out_of_bounds(l.x, l.y, l.width, l.height, vp)
}

/// One tick of a logo: integrate, and respawn it at once if it left the viewport.
pub open spec fn advanced(l: LogoView, vp: Dimensions, dt: int, d: RandomDraw) -> LogoView {
    let m = integrated(l, vp, dt);
    if is_out(m, vp) {
        recycled(m, vp, d)
    } else {
        m
    }
}

/// Coordinates small enough for the next step to be computed exactly.
pub open spec fn representable(l: LogoView) -> bool {
    -POSITION_LIMIT <= l.x <= POSITION_LIMIT && -POSITION_LIMIT <= l.y <= POSITION_LIMIT
}

/// A draw `r` scaled onto `[0, n)`.
fn scale_draw(r: u32, n: u64) -> (v: u64)
    requires
        n <= POSITION_LIMIT,
    ensures
        v == scaled_draw(r, n as int),
        n > 0 ==> v < n,
{
    proof {
        assert(r * n <= DRAW_RANGE * POSITION_LIMIT) by (nonlinear_arith)
            requires
                r < DRAW_RANGE,
                n <= POSITION_LIMIT,
        ;
    }
    let p: u128 = r as u128 * n as u128;
    proof {
        assert(p < DRAW_RANGE * n || n == 0) by (nonlinear_arith)
            requires
                p == r * n,
                r < DRAW_RANGE,
        ;
        assert(n > 0 ==> (p as int) / (DRAW_RANGE as int) < n) by (nonlinear_arith)
            requires
                p < DRAW_RANGE * n || n == 0,
                p >= 0,
        ;
    }
    (p / DRAW_RANGE) as u64
}

/// A respawn coordinate, in `[0, px * SUBPIXELS)`.
fn place_coord(r: u32, px: u32, centered: bool) -> (v: i64)
    ensures
        v == placed_coord(r, px, centered),
        0 <= v < extent(px) || px == 0 && v == 0,
{
    let px: u64 = px as u64;
    if centered {
        let v = scale_draw(r, px * 500);
        (px * 250 + v) as i64
    } else {
        (scale_draw(r, px * 1000)) as i64
    }
}

/// One integration step of a coordinate, reported only while within `STEP_LIMIT`.
fn integrate_axis(p: i64, c: i64, speed: u32, dt: u64) -> (r: Option<i64>)
    requires
        -POSITION_LIMIT <= p <= POSITION_LIMIT,
        0 <= c <= POSITION_LIMIT / 4,
    ensures
        r == (if -STEP_LIMIT <= stepped(p as int, c as int, speed as int, dt as int) <= STEP_LIMIT {
            Some(stepped(p as int, c as int, speed as int, dt as int) as i64)
        } else {
            None::<i64>
        }),
{
    let d: u128 = if p >= c {
        (p - c) as u128
    } else {
        (c - p) as u128
    };
    proof {
        assert(speed * dt <= 4294967296 * 18446744073709551616) by (nonlinear_arith)
            requires
                0 <= speed < 4294967296,
                0 <= dt < 18446744073709551616,
        ;
    }
    let factor: u128 = speed as u128 * dt as u128;
    let ghost s = stepped(p as int, c as int, speed as int, dt as int);
    proof {
        assert(d * factor == d * speed * dt) by (nonlinear_arith)
            requires
                factor == speed * dt,
        ;
    }
    if d == 0 {
        assert(d * factor == 0) by (nonlinear_arith)
            requires
                d == 0,
        ;
        return Some(p);
    }
    if factor > 1208925819614629174706176 {
        proof {
            assert(d * factor >= factor) by (nonlinear_arith)
                requires
                    d >= 1,
                    factor >= 0,
            ;
        }
        return None;
    }
    proof {
        assert(d * factor <= 35184372088832 * 1208925819614629174706176) by (nonlinear_arith)
            requires
                0 <= d <= 35184372088832,
                0 <= factor <= 1208925819614629174706176,
        ;
    }
    let product: u128 = d * factor;
    let moved: u128 = product / RATE_DEN;
    if moved > 70368744177664 {
        return None;
    }
    let moved: i64 = moved as i64;
    let s_exec: i64 = if p >= c {
        p + moved
    } else {
        p - moved
    };
    if s_exec > STEP_LIMIT || s_exec < -STEP_LIMIT {
        None
    } else {
        Some(s_exec)
    }
}

/// A logo: its position and extent change every tick, its speed never does.
#[derive(Debug, Clone, Copy)]
pub struct WindowsLogo {
    position: Coords2d,
    dimensions: LogoSize,
    speed: u32,
    color: Color,
}

impl View for WindowsLogo {
    type V = LogoView;

    closed spec fn view(&self) -> LogoView {
        LogoView {
            x: self.position.0 as int,
            y: self.position.1 as int,
            width: self.dimensions.width as int,
            height: self.dimensions.height as int,
            speed: self.speed as int,
            color: self.color,
        }
    }
}

impl WindowsLogo {
    /// The logo's coordinates are within `POSITION_LIMIT`.
    pub open spec fn wf(&self) -> bool {
        representable(self@)
    }

    /// A logo of speed `speed`, placed and coloured by the draw `draw`.
    pub fn create_random_logo(max_dimension: Dimensions, speed: u32, draw: RandomDraw) -> (r: Self)
        ensures
            r@ == spawned(speed as int, max_dimension, draw),
            r.wf(),
    {
        let mut logo = WindowsLogo {
            position: Coords2d(0, 0),
            dimensions: LogoSize { width: 0, height: 0 },
            speed,
            color: Color::White,
        };
        logo.recycle_with_random_values(max_dimension, draw);
        logo
    }

    /// A logo at `position` with no extent yet.
    pub fn placed(position: Coords2d, speed: u32, color: Color) -> (r: Self)
        requires
            -POSITION_LIMIT <= position.0 <= POSITION_LIMIT,
            -POSITION_LIMIT <= position.1 <= POSITION_LIMIT,
        ensures
            r@ == (LogoView {
                x: position.0 as int,
                y: position.1 as int,
                width: 0,
                height: 0,
                speed: speed as int,
                color,
            }),
            r.wf(),
    {
        WindowsLogo { position, dimensions: LogoSize { width: 0, height: 0 }, speed, color }
    }

    /// Respawn in place: a new colour and position from `draw`, the extent reset to zero,
    /// the speed kept.
    pub fn recycle_with_random_values(&mut self, max_dimension: Dimensions, draw: RandomDraw)
        ensures
            final(self)@ == recycled(old(self)@, max_dimension, draw),
            final(self).wf(),
    {
        let index: u64 = scale_draw(draw.color, PALETTE_SIZE as u64);
        let random_color = color_at(index as u32);
        let should_bias: bool = scale_draw(draw.bias, 3) == 0;
        let x = place_coord(draw.x, max_dimension.width, should_bias);
        let y = place_coord(draw.y, max_dimension.height, should_bias);
        self.position = Coords2d(x, y);
        self.color = random_color;
        self.dimensions = LogoSize { width: 0, height: 0 };
    }

    /// One tick of `dt_ms` milliseconds: move away from the centre of `viewport`, take the
    /// extent from the distance before the move, and respawn from `draw` if the logo left the
    /// viewport.
    pub fn advance(&mut self, viewport: Dimensions, dt_ms: u64, draw: RandomDraw)
        requires
            old(self).wf(),
        ensures
            final(self)@ == advanced(old(self)@, viewport, dt_ms as int, draw),
            final(self).wf(),
    {
        let cx: i64 = viewport.width as i64 * 500;
        let cy: i64 = viewport.height as i64 * 500;
        let x = self.position.0;
        let y = self.position.1;
        assert(-POSITION_LIMIT <= x <= POSITION_LIMIT && -POSITION_LIMIT <= y <= POSITION_LIMIT);
        let dx: i64 = if x >= cx {
            x - cx
        } else {
            cx - x
        };
        let dy: i64 = if y >= cy {
            y - cy
        } else {
            cy - y
        };
        let width: i64 = SIZE_NUM * dx / SIZE_DEN;
        let height: i64 = SIZE_NUM * dy / SIZE_DEN;
        let ghost m = integrated(self@, viewport, dt_ms as int);
        let nx = integrate_axis(x, cx, self.speed, dt_ms);
        let ny = integrate_axis(y, cy, self.speed, dt_ms);
        match (nx, ny) {
            (Some(nx), Some(ny)) => {
                self.position = Coords2d(nx, ny);
                self.dimensions = LogoSize { width, height };
                assert(self@ == m);
                let max_x: i64 = viewport.width as i64 * SUBPIXELS;
                let max_y: i64 = viewport.height as i64 * SUBPIXELS;
                if nx > max_x + width || nx < -width || ny > max_y + height || ny < -height {
                    self.recycle_with_random_values(viewport, draw);
                }
            },
            _ => {
                self.recycle_with_random_values(viewport, draw);
            },
        }
    }

    pub fn position(&self) -> (r: Coords2d)
        ensures
            r.0 == self@.x,
            r.1 == self@.y,
    {
        self.position
    }

    pub fn size(&self) -> (r: LogoSize)
        ensures
            r.width == self@.width,
            r.height == self@.height,
    {
        self.dimensions
    }

    pub fn speed(&self) -> (r: u32)
        ensures
            r == self@.speed,
    {
        self.speed
    }

    pub fn color(&self) -> (r: Color)
        ensures
            r == self@.color,
    {
        self.color
    }
}

} // verus!
