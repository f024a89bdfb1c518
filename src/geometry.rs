//! Vectors, kinematic bodies and the viewport.
use vstd::prelude::*;
use crate::units::{PIXEL, COORD_LIMIT};

verus! {

/// Whether `v` is representable as an `i64`.
pub open spec fn fits_i64(v: int) -> bool {
    i64::MIN <= v <= i64::MAX
}

/// Whether `c` lies within the coordinate range that entities keep to.
pub open spec fn coord_ok(c: int) -> bool {
    -COORD_LIMIT <= c <= COORD_LIMIT
}

/// `v` limited to `[-m, m]`.
pub open spec fn clamp(v: int, m: int) -> int {
    if v > m {
        m
    } else if v < -m {
        -m
    } else {
        v
    }
}

/// Screen wrap of one coordinate against an extent `dim` and an entity size.
pub open spec fn wrap_coord(c: int, dim: int, size: int) -> int {
    if c < 0 {
        dim - size
    } else if c > dim - size {
        0
    } else {
        c
    }
}

/// A pair of fixed-point components.
#[derive(Clone, Copy, Debug, PartialEq, Eq, Structural)]
pub struct Vec2 {
    pub x: i64,
    pub y: i64,
}

impl Vec2 {
    pub open spec fn zero_spec() -> Vec2 {
        Vec2 { x: 0, y: 0 }
    }

    pub fn new(x: i64, y: i64) -> (r: Vec2)
        ensures
            r.x == x,
            r.y == y,
    {
        Vec2 { x, y }
    }

    pub fn zero() -> (r: Vec2)
        ensures
            r == Vec2::zero_spec(),
    {
        Vec2 { x: 0, y: 0 }
    }

    /// Componentwise product with a scalar.
    pub fn scale(self, k: i64) -> (r: Vec2)
        requires
            fits_i64(self.x * k),
            fits_i64(self.y * k),
        ensures
            r.x == self.x * k,
            r.y == self.y * k,
    {
        Vec2 { x: self.x * k, y: self.y * k }
    }
}

/// The drawable surface, in whole pixels.
#[derive(Clone, Copy, Debug, PartialEq, Eq, Structural)]
pub struct Viewport {
    pub width: u32,
    pub height: u32,
}

impl Viewport {
    pub open spec fn width_units(self) -> int {
        self.width * PIXEL
    }

    pub open spec fn height_units(self) -> int {
        self.height * PIXEL
    }

    pub fn new(width: u32, height: u32) -> (r: Viewport)
        ensures
            r.width == width,
            r.height == height,
    {
        Viewport { width, height }
    }

    /// The width in length units.
    pub fn width_in_units(&self) -> (r: i64)
        ensures
            r == self.width_units(),
            0 <= r <= COORD_LIMIT,
    {
        self.width as i64 * PIXEL
    }

    /// The height in length units.
    pub fn height_in_units(&self) -> (r: i64)
        ensures
            r == self.height_units(),
            0 <= r <= COORD_LIMIT,
    {
        self.height as i64 * PIXEL
    }
}

/// Position, velocity and heading of a moving entity.
#[derive(Clone, Copy, Debug, PartialEq, Eq, Structural)]
pub struct Body {
    pub pos: Vec2,
    pub vel: Vec2,
    pub angle: u32,
}

impl Body {
    pub fn new(pos: Vec2, vel: Vec2, angle: u32) -> (r: Body)
        ensures
            r.pos == pos,
            r.vel == vel,
            r.angle == angle,
    {
        Body { pos, vel, angle }
    }

    /// Adds `acc * dt` to the velocity.
    pub fn accelerate(&mut self, dt: u32, acc: Vec2)
        requires
            fits_i64(acc.x * dt),
            fits_i64(acc.y * dt),
            fits_i64(old(self).vel.x + acc.x * dt),
            fits_i64(old(self).vel.y + acc.y * dt),
        ensures
            final(self).vel.x == old(self).vel.x + acc.x * dt,
            final(self).vel.y == old(self).vel.y + acc.y * dt,
            final(self).pos == old(self).pos,
            final(self).angle == old(self).angle,
    {
        self.vel.x = self.vel.x + acc.x * dt as i64;
        self.vel.y = self.vel.y + acc.y * dt as i64;
    }

    /// Adds `vel * dt` to the position.
    pub fn advance(&mut self, dt: u32)
        requires
            fits_i64(old(self).vel.x * dt),
            fits_i64(old(self).vel.y * dt),
            fits_i64(old(self).pos.x + old(self).vel.x * dt),
            fits_i64(old(self).pos.y + old(self).vel.y * dt),
        ensures
            final(self).pos.x == old(self).pos.x + old(self).vel.x * dt,
            final(self).pos.y == old(self).pos.y + old(self).vel.y * dt,
            final(self).vel == old(self).vel,
            final(self).angle == old(self).angle,
    {
        self.pos.x = self.pos.x + self.vel.x * dt as i64;
        self.pos.y = self.pos.y + self.vel.y * dt as i64;
    }

    /// One integration step: the velocity takes `acc * dt`, then the
    /// position takes the new velocity times `dt`.
    pub fn integrate(&mut self, dt: u32, acc: Vec2)
        requires
            fits_i64(acc.x * dt),
            fits_i64(acc.y * dt),
            fits_i64((old(self).vel.x + acc.x * dt) * dt),
            fits_i64((old(self).vel.y + acc.y * dt) * dt),
            fits_i64(old(self).vel.x + acc.x * dt),
            fits_i64(old(self).vel.y + acc.y * dt),
            fits_i64(old(self).pos.x + (old(self).vel.x + acc.x * dt) * dt),
            fits_i64(old(self).pos.y + (old(self).vel.y + acc.y * dt) * dt),
        ensures
            final(self).vel.x == old(self).vel.x + acc.x * dt,
            final(self).vel.y == old(self).vel.y + acc.y * dt,
            final(self).pos.x == old(self).pos.x + final(self).vel.x * dt,
            final(self).pos.y == old(self).pos.y + final(self).vel.y * dt,
            final(self).angle == old(self).angle,
    {
        self.accelerate(dt, acc);
        self.advance(dt);
    }

    /// Limits each velocity component on its own to `[-max_speed, max_speed]`.
    pub fn clamp_speed(&mut self, max_speed: i64)
        requires
            max_speed >= 0,
        ensures
            final(self).vel.x == clamp(old(self).vel.x as int, max_speed as int),
            final(self).vel.y == clamp(old(self).vel.y as int, max_speed as int),
            -max_speed <= final(self).vel.x <= max_speed,
            -max_speed <= final(self).vel.y <= max_speed,
            final(self).pos == old(self).pos,
            final(self).angle == old(self).angle,
    {
        self.vel.x = clamp_component(self.vel.x, max_speed);
        self.vel.y = clamp_component(self.vel.y, max_speed);
    }

    /// Screen wrap along the x axis against the extent `width`.
    pub fn wrap_x(&mut self, width: i64, size: i64)
        requires
            0 <= width <= COORD_LIMIT,
            0 <= size <= COORD_LIMIT,
        ensures
            final(self).pos.x == wrap_coord(old(self).pos.x as int, width as int, size as int),
            final(self).pos.y == old(self).pos.y,
            final(self).vel == old(self).vel,
            final(self).angle == old(self).angle,
    {
        self.pos.x = wrap_component(self.pos.x, width, size);
    }

    /// Screen wrap along the y axis against the extent `height`.
    pub fn wrap_y(&mut self, height: i64, size: i64)
        requires
            0 <= height <= COORD_LIMIT,
            0 <= size <= COORD_LIMIT,
        ensures
            final(self).pos.y == wrap_coord(old(self).pos.y as int, height as int, size as int),
            final(self).pos.x == old(self).pos.x,
            final(self).vel == old(self).vel,
            final(self).angle == old(self).angle,
    {
        self.pos.y = wrap_component(self.pos.y, height, size);
    }
}

/// `v` limited to `[-m, m]`.
pub fn clamp_component(v: i64, m: i64) -> (r: i64)
    requires
        m >= 0,
    ensures
        r == clamp(v as int, m as int),
        -m <= r <= m,
{
    if v > m {
        m
    } else if v < -m {
        -m
    } else {
        v
    }
}

/// Screen wrap of one coordinate: below zero goes to the far edge less the
/// size, past the far edge less the size goes to zero.
pub fn wrap_component(c: i64, dim: i64, size: i64) -> (r: i64)
    requires
        0 <= dim <= COORD_LIMIT,
        0 <= size <= COORD_LIMIT,
    ensures
        r == wrap_coord(c as int, dim as int, size as int),
{
    let far: i64 = dim - size;
    if c < 0 {
        far
    } else if c > far {
        0
    } else {
        c
    }
}

/// `|a * b| <= ma * mb` when `|a| <= ma` and `0 <= b <= mb`.
pub proof fn lemma_scaled_bound(a: int, b: int, ma: int, mb: int)
    requires
        -ma <= a <= ma,
        0 <= b <= mb,
    ensures
        -(ma * mb) <= a * b <= ma * mb,
{
    assert(-(ma * mb) <= a * b <= ma * mb) by (nonlinear_arith)
        requires
            -ma <= a <= ma,
            0 <= b <= mb,
    {
    }
}

} // verus!
