//! Projectiles: straight-line flight along the heading fixed at launch.
use vstd::prelude::*;
use crate::geometry::{Body, Vec2, Viewport, coord_ok, lemma_scaled_bound};
use crate::trig::{cosine, cosine_of, sine, sine_of, DIR_ONE};
use crate::units::{MAX_DT, ROCKET_SIZE, ROCKET_SPEED, SPEED_LIMIT};

verus! {

/// The x velocity of a projectile body after flying for `dt`: it gains the
/// thrust along the heading.
pub open spec fn flown_vel_x(b: Body, dt: u32) -> int {
    b.vel.x + ROCKET_SPEED * cosine_of(b.angle) * dt
}

/// The y velocity of a projectile body after flying for `dt`.
pub open spec fn flown_vel_y(b: Body, dt: u32) -> int {
    b.vel.y + ROCKET_SPEED * sine_of(b.angle) * dt
}

/// Whether the velocity after flying for `dt` stays within `SPEED_LIMIT`.
pub open spec fn flight_fits(b: Body, dt: u32) -> bool {
    &&& -SPEED_LIMIT <= flown_vel_x(b, dt) <= SPEED_LIMIT
    &&& -SPEED_LIMIT <= flown_vel_y(b, dt) <= SPEED_LIMIT
}

/// The body of a projectile after flying for `dt`: its velocity gains the
/// thrust along its heading, then its position gains the new velocity.
pub open spec fn flown(b: Body, dt: u32) -> Body {
    let vx = flown_vel_x(b, dt);
    let vy = flown_vel_y(b, dt);
    Body {
        pos: Vec2 { x: (b.pos.x + vx * dt) as i64, y: (b.pos.y + vy * dt) as i64 },
        vel: Vec2 { x: vx as i64, y: vy as i64 },
        angle: b.angle,
    }
}

/// Whether a projectile at `pos` has left the viewport.
pub open spec fn expired(pos: Vec2, vp: Viewport) -> bool {
    pos.x < 0 || pos.x > vp.width_units() - ROCKET_SIZE || pos.y < 0 || pos.y
        > vp.height_units() - ROCKET_SIZE
}

/// A projectile: its body and its local-space polygon.
#[derive(Debug)]
pub struct Projectile {
    pub body: Body,
    pub shape: Vec<Vec2>,
}

impl Projectile {
    pub open spec fn wf(&self) -> bool {
        &&& coord_ok(self.body.pos.x as int)
        &&& coord_ok(self.body.pos.y as int)
        &&& -SPEED_LIMIT <= self.body.vel.x <= SPEED_LIMIT
        &&& -SPEED_LIMIT <= self.body.vel.y <= SPEED_LIMIT
    }

    /// A projectile at rest at `pos`, heading along `angle`.
    pub fn new(shape: Vec<Vec2>, pos: Vec2, angle: u32) -> (r: Projectile)
        requires
            coord_ok(pos.x as int),
            coord_ok(pos.y as int),
        ensures
            r.wf(),
            r.body.pos == pos,
            r.body.vel == Vec2::zero_spec(),
            r.body.angle == angle,
            r.shape == shape,
    {
        Projectile { body: Body { pos, vel: Vec2 { x: 0, y: 0 }, angle }, shape }
    }

    /// The thrust of this projectile along its heading.
    fn thrust(&self) -> (r: Vec2)
        ensures
            r.x == ROCKET_SPEED * cosine_of(self.body.angle),
            r.y == ROCKET_SPEED * sine_of(self.body.angle),
            -ROCKET_SPEED * DIR_ONE <= r.x <= ROCKET_SPEED * DIR_ONE,
            -ROCKET_SPEED * DIR_ONE <= r.y <= ROCKET_SPEED * DIR_ONE,
    {
        let dir = Vec2 { x: cosine(self.body.angle), y: sine(self.body.angle) };
        dir.scale(ROCKET_SPEED)
    }

    /// Whether flying for `dt` keeps the velocity within `SPEED_LIMIT`.
    pub fn can_fly(&self, dt: u32) -> (r: bool)
        requires
            self.wf(),
            dt <= MAX_DT,
        ensures
            r == flight_fits(self.body, dt),
    {
        let acc = self.thrust();
        proof {
            lemma_scaled_bound(acc.x as int, dt as int, ROCKET_SPEED * DIR_ONE, MAX_DT as int);
            lemma_scaled_bound(acc.y as int, dt as int, ROCKET_SPEED * DIR_ONE, MAX_DT as int);
        }
        let vx = self.body.vel.x + acc.x * dt as i64;
        let vy = self.body.vel.y + acc.y * dt as i64;
        -SPEED_LIMIT <= vx && vx <= SPEED_LIMIT && -SPEED_LIMIT <= vy && vy <= SPEED_LIMIT
    }

    /// Flies for `dt` milliseconds: the velocity gains the thrust along the
    /// heading times `dt`, then the position gains the new velocity times
    /// `dt`.
    pub fn update(&mut self, dt: u32)
        requires
            old(self).wf(),
            dt <= MAX_DT,
            flight_fits(old(self).body, dt),
        ensures
            final(self).body == flown(old(self).body, dt),
            final(self).body.vel.x == old(self).body.vel.x + ROCKET_SPEED * cosine_of(
                old(self).body.angle,
            ) * dt,
            final(self).body.vel.y == old(self).body.vel.y + ROCKET_SPEED * sine_of(
                old(self).body.angle,
            ) * dt,
            final(self).body.pos.x == old(self).body.pos.x + final(self).body.vel.x * dt,
            final(self).body.pos.y == old(self).body.pos.y + final(self).body.vel.y * dt,
            final(self).shape == old(self).shape,
    {
        let acc = self.thrust();
        proof {
            lemma_scaled_bound(acc.x as int, dt as int, ROCKET_SPEED * DIR_ONE, MAX_DT as int);
            lemma_scaled_bound(acc.y as int, dt as int, ROCKET_SPEED * DIR_ONE, MAX_DT as int);
        }
        self.body.accelerate(dt, acc);
        proof {
            lemma_scaled_bound(self.body.vel.x as int, dt as int, SPEED_LIMIT as int, MAX_DT as int);
            lemma_scaled_bound(self.body.vel.y as int, dt as int, SPEED_LIMIT as int, MAX_DT as int);
        }
        self.body.advance(dt);
    }

    /// Whether this projectile has left the viewport.
    pub fn is_expired(&self, vp: &Viewport) -> (r: bool)
        ensures
            r == expired(self.body.pos, *vp),
    {
        let p = self.body.pos;
        p.x < 0 || p.x > vp.width_in_units() - ROCKET_SIZE || p.y < 0 || p.y > vp.height_in_units()
            - ROCKET_SIZE
    }
}

} // verus!
