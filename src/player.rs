//! The player ship: thrust, turning, speed cap and screen wrap.
use vstd::prelude::*;
use crate::geometry::{Body, Vec2, Viewport, clamp, coord_ok, wrap_coord, lemma_scaled_bound};
use crate::input::ControllerInput;
use crate::projectile::Projectile;
use crate::trig::{cosine, cosine_of, sine, sine_of, DIR_ONE};
use crate::units::{ACCELERATION, INITIAL_ANGLE, MAX_DT, MAX_SPEED, PLAYER_SIZE, TURN_RATE};

verus! {

/// Binary angle of a full turn.
pub const FULL_TURN: u64 = 0x1_0000_0000;

/// The heading after turning for `dt`: left subtracts and right adds
/// `TURN_RATE * dt`, modulo a full turn; both together cancel.
pub open spec fn turned_angle(angle: u32, dt: u32, input: ControllerInput) -> u32 {
    if input.turn_left && !input.turn_right {
        ((angle - TURN_RATE * dt) % FULL_TURN as int) as u32
    } else if input.turn_right && !input.turn_left {
        ((angle + TURN_RATE * dt) % FULL_TURN as int) as u32
    } else {
        angle
    }
}

/// Thrust along the x axis: `ACCELERATION` times the heading's cosine while
/// thrusting, else zero.
pub open spec fn thrust_x(angle: u32, input: ControllerInput) -> int {
    if input.move_forward { ACCELERATION * cosine_of(angle) } else { 0 }
}

/// Thrust along the y axis: `ACCELERATION` times the heading's sine while
/// thrusting, else zero.
pub open spec fn thrust_y(angle: u32, input: ControllerInput) -> int {
    if input.move_forward { ACCELERATION * sine_of(angle) } else { 0 }
}

/// The ship's body after one movement step: thrust from the heading held at
/// the start of the step, turn, accelerate, cap the speed, move.
pub open spec fn moved(b: Body, dt: u32, input: ControllerInput) -> Body {
    let vx = clamp(b.vel.x + thrust_x(b.angle, input) * dt, MAX_SPEED as int);
    let vy = clamp(b.vel.y + thrust_y(b.angle, input) * dt, MAX_SPEED as int);
    Body {
        pos: Vec2 { x: (b.pos.x + vx * dt) as i64, y: (b.pos.y + vy * dt) as i64 },
        vel: Vec2 { x: vx as i64, y: vy as i64 },
        angle: turned_angle(b.angle, dt, input),
    }
}

/// The ship's body after the screen wrap of each axis.
pub open spec fn wrapped(b: Body, vp: Viewport) -> Body {
    Body {
        pos: Vec2 {
            x: wrap_coord(b.pos.x as int, vp.width_units(), PLAYER_SIZE as int) as i64,
            y: wrap_coord(b.pos.y as int, vp.height_units(), PLAYER_SIZE as int) as i64,
        },
        ..b
    }
}

/// A ship exactly at zero or exactly at the far edge less its size, on
/// either axis, is not moved there by the screen wrap: only a strict crossing
/// wraps.
pub proof fn lemma_wrap_keeps_boundary(b: Body, vp: Viewport)
    ensures
        b.pos.x == 0 || b.pos.x == vp.width_units() - PLAYER_SIZE ==> wrapped(b, vp).pos.x
            == b.pos.x,
        b.pos.y == 0 || b.pos.y == vp.height_units() - PLAYER_SIZE ==> wrapped(b, vp).pos.y
            == b.pos.y,
{
}

/// Whether a ship body is within the coordinate range and the speed cap.
pub open spec fn ship_body_ok(b: Body) -> bool {
    &&& coord_ok(b.pos.x as int)
    &&& coord_ok(b.pos.y as int)
    &&& -MAX_SPEED <= b.vel.x <= MAX_SPEED
    &&& -MAX_SPEED <= b.vel.y <= MAX_SPEED
}

/// The heading after turning for `dt`.
pub fn turn(angle: u32, dt: u32, input: &ControllerInput) -> (r: u32)
    requires
        dt <= MAX_DT,
    ensures
        r == turned_angle(angle, dt, *input),
{
    let step: u64 = TURN_RATE as u64 * dt as u64;
    if input.turn_left && !input.turn_right {
        ((angle as u64 + FULL_TURN - step) % FULL_TURN) as u32
    } else if input.turn_right && !input.turn_left {
        ((angle as u64 + step) % FULL_TURN) as u32
    } else {
        angle
    }
}

/// The player ship and the projectiles it has fired.
#[derive(Debug)]
pub struct Player {
    pub body: Body,
    pub shape: Vec<Vec2>,
    pub projectiles: Vec<Projectile>,
}

impl Player {
    pub open spec fn wf(&self) -> bool {
        &&& ship_body_ok(self.body)
        &&& forall|i: int| 0 <= i < self.projectiles@.len() ==> #[trigger] self.projectiles@[i].wf()
    }

    /// A ship at `pos` moving at `vel`, with the initial heading and no
    /// projectiles.
    pub fn new(shape: Vec<Vec2>, pos: Vec2, vel: Vec2) -> (r: Player)
        requires
            coord_ok(pos.x as int),
            coord_ok(pos.y as int),
            -MAX_SPEED <= vel.x <= MAX_SPEED,
            -MAX_SPEED <= vel.y <= MAX_SPEED,
        ensures
            r.wf(),
            r.body.pos == pos,
            r.body.vel == vel,
            r.body.angle == INITIAL_ANGLE,
            r.shape == shape,
            r.projectiles@.len() == 0,
    {
        Player { body: Body { pos, vel, angle: INITIAL_ANGLE }, shape, projectiles: Vec::new() }
    }

    /// Thrust, turn, cap the speed per axis and move, for `dt` milliseconds.
    pub fn update_movement(&mut self, dt: u32, input: &ControllerInput)
        requires
            ship_body_ok(old(self).body),
            dt <= MAX_DT,
        ensures
            final(self).body == moved(old(self).body, dt, *input),
            input.turn_left && input.turn_right ==> final(self).body.angle == old(self).body.angle,
            -MAX_SPEED <= final(self).body.vel.x <= MAX_SPEED,
            -MAX_SPEED <= final(self).body.vel.y <= MAX_SPEED,
            final(self).shape == old(self).shape,
            final(self).projectiles == old(self).projectiles,
    {
        let thrust = if input.move_forward {
            Vec2 { x: cosine(self.body.angle), y: sine(self.body.angle) }.scale(ACCELERATION)
        } else {
            Vec2 { x: 0, y: 0 }
        };
        self.body.angle = turn(self.body.angle, dt, input);
        proof {
            lemma_scaled_bound(thrust.x as int, dt as int, ACCELERATION * DIR_ONE, MAX_DT as int);
            lemma_scaled_bound(thrust.y as int, dt as int, ACCELERATION * DIR_ONE, MAX_DT as int);
        }
        self.body.accelerate(dt, thrust);
        self.body.clamp_speed(MAX_SPEED);
        proof {
            lemma_scaled_bound(self.body.vel.x as int, dt as int, MAX_SPEED as int, MAX_DT as int);
            lemma_scaled_bound(self.body.vel.y as int, dt as int, MAX_SPEED as int, MAX_DT as int);
        }
        self.body.advance(dt);
    }

    /// Screen wrap against the viewport, each axis on its own.
    pub fn update_collision(&mut self, vp: &Viewport)
        ensures
            final(self).body == wrapped(old(self).body, *vp),
            coord_ok(final(self).body.pos.x as int),
            coord_ok(final(self).body.pos.y as int),
            final(self).shape == old(self).shape,
            final(self).projectiles == old(self).projectiles,
    {
        self.body.wrap_x(vp.width_in_units(), PLAYER_SIZE);
        self.body.wrap_y(vp.height_in_units(), PLAYER_SIZE);
    }

    /// Collision of the ship with the rest of the world. Nothing collides
    /// with the ship, so it is left as it is.
    pub fn check_player(&mut self)
        ensures
            *final(self) == *old(self),
    {
    }

    /// One tick of the ship: movement, screen wrap, collision check.
    pub fn update(&mut self, dt: u32, input: &ControllerInput, vp: &Viewport)
        requires
            old(self).wf(),
            dt <= MAX_DT,
        ensures
            final(self).wf(),
            final(self).body == wrapped(moved(old(self).body, dt, *input), *vp),
            final(self).shape == old(self).shape,
            final(self).projectiles == old(self).projectiles,
    {
        self.update_movement(dt, input);
        self.update_collision(vp);
        self.check_player();
    }
}

} // verus!
