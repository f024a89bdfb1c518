//! The simulation step: advance the ship, fly and prune projectiles, then
//! launch a new one on a fire edge.
use vstd::prelude::*;
use crate::geometry::{Body, Vec2, Viewport};
use crate::input::ControllerInput;
use crate::player::{Player, moved, wrapped};
use crate::projectile::{Projectile, expired, flight_fits, flown};
use crate::units::MAX_DT;

verus! {

broadcast use {vstd::seq_lib::group_seq_properties, vstd::seq_lib::group_filter_ensures};

/// Whether a tick fires: the fire action is held now and was not held on the
/// previous tick.
pub open spec fn fire_edge(was_held: bool, fire: bool) -> bool {
    fire && !was_held
}

/// The number of projectiles that one tick launches.
pub open spec fn launch_count(was_held: bool, fire: bool) -> nat {
    if fire_edge(was_held, fire) { 1 } else { 0 }
}

/// The number of projectiles launched over consecutive ticks whose fire
/// states are `fires`, when fire was `was_held` before the first of them.
pub open spec fn launches(was_held: bool, fires: Seq<bool>) -> nat
    decreases fires.len(),
{
    if fires.len() == 0 {
        0
    } else {
        launch_count(was_held, fires[0]) + launches(
            fires[0],
            fires.drop_first(),
        )
    }
}

/// Holding fire over any number of ticks after a release launches exactly
/// one projectile: one per press, not one per tick.
pub proof fn lemma_held_fire_launches_once(fires: Seq<bool>)
    requires
        fires.len() > 0,
        forall|i: int| 0 <= i < fires.len() ==> fires[i],
    ensures
        launches(false, fires) == 1,
    decreases fires.len(),
{
    lemma_held_fire_launches_none(fires.drop_first());
}

/// While fire stays held, no tick launches a projectile.
pub proof fn lemma_held_fire_launches_none(fires: Seq<bool>)
    requires
        forall|i: int| 0 <= i < fires.len() ==> fires[i],
    ensures
        launches(true, fires) == 0,
    decreases fires.len(),
{
    if fires.len() > 0 {
        lemma_held_fire_launches_none(fires.drop_first());
    }
}

/// A projectile after flying for `dt`.
pub open spec fn after_flight(p: Projectile, dt: u32) -> Projectile {
    Projectile { body: flown(p.body, dt), shape: p.shape }
}

/// The projectiles that remain after each flies for `dt` and those that
/// left the viewport are removed, in their original order.
pub open spec fn survivors(ps: Seq<Projectile>, dt: u32, vp: Viewport) -> Seq<Projectile> {
    ps.map_values(|p: Projectile| after_flight(p, dt)).filter(|q: Projectile| !expired(q.body.pos, vp))
}

/// The body of a projectile launched from a ship body: at its position and
/// heading, at rest.
pub open spec fn launch_body(ship: Body) -> Body {
    Body { pos: ship.pos, vel: Vec2::zero_spec(), angle: ship.angle }
}

/// The whole simulation state of a play session.
#[derive(Debug)]
pub struct Game {
    pub player: Player,
    /// The polygon that each new projectile receives a copy of.
    pub rocket_shape: Vec<Vec2>,
    /// Whether fire was held on the previous tick.
    pub fire_held: bool,
}

impl Game {
    pub open spec fn wf(&self) -> bool {
        self.player.wf()
    }

    /// A session around `player`, with fire not held.
    pub fn new(player: Player, rocket_shape: Vec<Vec2>) -> (r: Game)
        requires
            player.wf(),
        ensures
            r.wf(),
            r.player == player,
            r.rocket_shape == rocket_shape,
            !r.fire_held,
    {
        Game { player, rocket_shape, fire_held: false }
    }

    /// Whether every projectile can fly for `dt` with its velocity kept
    /// within `SPEED_LIMIT`, which `step` needs.
    pub fn can_step(&self, dt: u32) -> (r: bool)
        requires
            self.wf(),
            dt <= MAX_DT,
        ensures
            r == forall|i: int|
                0 <= i < self.player.projectiles@.len() ==> flight_fits(
                    #[trigger] self.player.projectiles@[i].body,
                    dt,
                ),
    {
        let n = self.player.projectiles.len();
        let mut i: usize = 0;
        while i < n
            invariant
                self.wf(),
                dt <= MAX_DT,
                n == self.player.projectiles@.len(),
                i <= n,
                forall|j: int| 0 <= j < i ==> flight_fits(#[trigger] self.player.projectiles@[j].body, dt),
            decreases n - i,
        {
            if !self.player.projectiles[i].can_fly(dt) {
                return false;
            }
            i = i + 1;
        }
        true
    }

    /// Advances the session by `dt` milliseconds under `input` in the
    /// viewport `vp`.
    pub fn step(&mut self, dt: u32, input: &ControllerInput, vp: &Viewport)
        requires
            old(self).wf(),
            dt <= MAX_DT,
            forall|i: int|
                0 <= i < old(self).player.projectiles@.len() ==> flight_fits(
                    #[trigger] old(self).player.projectiles@[i].body,
                    dt,
                ),
        ensures
            final(self).player.projectiles@.len() == survivors(old(self).player.projectiles@, dt, *vp).len()
                + launch_count(old(self).fire_held, input.fire),
            forall|i: int|
                0 <= i < old(self).player.projectiles@.len() && expired(
                    flown(#[trigger] old(self).player.projectiles@[i].body, dt).pos,
                    *vp,
                ) ==> !survivors(old(self).player.projectiles@, dt, *vp).contains(
                    after_flight(old(self).player.projectiles@[i], dt),
                ),
            final(self).wf(),
            final(self).player.body == wrapped(moved(old(self).player.body, dt, *input), *vp),
            final(self).player.shape == old(self).player.shape,
            final(self).rocket_shape == old(self).rocket_shape,
            final(self).fire_held == input.fire,
            !fire_edge(old(self).fire_held, input.fire) ==> final(self).player.projectiles@ == survivors(
                old(self).player.projectiles@,
                dt,
                *vp,
            ),
            fire_edge(old(self).fire_held, input.fire) ==> {
                let ps = final(self).player.projectiles@;
                &&& ps.len() == survivors(old(self).player.projectiles@, dt, *vp).len() + 1
                &&& ps.drop_last() == survivors(old(self).player.projectiles@, dt, *vp)
                &&& ps.last().body == launch_body(final(self).player.body)
                &&& ps.last().shape@ == old(self).rocket_shape@
            },
            forall|j: int|
                0 <= j < survivors(old(self).player.projectiles@, dt, *vp).len() ==> !expired(
                    #[trigger] final(self).player.projectiles@[j].body.pos,
                    *vp,
                ),
    {
        let ghost old_ps = self.player.projectiles@;
        self.player.update(dt, input, vp);
        let ghost orig = self.player.projectiles@;
        let mut pending: Vec<Projectile> = Vec::new();
        std::mem::swap(&mut pending, &mut self.player.projectiles);
        let mut kept: Vec<Projectile> = Vec::new();
        for p in it: pending.into_iter()
            invariant
                it.seq() == orig,
                forall|i: int| 0 <= i < orig.len() ==> #[trigger] orig[i].wf(),
                forall|i: int| 0 <= i < orig.len() ==> flight_fits(#[trigger] orig[i].body, dt),
                dt <= MAX_DT,
                kept@ == survivors(orig.take(it.index() as int), dt, *vp),
                forall|i: int| 0 <= i < kept@.len() ==> #[trigger] kept@[i].wf(),
        {
            let ghost i = it.index() as int;
            let mut q = p;
            assert(p == orig[i]);
            q.update(dt);
            proof {
                assert(q == after_flight(orig[i], dt));
                let g = |q: Projectile| !expired(q.body.pos, *vp);
                orig.take(i).map_values(|p: Projectile| after_flight(p, dt)).lemma_filter_push(q, g);
                assert(orig.take(i + 1) =~= orig.take(i).push(orig[i]));
                let f = |p: Projectile| after_flight(p, dt);
                assert(orig.take(i + 1).map_values(f) =~= orig.take(i).map_values(f).push(f(orig[i])));
            }
            if !q.is_expired(vp) {
                kept.push(q);
            }
        }
        proof {
            assert(orig.take(orig.len() as int) =~= orig);
            assert(orig == old_ps);
            assert forall|i: int|
                0 <= i < orig.len() && expired(flown(#[trigger] orig[i].body, dt).pos, *vp) implies !survivors(
                orig,
                dt,
                *vp,
            ).contains(after_flight(orig[i], dt)) by {
                let g = |q: Projectile| !expired(q.body.pos, *vp);
                let ms = orig.map_values(|p: Projectile| after_flight(p, dt));
                if ms.filter(g).contains(after_flight(orig[i], dt)) {
                    let k = choose|k: int| 0 <= k < ms.filter(g).len() && ms.filter(g)[k] == after_flight(orig[i], dt);
                    assert(g(ms.filter(g)[k]));
                }
            }
        }
        self.player.projectiles = kept;
        if input.fire && !self.fire_held {
            let shape = self.rocket_shape.clone();
            let r = Projectile::new(shape, self.player.body.pos, self.player.body.angle);
            self.player.projectiles.push(r);
        }
        self.fire_held = input.fire;
    }
}

} // verus!
