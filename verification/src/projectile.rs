//! In-flight projectiles and the manager that owns a collection of
//! them: spawning (single or triple shot), per-tick motion
//! integration, and pruning of projectiles that left the arena.

use vstd::prelude::*;
use crate::geom::{mul_mil, mul_mil_spec, Bounds, Vec2i, ARENA_SIDE, COORD_LIMIT};
use crate::seqs::{lemma_filter_push, lemma_map_push};
use crate::traits::Cleanable;
use crate::trig::{cos_mil, cos_mil_spec, sin_mil, sin_mil_spec};

verus! {

/// Largest per-tick projectile speed a shot may be given, per axis.
pub const SHOT_SPEED_LIMIT: i64 = 100_000;

/// Projectile positions stay within this range: they spawn at a
/// humanoid and are pruned right after the integration step.
pub const PROJ_POS_LIMIT: i64 = 20_000_000;

/// Headings passed to the projectile manager stay in this range
/// (a full turn to either side).
pub const ANGLE_LIMIT: i64 = 720;

/// A single projectile: position, fixed velocity vector and the
/// heading it was fired at, all set once at spawn.
#[derive(Clone, Copy, Debug)]
pub struct Projectile {
    pub position: Vec2i,
    pub velocity: Vec2i,
    /// The firing heading in whole degrees; fixed at spawn, no homing.
    pub angle_deg: i64,
}

impl Projectile {
    /// Coordinates small enough that one integration step cannot
    /// overflow.
    pub open spec fn wf(self) -> bool {
        &&& self.position.bounded(PROJ_POS_LIMIT as int)
        &&& self.velocity.bounded(SHOT_SPEED_LIMIT as int)
        &&& -ANGLE_LIMIT <= self.angle_deg <= ANGLE_LIMIT
    }

    /// Whether this projectile is inside the arena.
    pub open spec fn in_bounds_spec(self) -> bool {
        0 <= self.position.x <= ARENA_SIDE && 0 <= self.position.y <= ARENA_SIDE
    }

    /// The projectile one tick later: moved by its fixed velocity.
    pub open spec fn integrated_spec(self) -> Projectile {
        Projectile {
            position: Vec2i {
                x: (self.position.x + self.velocity.x) as i64,
                y: (self.position.y + self.velocity.y) as i64,
            },
            velocity: self.velocity,
            angle_deg: self.angle_deg,
        }
    }

    pub fn position(&self) -> (r: Vec2i)
        ensures
            r == self.position,
    {
        self.position
    }
}

/// The projectile a shot at heading `angle` spawns: the velocity
/// vector is derived once from the heading and the given speed.
pub open spec fn spawned_projectile_spec(angle: int, position: Vec2i, velocity: Vec2i) -> Projectile {
    Projectile {
        position,
        velocity: Vec2i {
            x: mul_mil_spec(cos_mil_spec(angle), velocity.x as int) as i64,
            y: mul_mil_spec(-sin_mil_spec(angle), velocity.y as int) as i64,
        },
        angle_deg: angle as i64,
    }
}

/// Owns a collection of in-flight projectiles.
#[derive(Debug)]
pub struct ProjectileManager {
    pub projectiles: Vec<Projectile>,
}

impl Cleanable for ProjectileManager {
    /// Cleaning up removes exactly the projectiles that have left the
    /// arena.
    open spec fn cleaned(pre: ProjectileManager, post: ProjectileManager) -> bool {
        post.projectiles@ == pre.projectiles@.filter(|p: Projectile| p.in_bounds_spec())
    }

    /// Remove projectiles that have gone out of bounds.
    fn clean_up(&mut self) {
        let mut kept: Vec<Projectile> = Vec::new();
        let mut i: usize = 0;
        let ghost all = self.projectiles@;
        while i < self.projectiles.len()
            invariant
                i <= all.len(),
                self.projectiles@ == all,
                kept@ == all.take(i as int).filter(|p: Projectile| p.in_bounds_spec()),
            decreases all.len() - i,
        {
            let p = self.projectiles[i];
            proof {
                assert(all.take(i + 1).drop_last() =~= all.take(i as int));
                lemma_filter_push(all.take(i as int), p, |q: Projectile| q.in_bounds_spec());
                assert(all.take(i + 1) =~= all.take(i as int).push(all[i as int]));
            }
            if Bounds::arena().contains(p.position) {
                kept.push(p);
            }
            i = i + 1;
        }
        proof {
            assert(all.take(all.len() as int) =~= all);
        }
        self.projectiles = kept;
    }
}

impl ProjectileManager {
    /// All projectiles well formed.
    pub open spec fn wf(self) -> bool {
        forall|i: int| 0 <= i < self.projectiles@.len() ==> (#[trigger] self.projectiles@[i]).wf()
    }

    pub fn new() -> (r: ProjectileManager)
        ensures
            r.projectiles@.len() == 0,
            r.wf(),
    {
        ProjectileManager { projectiles: Vec::new() }
    }

    /// Adds a projectile fired at the given heading in whole degrees;
    /// its velocity vector is derived here, once, and never
    /// recomputed.
    pub fn add_projectile(&mut self, angle_deg: i64, position: Vec2i, velocity: Vec2i)
        requires
            old(self).wf(),
            -ANGLE_LIMIT + 45 <= angle_deg <= ANGLE_LIMIT - 45,
            position.bounded(COORD_LIMIT as int),
            velocity.bounded(SHOT_SPEED_LIMIT as int),
        ensures
            final(self).wf(),
            final(self).projectiles@ == old(self).projectiles@.push(
                spawned_projectile_spec(angle_deg as int, position, velocity),
            ),
    {
        let c = cos_mil(angle_deg);
        let s = sin_mil(angle_deg);
        let vel = Vec2i::new(mul_mil(c, velocity.x), mul_mil(0 - s, velocity.y));
        let fireball = Projectile { position, velocity: vel, angle_deg };
        self.projectiles.push(fireball);
    }

    /// Fire: three projectiles fanned 45 degrees to either side of the
    /// aimed heading in triple mode, a single projectile otherwise.
    pub fn shoot(
        &mut self,
        is_triple_shooting: bool,
        angle_deg: i64,
        position: Vec2i,
        velocity: Vec2i,
    )
        requires
            old(self).wf(),
            -ANGLE_LIMIT + 90 <= angle_deg <= ANGLE_LIMIT - 90,
            position.bounded(COORD_LIMIT as int),
            velocity.bounded(SHOT_SPEED_LIMIT as int),
        ensures
            final(self).wf(),
            is_triple_shooting ==> final(self).projectiles@ == old(self).projectiles@ + seq![
                spawned_projectile_spec(angle_deg - 45, position, velocity),
                spawned_projectile_spec(angle_deg as int, position, velocity),
                spawned_projectile_spec(angle_deg + 45, position, velocity),
            ],
            is_triple_shooting ==> final(self).projectiles@.len() == old(self).projectiles@.len()
                + 3,
            !is_triple_shooting ==> final(self).projectiles@ == old(self).projectiles@.push(
                spawned_projectile_spec(angle_deg as int, position, velocity),
            ),
    {
        if is_triple_shooting {
            self.send_triple_shot(angle_deg, position, velocity);
        } else {
            self.add_projectile(angle_deg, position, velocity);
        }
    }

    /// The triple shot: one projectile at each of the aimed heading
    /// and 45 degrees to either side, in that fan order.
    fn send_triple_shot(&mut self, angle_deg: i64, position: Vec2i, velocity: Vec2i)
        requires
            old(self).wf(),
            -ANGLE_LIMIT + 90 <= angle_deg <= ANGLE_LIMIT - 90,
            position.bounded(COORD_LIMIT as int),
            velocity.bounded(SHOT_SPEED_LIMIT as int),
        ensures
            final(self).wf(),
            final(self).projectiles@ == old(self).projectiles@ + seq![
                spawned_projectile_spec(angle_deg - 45, position, velocity),
                spawned_projectile_spec(angle_deg as int, position, velocity),
                spawned_projectile_spec(angle_deg + 45, position, velocity),
            ],
    {
        self.add_projectile(angle_deg - 45, position, velocity);
        self.add_projectile(angle_deg, position, velocity);
        self.add_projectile(angle_deg + 45, position, velocity);
        proof {
            assert(final(self).projectiles@ =~= old(self).projectiles@ + seq![
                spawned_projectile_spec(angle_deg - 45, position, velocity),
                spawned_projectile_spec(angle_deg as int, position, velocity),
                spawned_projectile_spec(angle_deg + 45, position, velocity),
            ]);
        }
    }

    /// Advance the projectiles one tick: every projectile moves by its
    /// fixed velocity vector, then the ones whose position left the
    /// arena are pruned (integrate, then prune).
    pub fn advance_animation(&mut self)
        requires
            old(self).wf(),
        ensures
            final(self).wf(),
            final(self).projectiles@ == old(self).projectiles@.map_values(
                |p: Projectile| p.integrated_spec(),
            ).filter(|p: Projectile| p.in_bounds_spec()),
            forall|i: int|
                0 <= i < final(self).projectiles@.len() ==> (#[trigger] final(self).projectiles@[i]).in_bounds_spec(),
    {
        let ghost all = self.projectiles@;
        let ghost f = |p: Projectile| p.integrated_spec();
        let ghost pred = |p: Projectile| p.in_bounds_spec();
        let mut kept: Vec<Projectile> = Vec::new();
        let mut i: usize = 0;
        while i < self.projectiles.len()
            invariant
                old(self).wf(),
                i <= all.len(),
                self.projectiles@ == all,
                all == old(self).projectiles@,
                f == (|p: Projectile| p.integrated_spec()),
                pred == (|p: Projectile| p.in_bounds_spec()),
                kept@ == all.take(i as int).map_values(f).filter(pred),
                forall|j: int| 0 <= j < kept@.len() ==> (#[trigger] kept@[j]).wf(),
                forall|j: int| 0 <= j < kept@.len() ==> (#[trigger] kept@[j]).in_bounds_spec(),
            decreases all.len() - i,
        {
            let p = self.projectiles[i];
            assert(p == all[i as int] && p.wf());
            let q = Projectile {
                position: Vec2i::new(p.position.x + p.velocity.x, p.position.y + p.velocity.y),
                velocity: p.velocity,
                angle_deg: p.angle_deg,
            };
            proof {
                assert(q == f(all[i as int]));
                assert(all.take(i + 1) =~= all.take(i as int).push(all[i as int]));
                lemma_map_push(all.take(i as int), all[i as int], f);
                lemma_filter_push(all.take(i as int).map_values(f), q, pred);
            }
            if Bounds::arena().contains(q.position) {
                kept.push(q);
            }
            i = i + 1;
        }
        proof {
            assert(all.take(all.len() as int) =~= all);
        }
        self.projectiles = kept;
    }

    /// The in-flight projectiles, for collision tests and rendering.
    pub fn projectiles(&self) -> (r: &Vec<Projectile>)
        ensures
            r == &self.projectiles,
    {
        &self.projectiles
    }
}

/// Law: a projectile whose integrated position leaves the arena is
/// absent from the collection as soon as the tick's motion step has
/// run: everything still held afterwards lies inside the arena.
pub proof fn lemma_out_of_bounds_pruned(pre: ProjectileManager, post: ProjectileManager)
    requires
        post.projectiles@ == pre.projectiles@.map_values(|p: Projectile| p.integrated_spec())
            .filter(|p: Projectile| p.in_bounds_spec()),
    ensures
        forall|i: int|
            0 <= i < post.projectiles@.len() ==> (#[trigger] post.projectiles@[i]).in_bounds_spec(),
{
    let mapped = pre.projectiles@.map_values(|p: Projectile| p.integrated_spec());
    let pred = |p: Projectile| p.in_bounds_spec();
    assert forall|i: int|
        0 <= i < post.projectiles@.len() implies (#[trigger] post.projectiles@[i]).in_bounds_spec()
    by {
        mapped.lemma_filter_pred(pred, i);
    }
}

} // verus!
