//! The enemy collection: wave-weighted spawning on the arena
//! perimeter with a global difficulty drift, per-enemy steering and
//! firing, collision handling against both projectile streams, and
//! score accounting.

use vstd::prelude::*;
use crate::geom::{rects_intersect_spec, Rect, Vec2i, ARENA_SIDE, COORD_LIMIT};
use crate::humanoid::{
    body_rect_spec, Humanoid, HumanoidType, ShootingBehavior, HIT_FLICKER_TICKS,
};
use crate::oneoffanim::{OneOffAnimation, OneOffAnimationManager};
use crate::powerup::PowerUpKind;
use crate::projectile::{spawned_projectile_spec, Projectile, ProjectileManager};
use crate::seqs::lemma_filter_push;
use crate::timer::Timer;
use crate::traits::Cleanable;
use crate::trig::atan2_deg_spec;

verus! {

/// Enemies can spawn at most every one and a half seconds.
pub const ENEMY_SPAWN_INTERVAL_MS: u64 = 1500;

/// The running-average velocity every spawn starts from, in
/// thousandths of a pixel per tick.
pub const AVG_VEL_START: i64 = 1000;

/// The difficulty drift saturates here so velocities stay clamped.
pub const AVG_VEL_CAP: i64 = 1_000_000;

/// More enemies than this never exist at once; the spawn path keeps
/// the count below it so the score sum provably fits.
pub const ENEMY_CAP: usize = 1_000_000;

/// Per-axis speed of an enemy projectile, in thousandths of a pixel
/// per tick.
pub const CANNONBALL_SPEED_MIL: i64 = 4500;

/// Per-axis speed of an enemy projectile while the shooter holds the
/// faster-shooting buff.
pub const CANNONBALL_FAST_SPEED_MIL: i64 = 7500;

/// Offset of a player projectile's inflated hitbox, per axis (5 px).
pub const FIREBALL_HITBOX_OFFSET: i64 = 5_000;

/// Side of a player projectile's inflated hitbox (32 px).
pub const FIREBALL_HITBOX_SIDE: i64 = 32_000;

/// Side of an enemy projectile's hitbox (16 px).
pub const CANNONBALL_HITBOX_SIDE: i64 = 16_000;

/// The point value of an enemy kind; the player's own kind is worth
/// nothing and never enters the collection.
pub open spec fn kind_score_spec(kind: HumanoidType) -> int {
    match kind {
        HumanoidType::Player => 0,
        HumanoidType::BasicEnemy => 100,
        HumanoidType::StrongerEnemy => 250,
        HumanoidType::BadassEnemy => 500,
        HumanoidType::Boss => 1250,
    }
}

/// The summed point value of a collection of enemies.
pub open spec fn score_seq_spec(s: Seq<Humanoid>) -> int
    decreases s.len(),
{
    if s.len() == 0 {
        0
    } else {
        score_seq_spec(s.drop_last()) + kind_score_spec(s.last().kind)
    }
}

/// Baseline hearts of a spawned enemy kind.
pub open spec fn lives_of_spec(kind: HumanoidType) -> int {
    match kind {
        HumanoidType::Player => 0,
        HumanoidType::BasicEnemy => 1,
        HumanoidType::StrongerEnemy => 2,
        HumanoidType::BadassEnemy => 3,
        HumanoidType::Boss => 10,
    }
}

/// Whether a spawned enemy kind may fire at all.
pub open spec fn can_shoot_spec(kind: HumanoidType) -> bool {
    match kind {
        HumanoidType::Player => false,
        HumanoidType::BasicEnemy => false,
        HumanoidType::StrongerEnemy => true,
        HumanoidType::BadassEnemy => true,
        HumanoidType::Boss => true,
    }
}

/// Baseline fire interval of a spawned enemy kind, in milliseconds.
pub open spec fn fire_wait_spec(kind: HumanoidType) -> int {
    match kind {
        HumanoidType::Player => 0,
        HumanoidType::BasicEnemy => 0,
        HumanoidType::StrongerEnemy => 1000,
        HumanoidType::BadassEnemy => 250,
        HumanoidType::Boss => 100,
    }
}

/// Whether an enemy survives the cleanup pass.
pub open spec fn alive_spec(h: Humanoid) -> bool {
    h.hearts > 0
}

/// Whether an enemy fires this tick: it is allowed to shoot and its
/// fire-rate window is open.
pub open spec fn fires_spec(h: Humanoid, now: int) -> bool {
    h.allowed_to_shoot && h.shooting.ready_spec(now)
}

/// Per-axis speed of this enemy's projectiles at instant `now`.
pub open spec fn enemy_shot_speed_spec(h: Humanoid, now: int) -> int {
    if h.power_ups.active_spec(PowerUpKind::FasterShooting, now) {
        CANNONBALL_FAST_SPEED_MIL as int
    } else {
        CANNONBALL_SPEED_MIL as int
    }
}

/// The heading from a humanoid to a destination, screen-adjusted.
pub open spec fn heading_to_spec(h: Humanoid, dest: Vec2i) -> int {
    atan2_deg_spec(h.position.y - dest.y, dest.x - h.position.x)
}

/// The projectiles one enemy enqueues this tick: none if its fire window is
/// shut, a triple fan if it holds the triple-shot buff, one otherwise.
pub open spec fn fired_shots_spec(h: Humanoid, player_pos: Vec2i, now: int) -> Seq<Projectile> {
    if fires_spec(h, now) {
        let angle = heading_to_spec(h, player_pos);
        let speed = enemy_shot_speed_spec(h, now);
        let vel = Vec2i { x: speed as i64, y: speed as i64 };
        if h.power_ups.active_spec(PowerUpKind::TripleShooting, now) {
            seq![
                spawned_projectile_spec(angle - 45, h.position, vel),
                spawned_projectile_spec(angle, h.position, vel),
                spawned_projectile_spec(angle + 45, h.position, vel),
            ]
        } else {
            seq![spawned_projectile_spec(angle, h.position, vel)]
        }
    } else {
        Seq::empty()
    }
}

/// The projectiles a whole enemy collection enqueues, in order.
pub open spec fn all_fired_spec(s: Seq<Humanoid>, player_pos: Vec2i, now: int) -> Seq<Projectile>
    decreases s.len(),
{
    if s.len() == 0 {
        Seq::empty()
    } else {
        all_fired_spec(s.drop_last(), player_pos, now) + fired_shots_spec(s.last(), player_pos, now)
    }
}

/// One enemy after its per-tick step: its fire window reset if it
/// fired, then one seek step toward the player.
pub open spec fn enemy_step_spec(h: Humanoid, player_pos: Vec2i, now: int) -> Humanoid {
    let h1 = if fires_spec(h, now) {
        Humanoid {
            shooting: ShootingBehavior {
                last_fire_ms: now as u64,
                wait_interval_ms: h.shooting.wait_interval_ms,
            },
            ..h
        }
    } else {
        h
    };
    crate::humanoid::seek_spec(
        h1,
        player_pos,
        h.power_ups.active_spec(PowerUpKind::FasterRunning, now),
    )
}

/// The inflated hitbox of a player projectile.
pub open spec fn fireball_rect_spec(pos: Vec2i) -> Rect {
    Rect {
        x: (pos.x + FIREBALL_HITBOX_OFFSET) as i64,
        y: (pos.y + FIREBALL_HITBOX_OFFSET) as i64,
        width: FIREBALL_HITBOX_SIDE,
        height: FIREBALL_HITBOX_SIDE,
    }
}

/// Whether a player projectile's inflated hitbox overlaps the body
/// box of a humanoid at `target`.
pub open spec fn fireball_hits_spec(fb: Projectile, target: Vec2i) -> bool {
    rects_intersect_spec(body_rect_spec(target), fireball_rect_spec(fb.position))
}

/// How many player projectiles hit a humanoid at `target`.
pub open spec fn fireball_hits_count_spec(fbs: Seq<Projectile>, target: Vec2i) -> int {
    fbs.filter(|fb: Projectile| fireball_hits_spec(fb, target)).len() as int
}

/// The hitbox of an enemy projectile.
pub open spec fn cannonball_rect_spec(pos: Vec2i) -> Rect {
    Rect { x: pos.x, y: pos.y, width: CANNONBALL_HITBOX_SIDE, height: CANNONBALL_HITBOX_SIDE }
}

/// Whether an enemy projectile's hitbox overlaps the body box of a
/// humanoid at `target`.
pub open spec fn cannonball_hits_spec(cb: Projectile, target: Vec2i) -> bool {
    rects_intersect_spec(cannonball_rect_spec(cb.position), body_rect_spec(target))
}

/// How many enemy projectiles hit a humanoid at `target`.
pub open spec fn cannonball_hits_count_spec(cbs: Seq<Projectile>, target: Vec2i) -> int {
    cbs.filter(|cb: Projectile| cannonball_hits_spec(cb, target)).len() as int
}

/// Whether a player projectile hits any enemy of the collection.
pub open spec fn fireball_hits_any_spec(fb: Projectile, enemies: Seq<Humanoid>) -> bool {
    exists|e: int| 0 <= e < enemies.len() && fireball_hits_spec(fb, (#[trigger] enemies[e]).position)
}

/// Whether any (player projectile, enemy) pair hits.
pub open spec fn exists_fireball_hit_spec(fbs: Seq<Projectile>, enemies: Seq<Humanoid>) -> bool {
    exists|g: int| 0 <= g < fbs.len() && fireball_hits_any_spec(#[trigger] fbs[g], enemies)
}

/// Whether any enemy projectile hits a humanoid at `target`.
pub open spec fn exists_cannonball_hit_spec(cbs: Seq<Projectile>, target: Vec2i) -> bool {
    exists|c: int| 0 <= c < cbs.len() && cannonball_hits_spec(#[trigger] cbs[c], target)
}

/// The explosion marker a hit of a player projectile at `pos` spawns:
/// at the contact point, the centre of the inflated hitbox.
pub open spec fn explosion_marker_spec(pos: Vec2i) -> OneOffAnimation {
    OneOffAnimation {
        current_frame: 0,
        position: Vec2i {
            x: (pos.x + 2 * FIREBALL_HITBOX_OFFSET) as i64,
            y: (pos.y + 2 * FIREBALL_HITBOX_OFFSET) as i64,
        },
    }
}

/// The smoke marker a hit of an enemy projectile at `pos` spawns.
pub open spec fn smoke_marker_spec(pos: Vec2i) -> OneOffAnimation {
    OneOffAnimation { current_frame: 0, position: pos }
}

/// A marker sink after one rate-limited explosion add at instant
/// `now`: the marker appended and the clock set when the window was
/// open, everything untouched when it was shut.
pub open spec fn explosion_added_spec(
    a0: OneOffAnimationManager,
    a1: OneOffAnimationManager,
    marker: OneOffAnimation,
    now: int,
) -> bool {
    &&& a1.smokes == a0.smokes
    &&& a1.last_smoke_added_ms == a0.last_smoke_added_ms
    &&& a1.last_updated_ms == a0.last_updated_ms
    &&& if crate::oneoffanim::marker_window_open_spec(a0.last_explosion_added_ms as int, now) {
        a1.explosions@ == a0.explosions@.push(marker) && a1.last_explosion_added_ms == now
    } else {
        a1.explosions == a0.explosions && a1.last_explosion_added_ms
            == a0.last_explosion_added_ms
    }
}

/// A marker sink after one rate-limited smoke add at instant `now`.
pub open spec fn smoke_added_spec(
    a0: OneOffAnimationManager,
    a1: OneOffAnimationManager,
    marker: OneOffAnimation,
    now: int,
) -> bool {
    &&& a1.explosions == a0.explosions
    &&& a1.last_explosion_added_ms == a0.last_explosion_added_ms
    &&& a1.last_updated_ms == a0.last_updated_ms
    &&& if crate::oneoffanim::marker_window_open_spec(a0.last_smoke_added_ms as int, now) {
        a1.smokes@ == a0.smokes@.push(marker) && a1.last_smoke_added_ms == now
    } else {
        a1.smokes == a0.smokes && a1.last_smoke_added_ms == a0.last_smoke_added_ms
    }
}

/// The whole effect of the player-projectile pass on the marker sink:
/// since every add within one pass carries the same instant, at most
/// one explosion marker passes the rate limit — the one for the first
/// hitting projectile in scan order — and nothing else changes.
pub open spec fn explosion_sink_rel(
    a0: OneOffAnimationManager,
    a1: OneOffAnimationManager,
    fbs: Seq<Projectile>,
    enemies: Seq<Humanoid>,
    now: int,
) -> bool {
    &&& !exists_fireball_hit_spec(fbs, enemies) ==> a1 == a0
    &&& exists_fireball_hit_spec(fbs, enemies) ==> (exists|g: int|
        0 <= g < fbs.len() && fireball_hits_any_spec(#[trigger] fbs[g], enemies) && (forall|h: int|
            0 <= h < g ==> !fireball_hits_any_spec(#[trigger] fbs[h], enemies))
            && explosion_added_spec(a0, a1, explosion_marker_spec(fbs[g].position), now))
}

/// The whole effect of the enemy-projectile pass on the marker sink:
/// at most one smoke marker passes the rate limit — the one for the
/// first hitting projectile in scan order — and nothing else changes.
pub open spec fn smoke_sink_rel(
    a0: OneOffAnimationManager,
    a1: OneOffAnimationManager,
    cbs: Seq<Projectile>,
    target: Vec2i,
    now: int,
) -> bool {
    &&& !exists_cannonball_hit_spec(cbs, target) ==> a1 == a0
    &&& exists_cannonball_hit_spec(cbs, target) ==> (exists|c: int|
        0 <= c < cbs.len() && cannonball_hits_spec(#[trigger] cbs[c], target) && (forall|b: int|
            0 <= b < c ==> !cannonball_hits_spec(#[trigger] cbs[b], target))
            && smoke_added_spec(a0, a1, smoke_marker_spec(cbs[c].position), now))
}

/// Extending the scanned projectiles by one adds a hit on `target`
/// exactly when that projectile overlaps it.
proof fn lemma_fireball_count_push(s: Seq<Projectile>, fb: Projectile, target: Vec2i)
    ensures
        fireball_hits_count_spec(s.push(fb), target) == fireball_hits_count_spec(s, target) + (
        if fireball_hits_spec(fb, target) {
            1int
        } else {
            0int
        }),
{
    lemma_filter_push(s, fb, |p: Projectile| fireball_hits_spec(p, target));
}

/// A humanoid after taking `hits` separate hits: one heart lost per
/// hit, floored at zero, and the hit flicker running if any hit
/// landed.  The multiplicity is deliberate: overlapping hitboxes in
/// one tick each apply their own hit.
pub open spec fn damaged_spec(h: Humanoid, hits: int) -> Humanoid {
    if hits <= 0 {
        h
    } else {
        Humanoid {
            hearts: (if h.hearts - hits >= 0 {
                h.hearts - hits
            } else {
                0
            }) as u32,
            flickering: HIT_FLICKER_TICKS,
            ..h
        }
    }
}

/// A position pinned to the arena perimeter: one axis on an edge, the
/// other anywhere across the arena.
pub open spec fn edge_pinned_spec(x: int, y: int) -> bool {
    &&& 0 <= x <= ARENA_SIDE
    &&& 0 <= y <= ARENA_SIDE
    &&& (x == 0 || x == ARENA_SIDE || y == 0 || y == ARENA_SIDE)
}

/// Manages all enemies currently spawned, and the projectiles they
/// have fired.
#[derive(Debug)]
pub struct EnemyManager {
    /// All enemies currently spawned.
    pub enemies: Vec<Humanoid>,
    /// Times the interval in which enemies can be spawned.
    pub spawn_timer: Timer,
    /// The shared running-average enemy velocity: every spawn raises
    /// it, so later spawns are systematically faster.
    pub avg_enemy_vel: i64,
    /// Spawns and cleans up projectiles coming from enemies.
    pub projectile_mgr: ProjectileManager,
}

impl Cleanable for EnemyManager {
    /// Cleaning up removes exactly the dead enemies; everything else
    /// is untouched.
    open spec fn cleaned(pre: EnemyManager, post: EnemyManager) -> bool {
        &&& post.enemies@ == pre.enemies@.filter(|h: Humanoid| alive_spec(h))
        &&& post.spawn_timer == pre.spawn_timer
        &&& post.avg_enemy_vel == pre.avg_enemy_vel
        &&& post.projectile_mgr == pre.projectile_mgr
    }

    /// Remove enemies that have run out of hearts.
    fn clean_up(&mut self) {
        let ghost all = self.enemies@;
        let ghost pred = |h: Humanoid| alive_spec(h);
        let mut kept: Vec<Humanoid> = Vec::new();
        let mut i: usize = 0;
        while i < self.enemies.len()
            invariant
                i <= all.len(),
                self.enemies@ == all,
                pred == (|h: Humanoid| alive_spec(h)),
                kept@ == all.take(i as int).filter(pred),
            decreases all.len() - i,
        {
            let h = self.enemies[i];
            proof {
                assert(all.take(i + 1) =~= all.take(i as int).push(all[i as int]));
                lemma_filter_push(all.take(i as int), h, pred);
            }
            if h.hearts != 0 {
                kept.push(h);
            }
            i = i + 1;
        }
        proof {
            assert(all.take(all.len() as int) =~= all);
        }
        self.enemies = kept;
    }
}

impl EnemyManager {
    /// Every enemy well formed and none of them the player's kind; the
    /// drift and the count inside their clamps.
    pub open spec fn wf(self) -> bool {
        &&& forall|i: int|
            0 <= i < self.enemies@.len() ==> (#[trigger] self.enemies@[i]).wf()
                && self.enemies@[i].kind != HumanoidType::Player
        &&& self.enemies@.len() <= ENEMY_CAP
        &&& 0 <= self.avg_enemy_vel <= AVG_VEL_CAP
        &&& self.projectile_mgr.wf()
    }

    pub fn new(now_ms: u64) -> (r: EnemyManager)
        ensures
            r.wf(),
            r.enemies@.len() == 0,
            r.spawn_timer == (Timer {
                interval_ms: ENEMY_SPAWN_INTERVAL_MS,
                last_reset_ms: now_ms,
            }),
            r.avg_enemy_vel == AVG_VEL_START,
            r.projectile_mgr.projectiles@.len() == 0,
    {
        EnemyManager {
            enemies: Vec::new(),
            spawn_timer: Timer::start_now_with_interval(ENEMY_SPAWN_INTERVAL_MS, now_ms),
            avg_enemy_vel: AVG_VEL_START,
            projectile_mgr: ProjectileManager::new(),
        }
    }

    /// A spawn position on the arena perimeter: one axis pinned to an
    /// edge, the other sampled across the full arena width.
    fn generate_spawn_location(rng: &mut rand::rngs::SmallRng) -> (r: (i64, i64))
        ensures
            edge_pinned_spec(r.0 as int, r.1 as int),
    {
        let boundary: i64 = if crate::rng::sample_below(rng, 2) == 0 {
            0
        } else {
            ARENA_SIDE
        };
        let pos: i64 = crate::rng::sample_below(rng, 800_001) as i64;
        if crate::rng::sample_below(rng, 2) == 0 {
            (pos, boundary)
        } else {
            (boundary, pos)
        }
    }

    /// The summed point value of all currently alive enemies.
    pub fn calc_score(&self) -> (r: u64)
        requires
            self.wf(),
        ensures
            r == score_seq_spec(self.enemies@),
    {
        let ghost all = self.enemies@;
        let mut total: u64 = 0;
        let mut i: usize = 0;
        while i < self.enemies.len()
            invariant
                self.wf(),
                self.enemies@ == all,
                i <= all.len(),
                total == score_seq_spec(all.take(i as int)),
                total <= 1250 * i,
            decreases all.len() - i,
        {
            let points: u64 = match self.enemies[i].kind {
                HumanoidType::Player => 0,
                HumanoidType::BasicEnemy => 100,
                HumanoidType::StrongerEnemy => 250,
                HumanoidType::BadassEnemy => 500,
                HumanoidType::Boss => 1250,
            };
            proof {
                assert(all.take(i + 1).drop_last() =~= all.take(i as int));
                assert(all.take(i + 1).last() == all[i as int]);
            }
            total = total + points;
            i = i + 1;
        }
        proof {
            assert(all.take(all.len() as int) =~= all);
        }
        total
    }

    /// Whether the spawn timer has elapsed at instant `now`.
    pub fn can_spawn(&self, now_ms: u64) -> (r: bool)
        ensures
            r == self.spawn_timer.is_ready_spec(now_ms as int),
    {
        self.spawn_timer.is_ready(now_ms)
    }

    /// Spawn one enemy of the given kind on the arena perimeter, with
    /// the kind's baseline stats, a velocity of a uniform sample plus
    /// the running average, and raise that average by a 1/256 share of
    /// the new velocity — the global difficulty drift.
    pub fn spawn_enemy(&mut self, kind: HumanoidType, rng: &mut rand::rngs::SmallRng, now_ms: u64)
        requires
            old(self).wf(),
            kind != HumanoidType::Player,
            old(self).enemies@.len() < ENEMY_CAP,
        ensures
            final(self).wf(),
            final(self).spawn_timer == (Timer {
                interval_ms: old(self).spawn_timer.interval_ms,
                last_reset_ms: now_ms,
            }),
            final(self).projectile_mgr == old(self).projectile_mgr,
            final(self).enemies@.len() == old(self).enemies@.len() + 1,
            forall|i: int|
                0 <= i < old(self).enemies@.len() ==> final(self).enemies@[i] == old(self).enemies@[i],
            ({
                let e = final(self).enemies@.last();
                &&& e.kind == kind
                &&& e.hearts == lives_of_spec(kind)
                &&& e.allowed_to_shoot == can_shoot_spec(kind)
                &&& e.shooting == (ShootingBehavior {
                    last_fire_ms: now_ms,
                    wait_interval_ms: fire_wait_spec(kind) as u64,
                })
                &&& e.flickering == 0
                &&& edge_pinned_spec(e.position.x as int, e.position.y as int)
                &&& 300 + old(self).avg_enemy_vel <= e.velocity.x <= 699 + old(self).avg_enemy_vel
                &&& 300 + old(self).avg_enemy_vel <= e.velocity.y <= 699 + old(self).avg_enemy_vel
                &&& final(self).avg_enemy_vel == (if old(self).avg_enemy_vel + (e.velocity.x
                    + e.velocity.y) / 256 <= AVG_VEL_CAP {
                    old(self).avg_enemy_vel + (e.velocity.x + e.velocity.y) / 256
                } else {
                    AVG_VEL_CAP as int
                })
            }),
    {
        self.spawn_timer.reset(now_ms);
        let (lives, allowed_to_shoot, shooting_wait_ms): (u32, bool, u64) = match kind {
            HumanoidType::Player => (0, false, 0),
            HumanoidType::BasicEnemy => (1, false, 0),
            HumanoidType::StrongerEnemy => (2, true, 1000),
            HumanoidType::BadassEnemy => (3, true, 250),
            HumanoidType::Boss => (10, true, 100),
        };
        let vx: i64 = 300 + crate::rng::sample_below(rng, 400) as i64 + self.avg_enemy_vel;
        let vy: i64 = 300 + crate::rng::sample_below(rng, 400) as i64 + self.avg_enemy_vel;
        let inc: u64 = ((vx + vy) as u64) / 256;
        let drifted: i64 = self.avg_enemy_vel + inc as i64;
        self.avg_enemy_vel = if drifted <= AVG_VEL_CAP {
            drifted
        } else {
            AVG_VEL_CAP
        };
        let (x, y) = Self::generate_spawn_location(rng);
        let enemy = Humanoid::new(
            lives,
            Vec2i::new(x, y),
            Vec2i::new(vx, vy),
            allowed_to_shoot,
            shooting_wait_ms,
            kind,
            now_ms,
        );
        self.enemies.push(enemy);
    }

    /// One enemy tick: drop dead enemies, advance the enemy
    /// projectiles, then let every survivor fire at the player if its
    /// fire window is open, and seek toward the player.
    #[verifier::rlimit(50)]
    pub fn update(&mut self, player_pos: Vec2i, now_ms: u64)
        requires
            old(self).wf(),
            player_pos.bounded(COORD_LIMIT as int),
        ensures
            final(self).wf(),
            final(self).spawn_timer == old(self).spawn_timer,
            final(self).avg_enemy_vel == old(self).avg_enemy_vel,
            ({
                let alive = old(self).enemies@.filter(|h: Humanoid| alive_spec(h));
                &&& final(self).enemies@.len() == alive.len()
                &&& forall|i: int|
                    0 <= i < alive.len() ==> final(self).enemies@[i] == enemy_step_spec(
                        #[trigger] alive[i],
                        player_pos,
                        now_ms as int,
                    )
                &&& final(self).projectile_mgr.projectiles@ == old(self).projectile_mgr.projectiles@.map_values(|p: Projectile| p.integrated_spec()).filter(
                    |p: Projectile| p.in_bounds_spec(),
                ) + all_fired_spec(alive, player_pos, now_ms as int)
            }),
    {
        let ghost pred_alive = |h: Humanoid| alive_spec(h);
        let ghost good = |h: Humanoid| h.wf() && h.kind != HumanoidType::Player;
        proof {
            crate::seqs::lemma_filter_preserves_all(old(self).enemies@, pred_alive, good);
            old(self).enemies@.lemma_filter_len(pred_alive);
        }
        self.clean_up();
        self.projectile_mgr.advance_animation();
        let ghost alive = self.enemies@;
        let ghost adv = self.projectile_mgr.projectiles@;
        let mut i: usize = 0;
        while i < self.enemies.len()
            invariant
                i <= alive.len(),
                alive == old(self).enemies@.filter(|h: Humanoid| alive_spec(h)),
                self.enemies@.len() == alive.len(),
                alive.len() <= ENEMY_CAP,
                player_pos.bounded(COORD_LIMIT as int),
                self.spawn_timer == old(self).spawn_timer,
                self.avg_enemy_vel == old(self).avg_enemy_vel,
                0 <= self.avg_enemy_vel <= AVG_VEL_CAP,
                self.projectile_mgr.wf(),
                forall|j: int|
                    0 <= j < alive.len() ==> (#[trigger] alive[j]).wf() && alive[j].kind
                        != HumanoidType::Player,
                forall|j: int| i <= j < alive.len() ==> self.enemies@[j] == alive[j],
                forall|j: int|
                    0 <= j < i ==> self.enemies@[j] == enemy_step_spec(
                        #[trigger] alive[j],
                        player_pos,
                        now_ms as int,
                    ),
                forall|j: int|
                    0 <= j < i ==> (#[trigger] self.enemies@[j]).wf() && self.enemies@[j].kind
                        != HumanoidType::Player,
                self.projectile_mgr.projectiles@ == adv + all_fired_spec(
                    alive.take(i as int),
                    player_pos,
                    now_ms as int,
                ),
            decreases alive.len() - i,
        {
            let mut e = self.enemies[i];
            proof {
                assert(e == alive[i as int]);
                assert(e.wf());
            }
            let ghost e0 = e;
            let (fast_shoot, fast_run, triple) = e.power_ups.currently_active(now_ms);
            let speed: i64 = if fast_shoot {
                CANNONBALL_FAST_SPEED_MIL
            } else {
                CANNONBALL_SPEED_MIL
            };
            let fires = e.allowed_to_shoot && e.can_fire(now_ms);
            let ghost before_shots = self.projectile_mgr.projectiles@;
            if fires {
                let angle = e.angle_to_pos(player_pos);
                self.projectile_mgr.shoot(triple, angle, e.position, Vec2i::new(speed, speed));
                e.register_fire(now_ms);
            }
            proof {
                if fires {
                    assert(self.projectile_mgr.projectiles@ =~= before_shots + fired_shots_spec(
                        e0,
                        player_pos,
                        now_ms as int,
                    ));
                } else {
                    assert(self.projectile_mgr.projectiles@ =~= before_shots + fired_shots_spec(
                        e0,
                        player_pos,
                        now_ms as int,
                    ));
                }
            }
            e.head_to(player_pos, fast_run);
            self.enemies[i] = e;
            proof {
                assert(self.enemies@[i as int] == enemy_step_spec(
                    alive[i as int],
                    player_pos,
                    now_ms as int,
                ));
                assert(alive.take(i + 1).drop_last() =~= alive.take(i as int));
                assert(alive.take(i + 1).last() == alive[i as int]);
                assert(all_fired_spec(alive.take(i + 1), player_pos, now_ms as int)
                    == all_fired_spec(alive.take(i as int), player_pos, now_ms as int)
                    + fired_shots_spec(alive[i as int], player_pos, now_ms as int));
                assert(self.projectile_mgr.projectiles@ =~= adv + all_fired_spec(
                    alive.take(i + 1),
                    player_pos,
                    now_ms as int,
                ));
            }
            i = i + 1;
        }
        proof {
            assert(alive.take(alive.len() as int) =~= alive);
        }
    }

    /// Test every player projectile's inflated hitbox against every
    /// enemy's body box, projectile by projectile; each overlapping
    /// pair applies one separate hit (no deduplication: two
    /// overlapping projectile boxes on one enemy in the same tick deal
    /// two hits).  Each hit also attempts an explosion marker at the
    /// contact point; since all attempts carry the same instant, the
    /// rate limit admits exactly one — for the first hitting
    /// projectile — when its window is open, and none otherwise.
    pub fn check_for_fireball_collisions(
        &mut self,
        enemy_rects: &Vec<Rect>,
        fireballs: &Vec<Projectile>,
        one_off_anim_mgr: &mut OneOffAnimationManager,
        now_ms: u64,
    )
        requires
            old(self).wf(),
            enemy_rects@.len() == old(self).enemies@.len(),
            forall|i: int|
                0 <= i < enemy_rects@.len() ==> enemy_rects@[i] == body_rect_spec(
                    #[trigger] old(self).enemies@[i].position,
                ),
            forall|i: int| 0 <= i < fireballs@.len() ==> (#[trigger] fireballs@[i]).wf(),
        ensures
            final(self).wf(),
            final(self).spawn_timer == old(self).spawn_timer,
            final(self).avg_enemy_vel == old(self).avg_enemy_vel,
            final(self).projectile_mgr == old(self).projectile_mgr,
            final(self).enemies@.len() == old(self).enemies@.len(),
            forall|i: int|
                0 <= i < old(self).enemies@.len() ==> final(self).enemies@[i] == damaged_spec(
                    #[trigger] old(self).enemies@[i],
                    fireball_hits_count_spec(fireballs@, old(self).enemies@[i].position),
                ),
            explosion_sink_rel(
                *old(one_off_anim_mgr),
                *final(one_off_anim_mgr),
                fireballs@,
                old(self).enemies@,
                now_ms as int,
            ),
    {
        let ghost all = self.enemies@;
        let ghost a0 = *one_off_anim_mgr;
        let ghost fbs = fireballs@;
        let ghost mut first_f: int = 0;
        let mut f: usize = 0;
        while f < fireballs.len()
            invariant
                f <= fbs.len(),
                fireballs@ == fbs,
                all == old(self).enemies@,
                a0 == *old(one_off_anim_mgr),
                self.enemies@.len() == all.len(),
                self.spawn_timer == old(self).spawn_timer,
                self.avg_enemy_vel == old(self).avg_enemy_vel,
                self.projectile_mgr == old(self).projectile_mgr,
                old(self).wf(),
                enemy_rects@.len() == all.len(),
                forall|j: int|
                    0 <= j < all.len() ==> enemy_rects@[j] == body_rect_spec(
                        #[trigger] all[j].position,
                    ),
                forall|j: int| 0 <= j < fbs.len() ==> (#[trigger] fbs[j]).wf(),
                forall|k: int|
                    0 <= k < all.len() ==> self.enemies@[k] == damaged_spec(
                        #[trigger] all[k],
                        fireball_hits_count_spec(fbs.take(f as int), all[k].position),
                    ),
                (forall|g: int| 0 <= g < f ==> !fireball_hits_any_spec(#[trigger] fbs[g], all))
                    ==> *one_off_anim_mgr == a0,
                (exists|g: int| 0 <= g < f && fireball_hits_any_spec(#[trigger] fbs[g], all))
                    ==> ({
                    &&& 0 <= first_f < f
                    &&& fireball_hits_any_spec(fbs[first_f], all)
                    &&& forall|g: int|
                        0 <= g < first_f ==> !fireball_hits_any_spec(#[trigger] fbs[g], all)
                    &&& explosion_added_spec(
                        a0,
                        *one_off_anim_mgr,
                        explosion_marker_spec(fbs[first_f].position),
                        now_ms as int,
                    )
                }),
            decreases fbs.len() - f,
        {
            let fb = fireballs[f];
            proof {
                assert(fb == fbs[f as int]);
                assert(fb.wf());
            }
            let fireball_rect = Rect::new(
                fb.position.x + FIREBALL_HITBOX_OFFSET,
                fb.position.y + FIREBALL_HITBOX_OFFSET,
                FIREBALL_HITBOX_SIDE,
                FIREBALL_HITBOX_SIDE,
            );
            let mut i: usize = 0;
            while i < self.enemies.len()
                invariant
                    i <= all.len(),
                    f < fbs.len(),
                    fireballs@ == fbs,
                    fb == fbs[f as int],
                    all == old(self).enemies@,
                    a0 == *old(one_off_anim_mgr),
                    fireball_rect == fireball_rect_spec(fb.position),
                    self.enemies@.len() == all.len(),
                    self.spawn_timer == old(self).spawn_timer,
                    self.avg_enemy_vel == old(self).avg_enemy_vel,
                    self.projectile_mgr == old(self).projectile_mgr,
                    old(self).wf(),
                    enemy_rects@.len() == all.len(),
                    forall|j: int|
                        0 <= j < all.len() ==> enemy_rects@[j] == body_rect_spec(
                            #[trigger] all[j].position,
                        ),
                    forall|j: int| 0 <= j < fbs.len() ==> (#[trigger] fbs[j]).wf(),
                    forall|k: int|
                        0 <= k < all.len() ==> self.enemies@[k] == damaged_spec(
                            #[trigger] all[k],
                            fireball_hits_count_spec(fbs.take(f as int), all[k].position) + (
                            if k < i && fireball_hits_spec(fb, all[k].position) {
                                1int
                            } else {
                                0int
                            }),
                        ),
                    ((forall|g: int|
                        0 <= g < f ==> !fireball_hits_any_spec(#[trigger] fbs[g], all)) && (
                    forall|e: int|
                        0 <= e < i ==> !fireball_hits_spec(fb, (#[trigger] all[e]).position)))
                        ==> *one_off_anim_mgr == a0,
                    ((exists|g: int|
                        0 <= g < f && fireball_hits_any_spec(#[trigger] fbs[g], all)) || (exists|
                        e: int,
                    |
                        0 <= e < i && fireball_hits_spec(fb, (#[trigger] all[e]).position))) ==> ({
                        &&& 0 <= first_f <= f
                        &&& fireball_hits_any_spec(fbs[first_f], all)
                        &&& forall|g: int|
                            0 <= g < first_f ==> !fireball_hits_any_spec(#[trigger] fbs[g], all)
                        &&& explosion_added_spec(
                            a0,
                            *one_off_anim_mgr,
                            explosion_marker_spec(fbs[first_f].position),
                            now_ms as int,
                        )
                    }),
                decreases all.len() - i,
            {
                proof {
                    assert(self.enemies@[i as int].position == all[i as int].position);
                    assert(all[i as int].wf());
                    assert(enemy_rects@[i as int] == body_rect_spec(all[i as int].position));
                }
                let enemy_rect = enemy_rects[i];
                if enemy_rect.intersects(&fireball_rect) {
                    proof {
                        assert(fireball_hits_spec(fb, all[i as int].position));
                        assert(fireball_hits_any_spec(fbs[f as int], all));
                        if (forall|g: int|
                            0 <= g < f ==> !fireball_hits_any_spec(#[trigger] fbs[g], all)) && (
                        forall|e: int|
                            0 <= e < i ==> !fireball_hits_spec(fb, (#[trigger] all[e]).position)) {
                            first_f = f as int;
                        }
                    }
                    one_off_anim_mgr.add_explosion(
                        Vec2i::new(
                            fb.position.x + 2 * FIREBALL_HITBOX_OFFSET,
                            fb.position.y + 2 * FIREBALL_HITBOX_OFFSET,
                        ),
                        now_ms,
                    );
                    let mut en = self.enemies[i];
                    en.take_hit();
                    self.enemies[i] = en;
                }
                i = i + 1;
            }
            proof {
                assert(fbs.take(f + 1) =~= fbs.take(f as int).push(fbs[f as int]));
                assert forall|k: int| 0 <= k < all.len() implies self.enemies@[k] == damaged_spec(
                    all[k],
                    fireball_hits_count_spec(fbs.take(f + 1), all[k].position),
                ) by {
                    lemma_fireball_count_push(fbs.take(f as int), fbs[f as int], all[k].position);
                }
            }
            f = f + 1;
        }
        proof {
            assert(fbs.take(fbs.len() as int) =~= fbs);
            assert forall|k: int|
                0 <= k < self.enemies@.len() implies (#[trigger] self.enemies@[k]).wf()
                && self.enemies@[k].kind != HumanoidType::Player by {
                assert(self.enemies@[k] == damaged_spec(
                    all[k],
                    fireball_hits_count_spec(fireballs@, all[k].position),
                ));
                assert(all[k].wf() && all[k].kind != HumanoidType::Player);
            }
        }
    }

    /// Test every enemy projectile against the player's body box,
    /// projectile by projectile; each overlapping projectile applies
    /// one separate hit.  Each hit also attempts a smoke marker at the
    /// projectile's position; the rate limit admits exactly one — for
    /// the first hitting projectile — when its window is open, and
    /// none otherwise.
    pub fn check_for_cannonball_collisions(
        &self,
        player: &mut Humanoid,
        one_off_anim_mgr: &mut OneOffAnimationManager,
        now_ms: u64,
    )
        requires
            self.wf(),
            old(player).wf(),
        ensures
            final(player).wf(),
            *final(player) == damaged_spec(
                *old(player),
                cannonball_hits_count_spec(
                    self.projectile_mgr.projectiles@,
                    old(player).position,
                ),
            ),
            smoke_sink_rel(
                *old(one_off_anim_mgr),
                *final(one_off_anim_mgr),
                self.projectile_mgr.projectiles@,
                old(player).position,
                now_ms as int,
            ),
    {
        let ghost h0 = *player;
        let ghost cbs = self.projectile_mgr.projectiles@;
        let ghost a0 = *one_off_anim_mgr;
        let ghost pred_hit = |cb: Projectile| cannonball_hits_spec(cb, h0.position);
        let ghost mut first_c: int = 0;
        let player_rect = player.rectangle();
        let mut j: usize = 0;
        while j < self.projectile_mgr.projectiles.len()
            invariant
                j <= cbs.len(),
                self.projectile_mgr.projectiles@ == cbs,
                self.wf(),
                h0.wf(),
                a0 == *old(one_off_anim_mgr),
                pred_hit == (|cb: Projectile| cannonball_hits_spec(cb, h0.position)),
                player_rect == body_rect_spec(h0.position),
                *player == damaged_spec(h0, cbs.take(j as int).filter(pred_hit).len() as int),
                (forall|c: int|
                    0 <= c < j ==> !cannonball_hits_spec(#[trigger] cbs[c], h0.position))
                    ==> *one_off_anim_mgr == a0,
                (exists|c: int|
                    0 <= c < j && cannonball_hits_spec(#[trigger] cbs[c], h0.position)) ==> ({
                    &&& 0 <= first_c < j
                    &&& cannonball_hits_spec(cbs[first_c], h0.position)
                    &&& forall|c: int|
                        0 <= c < first_c ==> !cannonball_hits_spec(#[trigger] cbs[c], h0.position)
                    &&& smoke_added_spec(
                        a0,
                        *one_off_anim_mgr,
                        smoke_marker_spec(cbs[first_c].position),
                        now_ms as int,
                    )
                }),
            decreases cbs.len() - j,
        {
            let cb = self.projectile_mgr.projectiles[j];
            proof {
                assert(cb == cbs[j as int]);
                assert(cb.wf());
                assert(cbs.take(j + 1) =~= cbs.take(j as int).push(cbs[j as int]));
                lemma_filter_push(cbs.take(j as int), cb, pred_hit);
            }
            let cannon_rect = Rect::new(
                cb.position.x,
                cb.position.y,
                CANNONBALL_HITBOX_SIDE,
                CANNONBALL_HITBOX_SIDE,
            );
            if cannon_rect.intersects(&player_rect) {
                proof {
                    if forall|c: int|
                        0 <= c < j ==> !cannonball_hits_spec(#[trigger] cbs[c], h0.position) {
                        first_c = j as int;
                    }
                }
                player.take_hit();
                one_off_anim_mgr.add_smoke(cb.position, now_ms);
            }
            j = j + 1;
        }
        proof {
            assert(cbs.take(cbs.len() as int) =~= cbs);
        }
    }
}

/// Point values are never negative, so neither is a collection's sum.
pub proof fn lemma_score_nonneg(s: Seq<Humanoid>)
    ensures
        score_seq_spec(s) >= 0,
    decreases s.len(),
{
    if s.len() > 0 {
        lemma_score_nonneg(s.drop_last());
    }
}

/// Two collections with the same kinds in the same order are worth
/// the same.
pub proof fn lemma_score_same_kinds(s1: Seq<Humanoid>, s2: Seq<Humanoid>)
    requires
        s1.len() == s2.len(),
        forall|i: int| 0 <= i < s1.len() ==> (#[trigger] s1[i]).kind == s2[i].kind,
    ensures
        score_seq_spec(s1) == score_seq_spec(s2),
    decreases s1.len(),
{
    if s1.len() > 0 {
        assert(forall|i: int|
            0 <= i < s1.len() - 1 ==> (#[trigger] s1.drop_last()[i]).kind == s2.drop_last()[i].kind);
        lemma_score_same_kinds(s1.drop_last(), s2.drop_last());
        assert(s1.last().kind == s2.last().kind);
    }
}

/// The total point value of a collection splits into the value of its
/// survivors plus the value of its dead.
pub proof fn lemma_score_splits_at_death(s: Seq<Humanoid>)
    ensures
        score_seq_spec(s) == score_seq_spec(s.filter(|h: Humanoid| alive_spec(h)))
            + score_seq_spec(s.filter(|h: Humanoid| !alive_spec(h))),
    decreases s.len(),
{
    reveal(Seq::filter);
    let pred_alive = |h: Humanoid| alive_spec(h);
    let pred_dead = |h: Humanoid| !alive_spec(h);
    if s.len() > 0 {
        lemma_score_splits_at_death(s.drop_last());
        let sub = s.drop_last();
        let e = s.last();
        if pred_alive(e) {
            assert(s.filter(pred_alive) == sub.filter(pred_alive).push(e));
            assert(s.filter(pred_dead) == sub.filter(pred_dead));
            assert(s.filter(pred_alive).drop_last() =~= sub.filter(pred_alive));
            assert(score_seq_spec(s.filter(pred_alive)) == score_seq_spec(sub.filter(pred_alive))
                + kind_score_spec(e.kind));
        } else {
            assert(s.filter(pred_dead) == sub.filter(pred_dead).push(e));
            assert(s.filter(pred_alive) == sub.filter(pred_alive));
            assert(s.filter(pred_dead).drop_last() =~= sub.filter(pred_dead));
            assert(score_seq_spec(s.filter(pred_dead)) == score_seq_spec(sub.filter(pred_dead))
                + kind_score_spec(e.kind));
        }
    }
}

/// Law: a cleanup pass in which exactly one `StrongerEnemy` dies (and
/// nothing else dies) lowers the total potential score by exactly that
/// enemy's value, 250 — the amount the running score then gains.
pub proof fn lemma_stronger_enemy_kill_score(s: Seq<Humanoid>)
    requires
        s.filter(|h: Humanoid| !alive_spec(h)).len() == 1,
        s.filter(|h: Humanoid| !alive_spec(h))[0].kind == HumanoidType::StrongerEnemy,
    ensures
        score_seq_spec(s) - score_seq_spec(s.filter(|h: Humanoid| alive_spec(h))) == 250,
{
    lemma_score_splits_at_death(s);
    let dead = s.filter(|h: Humanoid| !alive_spec(h));
    assert(dead.drop_last() =~= Seq::<Humanoid>::empty());
    assert(score_seq_spec(dead) == score_seq_spec(dead.drop_last()) + kind_score_spec(
        dead.last().kind,
    ));
    assert(score_seq_spec(Seq::<Humanoid>::empty()) == 0);
}

} // verus!
