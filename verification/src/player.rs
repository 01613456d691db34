//! The player: their humanoid record, their projectile stream, and the
//! per-tick step that reads the four directional input signals, fires,
//! and walks.

use vstd::prelude::*;
use crate::enemy::damaged_spec;
use crate::geom::{Vec2i, COORD_LIMIT};
use crate::humanoid::{walk_spec, Humanoid, HumanoidType, ShootingBehavior};
use crate::powerup::{
    run_speed_mil, shooting_interval_ms, shooting_interval_spec, PowerUpKind, BASE_RUN_SPEED_MIL,
    BASE_SHOOT_INTERVAL_MS, FAST_RUN_SPEED_MIL,
};
use crate::projectile::{spawned_projectile_spec, Projectile, ProjectileManager};

verus! {

/// Where the player stands when the game begins.
pub const PLAYER_START_X: i64 = 240_000;

/// Where the player stands when the game begins.
pub const PLAYER_START_Y: i64 = 160_000;

/// Hearts the player starts with.
pub const PLAYER_START_HEARTS: u32 = 2;

/// Per-axis speed of a player projectile, in thousandths of a pixel
/// per tick.
pub const FIREBALL_SPEED_MIL: i64 = 5500;

/// The firing heading derived from the four directional signals:
/// opposing pairs cancel the shot, each remaining combination maps to
/// one of the eight compass headings, and no signal means no shot.
pub open spec fn fire_angle_spec(left: bool, right: bool, up: bool, down: bool) -> Option<i64> {
    if left && right {
        None
    } else if up && down {
        None
    } else if left && up {
        Some(135i64)
    } else if left && down {
        Some(225i64)
    } else if right && down {
        Some(315i64)
    } else if right && up {
        Some(45i64)
    } else if left {
        Some(180i64)
    } else if right {
        Some(0i64)
    } else if up {
        Some(90i64)
    } else if down {
        Some(270i64)
    } else {
        None
    }
}

/// The player's record after its fire-and-walk step (see `update`).
pub open spec fn player_step_spec(
    h: Humanoid,
    left: bool,
    right: bool,
    up: bool,
    down: bool,
    now: int,
) -> Humanoid {
    let fast_shoot = h.power_ups.active_spec(PowerUpKind::FasterShooting, now);
    let fast_run = h.power_ups.active_spec(PowerUpKind::FasterRunning, now);
    let wait = shooting_interval_spec(fast_shoot);
    let h1 = Humanoid {
        shooting: ShootingBehavior {
            last_fire_ms: h.shooting.last_fire_ms,
            wait_interval_ms: wait as u64,
        },
        ..h
    };
    let fires = h1.shooting.ready_spec(now) && fire_angle_spec(left, right, up, down) is Some;
    let h2 = if fires {
        Humanoid {
            shooting: ShootingBehavior { last_fire_ms: now as u64, wait_interval_ms: wait as u64 },
            ..h1
        }
    } else {
        h1
    };
    let speed = if fast_run {
        FAST_RUN_SPEED_MIL as int
    } else {
        BASE_RUN_SPEED_MIL as int
    };
    walk_spec(h2, left, right, up, down, speed)
}

/// The projectiles the player's step enqueues: a triple fan while the
/// triple-shot buff is active, one projectile otherwise, and none when
/// the fire window is shut or no direction is signalled.
pub open spec fn player_shots_spec(
    h: Humanoid,
    left: bool,
    right: bool,
    up: bool,
    down: bool,
    now: int,
) -> Seq<Projectile> {
    let fast_shoot = h.power_ups.active_spec(PowerUpKind::FasterShooting, now);
    let wait = shooting_interval_spec(fast_shoot);
    let ready = now >= h.shooting.last_fire_ms + wait;
    match fire_angle_spec(left, right, up, down) {
        Some(angle) => {
            if ready {
                let vel = Vec2i { x: FIREBALL_SPEED_MIL, y: FIREBALL_SPEED_MIL };
                if h.power_ups.active_spec(PowerUpKind::TripleShooting, now) {
                    seq![
                        spawned_projectile_spec(angle - 45, h.position, vel),
                        spawned_projectile_spec(angle as int, h.position, vel),
                        spawned_projectile_spec(angle + 45, h.position, vel),
                    ]
                } else {
                    seq![spawned_projectile_spec(angle as int, h.position, vel)]
                }
            } else {
                Seq::empty()
            }
        },
        None => Seq::empty(),
    }
}

/// The player and the projectiles they have fired.
#[derive(Debug)]
pub struct PlayerManager {
    pub player: Humanoid,
    pub fireball_mgr: ProjectileManager,
}

impl PlayerManager {
    pub open spec fn wf(self) -> bool {
        &&& self.player.wf()
        &&& self.player.kind == HumanoidType::Player
        &&& self.fireball_mgr.wf()
    }

    pub fn new(now_ms: u64) -> (r: PlayerManager)
        ensures
            r.wf(),
            r.player.hearts == PLAYER_START_HEARTS,
            r.player.position == (Vec2i { x: PLAYER_START_X, y: PLAYER_START_Y }),
            r.player.velocity == (Vec2i { x: 0, y: 0 }),
            r.player.allowed_to_shoot,
            r.player.shooting == (ShootingBehavior {
                last_fire_ms: now_ms,
                wait_interval_ms: BASE_SHOOT_INTERVAL_MS,
            }),
            r.player.power_ups.slots[0] is None,
            r.player.power_ups.slots[1] is None,
            r.player.power_ups.slots[2] is None,
            r.fireball_mgr.projectiles@.len() == 0,
    {
        PlayerManager {
            player: Humanoid::new(
                PLAYER_START_HEARTS,
                Vec2i::new(PLAYER_START_X, PLAYER_START_Y),
                Vec2i::new(0, 0),
                true,
                BASE_SHOOT_INTERVAL_MS,
                HumanoidType::Player,
                now_ms,
            ),
            fireball_mgr: ProjectileManager::new(),
        }
    }

    /// Whether the player has run out of hearts (the game is then
    /// over).
    pub fn is_player_dead(&self) -> (r: bool)
        ensures
            r == (self.player.hearts == 0),
    {
        self.player.is_dead()
    }

    pub fn hearts(&self) -> (r: u32)
        ensures
            r == self.player.hearts,
    {
        self.player.hearts
    }

    pub fn player_position(&self) -> (r: Vec2i)
        ensures
            r == self.player.position,
    {
        self.player.position
    }

    /// The player loses one heart.
    pub fn register_hit(&mut self)
        ensures
            final(self).player == damaged_spec(old(self).player, 1),
            final(self).fireball_mgr == old(self).fireball_mgr,
    {
        self.player.take_hit();
    }

    pub fn player_mut(&mut self) -> (r: &mut Humanoid)
        ensures
            *r == old(self).player,
            final(self).player == *final(r),
            final(self).fireball_mgr == old(self).fireball_mgr,
    {
        &mut self.player
    }

    /// The player's in-flight projectiles.
    pub fn fireballs(&self) -> (r: &Vec<Projectile>)
        ensures
            r == &self.fireball_mgr.projectiles,
    {
        self.fireball_mgr.projectiles()
    }

    /// The simulation part of the player's draw pass: advance the
    /// in-flight fireballs one frame — each moves by its fixed
    /// velocity, then the ones that left the arena are pruned.
    pub fn advance_animation(&mut self)
        requires
            old(self).wf(),
        ensures
            final(self).wf(),
            final(self).player == old(self).player,
            final(self).fireball_mgr.projectiles@ == old(self).fireball_mgr.projectiles@
                .map_values(|p: Projectile| p.integrated_spec()).filter(
                |p: Projectile| p.in_bounds_spec(),
            ),
    {
        self.fireball_mgr.advance_animation();
    }

    /// The firing heading derived from the four directional signals.
    pub fn check_for_fire(left: bool, right: bool, up: bool, down: bool) -> (r: Option<i64>)
        ensures
            r == fire_angle_spec(left, right, up, down),
    {
        match (left, right, up, down) {
            (true, true, _, _) => None,
            (_, _, true, true) => None,
            (true, false, true, false) => Some(135),
            (true, false, false, true) => Some(225),
            (false, true, false, true) => Some(315),
            (false, true, true, false) => Some(45),
            (true, false, false, false) => Some(180),
            (false, true, false, false) => Some(0),
            (false, false, true, false) => Some(90),
            (false, false, false, true) => Some(270),
            (false, false, false, false) => None,
        }
    }

    /// One player tick: read the buff table, set the effective fire
    /// interval, fire along the signalled heading if the fire window is open,
    /// then walk from the same four signals.
    pub fn update(&mut self, left: bool, right: bool, up: bool, down: bool, now_ms: u64)
        requires
            old(self).wf(),
        ensures
            final(self).wf(),
            final(self).player == player_step_spec(
                old(self).player,
                left,
                right,
                up,
                down,
                now_ms as int,
            ),
            final(self).fireball_mgr.projectiles@ == old(self).fireball_mgr.projectiles@
                + player_shots_spec(old(self).player, left, right, up, down, now_ms as int),
    {
        let ghost p0 = self.player;
        let (fast_shoot, fast_run, triple) = self.player.power_ups.currently_active(now_ms);
        let wait = shooting_interval_ms(fast_shoot);
        self.player.shooting.set_shooting_wait_time(wait);
        let ghost before = self.fireball_mgr.projectiles@;
        if self.player.can_fire(now_ms) {
            if let Some(angle) = Self::check_for_fire(left, right, up, down) {
                self.fireball_mgr.shoot(
                    triple,
                    angle,
                    self.player.position,
                    Vec2i::new(FIREBALL_SPEED_MIL, FIREBALL_SPEED_MIL),
                );
                self.player.register_fire(now_ms);
            }
        }
        proof {
            assert(self.fireball_mgr.projectiles@ =~= before + player_shots_spec(
                p0,
                left,
                right,
                up,
                down,
                now_ms as int,
            ));
        }
        let speed = run_speed_mil(fast_run);
        self.player.update_from_key_press(left, right, up, down, speed);
    }
}

} // verus!
