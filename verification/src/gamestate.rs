//! The per-tick driver: it sequences cleanup, collisions, pickups,
//! movement, firing, wave progression and spawning in a fixed order,
//! and keeps the running score and the game-over state.

use vstd::prelude::*;
use crate::enemy::{
    alive_spec, all_fired_spec, can_shoot_spec, cannonball_hits_count_spec, damaged_spec,
    edge_pinned_spec, enemy_step_spec, explosion_sink_rel, fire_wait_spec,
    fireball_hits_count_spec, lemma_score_nonneg, lemma_score_same_kinds,
    lemma_score_splits_at_death, lives_of_spec, score_seq_spec, smoke_sink_rel, EnemyManager,
    AVG_VEL_CAP, ENEMY_CAP,
};
use crate::geom::{rects_intersect_spec, ARENA_SIDE};
use crate::humanoid::{body_rect_spec, Humanoid, HumanoidType, ShootingBehavior};
use crate::oneoffanim::{
    OneOffAnimation, OneOffAnimationManager, EXPLOSION_FRAMES, FRAME_ADVANCE_INTERVAL_MS,
    SMOKE_FRAMES,
};
use crate::player::{player_shots_spec, player_step_spec, PlayerManager};
use crate::powerup::{
    consumed_marked_spec, ground_keep_spec, lemma_picked_by_any_pointwise,
    lemma_picked_up_pointwise, picked_by_any_spec, picked_up_spec, powerup_hits_spec, PowerUp,
    PowerUpManager, POWER_UP_AVAILABILITY_MS,
};
use crate::projectile::Projectile;
use crate::timer::Timer;

verus! {

/// Every wave lasts thirty seconds.
pub const WAVE_INTERVAL_MS: u64 = 30_000;

/// Number of entries in the wave table; the index holds at the last
/// entry.
pub const WAVE_TABLE_LEN: u8 = 7;

/// The enemy kind in the given slot of the wave table.  Waves past
/// the table's end read as its final entry.
pub open spec fn wave_kind_spec(slot: int) -> HumanoidType {
    if slot == 0 {
        HumanoidType::BasicEnemy
    } else if slot == 1 {
        HumanoidType::StrongerEnemy
    } else if slot == 2 {
        HumanoidType::BadassEnemy
    } else {
        HumanoidType::Boss
    }
}

/// The percentage weight of the given slot in the given wave; each
/// wave's four weights sum to one hundred.
pub open spec fn wave_weight_spec(wave: int, slot: int) -> int {
    if wave == 0 {
        if slot == 0 {
            85
        } else if slot == 1 {
            10
        } else if slot == 2 {
            5
        } else {
            0
        }
    } else if wave == 1 || wave == 2 {
        if slot == 0 {
            75
        } else if slot == 1 {
            20
        } else if slot == 2 {
            5
        } else {
            0
        }
    } else if wave == 3 {
        if slot == 0 {
            40
        } else if slot == 1 {
            50
        } else if slot == 2 {
            10
        } else {
            0
        }
    } else if wave == 4 {
        if slot == 0 {
            10
        } else if slot == 1 {
            60
        } else if slot == 2 {
            30
        } else {
            0
        }
    } else if wave == 5 {
        if slot == 0 {
            0
        } else if slot == 1 {
            55
        } else if slot == 2 {
            35
        } else {
            10
        }
    } else {
        if slot == 0 {
            0
        } else if slot == 1 {
            55
        } else if slot == 2 {
            25
        } else {
            20
        }
    }
}

/// The weight of one wave-table slot.
fn wave_weight(wave: u8, slot: u8) -> (r: u32)
    requires
        slot < 4,
    ensures
        r == wave_weight_spec(wave as int, slot as int),
{
    if wave == 0 {
        if slot == 0 {
            85
        } else if slot == 1 {
            10
        } else if slot == 2 {
            5
        } else {
            0
        }
    } else if wave == 1 || wave == 2 {
        if slot == 0 {
            75
        } else if slot == 1 {
            20
        } else if slot == 2 {
            5
        } else {
            0
        }
    } else if wave == 3 {
        if slot == 0 {
            40
        } else if slot == 1 {
            50
        } else if slot == 2 {
            10
        } else {
            0
        }
    } else if wave == 4 {
        if slot == 0 {
            10
        } else if slot == 1 {
            60
        } else if slot == 2 {
            30
        } else {
            0
        }
    } else if wave == 5 {
        if slot == 0 {
            0
        } else if slot == 1 {
            55
        } else if slot == 2 {
            35
        } else {
            10
        }
    } else {
        if slot == 0 {
            0
        } else if slot == 1 {
            55
        } else if slot == 2 {
            25
        } else {
            20
        }
    }
}

/// Draw an enemy kind from the current wave's weighted distribution:
/// a uniform roll against the cumulative percentage weights.  The
/// result is never the player's kind, and always a kind with positive
/// weight in this wave.
pub fn choose_enemy_kind(rng: &mut rand::rngs::SmallRng, wave: u8) -> (r: HumanoidType)
    ensures
        r != HumanoidType::Player,
        exists|s: int|
            0 <= s < 4 && wave_kind_spec(s) == r && wave_weight_spec(wave as int, s) > 0,
{
    let roll = crate::rng::sample_below(rng, 100);
    let w0 = wave_weight(wave, 0);
    let w1 = wave_weight(wave, 1);
    let w2 = wave_weight(wave, 2);
    proof {
        assert(w0 + w1 + w2 + wave_weight_spec(wave as int, 3) == 100);
    }
    if roll < w0 {
        proof {
            assert(wave_kind_spec(0) == HumanoidType::BasicEnemy && wave_weight_spec(
                wave as int,
                0,
            ) > 0);
        }
        HumanoidType::BasicEnemy
    } else if roll < w0 + w1 {
        proof {
            assert(wave_kind_spec(1) == HumanoidType::StrongerEnemy && wave_weight_spec(
                wave as int,
                1,
            ) > 0);
        }
        HumanoidType::StrongerEnemy
    } else if roll < w0 + w1 + w2 {
        proof {
            assert(wave_kind_spec(2) == HumanoidType::BadassEnemy && wave_weight_spec(
                wave as int,
                2,
            ) > 0);
        }
        HumanoidType::BadassEnemy
    } else {
        proof {
            assert(wave_kind_spec(3) == HumanoidType::Boss && wave_weight_spec(wave as int, 3)
                > 0);
        }
        HumanoidType::Boss
    }
}

/// The wave-progression phase of one tick: the index advances once
/// its timer elapses, never past the final table entry; nothing else
/// changes.
pub open spec fn wave_step_rel(pre: GameState, post: GameState, now: int) -> bool {
    let advance = pre.wave_timer.is_ready_spec(now) && pre.current_wave < WAVE_TABLE_LEN - 1;
    &&& post.current_wave == (if advance {
        pre.current_wave + 1
    } else {
        pre.current_wave as int
    })
    &&& post.wave_timer == (if advance {
        Timer { interval_ms: pre.wave_timer.interval_ms, last_reset_ms: now as u64 }
    } else {
        pre.wave_timer
    })
    &&& post.player_manager == pre.player_manager
    &&& post.power_up_mgr == pre.power_up_mgr
    &&& post.enemy_mgr == pre.enemy_mgr
    &&& post.one_off_anim_mgr == pre.one_off_anim_mgr
    &&& post.game_score == pre.game_score
    &&& post.rng == pre.rng
}

/// The contact phase of one tick: the player loses one heart on enemy
/// body contact plus one per overlapping enemy projectile; each enemy
/// loses one heart per overlapping player projectile and then picks up
/// whatever ground power-up overlaps it; every power-up overlapping
/// some enemy is consumed; each projectile pass attempts one rate-
/// limited marker.  Projectiles, timers, score, wave and the random
/// source are untouched.
pub open spec fn contacts_rel(pre: GameState, post: GameState, now: int) -> bool {
    let enemies0 = pre.enemy_mgr.enemies@;
    let player0 = pre.player_manager.player;
    let fireballs = pre.player_manager.fireball_mgr.projectiles@;
    let cannonballs = pre.enemy_mgr.projectile_mgr.projectiles@;
    let powerups0 = pre.power_up_mgr.powerups@;
    let contact = exists|i: int|
        0 <= i < enemies0.len() && rects_intersect_spec(
            body_rect_spec(player0.position),
            body_rect_spec((#[trigger] enemies0[i]).position),
        );
    let player1 = if contact {
        damaged_spec(player0, 1)
    } else {
        player0
    };
    let player2 = damaged_spec(player1, cannonball_hits_count_spec(cannonballs, player1.position));
    &&& post.player_manager.player == player2
    &&& post.player_manager.fireball_mgr == pre.player_manager.fireball_mgr
    &&& post.enemy_mgr.enemies@.len() == enemies0.len()
    &&& forall|i: int|
        0 <= i < enemies0.len() ==> post.enemy_mgr.enemies@[i] == picked_up_spec(
            damaged_spec(
                #[trigger] enemies0[i],
                fireball_hits_count_spec(fireballs, enemies0[i].position),
            ),
            powerups0,
            now,
        )
    &&& post.enemy_mgr.spawn_timer == pre.enemy_mgr.spawn_timer
    &&& post.enemy_mgr.avg_enemy_vel == pre.enemy_mgr.avg_enemy_vel
    &&& post.enemy_mgr.projectile_mgr == pre.enemy_mgr.projectile_mgr
    &&& post.power_up_mgr.spawn_timer == pre.power_up_mgr.spawn_timer
    &&& post.power_up_mgr.powerups@.len() == powerups0.len()
    &&& forall|j: int|
        0 <= j < powerups0.len() ==> post.power_up_mgr.powerups@[j] == (if picked_by_any_spec(
            #[trigger] powerups0[j],
            enemies0,
        ) {
            PowerUp { was_consumed: true, ..powerups0[j] }
        } else {
            powerups0[j]
        })
    &&& (exists|mid: OneOffAnimationManager|
        #![trigger explosion_sink_rel(pre.one_off_anim_mgr, mid, fireballs, enemies0, now)]
        explosion_sink_rel(pre.one_off_anim_mgr, mid, fireballs, enemies0, now)
            && smoke_sink_rel(mid, post.one_off_anim_mgr, cannonballs, player1.position, now))
    &&& post.game_score == pre.game_score
    &&& post.current_wave == pre.current_wave
    &&& post.wave_timer == pre.wave_timer
    &&& post.rng == pre.rng
}

/// The advance phase of one tick: a power-up may spawn and the player
/// picks up what overlaps them; the player walks and fires from the
/// four signals; a wave-weighted enemy may spawn on the perimeter.
/// Markers, score and wave are untouched.
pub open spec fn world_rel(
    pre: GameState,
    post: GameState,
    left: bool,
    right: bool,
    up: bool,
    down: bool,
    now: int,
) -> bool {
    let player0 = pre.player_manager.player;
    let powerups0 = pre.power_up_mgr.powerups@;
    let spawned_pu = pre.power_up_mgr.spawn_timer.is_ready_spec(now);
    let spawned_enemy = pre.enemy_mgr.spawn_timer.is_ready_spec(now)
        && pre.enemy_mgr.enemies@.len() < ENEMY_CAP;
    let player1 = picked_up_spec(player0, post.power_up_mgr.powerups@, now);
    &&& post.power_up_mgr.spawn_timer == (if spawned_pu {
        Timer { interval_ms: pre.power_up_mgr.spawn_timer.interval_ms, last_reset_ms: now as u64 }
    } else {
        pre.power_up_mgr.spawn_timer
    })
    &&& post.power_up_mgr.powerups@.len() == powerups0.len() + (if spawned_pu {
        1int
    } else {
        0int
    })
    &&& forall|j: int|
        0 <= j < powerups0.len() ==> post.power_up_mgr.powerups@[j] == consumed_marked_spec(
            #[trigger] powerups0[j],
            player0.position,
        )
    &&& spawned_pu ==> ({
        let p = post.power_up_mgr.powerups@.last();
        &&& p.expiration_timer == (Timer {
            interval_ms: POWER_UP_AVAILABILITY_MS,
            last_reset_ms: now as u64,
        })
        &&& p.flickering == 0
        &&& 0 <= p.position.x < ARENA_SIDE
        &&& 0 <= p.position.y < ARENA_SIDE
        &&& p.was_consumed == powerup_hits_spec(p, player0.position)
    })
    &&& post.player_manager.player == player_step_spec(player1, left, right, up, down, now)
    &&& post.player_manager.fireball_mgr.projectiles@
        == pre.player_manager.fireball_mgr.projectiles@ + player_shots_spec(
        player1,
        left,
        right,
        up,
        down,
        now,
    )
    &&& post.enemy_mgr.spawn_timer == (if spawned_enemy {
        Timer { interval_ms: pre.enemy_mgr.spawn_timer.interval_ms, last_reset_ms: now as u64 }
    } else {
        pre.enemy_mgr.spawn_timer
    })
    &&& post.enemy_mgr.enemies@.len() == pre.enemy_mgr.enemies@.len() + (if spawned_enemy {
        1int
    } else {
        0int
    })
    &&& forall|i: int|
        0 <= i < pre.enemy_mgr.enemies@.len() ==> post.enemy_mgr.enemies@[i] == pre.enemy_mgr.enemies@[i]
    &&& post.enemy_mgr.projectile_mgr == pre.enemy_mgr.projectile_mgr
    &&& !spawned_enemy ==> post.enemy_mgr.avg_enemy_vel == pre.enemy_mgr.avg_enemy_vel
    &&& spawned_enemy ==> ({
        let e = post.enemy_mgr.enemies@.last();
        &&& e.kind != HumanoidType::Player
        &&& (exists|s: int|
            0 <= s < 4 && wave_kind_spec(s) == e.kind && wave_weight_spec(
                pre.current_wave as int,
                s,
            ) > 0)
        &&& e.hearts == lives_of_spec(e.kind)
        &&& e.allowed_to_shoot == can_shoot_spec(e.kind)
        &&& e.shooting == (ShootingBehavior {
            last_fire_ms: now as u64,
            wait_interval_ms: fire_wait_spec(e.kind) as u64,
        })
        &&& e.flickering == 0
        &&& edge_pinned_spec(e.position.x as int, e.position.y as int)
        &&& 300 + pre.enemy_mgr.avg_enemy_vel <= e.velocity.x <= 699 + pre.enemy_mgr.avg_enemy_vel
        &&& 300 + pre.enemy_mgr.avg_enemy_vel <= e.velocity.y <= 699 + pre.enemy_mgr.avg_enemy_vel
        &&& post.enemy_mgr.avg_enemy_vel == (if pre.enemy_mgr.avg_enemy_vel + (e.velocity.x
            + e.velocity.y) / 256 <= AVG_VEL_CAP {
            pre.enemy_mgr.avg_enemy_vel + (e.velocity.x + e.velocity.y) / 256
        } else {
            AVG_VEL_CAP as int
        })
    })
    &&& post.one_off_anim_mgr == pre.one_off_anim_mgr
    &&& post.game_score == pre.game_score
    &&& post.current_wave == pre.current_wave
    &&& post.wave_timer == pre.wave_timer
}

/// The settle phase of one tick: markers advance, dead enemies are
/// dropped and the survivors step and fire, ground power-ups expire
/// and flicker, and the score gains exactly the point value of the
/// enemies that died (saturating).  The player, wave and random
/// source are untouched.
pub open spec fn settle_rel(pre: GameState, post: GameState, now: int) -> bool {
    let enemies0 = pre.enemy_mgr.enemies@;
    let alive = enemies0.filter(|h: Humanoid| alive_spec(h));
    let player_pos = pre.player_manager.player.position;
    &&& ({
        let a0 = pre.one_off_anim_mgr;
        let a1 = post.one_off_anim_mgr;
        let kept_explosions = a0.explosions@.filter(
            |a: OneOffAnimation| a.current_frame != EXPLOSION_FRAMES - 1,
        );
        let kept_smokes = a0.smokes@.filter(
            |a: OneOffAnimation| a.current_frame != SMOKE_FRAMES - 1,
        );
        let advance = now > a0.last_updated_ms + FRAME_ADVANCE_INTERVAL_MS;
        &&& a1.explosions@ == (if advance {
            kept_explosions.map_values(|a: OneOffAnimation| a.advanced_spec())
        } else {
            kept_explosions
        })
        &&& a1.smokes@ == (if advance {
            kept_smokes.map_values(|a: OneOffAnimation| a.advanced_spec())
        } else {
            kept_smokes
        })
        &&& a1.last_updated_ms == (if advance {
            now
        } else {
            a0.last_updated_ms as int
        })
        &&& a1.last_smoke_added_ms == a0.last_smoke_added_ms
        &&& a1.last_explosion_added_ms == a0.last_explosion_added_ms
    })
    &&& post.enemy_mgr.enemies@.len() == alive.len()
    &&& forall|i: int|
        0 <= i < alive.len() ==> post.enemy_mgr.enemies@[i] == enemy_step_spec(
            #[trigger] alive[i],
            player_pos,
            now,
        )
    &&& post.enemy_mgr.projectile_mgr.projectiles@
        == pre.enemy_mgr.projectile_mgr.projectiles@.map_values(
        |p: Projectile| p.integrated_spec(),
    ).filter(|p: Projectile| p.in_bounds_spec()) + all_fired_spec(alive, player_pos, now)
    &&& post.enemy_mgr.spawn_timer == pre.enemy_mgr.spawn_timer
    &&& post.enemy_mgr.avg_enemy_vel == pre.enemy_mgr.avg_enemy_vel
    &&& post.power_up_mgr.spawn_timer == pre.power_up_mgr.spawn_timer
    &&& post.power_up_mgr.powerups@ == pre.power_up_mgr.powerups@.filter(
        |p: PowerUp| ground_keep_spec(p, now),
    ).map_values(|p: PowerUp| p.flicker_checked_spec(now))
    &&& ({
        let killed = score_seq_spec(enemies0.filter(|h: Humanoid| !alive_spec(h)));
        post.game_score == (if pre.game_score + killed <= u64::MAX {
            pre.game_score + killed
        } else {
            u64::MAX as int
        })
    })
    &&& post.player_manager == pre.player_manager
    &&& post.current_wave == pre.current_wave
    &&& post.wave_timer == pre.wave_timer
    &&& post.rng == pre.rng
}

/// One whole simulation tick, as the composition of its four phases
/// in the fixed order: wave progression, contact resolution, world
/// advance, and settlement.  The phases are exact; what randomness
/// decides (spawn positions, kinds, velocities) is stated as what
/// holds of every outcome.
pub open spec fn tick_rel(
    pre: GameState,
    post: GameState,
    left: bool,
    right: bool,
    up: bool,
    down: bool,
    now: int,
) -> bool {
    exists|s1: GameState, s2: GameState, s3: GameState|
        #![trigger wave_step_rel(pre, s1, now), contacts_rel(s1, s2, now), settle_rel(s3, post, now)]
        wave_step_rel(pre, s1, now) && contacts_rel(s1, s2, now) && world_rel(
            s2,
            s3,
            left,
            right,
            up,
            down,
            now,
        ) && settle_rel(s3, post, now)
}

/// Law: an otherwise idle tick — no projectiles in flight, no ground
/// power-ups, the enemy spawn timer not yet elapsed — credits the
/// running score with exactly the point value of the enemies that
/// entered the tick dead.
pub proof fn lemma_idle_tick_scores_the_dead(
    pre: GameState,
    post: GameState,
    left: bool,
    right: bool,
    up: bool,
    down: bool,
    now: int,
)
    requires
        tick_rel(pre, post, left, right, up, down, now),
        !pre.enemy_mgr.spawn_timer.is_ready_spec(now),
        pre.player_manager.fireball_mgr.projectiles@.len() == 0,
        pre.power_up_mgr.powerups@.len() == 0,
        pre.game_score + score_seq_spec(
            pre.enemy_mgr.enemies@.filter(|h: Humanoid| !alive_spec(h)),
        ) <= u64::MAX,
    ensures
        post.game_score == pre.game_score + score_seq_spec(
            pre.enemy_mgr.enemies@.filter(|h: Humanoid| !alive_spec(h)),
        ),
{
    let (s1, s2, s3) = choose|s1: GameState, s2: GameState, s3: GameState|
        #![trigger wave_step_rel(pre, s1, now), contacts_rel(s1, s2, now), settle_rel(s3, post, now)]
        wave_step_rel(pre, s1, now) && contacts_rel(s1, s2, now) && world_rel(
            s2,
            s3,
            left,
            right,
            up,
            down,
            now,
        ) && settle_rel(s3, post, now);
    reveal(Seq::filter);
    let enemies0 = pre.enemy_mgr.enemies@;
    assert(s1.enemy_mgr == pre.enemy_mgr && s1.player_manager == pre.player_manager
        && s1.power_up_mgr == pre.power_up_mgr && s1.game_score == pre.game_score);
    // With no projectiles and no power-ups, the contact phase leaves
    // every enemy exactly as it was.
    let fireballs = s1.player_manager.fireball_mgr.projectiles@;
    assert(fireballs =~= Seq::<Projectile>::empty());
    assert forall|i: int| 0 <= i < enemies0.len() implies s2.enemy_mgr.enemies@[i] == enemies0[i] by {
        let h = enemies0[i];
        assert(fireballs.filter(
            |fb: Projectile| crate::enemy::fireball_hits_spec(fb, h.position),
        ).len() == 0);
        assert(damaged_spec(h, 0) == h);
        let ps = s1.power_up_mgr.powerups@;
        assert(ps =~= Seq::<PowerUp>::empty());
        let picked = picked_up_spec(h, ps, now);
        assert(crate::powerup::heart_hits_count_spec(ps, h.position) == 0);
        assert(picked.power_ups.slots@ =~= h.power_ups.slots@);
        assert(picked.power_ups.slots == h.power_ups.slots);
        assert(picked.power_ups == h.power_ups);
        assert(picked == h);
    }
    // The spawn timer was untouched and not yet elapsed, so the
    // advance phase adds no enemy.
    assert(s2.enemy_mgr.spawn_timer == pre.enemy_mgr.spawn_timer);
    assert(!(s2.enemy_mgr.spawn_timer.is_ready_spec(now) && s2.enemy_mgr.enemies@.len()
        < ENEMY_CAP));
    assert(s3.enemy_mgr.enemies@.len() == enemies0.len());
    assert(s3.enemy_mgr.enemies@ =~= enemies0);
    // The settle phase then credits exactly the dead enemies' value.
    assert(s3.game_score == pre.game_score);
    lemma_score_nonneg(enemies0.filter(|h: Humanoid| !alive_spec(h)));
}

/// Law: a tick in which exactly one enemy lies dead, a
/// `StrongerEnemy`, and nothing else happens — no projectiles, no
/// ground power-ups, no spawn — raises the running score by exactly
/// 250.
pub proof fn lemma_stronger_enemy_tick_score(
    pre: GameState,
    post: GameState,
    left: bool,
    right: bool,
    up: bool,
    down: bool,
    now: int,
)
    requires
        tick_rel(pre, post, left, right, up, down, now),
        !pre.enemy_mgr.spawn_timer.is_ready_spec(now),
        pre.player_manager.fireball_mgr.projectiles@.len() == 0,
        pre.power_up_mgr.powerups@.len() == 0,
        pre.enemy_mgr.enemies@.filter(|h: Humanoid| !alive_spec(h)).len() == 1,
        pre.enemy_mgr.enemies@.filter(|h: Humanoid| !alive_spec(h))[0].kind
            == HumanoidType::StrongerEnemy,
        pre.game_score + 250 <= u64::MAX,
    ensures
        post.game_score == pre.game_score + 250,
{
    let dead = pre.enemy_mgr.enemies@.filter(|h: Humanoid| !alive_spec(h));
    assert(dead.drop_last() =~= Seq::<Humanoid>::empty());
    assert(score_seq_spec(dead) == score_seq_spec(dead.drop_last()) + crate::enemy::kind_score_spec(
        dead.last().kind,
    ));
    assert(score_seq_spec(Seq::<Humanoid>::empty()) == 0);
    lemma_idle_tick_scores_the_dead(pre, post, left, right, up, down, now);
}

/// The whole simulation: all managers, the wave clock, the score and
/// the random source.
pub struct GameState {
    pub player_manager: PlayerManager,
    pub power_up_mgr: PowerUpManager,
    pub enemy_mgr: EnemyManager,
    pub one_off_anim_mgr: OneOffAnimationManager,
    pub rng: rand::rngs::SmallRng,
    pub game_score: u64,
    pub current_wave: u8,
    /// How long every wave lasts.
    pub wave_timer: Timer,
}

impl GameState {
    pub open spec fn wf(self) -> bool {
        &&& self.player_manager.wf()
        &&& self.power_up_mgr.wf()
        &&& self.enemy_mgr.wf()
        &&& self.one_off_anim_mgr.wf()
        &&& self.current_wave < WAVE_TABLE_LEN
    }

    pub fn new(rng: rand::rngs::SmallRng, now_ms: u64) -> (r: GameState)
        ensures
            r.wf(),
            r.game_score == 0,
            r.current_wave == 0,
            r.wave_timer == (Timer { interval_ms: WAVE_INTERVAL_MS, last_reset_ms: now_ms }),
            r.enemy_mgr.enemies@.len() == 0,
            r.power_up_mgr.powerups@.len() == 0,
            r.player_manager.player.hearts == crate::player::PLAYER_START_HEARTS,
    {
        GameState {
            player_manager: PlayerManager::new(now_ms),
            power_up_mgr: PowerUpManager::new(now_ms),
            enemy_mgr: EnemyManager::new(now_ms),
            one_off_anim_mgr: OneOffAnimationManager::new(now_ms),
            rng,
            game_score: 0,
            current_wave: 0,
            wave_timer: Timer::start_now_with_interval(WAVE_INTERVAL_MS, now_ms),
        }
    }

    /// The simulation freezes once the player is out of hearts.
    pub fn is_game_over(&self) -> (r: bool)
        ensures
            r == (self.player_manager.player.hearts == 0),
    {
        self.player_manager.is_player_dead()
    }

    /// Advance the wave index once its timer elapses, never past the
    /// final table entry: at the last entry the index holds, however
    /// often the check runs.
    pub fn check_for_wave_change(&mut self, now_ms: u64)
        requires
            old(self).current_wave < WAVE_TABLE_LEN,
        ensures
            wave_step_rel(*old(self), *final(self), now_ms as int),
            final(self).current_wave < WAVE_TABLE_LEN,
            old(self).current_wave == WAVE_TABLE_LEN - 1 ==> final(self).current_wave == old(self).current_wave,
    {
        if self.wave_timer.is_ready(now_ms) && self.current_wave < WAVE_TABLE_LEN - 1 {
            self.current_wave = self.current_wave + 1;
            self.wave_timer.reset(now_ms);
        }
    }

    /// Apply ground power-up pickups to every enemy in order: each
    /// enemy gains a heart per overlapping `AdditionalHeart` and
    /// activates each overlapping timed kind, and every power-up
    /// overlapping some enemy is consumed.  Overlap reads only kinds
    /// and positions, which no pickup changes, so the outcome is the
    /// same for every enemy regardless of order.
    fn enemy_pickups(&mut self, now_ms: u64)
        requires
            old(self).power_up_mgr.wf(),
            old(self).enemy_mgr.wf(),
        ensures
            final(self).power_up_mgr.wf(),
            final(self).enemy_mgr.wf(),
            final(self).player_manager == old(self).player_manager,
            final(self).one_off_anim_mgr == old(self).one_off_anim_mgr,
            final(self).rng == old(self).rng,
            final(self).game_score == old(self).game_score,
            final(self).current_wave == old(self).current_wave,
            final(self).wave_timer == old(self).wave_timer,
            final(self).power_up_mgr.spawn_timer == old(self).power_up_mgr.spawn_timer,
            final(self).enemy_mgr.spawn_timer == old(self).enemy_mgr.spawn_timer,
            final(self).enemy_mgr.avg_enemy_vel == old(self).enemy_mgr.avg_enemy_vel,
            final(self).enemy_mgr.projectile_mgr == old(self).enemy_mgr.projectile_mgr,
            final(self).enemy_mgr.enemies@.len() == old(self).enemy_mgr.enemies@.len(),
            forall|i: int|
                0 <= i < old(self).enemy_mgr.enemies@.len() ==> final(self).enemy_mgr.enemies@[i]
                    == picked_up_spec(
                    #[trigger] old(self).enemy_mgr.enemies@[i],
                    old(self).power_up_mgr.powerups@,
                    now_ms as int,
                ),
            final(self).power_up_mgr.powerups@.len() == old(self).power_up_mgr.powerups@.len(),
            forall|j: int|
                0 <= j < old(self).power_up_mgr.powerups@.len() ==> final(self).power_up_mgr.powerups@[j] == (if picked_by_any_spec(
                    #[trigger] old(self).power_up_mgr.powerups@[j],
                    old(self).enemy_mgr.enemies@,
                ) {
                    PowerUp { was_consumed: true, ..old(self).power_up_mgr.powerups@[j] }
                } else {
                    old(self).power_up_mgr.powerups@[j]
                }),
    {
        let ghost enemies0 = self.enemy_mgr.enemies@;
        let ghost p0 = self.power_up_mgr.powerups@;
        let mut i: usize = 0;
        while i < self.enemy_mgr.enemies.len()
            invariant
                i <= enemies0.len(),
                enemies0 == old(self).enemy_mgr.enemies@,
                p0 == old(self).power_up_mgr.powerups@,
                old(self).power_up_mgr.wf(),
                old(self).enemy_mgr.wf(),
                self.power_up_mgr.wf(),
                self.enemy_mgr.enemies@.len() == enemies0.len(),
                self.power_up_mgr.powerups@.len() == p0.len(),
                self.player_manager == old(self).player_manager,
                self.one_off_anim_mgr == old(self).one_off_anim_mgr,
                self.rng == old(self).rng,
                self.game_score == old(self).game_score,
                self.current_wave == old(self).current_wave,
                self.wave_timer == old(self).wave_timer,
                self.power_up_mgr.spawn_timer == old(self).power_up_mgr.spawn_timer,
                self.enemy_mgr.spawn_timer == old(self).enemy_mgr.spawn_timer,
                self.enemy_mgr.avg_enemy_vel == old(self).enemy_mgr.avg_enemy_vel,
                self.enemy_mgr.projectile_mgr == old(self).enemy_mgr.projectile_mgr,
                forall|j: int|
                    0 <= j < p0.len() ==> (#[trigger] self.power_up_mgr.powerups@[j]).kind
                        == p0[j].kind && self.power_up_mgr.powerups@[j].position == p0[j].position
                        && self.power_up_mgr.powerups@[j].expiration_timer
                        == p0[j].expiration_timer && self.power_up_mgr.powerups@[j].flickering
                        == p0[j].flickering,
                forall|j: int|
                    0 <= j < p0.len() ==> (#[trigger] self.power_up_mgr.powerups@[j]).was_consumed
                        == (p0[j].was_consumed || exists|e: int|
                        0 <= e < i && powerup_hits_spec(p0[j], (#[trigger] enemies0[e]).position)),
                forall|e: int| i <= e < enemies0.len() ==> self.enemy_mgr.enemies@[e] == enemies0[e],
                forall|e: int|
                    0 <= e < i ==> self.enemy_mgr.enemies@[e] == picked_up_spec(
                        #[trigger] enemies0[e],
                        p0,
                        now_ms as int,
                    ),
            decreases enemies0.len() - i,
        {
            proof {
                assert(self.enemy_mgr.enemies@[i as int] == enemies0[i as int]);
                assert(enemies0[i as int].wf());
            }
            let ghost cur_ps = self.power_up_mgr.powerups@;
            self.power_up_mgr.check_for_collision(&mut self.enemy_mgr.enemies[i], now_ms);
            proof {
                lemma_picked_up_pointwise(enemies0[i as int], cur_ps, p0, now_ms as int);
                assert forall|j: int|
                    0 <= j < p0.len() implies (#[trigger] self.power_up_mgr.powerups@[j]).kind
                    == p0[j].kind && self.power_up_mgr.powerups@[j].position == p0[j].position
                    && self.power_up_mgr.powerups@[j].expiration_timer == p0[j].expiration_timer
                    && self.power_up_mgr.powerups@[j].flickering == p0[j].flickering by {
                    assert(self.power_up_mgr.powerups@[j] == consumed_marked_spec(
                        cur_ps[j],
                        enemies0[i as int].position,
                    ));
                }
                assert forall|j: int|
                    0 <= j < p0.len() implies (#[trigger] self.power_up_mgr.powerups@[j]).was_consumed
                    == (p0[j].was_consumed || exists|e: int|
                    0 <= e < i + 1 && powerup_hits_spec(
                        p0[j],
                        (#[trigger] enemies0[e]).position,
                    )) by {
                    assert(self.power_up_mgr.powerups@[j] == consumed_marked_spec(
                        cur_ps[j],
                        enemies0[i as int].position,
                    ));
                    assert(powerup_hits_spec(cur_ps[j], enemies0[i as int].position)
                        == powerup_hits_spec(p0[j], enemies0[i as int].position));
                }
                assert forall|k: int|
                    0 <= k < self.enemy_mgr.enemies@.len() implies (#[trigger] self.enemy_mgr.enemies@[k]).wf()
                    && self.enemy_mgr.enemies@[k].kind != HumanoidType::Player by {
                    assert(enemies0[k].wf() && enemies0[k].kind != HumanoidType::Player);
                    if k < i + 1 {
                        assert(self.enemy_mgr.enemies@[k] == picked_up_spec(
                            enemies0[k],
                            p0,
                            now_ms as int,
                        ));
                    } else {
                        assert(self.enemy_mgr.enemies@[k] == enemies0[k]);
                    }
                }
            }
            i = i + 1;
        }
        proof {
            assert forall|k: int|
                0 <= k < self.enemy_mgr.enemies@.len() implies (#[trigger] self.enemy_mgr.enemies@[k]).wf()
                && self.enemy_mgr.enemies@[k].kind != HumanoidType::Player by {
                assert(enemies0[k].wf() && enemies0[k].kind != HumanoidType::Player);
                assert(self.enemy_mgr.enemies@[k] == picked_up_spec(
                    enemies0[k],
                    p0,
                    now_ms as int,
                ));
            }
        }
    }

    /// Resolve the tick's contacts: player-enemy body contact, player
    /// projectiles against enemies, enemy projectiles against the
    /// player, and power-up pickups by enemies, in that order.
    fn resolve_contacts(&mut self, now_ms: u64)
        requires
            old(self).wf(),
        ensures
            final(self).wf(),
            contacts_rel(*old(self), *final(self), now_ms as int),
    {
        let ghost enemies0 = self.enemy_mgr.enemies@;
        let ghost a0 = self.one_off_anim_mgr;

        // Player-enemy body contact; the body boxes are reused for
        // the projectile pass below.
        let (collided_with_an_enemy, enemy_rects) = self.player_manager.player.collided_with_bodies(
            &self.enemy_mgr.enemies,
        );
        if collided_with_an_enemy {
            self.player_manager.register_hit();
        }

        // Player projectiles against enemies.
        self.enemy_mgr.check_for_fireball_collisions(
            &enemy_rects,
            self.player_manager.fireballs(),
            &mut self.one_off_anim_mgr,
            now_ms,
        );
        let ghost anim_mid = self.one_off_anim_mgr;
        let ghost enemies_dmg = self.enemy_mgr.enemies@;

        // Enemy projectiles against the player.
        self.enemy_mgr.check_for_cannonball_collisions(
            &mut self.player_manager.player,
            &mut self.one_off_anim_mgr,
            now_ms,
        );

        // Power-ups are pickable by any humanoid: the enemies' turn.
        let ghost p0 = self.power_up_mgr.powerups@;
        self.enemy_pickups(now_ms);
        proof {
            assert(explosion_sink_rel(
                a0,
                anim_mid,
                old(self).player_manager.fireball_mgr.projectiles@,
                enemies0,
                now_ms as int,
            ));
            assert forall|i: int|
                0 <= i < enemies0.len() implies self.enemy_mgr.enemies@[i] == picked_up_spec(
                damaged_spec(
                    #[trigger] enemies0[i],
                    fireball_hits_count_spec(
                        old(self).player_manager.fireball_mgr.projectiles@,
                        enemies0[i].position,
                    ),
                ),
                p0,
                now_ms as int,
            ) by {
                assert(enemies_dmg[i] == damaged_spec(
                    enemies0[i],
                    fireball_hits_count_spec(
                        old(self).player_manager.fireball_mgr.projectiles@,
                        enemies0[i].position,
                    ),
                ));
            }
            assert forall|j: int|
                0 <= j < p0.len() implies self.power_up_mgr.powerups@[j] == (
            if picked_by_any_spec(#[trigger] p0[j], enemies0) {
                PowerUp { was_consumed: true, ..p0[j] }
            } else {
                p0[j]
            }) by {
                assert(forall|e: int|
                    0 <= e < enemies_dmg.len() ==> (#[trigger] enemies_dmg[e]).position
                        == enemies0[e].position);
                lemma_picked_by_any_pointwise(p0[j], enemies_dmg, enemies0);
            }
        }
    }

    /// Advance the world: the player's pickups and a possible power-up
    /// spawn, the player's movement and firing, and a wave-weighted
    /// enemy spawn if the spawn timer allows it.
    fn advance_world(&mut self, left: bool, right: bool, up: bool, down: bool, now_ms: u64)
        requires
            old(self).wf(),
        ensures
            final(self).wf(),
            world_rel(*old(self), *final(self), left, right, up, down, now_ms as int),
    {
        // The player: a possible fresh power-up spawn plus pickups.
        self.power_up_mgr.advance(&mut self.rng, &mut self.player_manager.player, now_ms);
        let ghost player1 = self.player_manager.player;

        // Move and fire the player.
        self.player_manager.update(left, right, up, down, now_ms);

        // Spawn a wave-weighted enemy if the spawn timer allows it.
        if self.enemy_mgr.can_spawn(now_ms) && self.enemy_mgr.enemies.len() < ENEMY_CAP {
            let kind = choose_enemy_kind(&mut self.rng, self.current_wave);
            self.enemy_mgr.spawn_enemy(kind, &mut self.rng, now_ms);
        }
        proof {
            assert(player1 == picked_up_spec(
                old(self).player_manager.player,
                self.power_up_mgr.powerups@,
                now_ms as int,
            ));
        }
    }

    /// Advance markers, enemies and ground power-ups, and credit the
    /// score: the potential score before the dead are dropped minus
    /// the potential score after is exactly the value of the enemies
    /// killed this tick.
    fn settle_tick(&mut self, now_ms: u64)
        requires
            old(self).wf(),
        ensures
            final(self).wf(),
            final(self).game_score >= old(self).game_score,
            settle_rel(*old(self), *final(self), now_ms as int),
    {
        let enemy_score = self.enemy_mgr.calc_score();
        let ghost before_enemies = self.enemy_mgr.enemies@;

        self.one_off_anim_mgr.update(now_ms);
        self.enemy_mgr.update(self.player_manager.player_position(), now_ms);
        self.power_up_mgr.update(now_ms);

        let after_score = self.enemy_mgr.calc_score();
        proof {
            let alive = before_enemies.filter(|h: crate::humanoid::Humanoid| alive_spec(h));
            assert(forall|k: int|
                0 <= k < alive.len() ==> (#[trigger] self.enemy_mgr.enemies@[k]).kind
                    == alive[k].kind);
            lemma_score_same_kinds(self.enemy_mgr.enemies@, alive);
            lemma_score_splits_at_death(before_enemies);
            lemma_score_nonneg(before_enemies.filter(|h: crate::humanoid::Humanoid| !alive_spec(h)));
        }
        let gained = enemy_score - after_score;
        self.game_score = if self.game_score <= u64::MAX - gained {
            self.game_score + gained
        } else {
            u64::MAX
        };
    }

    /// One simulation tick, in the fixed per-tick order: freeze if the
    /// game is over; advance the wave; resolve player-enemy contact,
    /// then projectile hits both ways; apply pickups for enemies and
    /// the player; move and fire the player; spawn a wave-weighted
    /// enemy if the spawn timer allows it; advance markers, enemies and ground
    /// power-ups; and credit the score for the enemies that died.
    /// The whole tick is pinned by `tick_rel`, the composition of the
    /// four exact phase relations.
    pub fn update(&mut self, left: bool, right: bool, up: bool, down: bool, now_ms: u64)
        requires
            old(self).wf(),
        ensures
            final(self).wf(),
            old(self).player_manager.player.hearts == 0 ==> *final(self) == *old(self),
            old(self).player_manager.player.hearts > 0 ==> tick_rel(
                *old(self),
                *final(self),
                left,
                right,
                up,
                down,
                now_ms as int,
            ),
            final(self).game_score >= old(self).game_score,
            old(self).player_manager.player.hearts > 0 ==> final(self).current_wave == (if old(self).wave_timer.is_ready_spec(now_ms as int) && old(self).current_wave < WAVE_TABLE_LEN
                - 1 {
                old(self).current_wave + 1
            } else {
                old(self).current_wave as int
            }),
            old(self).current_wave <= final(self).current_wave <= old(self).current_wave + 1,
            final(self).current_wave < WAVE_TABLE_LEN,
    {
        if self.is_game_over() {
            return ;
        }
        self.check_for_wave_change(now_ms);
        let ghost s1 = *self;
        self.resolve_contacts(now_ms);
        let ghost s2 = *self;
        self.advance_world(left, right, up, down, now_ms);
        let ghost s3 = *self;
        self.settle_tick(now_ms);
        proof {
            assert(wave_step_rel(*old(self), s1, now_ms as int));
            assert(contacts_rel(s1, s2, now_ms as int));
            assert(world_rel(s2, s3, left, right, up, down, now_ms as int));
            assert(settle_rel(s3, *self, now_ms as int));
        }
    }
}

} // verus!
