use endless_trial::collisionck::enemy_rects;
use endless_trial::enemy::EnemyManager;
use endless_trial::geom::Vec2i;
use endless_trial::humanoid::{Humanoid, HumanoidType};
use endless_trial::oneoffanim::OneOffAnimationManager;
use endless_trial::projectile::Projectile;
use rand::rngs::SmallRng;
use rand::SeedableRng;

fn enemy_at(kind: HumanoidType, hearts: u32, x: i64, y: i64) -> Humanoid {
    Humanoid::new(hearts, Vec2i::new(x, y), Vec2i::new(500, 500), false, 0, kind, 0)
}

#[test]
fn spawned_enemies_carry_their_kind_baseline_stats() {
    let mut rng = SmallRng::seed_from_u64(7);
    let mut mgr = EnemyManager::new(0);
    mgr.spawn_enemy(HumanoidType::BasicEnemy, &mut rng, 10);
    mgr.spawn_enemy(HumanoidType::StrongerEnemy, &mut rng, 20);
    mgr.spawn_enemy(HumanoidType::BadassEnemy, &mut rng, 30);
    mgr.spawn_enemy(HumanoidType::Boss, &mut rng, 40);

    let basic = &mgr.enemies[0];
    assert_eq!(basic.hearts, 1);
    assert!(!basic.allowed_to_shoot);

    let stronger = &mgr.enemies[1];
    assert_eq!(stronger.hearts, 2);
    assert!(stronger.allowed_to_shoot);
    assert_eq!(stronger.shooting.wait_interval_ms, 1000);

    let badass = &mgr.enemies[2];
    assert_eq!(badass.hearts, 3);
    assert_eq!(badass.shooting.wait_interval_ms, 250);

    let boss = &mgr.enemies[3];
    assert_eq!(boss.hearts, 10);
    assert_eq!(boss.shooting.wait_interval_ms, 100);
}

#[test]
fn spawned_enemies_sit_on_the_arena_perimeter() {
    let mut rng = SmallRng::seed_from_u64(12345);
    let mut mgr = EnemyManager::new(0);
    for round in 0..60u64 {
        mgr.spawn_enemy(HumanoidType::BasicEnemy, &mut rng, round * 1500);
        let e = mgr.enemies.last().unwrap();
        let x = e.position.x;
        let y = e.position.y;
        assert!(0 <= x && x <= 800_000);
        assert!(0 <= y && y <= 800_000);
        assert!(
            x == 0 || x == 800_000 || y == 0 || y == 800_000,
            "spawn not pinned to an edge: ({x}, {y})"
        );
    }
}

#[test]
fn difficulty_drift_raises_later_spawn_velocities() {
    let mut rng = SmallRng::seed_from_u64(99);
    let mut mgr = EnemyManager::new(0);
    let start_avg = mgr.avg_enemy_vel;
    mgr.spawn_enemy(HumanoidType::BasicEnemy, &mut rng, 0);
    assert!(mgr.avg_enemy_vel > start_avg);
    let first_vel = mgr.enemies[0].velocity.x;
    assert!((300 + start_avg..700 + start_avg).contains(&first_vel));
}

#[test]
fn score_sums_the_per_kind_point_values() {
    let mut mgr = EnemyManager::new(0);
    assert_eq!(mgr.calc_score(), 0);
    mgr.enemies.push(enemy_at(HumanoidType::BasicEnemy, 1, 0, 0));
    mgr.enemies.push(enemy_at(HumanoidType::StrongerEnemy, 2, 0, 100_000));
    mgr.enemies.push(enemy_at(HumanoidType::BadassEnemy, 3, 0, 200_000));
    mgr.enemies.push(enemy_at(HumanoidType::Boss, 10, 0, 300_000));
    assert_eq!(mgr.calc_score(), 100 + 250 + 500 + 1250);
}

#[test]
fn two_overlapping_fireballs_deal_two_separate_hits() {
    let mut mgr = EnemyManager::new(0);
    mgr.enemies.push(enemy_at(HumanoidType::StrongerEnemy, 2, 100_000, 100_000));
    let rects = enemy_rects(&mgr.enemies);
    let fireballs = vec![
        Projectile {
            position: Vec2i::new(100_000, 100_000),
            velocity: Vec2i::new(0, 0),
            angle_deg: 0,
        },
        Projectile {
            position: Vec2i::new(101_000, 101_000),
            velocity: Vec2i::new(0, 0),
            angle_deg: 0,
        },
    ];
    let mut anim = OneOffAnimationManager::new(0);
    mgr.check_for_fireball_collisions(&rects, &fireballs, &mut anim, 1000);
    assert_eq!(mgr.enemies[0].hearts, 0);
    // Both hits land in the same instant, so the rate limit admits
    // exactly one explosion marker: for the first hitting projectile,
    // at the contact point (its position plus the 10 px offset).
    assert_eq!(anim.explosions.len(), 1);
    assert_eq!(anim.explosions[0].position.x, 110_000);
    assert_eq!(anim.explosions[0].position.y, 110_000);
    assert_eq!(anim.last_explosion_added_ms, 1000);
}

#[test]
fn no_marker_is_added_while_the_rate_window_is_shut() {
    let mut mgr = EnemyManager::new(0);
    mgr.enemies.push(enemy_at(HumanoidType::StrongerEnemy, 2, 100_000, 100_000));
    let rects = enemy_rects(&mgr.enemies);
    let fireballs = vec![
        Projectile {
            position: Vec2i::new(100_000, 100_000),
            velocity: Vec2i::new(0, 0),
            angle_deg: 0,
        },
    ];
    let mut anim = OneOffAnimationManager::new(900);
    // 1000 is within 200 ms of the clock at 900: the window is shut,
    // so the hit damages but spawns no marker.
    mgr.check_for_fireball_collisions(&rects, &fireballs, &mut anim, 1000);
    assert_eq!(mgr.enemies[0].hearts, 1);
    assert!(anim.explosions.is_empty());
    assert_eq!(anim.last_explosion_added_ms, 900);
}

#[test]
fn fireball_hit_floors_hearts_at_zero() {
    let mut mgr = EnemyManager::new(0);
    mgr.enemies.push(enemy_at(HumanoidType::BasicEnemy, 1, 100_000, 100_000));
    let rects = enemy_rects(&mgr.enemies);
    let fireballs = vec![
        Projectile {
            position: Vec2i::new(100_000, 100_000),
            velocity: Vec2i::new(0, 0),
            angle_deg: 0,
        },
        Projectile {
            position: Vec2i::new(100_500, 100_500),
            velocity: Vec2i::new(0, 0),
            angle_deg: 0,
        },
        Projectile {
            position: Vec2i::new(101_000, 101_000),
            velocity: Vec2i::new(0, 0),
            angle_deg: 0,
        },
    ];
    let mut anim = OneOffAnimationManager::new(0);
    mgr.check_for_fireball_collisions(&rects, &fireballs, &mut anim, 1000);
    assert_eq!(mgr.enemies[0].hearts, 0);
}

#[test]
fn cannonball_hit_damages_the_player() {
    let mut mgr = EnemyManager::new(0);
    mgr.projectile_mgr.shoot(false, 0, Vec2i::new(100_000, 100_000), Vec2i::new(0, 0));
    let mut player = enemy_at(HumanoidType::Player, 2, 100_000, 100_000);
    let mut anim = OneOffAnimationManager::new(0);
    mgr.check_for_cannonball_collisions(&mut player, &mut anim, 1000);
    assert_eq!(player.hearts, 1);
    // The hit also spawns one smoke marker at the projectile's
    // position.
    assert_eq!(anim.smokes.len(), 1);
    assert_eq!(anim.smokes[0].position.x, 100_000);
    assert_eq!(anim.smokes[0].position.y, 100_000);
    assert_eq!(anim.last_smoke_added_ms, 1000);
}

#[test]
fn two_cannonball_hits_in_one_tick_spawn_one_smoke_marker() {
    let mut mgr = EnemyManager::new(0);
    mgr.projectile_mgr.shoot(false, 0, Vec2i::new(100_000, 100_000), Vec2i::new(0, 0));
    mgr.projectile_mgr.shoot(false, 0, Vec2i::new(101_000, 101_000), Vec2i::new(0, 0));
    let mut player = enemy_at(HumanoidType::Player, 3, 100_000, 100_000);
    let mut anim = OneOffAnimationManager::new(0);
    mgr.check_for_cannonball_collisions(&mut player, &mut anim, 1000);
    assert_eq!(player.hearts, 1);
    assert_eq!(anim.smokes.len(), 1);
    assert_eq!(anim.smokes[0].position.x, 100_000);
}

#[test]
fn dead_enemies_are_dropped_by_the_enemy_tick() {
    let mut mgr = EnemyManager::new(0);
    mgr.enemies.push(enemy_at(HumanoidType::BasicEnemy, 0, 0, 0));
    mgr.enemies.push(enemy_at(HumanoidType::StrongerEnemy, 2, 400_000, 0));
    mgr.update(Vec2i::new(400_000, 400_000), 10);
    assert_eq!(mgr.enemies.len(), 1);
    assert_eq!(mgr.enemies[0].kind, HumanoidType::StrongerEnemy);
}

#[test]
fn enemies_seek_toward_the_player() {
    let mut mgr = EnemyManager::new(0);
    mgr.enemies.push(enemy_at(HumanoidType::BasicEnemy, 1, 0, 400_000));
    mgr.update(Vec2i::new(400_000, 400_000), 10);
    assert!(mgr.enemies[0].position.x > 0);
    assert_eq!(mgr.enemies[0].position.y, 400_000);
}

#[test]
fn shooting_enemy_fires_toward_the_player_when_ready() {
    let mut rng = SmallRng::seed_from_u64(5);
    let mut mgr = EnemyManager::new(0);
    mgr.spawn_enemy(HumanoidType::StrongerEnemy, &mut rng, 0);
    assert!(mgr.projectile_mgr.projectiles().is_empty());
    // The fire window (one second) is still shut shortly after spawn.
    mgr.update(Vec2i::new(400_000, 400_000), 500);
    assert!(mgr.projectile_mgr.projectiles().is_empty());
    // Once it elapses the enemy fires exactly one cannonball.
    mgr.update(Vec2i::new(400_000, 400_000), 1500);
    assert_eq!(mgr.projectile_mgr.projectiles().len(), 1);
}
