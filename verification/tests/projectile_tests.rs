use endless_trial::geom::Vec2i;
use endless_trial::projectile::ProjectileManager;

#[test]
fn triple_shot_enqueues_three_fanned_projectiles() {
    let mut mgr = ProjectileManager::new();
    mgr.shoot(true, 90, Vec2i::new(100_000, 100_000), Vec2i::new(5500, 5500));
    assert_eq!(mgr.projectiles().len(), 3);
    assert_eq!(mgr.projectiles()[0].angle_deg, 45);
    assert_eq!(mgr.projectiles()[1].angle_deg, 90);
    assert_eq!(mgr.projectiles()[2].angle_deg, 135);
}

#[test]
fn single_shot_enqueues_one_projectile() {
    let mut mgr = ProjectileManager::new();
    mgr.shoot(false, 180, Vec2i::new(100_000, 100_000), Vec2i::new(5500, 5500));
    assert_eq!(mgr.projectiles().len(), 1);
    assert_eq!(mgr.projectiles()[0].angle_deg, 180);
}

#[test]
fn velocity_is_derived_once_from_the_heading() {
    let mut mgr = ProjectileManager::new();
    mgr.shoot(false, 0, Vec2i::new(100_000, 100_000), Vec2i::new(5500, 5500));
    let p = mgr.projectiles()[0];
    assert_eq!(p.velocity.x, 5500);
    assert_eq!(p.velocity.y, 0);

    mgr.shoot(false, 90, Vec2i::new(100_000, 100_000), Vec2i::new(5500, 5500));
    let q = mgr.projectiles()[1];
    assert_eq!(q.velocity.x, 0);
    assert_eq!(q.velocity.y, -5500);
}

#[test]
fn projectiles_move_by_their_velocity_each_tick() {
    let mut mgr = ProjectileManager::new();
    mgr.shoot(false, 0, Vec2i::new(100_000, 200_000), Vec2i::new(5500, 5500));
    mgr.advance_animation();
    assert_eq!(mgr.projectiles()[0].position.x, 105_500);
    assert_eq!(mgr.projectiles()[0].position.y, 200_000);
}

#[test]
fn projectile_leaving_the_arena_is_pruned_next_tick() {
    let mut mgr = ProjectileManager::new();
    mgr.shoot(false, 0, Vec2i::new(799_000, 400_000), Vec2i::new(5500, 5500));
    assert_eq!(mgr.projectiles().len(), 1);
    mgr.advance_animation();
    assert!(mgr.projectiles().is_empty());
}

#[test]
fn in_flight_projectiles_always_sit_inside_the_arena_after_a_tick() {
    let mut mgr = ProjectileManager::new();
    mgr.shoot(true, 225, Vec2i::new(4_000, 4_000), Vec2i::new(5500, 5500));
    mgr.shoot(false, 0, Vec2i::new(400_000, 400_000), Vec2i::new(5500, 5500));
    for _ in 0..10 {
        mgr.advance_animation();
        for p in mgr.projectiles() {
            assert!(0 <= p.position.x && p.position.x <= 800_000);
            assert!(0 <= p.position.y && p.position.y <= 800_000);
        }
    }
}
