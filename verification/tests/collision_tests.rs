use endless_trial::collisionck::{enemy_rects, player_collided_with_enemy};
use endless_trial::geom::Vec2i;
use endless_trial::humanoid::{Humanoid, HumanoidType};
use endless_trial::oneoffanim::OneOffAnimationManager;

fn body(kind: HumanoidType, x: i64, y: i64) -> Humanoid {
    Humanoid::new(1, Vec2i::new(x, y), Vec2i::new(0, 0), false, 0, kind, 0)
}

#[test]
fn player_touching_an_enemy_body_registers_contact() {
    let enemies = vec![
        body(HumanoidType::BasicEnemy, 500_000, 500_000),
        body(HumanoidType::BasicEnemy, 110_000, 110_000),
    ];
    assert!(player_collided_with_enemy(Vec2i::new(100_000, 100_000), &enemies));
    assert!(!player_collided_with_enemy(Vec2i::new(300_000, 300_000), &enemies));
}

#[test]
fn body_boxes_are_sixteen_pixels_square() {
    let enemies = vec![body(HumanoidType::BasicEnemy, 250_000, 350_000)];
    let rects = enemy_rects(&enemies);
    assert_eq!(rects.len(), 1);
    assert_eq!(rects[0].x, 250_000);
    assert_eq!(rects[0].y, 350_000);
    assert_eq!(rects[0].width, 16_000);
    assert_eq!(rects[0].height, 16_000);
}

#[test]
fn collision_query_returns_the_rects_for_reuse() {
    let enemies = vec![
        body(HumanoidType::BasicEnemy, 0, 0),
        body(HumanoidType::Boss, 700_000, 0),
    ];
    let player = body(HumanoidType::Player, 350_000, 350_000);
    let (hit, rects) = player.collided_with_bodies(&enemies);
    assert!(!hit);
    assert_eq!(rects.len(), 2);
    assert_eq!(rects[1].x, 700_000);
}

#[test]
fn markers_are_rate_limited_within_a_burst() {
    let mut anim = OneOffAnimationManager::new(0);
    anim.add_explosion(Vec2i::new(1000, 1000), 500);
    anim.add_explosion(Vec2i::new(2000, 2000), 500);
    assert_eq!(anim.explosions.len(), 1);
    anim.add_explosion(Vec2i::new(3000, 3000), 800);
    assert_eq!(anim.explosions.len(), 2);
}

#[test]
fn finished_markers_are_dropped_by_the_marker_tick() {
    let mut anim = OneOffAnimationManager::new(0);
    anim.add_smoke(Vec2i::new(1000, 1000), 500);
    assert_eq!(anim.smokes.len(), 1);
    // Six frames of life, advanced at most every 100 ms.
    let mut now = 500;
    for _ in 0..5 {
        now += 200;
        anim.update(now);
    }
    assert_eq!(anim.smokes.len(), 1);
    assert_eq!(anim.smokes[0].current_frame, 5);
    anim.update(now + 200);
    assert!(anim.smokes.is_empty());
}
