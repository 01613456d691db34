use endless_trial::geom::Vec2i;
use endless_trial::humanoid::{Direction, Humanoid, HumanoidType};
use endless_trial::player::PlayerManager;

#[test]
fn fire_direction_lookup_covers_all_eight_compass_headings() {
    // (left, right, up, down) -> heading
    assert_eq!(PlayerManager::check_for_fire(false, true, false, false), Some(0));
    assert_eq!(PlayerManager::check_for_fire(false, true, true, false), Some(45));
    assert_eq!(PlayerManager::check_for_fire(false, false, true, false), Some(90));
    assert_eq!(PlayerManager::check_for_fire(true, false, true, false), Some(135));
    assert_eq!(PlayerManager::check_for_fire(true, false, false, false), Some(180));
    assert_eq!(PlayerManager::check_for_fire(true, false, false, true), Some(225));
    assert_eq!(PlayerManager::check_for_fire(false, false, false, true), Some(270));
    assert_eq!(PlayerManager::check_for_fire(false, true, false, true), Some(315));
}

#[test]
fn opposing_or_absent_signals_fire_nothing() {
    assert_eq!(PlayerManager::check_for_fire(false, false, false, false), None);
    assert_eq!(PlayerManager::check_for_fire(true, true, false, false), None);
    assert_eq!(PlayerManager::check_for_fire(false, false, true, true), None);
    assert_eq!(PlayerManager::check_for_fire(true, true, true, true), None);
}

#[test]
fn player_starts_with_two_hearts_at_the_start_position() {
    let mgr = PlayerManager::new(0);
    assert_eq!(mgr.hearts(), 2);
    assert!(!mgr.is_player_dead());
    assert_eq!(mgr.player_position().x, 240_000);
    assert_eq!(mgr.player_position().y, 160_000);
}

#[test]
fn hits_floor_hearts_at_zero_and_never_go_negative() {
    let mut mgr = PlayerManager::new(0);
    mgr.register_hit();
    assert_eq!(mgr.hearts(), 1);
    mgr.register_hit();
    assert_eq!(mgr.hearts(), 0);
    assert!(mgr.is_player_dead());
    mgr.register_hit();
    assert_eq!(mgr.hearts(), 0);
}

#[test]
fn walking_right_from_rest_moves_one_input_unit() {
    let mut h = Humanoid::new(
        2,
        Vec2i::new(100_000, 100_000),
        Vec2i::new(0, 0),
        true,
        250,
        HumanoidType::Player,
        0,
    );
    h.update_from_key_press(false, true, false, false, 2100);
    assert_eq!(h.position.x, 101_000);
    assert_eq!(h.position.y, 100_000);
    assert_eq!(h.velocity.x, 1000);
    assert_eq!(h.direction, Direction::East);
}

#[test]
fn diagonal_input_is_normalized_to_unit_length() {
    let mut h = Humanoid::new(
        2,
        Vec2i::new(100_000, 100_000),
        Vec2i::new(0, 0),
        true,
        250,
        HumanoidType::Player,
        0,
    );
    h.update_from_key_press(false, true, false, true, 2100);
    assert_eq!(h.position.x, 100_707);
    assert_eq!(h.position.y, 100_707);
}

#[test]
fn a_step_out_of_bounds_is_rejected_whole() {
    let mut h = Humanoid::new(
        2,
        Vec2i::new(0, 0),
        Vec2i::new(0, 0),
        true,
        250,
        HumanoidType::Player,
        0,
    );
    h.update_from_key_press(true, false, false, false, 2100);
    assert_eq!(h.position.x, 0);
    assert_eq!(h.position.y, 0);
    assert_eq!(h.velocity.x, 0);
}

#[test]
fn a_step_onto_the_arena_edge_is_accepted() {
    let mut h = Humanoid::new(
        2,
        Vec2i::new(799_000, 400_000),
        Vec2i::new(0, 0),
        true,
        250,
        HumanoidType::Player,
        0,
    );
    h.update_from_key_press(false, true, false, false, 2100);
    assert_eq!(h.position.x, 800_000);
}

#[test]
fn drag_slows_the_player_without_input() {
    let mut h = Humanoid::new(
        2,
        Vec2i::new(400_000, 400_000),
        Vec2i::new(1900, 0),
        true,
        250,
        HumanoidType::Player,
        0,
    );
    h.update_from_key_press(false, false, false, false, 2100);
    // 1900 / 1.9 = 1000, then scaled by 2.1 into the position.
    assert_eq!(h.velocity.x, 1000);
    assert_eq!(h.position.x, 400_000 + 2100);
}

#[test]
fn ready_player_fires_one_projectile_along_the_signal() {
    let mut mgr = PlayerManager::new(0);
    mgr.update(false, true, false, false, 1000);
    assert_eq!(mgr.fireballs().len(), 1);
    assert_eq!(mgr.fireballs()[0].angle_deg, 0);
    assert_eq!(mgr.fireballs()[0].velocity.x, 5500);
}

#[test]
fn fire_window_blocks_a_second_shot_inside_the_interval() {
    let mut mgr = PlayerManager::new(0);
    mgr.update(false, true, false, false, 1000);
    mgr.update(false, true, false, false, 1100);
    assert_eq!(mgr.fireballs().len(), 1);
    mgr.update(false, true, false, false, 1250);
    assert_eq!(mgr.fireballs().len(), 2);
}

#[test]
fn hit_flicker_runs_down_from_a_hit() {
    let mut h = Humanoid::new(
        2,
        Vec2i::new(100_000, 100_000),
        Vec2i::new(0, 0),
        true,
        250,
        HumanoidType::Player,
        0,
    );
    assert!(h.flicker_step());
    assert_eq!(h.flickering, 0);
    h.take_hit();
    assert_eq!(h.flickering, 60);
    assert!(h.flicker_step()); // 60 -> 59, odd: visible
    assert_eq!(h.flickering, 59);
    assert!(!h.flicker_step()); // 59 -> 58, even: hidden
    assert_eq!(h.flickering, 58);
}

#[test]
fn player_fireballs_fly_and_are_pruned_at_the_edge() {
    let mut mgr = PlayerManager::new(0);
    mgr.update(false, true, false, false, 1000);
    let before = mgr.fireballs()[0].position.x;
    mgr.advance_animation();
    assert_eq!(mgr.fireballs()[0].position.x, before + 5500);
    // Far enough ticks carry it past the right edge and out.
    for _ in 0..200 {
        mgr.advance_animation();
    }
    assert!(mgr.fireballs().is_empty());
}

#[test]
fn triple_shot_buff_fans_the_player_shot() {
    let mut mgr = PlayerManager::new(0);
    mgr.player.power_ups.activate_power_up(
        endless_trial::powerup::PowerUpKind::TripleShooting,
        900,
    );
    mgr.update(false, false, true, false, 1000);
    assert_eq!(mgr.fireballs().len(), 3);
    assert_eq!(mgr.fireballs()[0].angle_deg, 45);
    assert_eq!(mgr.fireballs()[1].angle_deg, 90);
    assert_eq!(mgr.fireballs()[2].angle_deg, 135);
}
