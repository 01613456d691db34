use endless_trial::geom::Vec2i;
use endless_trial::humanoid::{Humanoid, HumanoidType};
use endless_trial::powerup::{
    run_speed_mil, shooting_interval_ms, ActivePowerUps, PowerUp, PowerUpKind, PowerUpManager,
};
use endless_trial::timer::Timer;
use rand::rngs::SmallRng;
use rand::SeedableRng;

fn standing_humanoid(hearts: u32, x: i64, y: i64) -> Humanoid {
    Humanoid::new(
        hearts,
        Vec2i::new(x, y),
        Vec2i::new(0, 0),
        true,
        250,
        HumanoidType::Player,
        0,
    )
}

fn ground_power_up(kind: PowerUpKind, x: i64, y: i64, now: u64) -> PowerUp {
    PowerUp {
        kind,
        expiration_timer: Timer::start_now_with_interval(10_000, now),
        position: Vec2i::new(x, y),
        was_consumed: false,
        flickering: 0,
    }
}

#[test]
fn fresh_table_has_nothing_active() {
    let a = ActivePowerUps::new();
    assert_eq!(a.currently_active(0), (false, false, false));
    assert_eq!(a.len(0), 0);
    assert!(a.iter(0).is_empty());
}

#[test]
fn activation_fills_exactly_one_slot() {
    let mut a = ActivePowerUps::new();
    a.activate_power_up(PowerUpKind::TripleShooting, 100);
    assert_eq!(a.currently_active(100), (false, false, true));
    assert_eq!(a.len(100), 1);
    assert_eq!(a.iter(100), vec![PowerUpKind::TripleShooting]);
}

#[test]
fn buff_reads_active_until_its_duration_elapses() {
    let mut a = ActivePowerUps::new();
    a.activate_power_up(PowerUpKind::FasterShooting, 1000);
    assert!(a.currently_active(1000).0);
    assert!(a.currently_active(5999).0);
    assert!(!a.currently_active(6000).0);
    assert!(!a.currently_active(9000).0);
}

#[test]
fn shooting_interval_reduces_while_buff_active_and_reverts() {
    let mut a = ActivePowerUps::new();
    a.activate_power_up(PowerUpKind::FasterShooting, 1000);
    assert_eq!(shooting_interval_ms(a.currently_active(3000).0), 80);
    assert_eq!(shooting_interval_ms(a.currently_active(6000).0), 250);
}

#[test]
fn run_speed_doubles_up_while_buff_active() {
    assert_eq!(run_speed_mil(false), 2100);
    assert_eq!(run_speed_mil(true), 4500);
}

#[test]
fn reactivation_refreshes_instead_of_stacking() {
    let mut a = ActivePowerUps::new();
    a.activate_power_up(PowerUpKind::FasterRunning, 0);
    a.activate_power_up(PowerUpKind::FasterRunning, 4000);
    assert!(a.currently_active(8999).1);
    assert!(!a.currently_active(9000).1);
}

#[test]
fn iter_orders_running_shooting_triple() {
    let mut a = ActivePowerUps::new();
    a.activate_power_up(PowerUpKind::FasterShooting, 0);
    a.activate_power_up(PowerUpKind::FasterRunning, 0);
    a.activate_power_up(PowerUpKind::TripleShooting, 0);
    assert_eq!(
        a.iter(0),
        vec![
            PowerUpKind::FasterRunning,
            PowerUpKind::FasterShooting,
            PowerUpKind::TripleShooting,
        ]
    );
    assert_eq!(a.len(0), 3);
}

#[test]
fn additional_heart_adds_one_heart_and_touches_no_slot() {
    let mut mgr = PowerUpManager::new(0);
    mgr.powerups.push(ground_power_up(PowerUpKind::AdditionalHeart, 100_000, 100_000, 0));
    let mut h = standing_humanoid(2, 100_000, 100_000);
    mgr.check_for_collision(&mut h, 50);
    assert_eq!(h.hearts, 3);
    assert_eq!(h.power_ups.currently_active(50), (false, false, false));
    assert!(mgr.powerups[0].was_consumed);
}

#[test]
fn timed_pickup_records_its_activation_instant() {
    let mut mgr = PowerUpManager::new(0);
    mgr.powerups.push(ground_power_up(PowerUpKind::TripleShooting, 200_000, 200_000, 0));
    let mut h = standing_humanoid(2, 200_000, 200_000);
    mgr.check_for_collision(&mut h, 70);
    assert_eq!(h.hearts, 2);
    assert!(h.power_ups.currently_active(70).2);
    assert!(!h.power_ups.currently_active(70 + 5000).2);
}

#[test]
fn distant_power_up_is_not_picked_up() {
    let mut mgr = PowerUpManager::new(0);
    mgr.powerups.push(ground_power_up(PowerUpKind::AdditionalHeart, 700_000, 700_000, 0));
    let mut h = standing_humanoid(2, 100_000, 100_000);
    mgr.check_for_collision(&mut h, 50);
    assert_eq!(h.hearts, 2);
    assert!(!mgr.powerups[0].was_consumed);
}

#[test]
fn expired_and_consumed_power_ups_are_dropped() {
    let mut mgr = PowerUpManager::new(0);
    let mut consumed = ground_power_up(PowerUpKind::FasterRunning, 1000, 1000, 0);
    consumed.was_consumed = true;
    mgr.powerups.push(consumed);
    mgr.powerups.push(ground_power_up(PowerUpKind::FasterRunning, 2000, 2000, 0));
    mgr.powerups.push(ground_power_up(PowerUpKind::TripleShooting, 3000, 3000, 0));
    mgr.update(10_000);
    assert!(mgr.powerups.is_empty());
}

#[test]
fn surviving_power_up_flickers_close_to_expiry() {
    let mut mgr = PowerUpManager::new(0);
    mgr.powerups.push(ground_power_up(PowerUpKind::FasterShooting, 1000, 1000, 0));
    mgr.update(8500);
    assert_eq!(mgr.powerups.len(), 1);
    assert_eq!(mgr.powerups[0].flickering, 120);
}

#[test]
fn expiry_flicker_counts_down_and_blinks_every_other_frame() {
    let mut p = ground_power_up(PowerUpKind::FasterShooting, 0, 0, 0);
    p.flickering = 4;
    assert!(p.flicker_step()); // 4 -> 3, odd: visible
    assert!(!p.flicker_step()); // 3 -> 2, even: hidden
    assert!(p.flicker_step()); // 2 -> 1
    assert!(!p.flicker_step()); // 1 -> 0
    assert!(p.flicker_step()); // finished: always visible
    assert_eq!(p.flickering, 0);
}

#[test]
fn spawned_power_up_lands_inside_the_arena() {
    let mut rng = SmallRng::seed_from_u64(42);
    let mut mgr = PowerUpManager::new(0);
    for round in 0..40u64 {
        let now = round * 3000;
        mgr.spawn_power_up(&mut rng, now);
        let p = mgr.powerups.last().unwrap();
        assert!(0 <= p.position.x && p.position.x < 800_000);
        assert!(0 <= p.position.y && p.position.y < 800_000);
        assert!(!p.was_consumed);
    }
}
