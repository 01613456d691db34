use endless_trial::gamestate::{choose_enemy_kind, GameState};
use endless_trial::geom::Vec2i;
use endless_trial::humanoid::{Humanoid, HumanoidType};
use rand::rngs::SmallRng;
use rand::SeedableRng;

fn fresh_state(seed: u64, now: u64) -> GameState {
    GameState::new(SmallRng::seed_from_u64(seed), now)
}

fn idle_enemy(kind: HumanoidType, hearts: u32, x: i64, y: i64) -> Humanoid {
    Humanoid::new(hearts, Vec2i::new(x, y), Vec2i::new(0, 0), false, 0, kind, 0)
}

#[test]
fn new_game_starts_at_wave_zero_with_no_score() {
    let gs = fresh_state(1, 0);
    assert_eq!(gs.game_score, 0);
    assert_eq!(gs.current_wave, 0);
    assert!(!gs.is_game_over());
}

#[test]
fn wave_advances_when_its_timer_elapses() {
    let mut gs = fresh_state(1, 0);
    gs.check_for_wave_change(29_999);
    assert_eq!(gs.current_wave, 0);
    gs.check_for_wave_change(30_000);
    assert_eq!(gs.current_wave, 1);
}

#[test]
fn wave_index_holds_at_the_final_table_entry() {
    let mut gs = fresh_state(1, 0);
    gs.current_wave = 6;
    for round in 0..31u64 {
        gs.check_for_wave_change(10_000_000 + round * 30_000);
        assert_eq!(gs.current_wave, 6);
    }
}

#[test]
fn chosen_enemy_kind_is_never_the_player() {
    let mut rng = SmallRng::seed_from_u64(3);
    for wave in 0..7u8 {
        for _ in 0..50 {
            let kind = choose_enemy_kind(&mut rng, wave);
            assert_ne!(kind, HumanoidType::Player);
        }
    }
}

#[test]
fn first_wave_never_yields_a_boss() {
    let mut rng = SmallRng::seed_from_u64(4);
    for _ in 0..200 {
        let kind = choose_enemy_kind(&mut rng, 0);
        assert_ne!(kind, HumanoidType::Boss);
    }
}

#[test]
fn final_wave_never_yields_a_basic_enemy() {
    let mut rng = SmallRng::seed_from_u64(5);
    for _ in 0..200 {
        let kind = choose_enemy_kind(&mut rng, 6);
        assert_ne!(kind, HumanoidType::BasicEnemy);
    }
}

#[test]
fn killing_one_stronger_enemy_scores_exactly_250() {
    let mut gs = fresh_state(2, 0);
    // One already-dead StrongerEnemy and one live BasicEnemy, far
    // from the player; an otherwise idle tick right after start, so
    // no timed window opens and nothing else changes the score.
    gs.enemy_mgr.enemies.push(idle_enemy(HumanoidType::StrongerEnemy, 0, 700_000, 700_000));
    gs.enemy_mgr.enemies.push(idle_enemy(HumanoidType::BasicEnemy, 1, 600_000, 700_000));
    gs.update(false, false, false, false, 10);
    assert_eq!(gs.game_score, 250);
    assert_eq!(gs.enemy_mgr.enemies.len(), 1);
}

#[test]
fn an_idle_tick_with_nothing_dead_scores_nothing() {
    let mut gs = fresh_state(2, 0);
    gs.enemy_mgr.enemies.push(idle_enemy(HumanoidType::BasicEnemy, 1, 0, 0));
    gs.update(false, false, false, false, 10);
    assert_eq!(gs.game_score, 0);
}

#[test]
fn simulation_freezes_once_the_player_is_dead() {
    let mut gs = fresh_state(2, 0);
    gs.player_manager.player.hearts = 0;
    gs.enemy_mgr.enemies.push(idle_enemy(HumanoidType::StrongerEnemy, 0, 700_000, 700_000));
    gs.update(true, false, true, false, 50_000);
    assert_eq!(gs.game_score, 0);
    assert_eq!(gs.current_wave, 0);
    assert_eq!(gs.enemy_mgr.enemies.len(), 1);
}

#[test]
fn an_orchestrated_tick_moves_and_fires_the_player() {
    let mut gs = fresh_state(11, 0);
    gs.update(false, true, false, false, 300);
    assert_eq!(gs.player_manager.fireballs().len(), 1);
    assert!(gs.player_manager.player_position().x > 240_000);
}

#[test]
fn a_long_idle_run_keeps_every_humanoid_heart_nonnegative() {
    let mut gs = fresh_state(9, 0);
    for tick in 0..300u64 {
        gs.update(false, false, false, false, tick * 16);
        assert!(gs.player_manager.hearts() <= 2);
        for e in gs.enemy_mgr.enemies.iter() {
            // Hearts are unsigned; they are also never above the
            // largest baseline.
            assert!(e.hearts <= 10);
        }
    }
}
