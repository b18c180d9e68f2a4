use bat_flight::boss::OwlBossHp;
use bat_flight::score::{restart_game, Score};
use bat_flight::states::{
    check_level_progress, gear_levels, heart_levels, is_press, owl_levels, pillar_levels,
    press_transition, GameState, LevelState,
};

fn score(coin: u32, heart: u32) -> Score {
    Score { coin, heart, pillar: 0, gear: 0, owl: 0, game_over: 0 }
}

#[test]
fn default_score_has_three_hearts_and_nothing_else() {
    let s = Score::default();
    assert_eq!(s, Score { coin: 0, heart: 3, pillar: 0, gear: 0, owl: 0, game_over: 0 });
}

#[test]
fn default_states() {
    assert_eq!(GameState::default(), GameState::Menu);
    assert_eq!(LevelState::default(), LevelState::Level1);
}

#[test]
fn shooting_needs_two_coins() {
    let mut s = score(0, 3);
    assert!(!s.shoot());
    assert_eq!(s.coin, 0);
    let mut s = score(1, 3);
    assert!(!s.shoot());
    assert_eq!(s.coin, 1);
    let mut s = score(2, 3);
    assert!(s.shoot());
    assert_eq!(s.coin, 0);
    let mut s = score(7, 3);
    assert!(s.shoot());
    assert_eq!(s.coin, 5);
    assert_eq!(s.heart, 3);
}

#[test]
fn coins_are_worth_five_low_and_one_otherwise() {
    let mut s = score(0, 3);
    s.collect_coin(true);
    assert_eq!(s.coin, 5);
    s.collect_coin(false);
    assert_eq!(s.coin, 6);
    assert_eq!(s.heart, 3);
}

#[test]
fn gear_hit_costs_a_heart_and_a_coin() {
    let mut s = score(4, 3);
    assert!(!s.gear_hit());
    assert_eq!(s, score(3, 2));
    assert!(!s.gear_hit());
    assert_eq!(s, score(2, 1));
    assert!(s.gear_hit());
    assert_eq!(s, score(2, 3));
}

#[test]
fn last_heart_lost_ends_the_run_even_without_coins() {
    let mut s = score(0, 1);
    assert!(s.gear_hit());
    assert_eq!(s, score(0, 3));
    let mut s = score(0, 0);
    assert!(s.take_hit());
    assert_eq!(s.heart, 3);
}

#[test]
fn owl_hit_is_counted_then_taken_as_a_hit() {
    let mut s = score(5, 2);
    assert!(!s.owl_hit());
    assert_eq!(s.owl, 1);
    assert_eq!(s.coin, 4);
    assert_eq!(s.heart, 1);
    assert!(s.owl_hit());
    assert_eq!(s.owl, 2);
    assert_eq!(s.coin, 4);
    assert_eq!(s.heart, 3);
}

#[test]
fn hearts_falls_and_debug_coins() {
    let mut s = score(0, 3);
    s.collect_heart();
    assert_eq!(s.heart, 4);
    s.fall();
    s.fall();
    assert_eq!(s.game_over, 2);
    s.debug_coins();
    assert_eq!(s.coin, 10);
}

#[test]
fn hearts_stop_spawning_at_six() {
    assert!(score(0, 5).heart_spawn_allowed());
    assert!(!score(0, 6).heart_spawn_allowed());
    assert!(!score(0, 9).heart_spawn_allowed());
    assert!(score(0, 0).heart_spawn_allowed());
}

#[test]
fn hearts_never_run_out_over_a_run() {
    let mut s = Score::default();
    for _ in 0..20 {
        s.collect_coin(true);
        let _ = s.gear_hit();
        assert!(s.heart >= 1);
        let _ = s.owl_hit();
        assert!(s.heart >= 1);
        let _ = s.shoot();
        assert!(s.heart >= 1);
    }
}

#[test]
fn level_progress_thresholds() {
    assert_eq!(check_level_progress(LevelState::Level1, 9), None);
    assert_eq!(check_level_progress(LevelState::Level1, 10), Some(LevelState::Level2));
    assert_eq!(check_level_progress(LevelState::Level2, 19), None);
    assert_eq!(check_level_progress(LevelState::Level2, 20), Some(LevelState::Level3));
    assert_eq!(check_level_progress(LevelState::Level3, 29), None);
    assert_eq!(check_level_progress(LevelState::Level3, 30), Some(LevelState::Level4));
    assert_eq!(check_level_progress(LevelState::Level4, 39), None);
    assert_eq!(check_level_progress(LevelState::Level4, 40), Some(LevelState::Level5));
    assert_eq!(check_level_progress(LevelState::Level5, 49), None);
    assert_eq!(check_level_progress(LevelState::Level5, 50), Some(LevelState::LevelEnd));
    assert_eq!(check_level_progress(LevelState::LevelEnd, u32::MAX), None);
}

#[test]
fn level_progress_moves_one_level_at_a_time() {
    assert_eq!(check_level_progress(LevelState::Level1, 1000), Some(LevelState::Level2));
    let mut level = LevelState::Level1;
    let mut steps = 0;
    while let Some(next) = check_level_progress(level, 60) {
        level = next;
        steps += 1;
    }
    assert_eq!(level, LevelState::LevelEnd);
    assert_eq!(steps, 5);
}

#[test]
fn hazards_by_level() {
    let all = [
        LevelState::Level1,
        LevelState::Level2,
        LevelState::Level3,
        LevelState::Level4,
        LevelState::Level5,
        LevelState::LevelEnd,
    ];
    let hearts: Vec<bool> = all.iter().map(|l| heart_levels(*l)).collect();
    let pillars: Vec<bool> = all.iter().map(|l| pillar_levels(*l)).collect();
    let gears: Vec<bool> = all.iter().map(|l| gear_levels(*l)).collect();
    let owls: Vec<bool> = all.iter().map(|l| owl_levels(*l)).collect();
    assert_eq!(hearts, vec![false, true, true, false, false, false]);
    assert_eq!(pillars, vec![false, true, true, false, false, false]);
    assert_eq!(gears, vec![false, false, true, false, false, false]);
    assert_eq!(owls, vec![false, false, false, true, true, false]);
}

#[test]
fn presses_start_and_restart_the_game() {
    assert!(is_press(true, false, false));
    assert!(is_press(false, true, false));
    assert!(is_press(false, false, true));
    assert!(!is_press(false, false, false));
    assert_eq!(press_transition(GameState::Menu, true), GameState::Playing);
    assert_eq!(press_transition(GameState::GameOver, true), GameState::Playing);
    assert_eq!(press_transition(GameState::Playing, true), GameState::Playing);
    assert_eq!(press_transition(GameState::Menu, false), GameState::Menu);
    assert_eq!(press_transition(GameState::GameOver, false), GameState::GameOver);
}

#[test]
fn restart_gives_a_fresh_run() {
    let (s, level, state) = restart_game();
    assert_eq!(s, Score::default());
    assert_eq!(level, LevelState::Level1);
    assert_eq!(state, GameState::Playing);
}

#[test]
fn boss_takes_two_per_hit_down_to_zero() {
    let mut hp = OwlBossHp::new();
    assert_eq!(hp, OwlBossHp { current: 10, max: 10 });
    hp.hit();
    assert_eq!(hp.current, 8);
    for _ in 0..4 {
        hp.hit();
    }
    assert_eq!(hp.current, 0);
    hp.hit();
    assert_eq!(hp.current, 0);
    assert_eq!(hp.max, 10);
    let mut odd = OwlBossHp { current: 1, max: 10 };
    odd.hit();
    assert_eq!(odd.current, 0);
}
