use archery::combat::hit_collision;
use archery::game_state::{game_over, play_again, GameState};
use archery::hud::{update_player_score, update_power_cooldown_ui, CooldownDisplay};
use archery::player::{Player, PowerShotCooldownTimer};
use archery::spawning::{in_spawn_window, random_spawn_enemies, spawn_decision, SPAWN_INTERVAL_NS};
use archery::warnings::{check_enemy_proximity, remove_far_warning_signs, WarningSign};

#[test]
fn game_starts_playing() {
    assert_eq!(GameState::default(), GameState::Playing);
}

#[test]
fn restart_goes_back_to_play() {
    assert_eq!(game_over(GameState::Restarting), Some(GameState::Playing));
    assert_eq!(game_over(GameState::Playing), None);
    assert_eq!(game_over(GameState::GameOver), None);
}

#[test]
fn restart_key_restarts() {
    assert_eq!(play_again(true), Some(GameState::Restarting));
    assert_eq!(play_again(false), None);
}

#[test]
fn every_contact_scores_a_point() {
    let mut p = Player::new();
    p.score = 5;
    let contacts = vec![vec![true, false, true], vec![false, false, false], vec![false, false, true]];
    let out = hit_collision(&mut p, &contacts, &vec![false, false, false]);
    assert_eq!(p.score, 8);
    assert_eq!(out.arrows_to_despawn, vec![true, false, true]);
    assert_eq!(out.enemies_to_despawn, vec![true, false, true]);
    assert_eq!(out.next_state, None);
}

#[test]
fn no_arrows_no_score() {
    let mut p = Player::new();
    let before = p;
    let out = hit_collision(&mut p, &vec![], &vec![false, false]);
    assert_eq!(p, before);
    assert!(out.arrows_to_despawn.is_empty());
    assert_eq!(out.enemies_to_despawn, vec![false, false]);
}

#[test]
fn caught_player_ends_the_game() {
    let mut p = Player::new();
    let out = hit_collision(&mut p, &vec![vec![false, false]], &vec![false, true]);
    assert_eq!(out.next_state, Some(GameState::GameOver));
    assert_eq!(p.score, 0);
}

#[test]
fn score_can_reach_its_maximum() {
    let mut p = Player::new();
    p.score = u32::MAX - 2;
    hit_collision(&mut p, &vec![vec![true, true]], &vec![false, false]);
    assert_eq!(p.score, u32::MAX);
}

#[test]
fn warnings_for_new_enemies_in_danger() {
    let enemies = vec![10u64, 11, 12, 13];
    let near = vec![true, true, false, true];
    let warnings = vec![WarningSign { enemy_entity: 11 }, WarningSign { enemy_entity: 99 }];
    assert_eq!(check_enemy_proximity(&enemies, &near, &warnings), vec![10, 13]);
    assert_eq!(check_enemy_proximity(&enemies, &vec![false; 4], &warnings), Vec::<u64>::new());
    assert_eq!(check_enemy_proximity(&vec![], &vec![], &warnings), Vec::<u64>::new());
}

#[test]
fn warnings_of_gone_enemies_are_removed() {
    let warnings = vec![WarningSign { enemy_entity: 11 }, WarningSign { enemy_entity: 99 }, WarningSign { enemy_entity: 12 }];
    assert_eq!(remove_far_warning_signs(&warnings, &vec![10, 11, 12]), vec![false, true, false]);
    assert_eq!(remove_far_warning_signs(&warnings, &vec![]), vec![true, true, true]);
}

#[test]
fn spawn_windows() {
    assert!(in_spawn_window(0, 1));
    assert!(in_spawn_window(2_000_000_005, 16_000_000));
    assert!(!in_spawn_window(2_016_000_000, 16_000_000));
    assert!(!in_spawn_window(1_999_999_999, 16_000_000));
    assert!(!in_spawn_window(4_000_000_000, 0));
    assert_eq!(SPAWN_INTERVAL_NS, 2_000_000_000);
}

#[test]
fn no_spawn_outside_a_window() {
    for _ in 0..50 {
        assert_eq!(random_spawn_enemies(1_000_000_000, 16_000_000), (false, None));
    }
}

#[test]
fn spawn_in_a_window_is_a_coin_toss() {
    let mut spawned = 0;
    for _ in 0..400 {
        let (spawn, draw) = random_spawn_enemies(4_000_000_001, 16_000_000);
        let draw = draw.expect("a window opens, so a draw is made");
        assert_eq!((draw.numerator(), draw.denominator()), (1, 2));
        assert_eq!(spawn, draw.outcome());
        if spawn {
            spawned += 1;
        }
    }
    assert!(spawned > 100 && spawned < 300);
}

#[test]
fn score_text() {
    assert_eq!(update_player_score(0), "Score: 0");
    assert_eq!(update_player_score(7), "Score: 7");
    assert_eq!(update_player_score(10), "Score: 10");
    assert_eq!(update_player_score(1203), "Score: 1203");
    assert_eq!(update_player_score(u32::MAX), "Score: 4294967295");
}

#[test]
fn cooldown_indicator() {
    let mut power = PowerShotCooldownTimer::new();
    assert_eq!(update_power_cooldown_ui(2, &power), Some(CooldownDisplay::Hidden));
    assert_eq!(update_power_cooldown_ui(0, &power), None);
    power.0.reset();
    power.0.tick(500_000_000);
    assert_eq!(
        update_power_cooldown_ui(2, &power),
        Some(CooldownDisplay::Countdown { remaining_ns: 2_500_000_000 })
    );
    assert_eq!(update_power_cooldown_ui(0, &power), None);
}

#[test]
fn spawn_needs_window_and_roll() {
    assert!(spawn_decision(4_000_000_001, 16_000_000, true));
    assert!(!spawn_decision(4_000_000_001, 16_000_000, false));
    assert!(!spawn_decision(1_000_000_000, 16_000_000, true));
    assert!(!spawn_decision(1_000_000_000, 16_000_000, false));
}

#[test]
fn one_sign_per_enemy_after_a_frame() {
    let enemies = vec![1u64, 2, 3, 4];
    let near = vec![true, true, false, true];
    let mut signs = vec![WarningSign { enemy_entity: 2 }, WarningSign { enemy_entity: 3 }];
    for e in check_enemy_proximity(&enemies, &near, &signs) {
        signs.push(WarningSign { enemy_entity: e });
    }
    for (k, e) in enemies.iter().enumerate() {
        let n = signs.iter().filter(|w| w.enemy_entity == *e).count();
        assert!(n <= 1);
        if near[k] {
            assert_eq!(n, 1);
        }
    }
    // a second frame adds nothing more
    assert!(check_enemy_proximity(&enemies, &near, &signs).is_empty());
}
