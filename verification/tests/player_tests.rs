use archery::player::{
    move_player, player_arrow_charging, player_firing_arrows, player_shoot, projectile_kind, ChargeGlow, Player,
    PowerShotCooldownTimer, ProjectileKind, Shot, MAX_CHARGE_NS, POWER_SHOT_COOLDOWN_NS, SHOOT_COOLDOWN_NS,
};
use archery::timer::OnceTimer;

const FRAME: u64 = 16_000_000;

fn charged(elapsed_ns: u64) -> Player {
    let mut p = Player::new();
    p.charge_timer.elapsed_ns = elapsed_ns;
    p
}

#[test]
fn new_player_is_ready_to_shoot() {
    let p = Player::new();
    assert!(!p.is_charging);
    assert!(!p.should_start_charge);
    assert_eq!(p.score, 0);
    assert_eq!(p.max_charge_duration_ns, 1_000_000_000);
    assert_eq!(p.charge_timer, OnceTimer { duration_ns: MAX_CHARGE_NS, elapsed_ns: 0 });
    assert_eq!(p.shoot_cooldown, OnceTimer { duration_ns: SHOOT_COOLDOWN_NS, elapsed_ns: SHOOT_COOLDOWN_NS });
    assert!(p.shoot_cooldown.finished());
}

#[test]
fn power_cooldown_starts_finished() {
    let t = PowerShotCooldownTimer::new();
    assert_eq!(t.0.duration_ns, POWER_SHOT_COOLDOWN_NS);
    assert!(t.0.finished());
}

#[test]
fn pressing_space_when_ready_starts_charging() {
    let mut p = charged(400_000_000);
    let mut power = PowerShotCooldownTimer::new();
    player_firing_arrows(&mut p, &mut power, FRAME, true, false);
    assert!(p.is_charging);
    assert!(!p.should_start_charge);
    assert_eq!(p.charge_timer.elapsed_ns, 0);
}

#[test]
fn pressing_space_during_cooldown_is_kept_pending() {
    let mut p = Player::new();
    p.shoot_cooldown.reset();
    let mut power = PowerShotCooldownTimer::new();
    player_firing_arrows(&mut p, &mut power, FRAME, true, false);
    assert!(!p.is_charging);
    assert!(p.should_start_charge);
    assert_eq!(p.shoot_cooldown.elapsed_ns, FRAME);
}

#[test]
fn pending_press_starts_charge_when_cooldown_ends() {
    let mut p = Player::new();
    p.shoot_cooldown.reset();
    let mut power = PowerShotCooldownTimer::new();
    player_firing_arrows(&mut p, &mut power, FRAME, true, false);
    assert!(p.should_start_charge);
    player_firing_arrows(&mut p, &mut power, 500_000_000, false, false);
    assert!(p.should_start_charge);
    assert!(!p.is_charging);
    player_firing_arrows(&mut p, &mut power, 500_000_000, false, false);
    assert!(p.shoot_cooldown.finished());
    assert!(p.is_charging);
    assert!(!p.should_start_charge);
    assert_eq!(p.charge_timer.elapsed_ns, 0);
}

#[test]
fn releasing_space_stops_charge_and_pending_press() {
    let mut p = Player::new();
    p.is_charging = true;
    let mut power = PowerShotCooldownTimer::new();
    player_firing_arrows(&mut p, &mut power, FRAME, false, true);
    assert!(!p.is_charging);
    assert!(!p.should_start_charge);

    let mut q = Player::new();
    q.shoot_cooldown.reset();
    q.should_start_charge = true;
    player_firing_arrows(&mut q, &mut power, FRAME, false, true);
    assert!(!q.should_start_charge);
    assert!(!q.is_charging);
}

#[test]
fn press_and_release_in_one_frame_leaves_no_charge() {
    let mut p = charged(300_000_000);
    let mut power = PowerShotCooldownTimer::new();
    player_firing_arrows(&mut p, &mut power, FRAME, true, true);
    assert!(!p.is_charging);
    assert!(!p.should_start_charge);
    assert_eq!(p.charge_timer.elapsed_ns, 0);
    assert_eq!(player_shoot(&mut p, &mut power), None);
}

#[test]
fn power_cooldown_blocks_charging() {
    let mut p = Player::new();
    let mut power = PowerShotCooldownTimer::new();
    power.0.reset();
    player_firing_arrows(&mut p, &mut power, FRAME, true, false);
    assert!(!p.is_charging);
    assert!(p.should_start_charge);
    assert_eq!(power.0.elapsed_ns, FRAME);
}

#[test]
fn charging_ticks_the_charge_timer() {
    let mut p = Player::new();
    p.is_charging = true;
    let glow = player_arrow_charging(&mut p, 250_000_000);
    assert_eq!(glow, ChargeGlow::Charging { charged_ns: 250_000_000, max_charge_ns: 1_000_000_000 });
    assert_eq!(p.charge_timer.elapsed_ns, 250_000_000);
    let glow = player_arrow_charging(&mut p, 900_000_000);
    assert_eq!(glow, ChargeGlow::Charging { charged_ns: 1_000_000_000, max_charge_ns: 1_000_000_000 });
    let glow = player_arrow_charging(&mut p, FRAME);
    assert_eq!(glow, ChargeGlow::FullyCharged);
    assert_eq!(p.charge_timer.elapsed_ns, 1_000_000_000);
}

#[test]
fn resting_player_does_not_charge() {
    let mut p = charged(100);
    let before = p;
    assert_eq!(player_arrow_charging(&mut p, FRAME), ChargeGlow::Resting);
    assert_eq!(p, before);
}

#[test]
fn projectile_thresholds() {
    assert_eq!(projectile_kind(1, 1_000), ProjectileKind::Sphere);
    assert_eq!(projectile_kind(329, 1_000), ProjectileKind::Sphere);
    assert_eq!(projectile_kind(330, 1_000), ProjectileKind::Cube);
    assert_eq!(projectile_kind(659, 1_000), ProjectileKind::Cube);
    assert_eq!(projectile_kind(660, 1_000), ProjectileKind::Torus);
    assert_eq!(projectile_kind(1_000, 1_000), ProjectileKind::Torus);
    assert_eq!(projectile_kind(u64::MAX, u64::MAX), ProjectileKind::Torus);
}

#[test]
fn weak_shot_is_a_sphere() {
    let mut p = charged(200_000_000);
    let mut power = PowerShotCooldownTimer::new();
    let shot = player_shoot(&mut p, &mut power);
    assert_eq!(
        shot,
        Some(Shot { kind: ProjectileKind::Sphere, charge_ns: 200_000_000, max_charge_ns: 1_000_000_000 })
    );
    assert_eq!(p.charge_timer.elapsed_ns, 0);
    assert_eq!(p.shoot_cooldown.elapsed_ns, 0);
    assert!(!p.shoot_cooldown.finished());
    assert!(power.0.finished());
}

#[test]
fn medium_shot_is_a_cube() {
    let mut p = charged(500_000_000);
    let mut power = PowerShotCooldownTimer::new();
    let shot = player_shoot(&mut p, &mut power).unwrap();
    assert_eq!(shot.kind, ProjectileKind::Cube);
    assert!(power.0.finished());
}

#[test]
fn power_shot_restarts_power_cooldown() {
    let mut p = charged(1_000_000_000);
    let mut power = PowerShotCooldownTimer::new();
    let shot = player_shoot(&mut p, &mut power).unwrap();
    assert_eq!(shot.kind, ProjectileKind::Torus);
    assert_eq!(shot.charge_ns, 1_000_000_000);
    assert_eq!(power.0.elapsed_ns, 0);
    assert!(!power.0.finished());
    // no new charge until the power-shot cooldown has run out
    player_firing_arrows(&mut p, &mut power, POWER_SHOT_COOLDOWN_NS - 1, true, false);
    assert!(!p.is_charging);
    assert!(p.should_start_charge);
    player_firing_arrows(&mut p, &mut power, 1, false, false);
    assert!(p.is_charging);
}

#[test]
fn no_shot_while_charging_or_without_charge() {
    let mut power = PowerShotCooldownTimer::new();
    let mut p = charged(500_000_000);
    p.is_charging = true;
    let before = p;
    assert_eq!(player_shoot(&mut p, &mut power), None);
    assert_eq!(p, before);
    let mut q = Player::new();
    assert_eq!(player_shoot(&mut q, &mut power), None);
}

#[test]
fn one_shot_per_release() {
    let mut p = charged(700_000_000);
    let mut power = PowerShotCooldownTimer::new();
    assert!(player_shoot(&mut p, &mut power).is_some());
    assert_eq!(player_shoot(&mut p, &mut power), None);
}

#[test]
fn charge_beyond_maximum_counts_as_maximum() {
    let mut p = charged(1_000_000_000);
    p.max_charge_duration_ns = 800_000_000;
    let mut power = PowerShotCooldownTimer::new();
    let shot = player_shoot(&mut p, &mut power).unwrap();
    assert_eq!(shot.charge_ns, 800_000_000);
    assert_eq!(shot.kind, ProjectileKind::Torus);
}

#[test]
fn full_frame_sequence_keeps_charge_rule() {
    let mut p = Player::new();
    let mut power = PowerShotCooldownTimer::new();
    let inputs = [
        (true, false),
        (false, false),
        (false, false),
        (false, true),
        (true, false),
        (false, false),
        (false, true),
        (true, true),
        (true, false),
        (false, false),
        (false, true),
    ];
    let mut shots = 0;
    for _round in 0..5 {
        for &(pressed, released) in inputs.iter() {
            player_firing_arrows(&mut p, &mut power, 200_000_000, pressed, released);
            player_arrow_charging(&mut p, 200_000_000);
            if player_shoot(&mut p, &mut power).is_some() {
                shots += 1;
            }
            if p.is_charging {
                assert!(p.shoot_cooldown.finished());
                assert!(power.0.finished());
            }
            assert!(!(p.is_charging && p.should_start_charge));
        }
    }
    assert!(shots > 0);
}

#[test]
fn walking_rules() {
    let mut p = Player::new();
    assert_eq!(move_player(&p, true, false), 1);
    assert_eq!(move_player(&p, false, true), -1);
    assert_eq!(move_player(&p, true, true), 0);
    assert_eq!(move_player(&p, false, false), 0);
    p.is_charging = true;
    assert_eq!(move_player(&p, true, false), 0);
    assert_eq!(move_player(&p, false, true), 0);
}
