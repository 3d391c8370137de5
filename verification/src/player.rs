//! The player's bow: charging while the space bar is held, releasing a shot
//! whose strength depends on the charge, and the two cooldowns that gate it.

use vstd::prelude::*;
use crate::timer::OnceTimer;

verus! {

/// Cooldown between two shots: 0.75 s.
pub const SHOOT_COOLDOWN_NS: u64 = 750_000_000;
/// Length of the charge timer and the longest useful charge: 1 s.
pub const MAX_CHARGE_NS: u64 = 1_000_000_000;
/// Cooldown after a power shot: 3 s.
pub const POWER_SHOT_COOLDOWN_NS: u64 = 3_000_000_000;

/// The player's bow state and score.
#[derive(Clone, Copy, Debug, PartialEq, Eq, Structural)]
pub struct Player {
    pub is_charging: bool,
    pub charge_timer: OnceTimer,
    pub max_charge_duration_ns: u64,
    pub should_start_charge: bool,
    pub shoot_cooldown: OnceTimer,
    pub score: u32,
}

/// The cooldown that follows a power shot, shared by the whole game.
#[derive(Clone, Copy, Debug, PartialEq, Eq, Structural)]
pub struct PowerShotCooldownTimer(pub OnceTimer);

/// What a released arrow looks like; it is chosen by the charge strength.
#[derive(Clone, Copy, Debug, PartialEq, Eq, Structural)]
pub enum ProjectileKind {
    /// Strength below 0.33: a small blue sphere.
    Sphere,
    /// Strength from 0.33 up to 0.66: a green cube.
    Cube,
    /// Strength 0.66 and above: a red torus, the power shot.
    Torus,
}

/// A shot fired by the player. Its strength is `charge_ns / max_charge_ns`.
#[derive(Clone, Copy, Debug, PartialEq, Eq, Structural)]
pub struct Shot {
    pub kind: ProjectileKind,
    pub charge_ns: u64,
    pub max_charge_ns: u64,
}

/// How the player's body glows this frame.
#[derive(Clone, Copy, Debug, PartialEq, Eq, Structural)]
pub enum ChargeGlow {
    /// Not charging: the plain base colour.
    Resting,
    /// Charging: glow grows with the ratio `charged_ns / max_charge_ns`.
    Charging { charged_ns: u64, max_charge_ns: u64 },
    /// The charge has reached its maximum: full glow.
    FullyCharged,
}

impl Player {
    pub open spec fn wf(self) -> bool {
        &&& self.charge_timer.wf()
        &&& self.shoot_cooldown.wf()
        &&& self.max_charge_duration_ns > 0
    }

    /// The player as the game spawns it: not charging, a fresh 1 s charge
    /// timer, a shoot cooldown that has already run out, and no score.
    pub fn new() -> (p: Player)
        ensures
            p.wf(),
            !p.is_charging,
            !p.should_start_charge,
            p.charge_timer == (OnceTimer { duration_ns: MAX_CHARGE_NS, elapsed_ns: 0 }),
            p.max_charge_duration_ns == MAX_CHARGE_NS,
            p.shoot_cooldown == (OnceTimer { duration_ns: SHOOT_COOLDOWN_NS, elapsed_ns: SHOOT_COOLDOWN_NS }),
            p.shoot_cooldown.spec_finished(),
            p.score == 0,
    {
        let mut shoot_cooldown = OnceTimer::new(SHOOT_COOLDOWN_NS);
        shoot_cooldown.tick(SHOOT_COOLDOWN_NS);
        Player {
            is_charging: false,
            charge_timer: OnceTimer::new(MAX_CHARGE_NS),
            max_charge_duration_ns: MAX_CHARGE_NS,
            should_start_charge: false,
            shoot_cooldown,
            score: 0,
        }
    }
}

impl PowerShotCooldownTimer {
    /// The power-shot cooldown as the game starts it: 3 s, already run out.
    pub fn new() -> (t: PowerShotCooldownTimer)
        ensures
            t.0.wf(),
            t.0 == (OnceTimer { duration_ns: POWER_SHOT_COOLDOWN_NS, elapsed_ns: POWER_SHOT_COOLDOWN_NS }),
            t.0.spec_finished(),
    {
        let mut timer = OnceTimer::new(POWER_SHOT_COOLDOWN_NS);
        timer.tick(POWER_SHOT_COOLDOWN_NS);
        PowerShotCooldownTimer(timer)
    }
}

/// Both cooldowns have run out after this frame's tick.
pub open spec fn spec_ready_to_charge(p: Player, power: OnceTimer, delta: nat) -> bool {
    p.shoot_cooldown.spec_tick(delta).spec_finished() && power.spec_tick(delta).spec_finished()
}

/// The player and the power-shot cooldown after one frame of input handling:
/// both cooldowns advance; releasing the space bar stops any charge; pressing
/// it, or having a press pending, starts a fresh charge once both cooldowns
/// have run out, and otherwise leaves the press pending.
pub open spec fn spec_after_firing(
    p: Player,
    power: OnceTimer,
    delta: nat,
    just_pressed: bool,
    just_released: bool,
) -> (Player, OnceTimer) {
    let ready = spec_ready_to_charge(p, power, delta);
    let restart_charge = ready && (just_pressed || (!just_released && p.should_start_charge));
    (
        Player {
            is_charging: !just_released && ((ready && (just_pressed || p.should_start_charge)) || p.is_charging),
            should_start_charge: !just_released && !ready && (just_pressed || p.should_start_charge),
            charge_timer: if restart_charge { p.charge_timer.spec_reset() } else { p.charge_timer },
            shoot_cooldown: p.shoot_cooldown.spec_tick(delta),
            ..p
        },
        power.spec_tick(delta),
    )
}

/// Handles the space bar for one frame of `delta_ns` nanoseconds.
pub fn player_firing_arrows(
    player: &mut Player,
    power_shot_cooldown_timer: &mut PowerShotCooldownTimer,
    delta_ns: u64,
    space_just_pressed: bool,
    space_just_released: bool,
)
    requires
        old(player).wf(),
        old(power_shot_cooldown_timer).0.wf(),
    ensures
        final(player).wf(),
        final(power_shot_cooldown_timer).0.wf(),
        (*final(player), final(power_shot_cooldown_timer).0) == spec_after_firing(
            *old(player),
            old(power_shot_cooldown_timer).0,
            delta_ns as nat,
            space_just_pressed,
            space_just_released,
        ),
{
    if !player.shoot_cooldown.finished() {
        player.shoot_cooldown.tick(delta_ns);
    }
    if !power_shot_cooldown_timer.0.finished() {
        power_shot_cooldown_timer.0.tick(delta_ns);
    }
    if space_just_pressed {
        if !player.shoot_cooldown.finished() || !power_shot_cooldown_timer.0.finished() {
            player.should_start_charge = true;
        } else {
            player.is_charging = true;
            player.charge_timer.reset();
        }
    }
    if space_just_released {
        player.is_charging = false;
        player.should_start_charge = false;
    }
    if player.shoot_cooldown.finished() && power_shot_cooldown_timer.0.finished() {
        if player.should_start_charge {
            player.is_charging = true;
            player.charge_timer.reset();
            player.should_start_charge = false;
        }
    }
}

/// The charge that counts for a shot or a glow: the charge timer's elapsed
/// time, at most the maximum charge.
pub open spec fn spec_effective_charge(p: Player) -> nat {
    if p.charge_timer.elapsed_ns < p.max_charge_duration_ns {
        p.charge_timer.elapsed_ns as nat
    } else {
        p.max_charge_duration_ns as nat
    }
}

/// The player and the glow after one frame of charging: while charging and
/// below the maximum charge, the charge timer advances.
pub open spec fn spec_after_charging(p: Player, delta: nat) -> (Player, ChargeGlow) {
    if p.is_charging {
        if p.charge_timer.elapsed_ns < p.max_charge_duration_ns {
            let q = Player { charge_timer: p.charge_timer.spec_tick(delta), ..p };
            (q, ChargeGlow::Charging {
                charged_ns: spec_effective_charge(q) as u64,
                max_charge_ns: p.max_charge_duration_ns,
            })
        } else {
            (p, ChargeGlow::FullyCharged)
        }
    } else {
        (p, ChargeGlow::Resting)
    }
}

/// Advances the charge for one frame of `delta_ns` nanoseconds and says how
/// the player should glow.
pub fn player_arrow_charging(player: &mut Player, delta_ns: u64) -> (glow: ChargeGlow)
    requires
        old(player).wf(),
    ensures
        final(player).wf(),
        (*final(player), glow) == spec_after_charging(*old(player), delta_ns as nat),
{
    if player.is_charging {
        if player.charge_timer.elapsed_ns < player.max_charge_duration_ns {
            player.charge_timer.tick(delta_ns);
            let charged = if player.charge_timer.elapsed_ns < player.max_charge_duration_ns {
                player.charge_timer.elapsed_ns
            } else {
                player.max_charge_duration_ns
            };
            ChargeGlow::Charging { charged_ns: charged, max_charge_ns: player.max_charge_duration_ns }
        } else {
            ChargeGlow::FullyCharged
        }
    } else {
        ChargeGlow::Resting
    }
}

/// The projectile for a charge of `charge` out of `max`: strength
/// `charge / max` below 33/100 gives a sphere, below 66/100 a cube, and a torus
/// from there on.
pub open spec fn spec_projectile_kind(charge: nat, max: nat) -> ProjectileKind {
    if 100 * charge < 33 * max {
        ProjectileKind::Sphere
    } else if 100 * charge < 66 * max {
        ProjectileKind::Cube
    } else {
        ProjectileKind::Torus
    }
}

/// Chooses the projectile for a charge of `charge_ns` out of `max_charge_ns`.
pub fn projectile_kind(charge_ns: u64, max_charge_ns: u64) -> (k: ProjectileKind)
    ensures
        k == spec_projectile_kind(charge_ns as nat, max_charge_ns as nat),
{
    let charge = charge_ns as u128;
    let max = max_charge_ns as u128;
    if 100 * charge < 33 * max {
        ProjectileKind::Sphere
    } else if 100 * charge < 66 * max {
        ProjectileKind::Cube
    } else {
        ProjectileKind::Torus
    }
}

/// The player, the power-shot cooldown and the shot after one frame: once
/// the space bar has been released with some charge built up, an arrow
/// leaves, the charge and the shoot cooldown start over, and a power shot
/// (a torus) also restarts the power-shot cooldown.
pub open spec fn spec_after_shoot(p: Player, power: OnceTimer) -> (Player, OnceTimer, Option<Shot>) {
    if !p.is_charging && p.charge_timer.elapsed_ns > 0 {
        let charge = spec_effective_charge(p);
        let kind = spec_projectile_kind(charge, p.max_charge_duration_ns as nat);
        (
            Player {
                charge_timer: p.charge_timer.spec_reset(),
                shoot_cooldown: p.shoot_cooldown.spec_reset(),
                ..p
            },
            if kind == ProjectileKind::Torus { power.spec_reset() } else { power },
            Some(Shot { kind, charge_ns: charge as u64, max_charge_ns: p.max_charge_duration_ns }),
        )
    } else {
        (p, power, None)
    }
}

/// Releases an arrow if the player has let go of a charged bow.
pub fn player_shoot(player: &mut Player, power_shot_cooldown_timer: &mut PowerShotCooldownTimer) -> (shot: Option<Shot>)
    requires
        old(player).wf(),
        old(power_shot_cooldown_timer).0.wf(),
    ensures
        final(player).wf(),
        final(power_shot_cooldown_timer).0.wf(),
        (*final(player), final(power_shot_cooldown_timer).0, shot) == spec_after_shoot(
            *old(player),
            old(power_shot_cooldown_timer).0,
        ),
{
    if !player.is_charging && player.charge_timer.elapsed_ns > 0 {
        let charge = if player.charge_timer.elapsed_ns < player.max_charge_duration_ns {
            player.charge_timer.elapsed_ns
        } else {
            player.max_charge_duration_ns
        };
        let kind = projectile_kind(charge, player.max_charge_duration_ns);
        player.charge_timer.reset();
        player.shoot_cooldown.reset();
        if kind == ProjectileKind::Torus {
            power_shot_cooldown_timer.0.reset();
        }
        Some(Shot { kind, charge_ns: charge, max_charge_ns: player.max_charge_duration_ns })
    } else {
        None
    }
}

/// The walking direction along the player's facing: forward with the up
/// arrow, backward with the down arrow, both cancel out, and a player who is
/// charging the bow stands still.
pub open spec fn spec_walk_direction(p: Player, forward_pressed: bool, backward_pressed: bool) -> i8 {
    if p.is_charging {
        0
    } else {
        ((if forward_pressed { 1int } else { 0int }) - (if backward_pressed { 1int } else { 0int })) as i8
    }
}

/// Decides how the player walks this frame: `1` forward, `-1` backward, `0`
/// not at all (turning with the left and right arrows is always allowed).
pub fn move_player(player: &Player, forward_pressed: bool, backward_pressed: bool) -> (direction: i8)
    ensures
        direction == spec_walk_direction(*player, forward_pressed, backward_pressed),
{
    let mut direction: i8 = 0;
    if forward_pressed && !player.is_charging {
        direction = direction + 1;
    }
    if backward_pressed && !player.is_charging {
        direction = direction - 1;
    }
    direction
}

/// The bow's standing rule: a charge is only under way while both cooldowns
/// have run out, and a press is never left pending while a charge is under way.
pub open spec fn charge_invariant(p: Player, power: OnceTimer) -> bool {
    &&& p.is_charging ==> p.shoot_cooldown.spec_finished() && power.spec_finished()
    &&& !(p.is_charging && p.should_start_charge)
}

/// Handling the space bar keeps the bow's standing rule.
pub proof fn lemma_firing_keeps_charge_invariant(
    p: Player,
    power: OnceTimer,
    delta: nat,
    just_pressed: bool,
    just_released: bool,
)
    requires
        p.wf(),
        power.wf(),
        charge_invariant(p, power),
    ensures
        charge_invariant(
            spec_after_firing(p, power, delta, just_pressed, just_released).0,
            spec_after_firing(p, power, delta, just_pressed, just_released).1,
        ),
{
}

/// Charging keeps the bow's standing rule.
pub proof fn lemma_charging_keeps_charge_invariant(p: Player, power: OnceTimer, delta: nat)
    requires
        p.wf(),
        charge_invariant(p, power),
    ensures
        charge_invariant(spec_after_charging(p, delta).0, power),
{
}

/// Shooting keeps the bow's standing rule.
pub proof fn lemma_shoot_keeps_charge_invariant(p: Player, power: OnceTimer)
    requires
        p.wf(),
        power.wf(),
        charge_invariant(p, power),
    ensures
        charge_invariant(spec_after_shoot(p, power).0, spec_after_shoot(p, power).1),
{
}

/// One whole frame of the bow (input, then charging, then shooting) keeps
/// the player's state well formed and keeps the bow's standing rule.
pub proof fn lemma_frame_keeps_charge_invariant(
    p: Player,
    power: OnceTimer,
    delta: nat,
    just_pressed: bool,
    just_released: bool,
)
    requires
        p.wf(),
        power.wf(),
        charge_invariant(p, power),
    ensures
        ({
            let (p1, w1) = spec_after_firing(p, power, delta, just_pressed, just_released);
            let (p2, _glow) = spec_after_charging(p1, delta);
            let (p3, w3, _shot) = spec_after_shoot(p2, w1);
            p3.wf() && w3.wf() && charge_invariant(p3, w3)
        }),
{
    let (p1, w1) = spec_after_firing(p, power, delta, just_pressed, just_released);
    lemma_firing_keeps_charge_invariant(p, power, delta, just_pressed, just_released);
    let (p2, _glow) = spec_after_charging(p1, delta);
    lemma_charging_keeps_charge_invariant(p1, w1, delta);
    lemma_shoot_keeps_charge_invariant(p2, w1);
}

/// A press made during a cooldown is not lost: while the space bar stays
/// held, the charge begins, from zero, in the first frame in which both
/// cooldowns have run out.
pub proof fn lemma_pending_press_starts_charge(p: Player, power: OnceTimer, delta: nat)
    requires
        p.wf(),
        power.wf(),
        p.should_start_charge,
        spec_ready_to_charge(p, power, delta),
    ensures
        spec_after_firing(p, power, delta, false, false).0.is_charging,
        !spec_after_firing(p, power, delta, false, false).0.should_start_charge,
        spec_after_firing(p, power, delta, false, false).0.charge_timer.elapsed_ns == 0,
{
}

/// Releasing the space bar always ends the charge and drops a pending press.
pub proof fn lemma_release_stops_charging(p: Player, power: OnceTimer, delta: nat, just_pressed: bool)
    ensures
        !spec_after_firing(p, power, delta, just_pressed, true).0.is_charging,
        !spec_after_firing(p, power, delta, just_pressed, true).0.should_start_charge,
{
}

/// A release fires at most one arrow: right after a shot, shooting again
/// fires nothing.
pub proof fn lemma_one_shot_per_release(p: Player, power: OnceTimer)
    requires
        p.wf(),
        power.wf(),
        spec_after_shoot(p, power).2 is Some,
    ensures
        spec_after_shoot(spec_after_shoot(p, power).0, spec_after_shoot(p, power).1).2 is None,
{
}

/// After a power shot, no new charge can begin until the power-shot
/// cooldown has run out, whatever the input.
pub proof fn lemma_power_shot_blocks_charging(
    p: Player,
    power: OnceTimer,
    delta: nat,
    just_pressed: bool,
    just_released: bool,
)
    requires
        p.wf(),
        power.wf(),
        spec_after_shoot(p, power).2 matches Some(shot) && shot.kind == ProjectileKind::Torus,
        delta < power.duration_ns,
    ensures
        !spec_after_firing(
            spec_after_shoot(p, power).0,
            spec_after_shoot(p, power).1,
            delta,
            just_pressed,
            just_released,
        ).0.is_charging,
{
}

/// A stronger charge never gives a weaker projectile.
pub proof fn lemma_projectile_kind_monotone(c1: nat, c2: nat, max: nat)
    requires
        c1 <= c2,
    ensures
        spec_projectile_kind(c1, max) == ProjectileKind::Cube ==> spec_projectile_kind(c2, max) != ProjectileKind::Sphere,
        spec_projectile_kind(c1, max) == ProjectileKind::Torus ==> spec_projectile_kind(c2, max) == ProjectileKind::Torus,
{
}

/// Holding the space bar keeps a charge going: only a release ends it.
pub proof fn lemma_charge_persists_while_held(p: Player, power: OnceTimer, delta: nat, just_pressed: bool)
    requires
        p.is_charging,
    ensures
        spec_after_firing(p, power, delta, just_pressed, false).0.is_charging,
{
}

/// A fresh press, with both cooldowns run out and no release, starts a charge
/// from zero.
pub proof fn lemma_press_when_ready_starts_charge(p: Player, power: OnceTimer, delta: nat)
    requires
        p.wf(),
        power.wf(),
        p.shoot_cooldown.elapsed_ns + delta >= p.shoot_cooldown.duration_ns,
        power.elapsed_ns + delta >= power.duration_ns,
    ensures
        spec_after_firing(p, power, delta, true, false).0.is_charging,
        spec_after_firing(p, power, delta, true, false).0.charge_timer.elapsed_ns == 0,
{
}

/// A released bow with any charge at all fires, with the charge counted up
/// to the maximum, and the charge and the shoot cooldown start over.
pub proof fn lemma_released_charge_fires(p: Player, power: OnceTimer)
    requires
        p.wf(),
        !p.is_charging,
        p.charge_timer.elapsed_ns > 0,
    ensures
        spec_after_shoot(p, power).2 matches Some(shot) && shot.max_charge_ns == p.max_charge_duration_ns
            && shot.charge_ns == (if p.charge_timer.elapsed_ns <= p.max_charge_duration_ns {
                p.charge_timer.elapsed_ns
            } else {
                p.max_charge_duration_ns
            }) && shot.charge_ns > 0,
        spec_after_shoot(p, power).0.charge_timer.elapsed_ns == 0,
        spec_after_shoot(p, power).0.shoot_cooldown.elapsed_ns == 0,
        !spec_after_shoot(p, power).0.shoot_cooldown.spec_finished(),
{
}

/// No arrow leaves while the bow is drawn or uncharged, and then nothing
/// changes.
pub proof fn lemma_no_shot_changes_nothing(p: Player, power: OnceTimer)
    requires
        p.is_charging || p.charge_timer.elapsed_ns == 0,
    ensures
        spec_after_shoot(p, power) == (p, power, None::<Shot>),
{
}

/// While the bow is drawn below the maximum charge, the charge grows by the
/// whole frame (up to the charge timer's length), and the glow reports the
/// grown charge, counted up to the maximum.
pub proof fn lemma_charge_grows_by_frame(p: Player, delta: nat)
    requires
        p.wf(),
        p.is_charging,
        p.charge_timer.elapsed_ns < p.max_charge_duration_ns,
    ensures
        ({
            let grown = if p.charge_timer.elapsed_ns + delta < p.charge_timer.duration_ns {
                p.charge_timer.elapsed_ns + delta
            } else {
                p.charge_timer.duration_ns as int
            };
            &&& spec_after_charging(p, delta).0.charge_timer.elapsed_ns == grown
            &&& spec_after_charging(p, delta).0.charge_timer.duration_ns == p.charge_timer.duration_ns
            &&& spec_after_charging(p, delta).1 == (ChargeGlow::Charging {
                charged_ns: (if grown < p.max_charge_duration_ns { grown } else { p.max_charge_duration_ns as int }) as u64,
                max_charge_ns: p.max_charge_duration_ns,
            })
        }),
{
}

/// The glow is full exactly when the bow is drawn and the charge has reached
/// the maximum, and resting exactly when the bow is not drawn; at full charge
/// the charge no longer grows.
pub proof fn lemma_glow_matches_charge(p: Player, delta: nat)
    ensures
        (spec_after_charging(p, delta).1 == ChargeGlow::FullyCharged) <==> (p.is_charging
            && p.charge_timer.elapsed_ns >= p.max_charge_duration_ns),
        (spec_after_charging(p, delta).1 == ChargeGlow::Resting) <==> !p.is_charging,
        p.charge_timer.elapsed_ns >= p.max_charge_duration_ns ==> spec_after_charging(p, delta).0 == p,
{
}

} // verus!
