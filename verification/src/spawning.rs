//! When a new enemy appears: once per two-second window, on a coin toss.
//!
//! Where it appears (a random angle and distance around the player) is
//! floating-point geometry outside this library.

use vstd::prelude::*;
use crate::draw::{Draw, random_ratio};

verus! {

/// Enemies may appear once in every window of this length: 2 s.
pub const SPAWN_INTERVAL_NS: u64 = 2_000_000_000;
/// The chance that an enemy appears in a window, as numerator and
/// denominator: one in two.
pub const SPAWN_CHANCE_NUMERATOR: u32 = 1;
pub const SPAWN_CHANCE_DENOMINATOR: u32 = 2;

/// The frame that ends at `elapsed` and lasted `delta` crossed the start of a
/// spawn window.
pub open spec fn spec_in_spawn_window(elapsed_ns: nat, delta_ns: nat) -> bool {
    elapsed_ns % (SPAWN_INTERVAL_NS as nat) < delta_ns
}

/// Whether this frame opens a spawn window, given the game time `elapsed_ns`
/// since startup and the frame length `delta_ns`.
pub fn in_spawn_window(elapsed_ns: u64, delta_ns: u64) -> (b: bool)
    ensures
        b == spec_in_spawn_window(elapsed_ns as nat, delta_ns as nat),
{
    elapsed_ns % SPAWN_INTERVAL_NS < delta_ns
}

/// Whether an enemy appears, given the outcome `roll` of this frame's
/// one-in-two draw: exactly when the frame opens a spawn window and the draw
/// came out `true`.
pub fn spawn_decision(elapsed_ns: u64, delta_ns: u64, roll: bool) -> (spawn: bool)
    ensures
        spawn == (spec_in_spawn_window(elapsed_ns as nat, delta_ns as nat) && roll),
{
    in_spawn_window(elapsed_ns, delta_ns) && roll
}

/// Decides whether an enemy appears this frame: only when the frame opens a
/// spawn window, and then on a one-in-two random draw, which is returned with
/// the decision. The draw is made exactly when the frame opens a window, with
/// the ratio one in two, and the enemy appears exactly when it comes out
/// `true`; its outcome itself is left to chance.
pub fn random_spawn_enemies(elapsed_ns: u64, delta_ns: u64) -> (r: (bool, Option<Draw>))
    ensures
        r.1 is Some <==> spec_in_spawn_window(elapsed_ns as nat, delta_ns as nat),
        r.1 matches Some(d) ==> d.spec_numerator() == SPAWN_CHANCE_NUMERATOR
            && d.spec_denominator() == SPAWN_CHANCE_DENOMINATOR
            && r.0 == d.spec_outcome(),
        r.1 is None ==> !r.0,
{
    if in_spawn_window(elapsed_ns, delta_ns) {
        let draw = random_ratio(SPAWN_CHANCE_NUMERATOR, SPAWN_CHANCE_DENOMINATOR);
        (spawn_decision(elapsed_ns, delta_ns, draw.outcome()), Some(draw))
    } else {
        (false, None)
    }
}

/// Frames no longer than a spawn window open at most one window each: two
/// consecutive frames of such lengths never both open one unless a whole
/// window separates their ends.
pub proof fn lemma_one_window_per_interval(elapsed_ns: nat, delta_ns: nat, next_delta_ns: nat)
    requires
        delta_ns <= SPAWN_INTERVAL_NS,
        0 < next_delta_ns,
        next_delta_ns <= SPAWN_INTERVAL_NS,
        spec_in_spawn_window(elapsed_ns, delta_ns),
    ensures
        spec_in_spawn_window(elapsed_ns + next_delta_ns, next_delta_ns) ==>
            (elapsed_ns + next_delta_ns) / (SPAWN_INTERVAL_NS as nat) == elapsed_ns / (SPAWN_INTERVAL_NS as nat) + 1,
{
    let i = SPAWN_INTERVAL_NS as nat;
    let e = elapsed_ns;
    let e2 = elapsed_ns + next_delta_ns;
    vstd::arithmetic::div_mod::lemma_fundamental_div_mod(e as int, i as int);
    vstd::arithmetic::div_mod::lemma_fundamental_div_mod(e2 as int, i as int);
    vstd::arithmetic::div_mod::lemma_mod_bound(e as int, i as int);
    vstd::arithmetic::div_mod::lemma_mod_bound(e2 as int, i as int);
    if spec_in_spawn_window(e2, next_delta_ns) {
        let q = e / i;
        let q2 = e2 / i;
        let r = e % i;
        let r2 = e2 % i;
        assert(e == i * q + r);
        assert(e2 == i * q2 + r2);
        assert(i * q2 > i * q);
        assert(q2 > q) by (nonlinear_arith) requires i * q2 > i * q, i > 0;
        assert(i * q2 < i * q + 2 * i);
        assert(q2 < q + 2) by (nonlinear_arith) requires i * q2 < i * q + 2 * i, i > 0;
    }
}

} // verus!
