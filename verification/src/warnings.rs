//! Warning signs: an exclamation mark for every enemy inside the danger zone,
//! linked to its enemy and removed once that enemy is gone.
//!
//! Entities are identified by their bits (`Entity::to_bits`); the distance
//! test itself is made on floating-point positions outside this library.

use vstd::prelude::*;

verus! {

/// A warning sign, linked to the enemy it warns about.
#[derive(Clone, Copy, Debug, PartialEq, Eq, Hash, Structural)]
pub struct WarningSign {
    pub enemy_entity: u64,
}

/// Some sign in `warnings` already warns about `enemy`.
pub open spec fn has_warning(warnings: Seq<WarningSign>, enemy: u64) -> bool {
    exists|w: int| 0 <= w < warnings.len() && (#[trigger] warnings[w]).enemy_entity == enemy
}

/// The enemies among the first `n` that are inside the danger zone and have
/// no warning sign yet, in the order of `enemies`.
pub open spec fn spec_new_warnings(
    enemies: Seq<u64>,
    in_danger_zone: Seq<bool>,
    warnings: Seq<WarningSign>,
    n: nat,
) -> Seq<u64>
    decreases n,
{
    if n == 0 {
        Seq::empty()
    } else {
        let k = n - 1;
        let before = spec_new_warnings(enemies, in_danger_zone, warnings, k as nat);
        if in_danger_zone[k] && !has_warning(warnings, enemies[k]) {
            before.push(enemies[k])
        } else {
            before
        }
    }
}

fn warned(warnings: &Vec<WarningSign>, enemy: u64) -> (b: bool)
    ensures
        b == has_warning(warnings@, enemy),
{
    let mut w: usize = 0;
    while w < warnings.len()
        invariant
            w <= warnings.len(),
            forall|x: int| 0 <= x < w ==> (#[trigger] warnings@[x]).enemy_entity != enemy,
        decreases warnings.len() - w,
    {
        if warnings[w].enemy_entity == enemy {
            assert(warnings@[w as int].enemy_entity == enemy);
            return true;
        }
        w = w + 1;
    }
    false
}

/// The enemies that need a new warning sign this frame: those inside the
/// danger zone that no existing sign is linked to.
pub fn check_enemy_proximity(
    enemies: &Vec<u64>,
    in_danger_zone: &Vec<bool>,
    warnings: &Vec<WarningSign>,
) -> (new_signs: Vec<u64>)
    requires
        in_danger_zone.len() == enemies.len(),
    ensures
        new_signs@ == spec_new_warnings(enemies@, in_danger_zone@, warnings@, enemies.len() as nat),
{
    let mut new_signs: Vec<u64> = Vec::new();
    let mut k: usize = 0;
    while k < enemies.len()
        invariant
            k <= enemies.len(),
            in_danger_zone.len() == enemies.len(),
            new_signs@ == spec_new_warnings(enemies@, in_danger_zone@, warnings@, k as nat),
        decreases enemies.len() - k,
    {
        if in_danger_zone[k] && !warned(warnings, enemies[k]) {
            new_signs.push(enemies[k]);
        }
        k = k + 1;
    }
    new_signs
}

/// For each warning sign, whether its enemy is gone and the sign must be
/// removed.
pub fn remove_far_warning_signs(warnings: &Vec<WarningSign>, enemies: &Vec<u64>) -> (stale: Vec<bool>)
    ensures
        stale.len() == warnings.len(),
        forall|w: int| 0 <= w < warnings.len() ==>
            #[trigger] stale@[w] == !enemies@.contains(warnings@[w].enemy_entity),
{
    let mut stale: Vec<bool> = Vec::new();
    let mut w: usize = 0;
    while w < warnings.len()
        invariant
            w <= warnings.len(),
            stale.len() == w,
            forall|x: int| 0 <= x < w ==>
                #[trigger] stale@[x] == !enemies@.contains(warnings@[x].enemy_entity),
        decreases warnings.len() - w,
    {
        let target = warnings[w].enemy_entity;
        let mut found = false;
        let mut e: usize = 0;
        while e < enemies.len()
            invariant
                e <= enemies.len(),
                found == (exists|y: int| 0 <= y < e && enemies@[y] == target),
            decreases enemies.len() - e,
        {
            if enemies[e] == target {
                found = true;
            }
            e = e + 1;
        }
        proof {
            if found {
                let y = choose|y: int| 0 <= y < enemies.len() && enemies@[y] == target;
                assert(enemies@.contains(target));
            }
        }
        stale.push(!found);
        w = w + 1;
    }
    stale
}

/// Every enemy proposed for a new sign is in the danger zone and not yet
/// warned about.
pub proof fn lemma_new_warnings_are_needed(
    enemies: Seq<u64>,
    in_danger_zone: Seq<bool>,
    warnings: Seq<WarningSign>,
    n: nat,
)
    requires
        n <= enemies.len(),
        in_danger_zone.len() == enemies.len(),
    ensures
        forall|x: int| 0 <= x < spec_new_warnings(enemies, in_danger_zone, warnings, n).len() ==>
            !has_warning(warnings, #[trigger] spec_new_warnings(enemies, in_danger_zone, warnings, n)[x])
            && exists|k: int| 0 <= k < n && in_danger_zone[k] && enemies[k] == spec_new_warnings(enemies, in_danger_zone, warnings, n)[x],
    decreases n,
{
    if n > 0 {
        lemma_new_warnings_are_needed(enemies, in_danger_zone, warnings, (n - 1) as nat);
        let k = n - 1;
        let before = spec_new_warnings(enemies, in_danger_zone, warnings, k as nat);
        let after = spec_new_warnings(enemies, in_danger_zone, warnings, n);
        assert forall|x: int| 0 <= x < after.len() implies
            !has_warning(warnings, #[trigger] after[x])
            && exists|j: int| 0 <= j < n && in_danger_zone[j] && enemies[j] == after[x] by {
            if x < before.len() {
                assert(after[x] == before[x]);
                let j = choose|j: int| 0 <= j < k && in_danger_zone[j] && enemies[j] == before[x];
                assert(0 <= j < n && in_danger_zone[j] && enemies[j] == after[x]);
            } else {
                assert(0 <= k < n && in_danger_zone[k as int] && enemies[k as int] == after[x]);
            }
        }
    }
}

/// After the new signs are placed, every enemy inside the danger zone has a
/// sign, and, when the enemies are distinct, no enemy gets a second new sign.
pub proof fn lemma_warnings_cover_danger_zone(
    enemies: Seq<u64>,
    in_danger_zone: Seq<bool>,
    warnings: Seq<WarningSign>,
    n: nat,
)
    requires
        n <= enemies.len(),
        in_danger_zone.len() == enemies.len(),
    ensures
        forall|k: int| 0 <= k < n && #[trigger] in_danger_zone[k] ==>
            has_warning(warnings, enemies[k]) || spec_new_warnings(enemies, in_danger_zone, warnings, n).contains(enemies[k]),
        (forall|a: int, b: int| 0 <= a < b < enemies.len() ==> enemies[a] != enemies[b]) ==>
            spec_new_warnings(enemies, in_danger_zone, warnings, n).no_duplicates(),
    decreases n,
{
    if n > 0 {
        lemma_warnings_cover_danger_zone(enemies, in_danger_zone, warnings, (n - 1) as nat);
        lemma_new_warnings_are_needed(enemies, in_danger_zone, warnings, (n - 1) as nat);
        let k = n - 1;
        let before = spec_new_warnings(enemies, in_danger_zone, warnings, k as nat);
        let after = spec_new_warnings(enemies, in_danger_zone, warnings, n);
        assert forall|j: int| 0 <= j < n && #[trigger] in_danger_zone[j] implies
            has_warning(warnings, enemies[j]) || after.contains(enemies[j]) by {
            if j < k {
                if before.contains(enemies[j]) {
                    let x = choose|x: int| 0 <= x < before.len() && before[x] == enemies[j];
                    assert(after[x] == enemies[j]);
                }
            } else if !has_warning(warnings, enemies[j]) {
                assert(after[before.len() as int] == enemies[j]);
            }
        }
        if forall|a: int, b: int| 0 <= a < b < enemies.len() ==> enemies[a] != enemies[b] {
            if in_danger_zone[k as int] && !has_warning(warnings, enemies[k as int]) {
                assert forall|x: int, y: int| 0 <= x < after.len() && 0 <= y < after.len() && x != y
                    implies after[x] != after[y] by {
                    if x < before.len() && y < before.len() {
                        assert(after[x] == before[x] && after[y] == before[y]);
                    } else if x < before.len() {
                        let j = choose|j: int| 0 <= j < k && in_danger_zone[j] && enemies[j] == before[x];
                        assert(enemies[j] != enemies[k as int]);
                    } else {
                        let j = choose|j: int| 0 <= j < k && in_danger_zone[j] && enemies[j] == before[y];
                        assert(enemies[j] != enemies[k as int]);
                    }
                }
            }
        }
    }
}

/// No two signs of `warnings` are linked to `enemy`.
pub open spec fn at_most_one_sign(warnings: Seq<WarningSign>, enemy: u64) -> bool {
    forall|a: int, b: int|
        0 <= a < warnings.len() && 0 <= b < warnings.len() && (#[trigger] warnings[a]).enemy_entity == enemy
            && (#[trigger] warnings[b]).enemy_entity == enemy ==> a == b
}

/// The signs placed for the enemies in `new_signs`, one each.
pub open spec fn spec_signs_for(new_signs: Seq<u64>) -> Seq<WarningSign> {
    new_signs.map_values(|e: u64| WarningSign { enemy_entity: e })
}

/// After a frame's new signs are placed beside the existing ones, no enemy
/// has two signs, and every enemy inside the danger zone has exactly one,
/// provided the enemies are distinct (as entities are) and no enemy had two
/// signs before.
pub proof fn lemma_one_sign_per_enemy(
    enemies: Seq<u64>,
    in_danger_zone: Seq<bool>,
    warnings: Seq<WarningSign>,
)
    requires
        in_danger_zone.len() == enemies.len(),
        forall|a: int, b: int| 0 <= a < b < enemies.len() ==> enemies[a] != enemies[b],
        forall|k: int| 0 <= k < enemies.len() ==> at_most_one_sign(warnings, #[trigger] enemies[k]),
    ensures
        ({
            let after = warnings + spec_signs_for(
                spec_new_warnings(enemies, in_danger_zone, warnings, enemies.len() as nat),
            );
            &&& forall|k: int| 0 <= k < enemies.len() ==> at_most_one_sign(after, #[trigger] enemies[k])
            &&& forall|k: int| 0 <= k < enemies.len() && #[trigger] in_danger_zone[k] ==>
                has_warning(after, enemies[k]) && at_most_one_sign(after, enemies[k])
        }),
{
    let n = enemies.len() as nat;
    let new = spec_new_warnings(enemies, in_danger_zone, warnings, n);
    let signs = spec_signs_for(new);
    let after = warnings + signs;
    lemma_new_warnings_are_needed(enemies, in_danger_zone, warnings, n);
    lemma_warnings_cover_danger_zone(enemies, in_danger_zone, warnings, n);
    assert(new.no_duplicates());
    assert forall|k: int| 0 <= k < enemies.len() implies at_most_one_sign(after, #[trigger] enemies[k]) by {
        let e = enemies[k];
        assert(at_most_one_sign(warnings, e));
        assert forall|a: int, b: int|
            0 <= a < after.len() && 0 <= b < after.len() && (#[trigger] after[a]).enemy_entity == e
                && (#[trigger] after[b]).enemy_entity == e implies a == b by {
            let w = warnings.len() as int;
            if a < w && b < w {
                assert(after[a] == warnings[a] && after[b] == warnings[b]);
            } else if a >= w && b >= w {
                assert(after[a] == signs[a - w] && after[b] == signs[b - w]);
                assert(new[a - w] == e && new[b - w] == e);
            } else if a < w {
                assert(after[a] == warnings[a]);
                assert(new[b - w] == e);
                assert(has_warning(warnings, e));
                assert(!has_warning(warnings, new[b - w]));
            } else {
                assert(after[b] == warnings[b]);
                assert(new[a - w] == e);
                assert(has_warning(warnings, e));
                assert(!has_warning(warnings, new[a - w]));
            }
        }
    }
    assert forall|k: int| 0 <= k < enemies.len() && #[trigger] in_danger_zone[k] implies
        has_warning(after, enemies[k]) && at_most_one_sign(after, enemies[k]) by {
        assert(at_most_one_sign(after, enemies[k]));
        if has_warning(warnings, enemies[k]) {
            let w = choose|w: int| 0 <= w < warnings.len() && (#[trigger] warnings[w]).enemy_entity == enemies[k];
            assert(after[w] == warnings[w]);
        } else {
            assert(new.contains(enemies[k]));
            let x = choose|x: int| 0 <= x < new.len() && new[x] == enemies[k];
            assert(after[warnings.len() + x] == signs[x]);
        }
    }
}

} // verus!
