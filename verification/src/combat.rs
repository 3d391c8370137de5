//! Arrows hitting enemies, and enemies reaching the player.
//!
//! Which pairs are close enough to touch is measured on floating-point
//! positions outside this library; the rules here take those contacts as
//! booleans.

use vstd::prelude::*;
use crate::game_state::{GameState, spec_after_collisions};
use crate::player::Player;

verus! {

/// How many entries of `s` are `true`.
pub open spec fn count_true(s: Seq<bool>) -> nat
    decreases s.len(),
{
    if s.len() == 0 {
        0
    } else {
        count_true(s.drop_last()) + if s.last() { 1nat } else { 0nat }
    }
}

/// How many (arrow, enemy) pairs of the contact matrix touch.
pub open spec fn count_contacts(m: Seq<Seq<bool>>) -> nat
    decreases m.len(),
{
    if m.len() == 0 {
        0
    } else {
        count_contacts(m.drop_last()) + count_true(m.last())
    }
}

/// Arrow `i` touches some enemy.
pub open spec fn arrow_hits(m: Seq<Seq<bool>>, i: int) -> bool {
    m[i].contains(true)
}

/// Enemy `j` is touched by some arrow.
pub open spec fn enemy_hit(m: Seq<Seq<bool>>, j: int) -> bool {
    exists|i: int| 0 <= i < m.len() && #[trigger] m[i][j]
}

/// Every row of the contact matrix has one entry per enemy.
pub open spec fn rectangular(m: Seq<Seq<bool>>, n_enemies: nat) -> bool {
    forall|i: int| 0 <= i < m.len() ==> (#[trigger] m[i]).len() == n_enemies
}

/// What the collision check decided for this frame.
#[derive(Debug, PartialEq, Eq)]
pub struct CollisionOutcome {
    /// One entry per arrow: the arrow hit an enemy and is despawned.
    pub arrows_to_despawn: Vec<bool>,
    /// One entry per enemy: the enemy was hit and is despawned.
    pub enemies_to_despawn: Vec<bool>,
    /// The state change asked for: game over once an enemy reaches the player.
    pub next_state: Option<GameState>,
}

fn count_row(row: &Vec<bool>) -> (c: u64)
    requires
        row.len() <= u32::MAX,
    ensures
        c == count_true(row@),
{
    let mut c: u64 = 0;
    let mut k: usize = 0;
    while k < row.len()
        invariant
            k <= row.len(),
            row.len() <= u32::MAX,
            c == count_true(row@.subrange(0, k as int)),
            c <= k,
        decreases row.len() - k,
    {
        assert(row@.subrange(0, k + 1).drop_last() =~= row@.subrange(0, k as int));
        if row[k] {
            c = c + 1;
        }
        k = k + 1;
    }
    assert(row@.subrange(0, row.len() as int) =~= row@);
    c
}

fn row_any(row: &Vec<bool>) -> (b: bool)
    ensures
        b == row@.contains(true),
{
    let mut k: usize = 0;
    while k < row.len()
        invariant
            k <= row.len(),
            forall|x: int| 0 <= x < k ==> !row@[x],
        decreases row.len() - k,
    {
        if row[k] {
            assert(row@[k as int] == true);
            return true;
        }
        k = k + 1;
    }
    false
}

/// Counts the contacts, marks the arrows and enemies that were hit, and adds
/// one point per touching (arrow, enemy) pair to the player's score; an enemy
/// touching the player ends the game.
pub fn hit_collision(
    player: &mut Player,
    arrow_enemy_contacts: &Vec<Vec<bool>>,
    enemies_touching_player: &Vec<bool>,
) -> (outcome: CollisionOutcome)
    requires
        rectangular(arrow_enemy_contacts.deep_view(), enemies_touching_player.len() as nat),
        enemies_touching_player.len() <= u32::MAX,
        old(player).score + count_contacts(arrow_enemy_contacts.deep_view()) <= u32::MAX,
    ensures
        final(player).score == old(player).score + count_contacts(arrow_enemy_contacts.deep_view()),
        *final(player) == (Player { score: final(player).score, ..*old(player) }),
        outcome.arrows_to_despawn.len() == arrow_enemy_contacts.len(),
        forall|i: int| 0 <= i < arrow_enemy_contacts.len() ==>
            #[trigger] outcome.arrows_to_despawn@[i] == arrow_hits(arrow_enemy_contacts.deep_view(), i),
        outcome.enemies_to_despawn.len() == enemies_touching_player.len(),
        forall|j: int| 0 <= j < enemies_touching_player.len() ==>
            #[trigger] outcome.enemies_to_despawn@[j] == enemy_hit(arrow_enemy_contacts.deep_view(), j),
        outcome.next_state == spec_after_collisions(enemies_touching_player@.contains(true)),
{
    let ghost m = arrow_enemy_contacts.deep_view();
    let n = enemies_touching_player.len();
    let mut arrows_to_despawn: Vec<bool> = Vec::new();
    let mut enemies_to_despawn: Vec<bool> = Vec::new();
    let mut j: usize = 0;
    while j < n
        invariant
            j <= n,
            enemies_to_despawn.len() == j,
            forall|x: int| 0 <= x < j ==> !(#[trigger] enemies_to_despawn@[x]),
        decreases n - j,
    {
        enemies_to_despawn.push(false);
        j = j + 1;
    }
    let mut i: usize = 0;
    while i < arrow_enemy_contacts.len()
        invariant
            m == arrow_enemy_contacts.deep_view(),
            i <= arrow_enemy_contacts.len(),
            n == enemies_touching_player.len(),
            n <= u32::MAX,
            rectangular(m, n as nat),
            old(player).score + count_contacts(m) <= u32::MAX,
            player.score == old(player).score + count_contacts(m.subrange(0, i as int)),
            *player == (Player { score: player.score, ..*old(player) }),
            arrows_to_despawn.len() == i,
            forall|x: int| 0 <= x < i ==> #[trigger] arrows_to_despawn@[x] == arrow_hits(m, x),
            enemies_to_despawn.len() == n,
            forall|y: int| 0 <= y < n ==>
                #[trigger] enemies_to_despawn@[y] == (exists|x: int| 0 <= x < i && #[trigger] m[x][y]),
        decreases arrow_enemy_contacts.len() - i,
    {
        let row = &arrow_enemy_contacts[i];
        assert(row@ == m[i as int]);
        proof {
            lemma_count_contacts_prefix_le(m, i as int + 1);
            assert(m.subrange(0, i + 1).drop_last() =~= m.subrange(0, i as int));
        }
        let c = count_row(row);
        player.score = player.score + (c as u32);
        arrows_to_despawn.push(row_any(row));
        let mut k: usize = 0;
        while k < n
            invariant
                m == arrow_enemy_contacts.deep_view(),
                i < arrow_enemy_contacts.len(),
                row@ == m[i as int],
                k <= n,
                n == row.len(),
                enemies_to_despawn.len() == n,
                forall|y: int| 0 <= y < k ==>
                    #[trigger] enemies_to_despawn@[y] == (exists|x: int| 0 <= x < i + 1 && #[trigger] m[x][y]),
                forall|y: int| k <= y < n ==>
                    #[trigger] enemies_to_despawn@[y] == (exists|x: int| 0 <= x < i && #[trigger] m[x][y]),
            decreases n - k,
        {
            if row[k] {
                enemies_to_despawn.set(k, true);
            }
            proof {
                let y = k as int;
                if !row@[y] {
                    assert((exists|x: int| 0 <= x < i + 1 && #[trigger] m[x][y]) == (exists|x: int| 0 <= x < i && #[trigger] m[x][y])) by {
                        if exists|x: int| 0 <= x < i + 1 && #[trigger] m[x][y] {
                            let x = choose|x: int| 0 <= x < i + 1 && #[trigger] m[x][y];
                            assert(x != i);
                        }
                    }
                } else {
                    assert(m[i as int][y]);
                }
            }
            k = k + 1;
        }
        i = i + 1;
    }
    proof {
        assert(m.subrange(0, m.len() as int) =~= m);
    }
    let caught = row_any(enemies_touching_player);
    let next_state = if caught { Some(GameState::GameOver) } else { None };
    CollisionOutcome { arrows_to_despawn, enemies_to_despawn, next_state }
}

/// The contacts of a prefix of the rows never outnumber those of all rows.
proof fn lemma_count_contacts_prefix_le(m: Seq<Seq<bool>>, k: int)
    requires
        0 <= k <= m.len(),
    ensures
        count_contacts(m.subrange(0, k)) <= count_contacts(m),
    decreases m.len(),
{
    if k == m.len() {
        assert(m.subrange(0, k) =~= m);
    } else {
        assert(m.drop_last().subrange(0, k) =~= m.subrange(0, k));
        lemma_count_contacts_prefix_le(m.drop_last(), k);
    }
}

/// The count of `true` entries is the length of the sequence of `true`
/// entries: every contact counts, wherever it stands in its row.
pub proof fn lemma_count_true_counts_every_entry(s: Seq<bool>)
    ensures
        count_true(s) == s.filter(|b: bool| b).len(),
    decreases s.len(),
{
    reveal(Seq::filter);
    if s.len() > 0 {
        lemma_count_true_counts_every_entry(s.drop_last());
    }
}

/// A row without contacts counts zero.
pub proof fn lemma_count_true_none(s: Seq<bool>)
    requires
        forall|k: int| 0 <= k < s.len() ==> !s[k],
    ensures
        count_true(s) == 0,
    decreases s.len(),
{
    if s.len() > 0 {
        lemma_count_true_none(s.drop_last());
    }
}

/// Turning one non-contact of a row into a contact adds exactly one,
/// whatever its position.
pub proof fn lemma_count_true_one_more(s: Seq<bool>, j: int)
    requires
        0 <= j < s.len(),
        !s[j],
    ensures
        count_true(s.update(j, true)) == count_true(s) + 1,
    decreases s.len(),
{
    if j == s.len() - 1 {
        assert(s.update(j, true).drop_last() =~= s.drop_last());
    } else {
        assert(s.update(j, true).drop_last() =~= s.drop_last().update(j, true));
        lemma_count_true_one_more(s.drop_last(), j);
    }
}

/// A contact matrix without contacts scores nothing.
pub proof fn lemma_no_contacts_no_points(m: Seq<Seq<bool>>)
    requires
        forall|i: int, j: int| 0 <= i < m.len() && 0 <= j < m[i].len() ==> !m[i][j],
    ensures
        count_contacts(m) == 0,
    decreases m.len(),
{
    if m.len() > 0 {
        lemma_count_true_none(m.last());
        assert forall|i: int, j: int| 0 <= i < m.drop_last().len() && 0 <= j < m.drop_last()[i].len() implies
            !m.drop_last()[i][j] by {
            assert(m.drop_last()[i] == m[i]);
        }
        lemma_no_contacts_no_points(m.drop_last());
    }
}

/// Every (arrow, enemy) pair that touches is worth exactly one point: adding
/// one contact anywhere in the matrix adds exactly one to the count.
pub proof fn lemma_each_contact_scores_one(m: Seq<Seq<bool>>, i: int, j: int)
    requires
        0 <= i < m.len(),
        0 <= j < m[i].len(),
        !m[i][j],
    ensures
        count_contacts(m.update(i, m[i].update(j, true))) == count_contacts(m) + 1,
    decreases m.len(),
{
    let m2 = m.update(i, m[i].update(j, true));
    if i == m.len() - 1 {
        assert(m2.drop_last() =~= m.drop_last());
        lemma_count_true_one_more(m[i], j);
    } else {
        assert(m2.drop_last() =~= m.drop_last().update(i, m[i].update(j, true)));
        assert(m.drop_last()[i] == m[i]);
        lemma_each_contact_scores_one(m.drop_last(), i, j);
    }
}

} // verus!
