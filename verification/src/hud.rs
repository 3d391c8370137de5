//! What the heads-up display shows: the score line and the power-shot
//! cooldown indicator.

use vstd::prelude::*;
use crate::player::PowerShotCooldownTimer;

verus! {

/// The character of a decimal digit.
pub open spec fn digit_char(d: nat) -> char {
    ('0' as nat + d) as char
}

/// The decimal notation of `n`, most significant digit first, without
/// leading zeros.
pub open spec fn spec_decimal(n: nat) -> Seq<char>
    decreases n,
{
    if n < 10 {
        seq![digit_char(n)]
    } else {
        spec_decimal(n / 10).push(digit_char(n % 10))
    }
}

fn digit_str(d: u32) -> (s: &'static str)
    requires
        d < 10,
    ensures
        s@ == seq![digit_char(d as nat)],
{
    match d {
        0 => { proof { reveal_strlit("0"); } "0" },
        1 => { proof { reveal_strlit("1"); } "1" },
        2 => { proof { reveal_strlit("2"); } "2" },
        3 => { proof { reveal_strlit("3"); } "3" },
        4 => { proof { reveal_strlit("4"); } "4" },
        5 => { proof { reveal_strlit("5"); } "5" },
        6 => { proof { reveal_strlit("6"); } "6" },
        7 => { proof { reveal_strlit("7"); } "7" },
        8 => { proof { reveal_strlit("8"); } "8" },
        _ => { proof { reveal_strlit("9"); } "9" },
    }
}

fn append_decimal(s: &mut String, n: u32)
    ensures
        final(s)@ == old(s)@ + spec_decimal(n as nat),
    decreases n,
{
    if n >= 10 {
        append_decimal(s, n / 10);
    }
    s.append(digit_str(n % 10));
    proof {
        if n >= 10 {
            assert(spec_decimal(n as nat) == spec_decimal((n / 10) as nat).push(digit_char((n % 10) as nat)));
        }
    }
}

/// The score line shown in the corner: `Score: ` and the score in decimal.
pub fn update_player_score(score: u32) -> (text: String)
    ensures
        text@ == "Score: "@ + spec_decimal(score as nat),
{
    let mut text = String::from_str("Score: ");
    append_decimal(&mut text, score);
    text
}

/// What the power-shot cooldown indicator shows.
#[derive(Clone, Copy, Debug, PartialEq, Eq, Structural)]
pub enum CooldownDisplay {
    /// The indicator is visible and counts down the remaining time.
    Countdown { remaining_ns: u64 },
    /// The cooldown has run out: the indicator is hidden.
    Hidden,
}

/// The indicator for a cooldown with `remaining` nanoseconds left.
pub open spec fn spec_cooldown_display(remaining: nat) -> CooldownDisplay {
    if remaining > 0 {
        CooldownDisplay::Countdown { remaining_ns: remaining as u64 }
    } else {
        CooldownDisplay::Hidden
    }
}

/// Decides the power-shot cooldown indicator; with no indicator elements in
/// the scene there is nothing to update.
pub fn update_power_cooldown_ui(
    indicator_elements: usize,
    power_shot_cooldown_timer: &PowerShotCooldownTimer,
) -> (display: Option<CooldownDisplay>)
    requires
        power_shot_cooldown_timer.0.wf(),
    ensures
        display == (if indicator_elements == 0 {
            None
        } else {
            Some(spec_cooldown_display(power_shot_cooldown_timer.0.spec_remaining()))
        }),
{
    if indicator_elements == 0 {
        return None;
    }
    let remaining = power_shot_cooldown_timer.0.remaining();
    if remaining > 0 {
        Some(CooldownDisplay::Countdown { remaining_ns: remaining })
    } else {
        Some(CooldownDisplay::Hidden)
    }
}

/// The decimal notation is never empty and never starts with a zero unless
/// the number is zero.
pub proof fn lemma_decimal_well_formed(n: nat)
    ensures
        spec_decimal(n).len() >= 1,
        spec_decimal(n)[0] == '0' <==> n == 0,
        forall|k: int| 0 <= k < spec_decimal(n).len() ==> '0' <= #[trigger] spec_decimal(n)[k] <= '9',
    decreases n,
{
    if n >= 10 {
        lemma_decimal_well_formed(n / 10);
    }
}

/// Different scores give different score lines.
pub proof fn lemma_decimal_injective(a: nat, b: nat)
    requires
        spec_decimal(a) == spec_decimal(b),
    ensures
        a == b,
    decreases a + b,
{
    lemma_decimal_well_formed(a);
    lemma_decimal_well_formed(b);
    let da = spec_decimal(a);
    let db = spec_decimal(b);
    if a < 10 && b < 10 {
        assert(da[0] == db[0]);
    } else if a < 10 {
        lemma_decimal_well_formed(b / 10);
        assert(da.len() == 1);
        assert(db.len() == spec_decimal(b / 10).len() + 1);
    } else if b < 10 {
        lemma_decimal_well_formed(a / 10);
        assert(db.len() == 1);
        assert(da.len() == spec_decimal(a / 10).len() + 1);
    } else {
        assert(da.drop_last() =~= spec_decimal(a / 10));
        assert(db.drop_last() =~= spec_decimal(b / 10));
        lemma_decimal_injective(a / 10, b / 10);
        assert(da.last() == db.last());
        assert(digit_char(a % 10) == digit_char(b % 10));
    }
}

/// The number a sequence of decimal digits stands for, most significant
/// digit first.
pub open spec fn decimal_value(s: Seq<char>) -> int
    decreases s.len(),
{
    if s.len() == 0 {
        0
    } else {
        decimal_value(s.drop_last()) * 10 + (s.last() as int - '0' as int)
    }
}

/// The digits of the score line stand for the score itself.
pub proof fn lemma_decimal_value(n: nat)
    ensures
        decimal_value(spec_decimal(n)) == n,
    decreases n,
{
    let s = spec_decimal(n);
    if n < 10 {
        assert(s.drop_last() =~= Seq::<char>::empty());
        assert(s.last() == digit_char(n));
        assert(digit_char(n) as int == '0' as int + n);
        assert(decimal_value(s) == decimal_value(s.drop_last()) * 10 + (s.last() as int - '0' as int));
    } else {
        lemma_decimal_value(n / 10);
        assert(s.drop_last() =~= spec_decimal(n / 10));
        assert(s.last() == digit_char(n % 10));
        assert(digit_char(n % 10) as int == '0' as int + n % 10);
        assert(decimal_value(s) == decimal_value(s.drop_last()) * 10 + (s.last() as int - '0' as int));
        vstd::arithmetic::div_mod::lemma_fundamental_div_mod(n as int, 10);
    }
}

} // verus!
