//! HUD text: the score and lives lines the presentation layer draws,
//! built by verified decimal formatting.

use vstd::prelude::*;

use crate::components::{Lives, Scoreboard};

verus! {

/// The character for one decimal digit.
pub open spec fn digit_char(d: int) -> char {
    if d == 0 {
        '0'
    } else if d == 1 {
        '1'
    } else if d == 2 {
        '2'
    } else if d == 3 {
        '3'
    } else if d == 4 {
        '4'
    } else if d == 5 {
        '5'
    } else if d == 6 {
        '6'
    } else if d == 7 {
        '7'
    } else if d == 8 {
        '8'
    } else {
        '9'
    }
}

/// The decimal representation of a number, most significant digit first,
/// with no leading zeroes (zero itself is a single digit).
pub open spec fn dec_rep(n: int) -> Seq<char>
    decreases n,
{
    if n < 10 {
        seq![digit_char(n)]
    } else {
        dec_rep(n / 10).push(digit_char(n % 10))
    }
}

/// One decimal digit as a string slice.
fn digit_str(d: u32) -> (s: &'static str)
    requires
        d < 10,
    ensures
        s@ =~= seq![digit_char(d as int)],
{
    proof {
        reveal_strlit("0");
        reveal_strlit("1");
        reveal_strlit("2");
        reveal_strlit("3");
        reveal_strlit("4");
        reveal_strlit("5");
        reveal_strlit("6");
        reveal_strlit("7");
        reveal_strlit("8");
        reveal_strlit("9");
    }
    match d {
        0 => "0",
        1 => "1",
        2 => "2",
        3 => "3",
        4 => "4",
        5 => "5",
        6 => "6",
        7 => "7",
        8 => "8",
        _ => "9",
    }
}

/// Formats a number in decimal.
pub fn u32_to_string(n: u32) -> (s: String)
    ensures
        s@ == dec_rep(n as int),
    decreases n,
{
    if n < 10 {
        let s = String::from_str(digit_str(n));
        proof {
            assert(s@ =~= dec_rep(n as int));
        }
        s
    } else {
        let mut s = u32_to_string(n / 10);
        s.append(digit_str(n % 10));
        proof {
            assert(s@ =~= dec_rep(n as int));
        }
        s
    }
}

/// The score line of the HUD, refreshed whenever the score changes.
pub fn update_scoreboard_ui(scoreboard: &Scoreboard) -> (s: String)
    ensures
        s@ == "Score: "@ + dec_rep(scoreboard.score as int),
{
    let mut s = String::from_str("Score: ");
    let digits = u32_to_string(scoreboard.score);
    s.append(digits.as_str());
    s
}

/// The lives line of the HUD, refreshed whenever a life is lost or
/// restored.
pub fn update_lives_ui(lives: &Lives) -> (s: String)
    ensures
        s@ == "Lives: "@ + dec_rep(lives.count as int),
{
    let mut s = String::from_str("Lives: ");
    let digits = u32_to_string(lives.count);
    s.append(digits.as_str());
    s
}

} // verus!
