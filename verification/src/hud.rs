//! The texts of the heads-up display: a life counter and the status line.

use vstd::prelude::*;
use vstd::string::StringExecFns;
use crate::round::Verdict;

verus! {

/// The character of a decimal digit.
pub open spec fn digit_char(d: nat) -> char {
    if d == 0 {
        '0'
    } else if d == 1 {
        '1'
    } else if d == 2 {
        '2'
    } else if d == 3 {
        '3'
    } else if d == 4 {
        '4'
    } else if d == 5 {
        '5'
    } else if d == 6 {
        '6'
    } else if d == 7 {
        '7'
    } else if d == 8 {
        '8'
    } else {
        '9'
    }
}

/// The decimal numeral of `n`, without leading zeros.
pub open spec fn decimal(n: nat) -> Seq<char>
    decreases n,
{
    if n < 10 {
        seq![digit_char(n)]
    } else {
        decimal(n / 10).push(digit_char(n % 10))
    }
}

/// The text of a life counter: a blank and the number of lives.
pub open spec fn lives_text(lives: u32) -> Seq<char> {
    seq![' '] + decimal(lives as nat)
}

fn digit_str(d: u32) -> (s: &'static str)
    requires
        d < 10,
    ensures
        s@ == seq![digit_char(d as nat)],
{
    proof {
        reveal_strlit("0");
        reveal_strlit("1");
        reveal_strlit("2");
        reveal_strlit("3");
        reveal_strlit("4");
        reveal_strlit("5");
        reveal_strlit("6");
        reveal_strlit("7");
        reveal_strlit("8");
        reveal_strlit("9");
    }
    let s: &'static str = match d {
        0 => "0",
        1 => "1",
        2 => "2",
        3 => "3",
        4 => "4",
        5 => "5",
        6 => "6",
        7 => "7",
        8 => "8",
        _ => "9",
    };
    assert(s@ =~= seq![digit_char(d as nat)]);
    s
}

fn push_decimal(text: &mut String, n: u32)
    ensures
        final(text)@ == old(text)@ + decimal(n as nat),
    decreases n,
{
    if n >= 10 {
        push_decimal(text, n / 10);
    }
    text.append(digit_str(n % 10));
    assert(text@ =~= old(text)@ + decimal(n as nat));
}

/// Writes a life counter for the display.
pub fn lives_label(lives: u32) -> (label: String)
    ensures
        label@ == lives_text(lives),
{
    proof {
        reveal_strlit(" ");
    }
    let mut label: String = String::from_str(" ");
    assert(label@ =~= seq![' ']);
    push_decimal(&mut label, lives);
    label
}

/// The invitation to start, shown in the menu.
pub fn prompt_text(shown: bool) -> (text: &'static str)
    ensures
        text@ == if shown {
            " Left click to start"@
        } else {
            ""@
        },
{
    if shown {
        " Left click to start"
    } else {
        ""
    }
}

/// The announcement of the result of a round.
pub fn verdict_text(verdict: Option<Verdict>) -> (text: &'static str)
    ensures
        text@ == match verdict {
            Some(Verdict::OpponentWins) => " Enemy Wins!"@,
            Some(Verdict::PlayerWins) => " Player Wins!"@,
            None => ""@,
        },
{
    match verdict {
        Some(Verdict::OpponentWins) => " Enemy Wins!",
        Some(Verdict::PlayerWins) => " Player Wins!",
        None => "",
    }
}

} // verus!
