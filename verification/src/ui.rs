//! The scoreboard and the text the display layer shows for it.

use vstd::prelude::*;
use vstd::string::StringExecFns;

verus! {

/// The single score counter: initialized to zero at startup, only ever
/// incremented, never reset during a session.
#[derive(Clone, Copy, Debug, PartialEq, Eq, Structural)]
pub struct ScoreBoard {
    pub score: usize,
}

impl ScoreBoard {
    pub fn new() -> (sb: ScoreBoard)
        ensures
            sb.score == 0,
    {
        ScoreBoard { score: 0 }
    }

    /// Add one to the score.
    pub fn increment(&mut self)
        requires
            old(self).score < usize::MAX,
        ensures
            final(self).score == old(self).score + 1,
    {
        self.score = self.score + 1;
    }

    /// Read the score.
    pub fn current(&self) -> (s: usize)
        ensures
            s == self.score,
    {
        self.score
    }
}

/// The character for one decimal digit.
pub open spec fn digit_char(d: nat) -> char
    recommends
        d < 10,
{
    if d == 0 {
        '0'
    } else if d == 1 {
        '1'
    } else if d == 2 {
        '2'
    } else if d == 3 {
        '3'
    } else if d == 4 {
        '4'
    } else if d == 5 {
        '5'
    } else if d == 6 {
        '6'
    } else if d == 7 {
        '7'
    } else if d == 8 {
        '8'
    } else {
        '9'
    }
}

/// The decimal digits of `n`, most significant first, with no leading zero
/// except for `n == 0` itself.
pub open spec fn decimal_digits(n: nat) -> Seq<char>
    decreases n,
{
    if n < 10 {
        seq![digit_char(n)]
    } else {
        decimal_digits(n / 10) + seq![digit_char(n % 10)]
    }
}

/// The one-character string for a decimal digit.
fn digit_str(d: u64) -> (s: &'static str)
    requires
        d < 10,
    ensures
        s@ == seq![digit_char(d as nat)],
{
    if d == 0 {
        let s = "0";
        proof {
            reveal_strlit("0");
            assert(s@ =~= seq![digit_char(d as nat)]);
        }
        s
    } else if d == 1 {
        let s = "1";
        proof {
            reveal_strlit("1");
            assert(s@ =~= seq![digit_char(d as nat)]);
        }
        s
    } else if d == 2 {
        let s = "2";
        proof {
            reveal_strlit("2");
            assert(s@ =~= seq![digit_char(d as nat)]);
        }
        s
    } else if d == 3 {
        let s = "3";
        proof {
            reveal_strlit("3");
            assert(s@ =~= seq![digit_char(d as nat)]);
        }
        s
    } else if d == 4 {
        let s = "4";
        proof {
            reveal_strlit("4");
            assert(s@ =~= seq![digit_char(d as nat)]);
        }
        s
    } else if d == 5 {
        let s = "5";
        proof {
            reveal_strlit("5");
            assert(s@ =~= seq![digit_char(d as nat)]);
        }
        s
    } else if d == 6 {
        let s = "6";
        proof {
            reveal_strlit("6");
            assert(s@ =~= seq![digit_char(d as nat)]);
        }
        s
    } else if d == 7 {
        let s = "7";
        proof {
            reveal_strlit("7");
            assert(s@ =~= seq![digit_char(d as nat)]);
        }
        s
    } else if d == 8 {
        let s = "8";
        proof {
            reveal_strlit("8");
            assert(s@ =~= seq![digit_char(d as nat)]);
        }
        s
    } else {
        let s = "9";
        proof {
            reveal_strlit("9");
            assert(s@ =~= seq![digit_char(d as nat)]);
        }
        s
    }
}

/// `n` written in decimal.
pub fn u64_to_decimal(n: u64) -> (s: String)
    ensures
        s@ == decimal_digits(n as nat),
    decreases n,
{
    if n < 10 {
        digit_str(n).to_owned()
    } else {
        let mut s = u64_to_decimal(n / 10);
        s.append(digit_str(n % 10));
        proof {
            assert(s@ =~= decimal_digits(n as nat));
        }
        s
    }
}

/// The text a display adapter shows for the scoreboard: the score in
/// decimal.
pub fn update_scoreboard(scoreboard: &ScoreBoard) -> (text: String)
    ensures
        text@ == decimal_digits(scoreboard.score as nat),
{
    u64_to_decimal(scoreboard.score as u64)
}

} // verus!
