//! Accessibility scores and the reply threshold.
//!
//! The audit service reports a score in the closed interval from zero to one.
//! It is held here in fixed point, as a count of hundred-thousandths, so the
//! threshold comparison and the rendering of the number in a reply are exact.

use vstd::prelude::*;
use vstd::string::*;

use crate::text::push_char;

verus! {

/// One whole point of score, in units: scores range over `0 ..= SCORE_SCALE`.
pub const SCORE_SCALE: u32 = 100000;

/// Scores at or above this many units are good enough; no reply is sent.
pub const REPLY_THRESHOLD_UNITS: u32 = 80000;

/// An accessibility score, in hundred-thousandths of a point.
#[derive(Clone, Copy, Debug, PartialEq, Eq, Structural)]
pub struct Score {
    pub units: u32,
}

/// The decimal digit character for a value below ten.
pub open spec fn dec_digit(d: int) -> char {
    if d == 0 {
        '0'
    } else if d == 1 {
        '1'
    } else if d == 2 {
        '2'
    } else if d == 3 {
        '3'
    } else if d == 4 {
        '4'
    } else if d == 5 {
        '5'
    } else if d == 6 {
        '6'
    } else if d == 7 {
        '7'
    } else if d == 8 {
        '8'
    } else {
        '9'
    }
}

/// The five fractional digits of a score below one, most significant first.
pub open spec fn five_digits(u: int) -> Seq<char> {
    seq![
        dec_digit(u / 10000 % 10),
        dec_digit(u / 1000 % 10),
        dec_digit(u / 100 % 10),
        dec_digit(u / 10 % 10),
        dec_digit(u % 10),
    ]
}

/// How many fractional digits remain once trailing zeros are dropped.
pub open spec fn kept_digits(u: int) -> int {
    if u % 10 != 0 {
        5
    } else if u % 100 != 0 {
        4
    } else if u % 1000 != 0 {
        3
    } else if u % 10000 != 0 {
        2
    } else {
        1
    }
}

/// The decimal text of a score of `u` units: `1` and `0` at the ends of the
/// range, otherwise `0.` followed by the fractional digits without trailing
/// zeros — the shortest text that names the score exactly.
pub open spec fn score_text(u: int) -> Seq<char> {
    if u == SCORE_SCALE {
        seq!['1']
    } else if u == 0 {
        seq!['0']
    } else {
        seq!['0', '.'] + five_digits(u).take(kept_digits(u))
    }
}

impl Score {
    /// A score is a fraction of one: at most the full scale.
    pub open spec fn wf(self) -> bool {
        self.units <= SCORE_SCALE
    }

    /// A score from its unit count.
    pub fn from_units(units: u32) -> (r: Score)
        requires
            units <= SCORE_SCALE,
        ensures
            r.units == units,
            r.wf(),
    {
        Score { units }
    }

    /// Whether the score is good enough to leave the link alone. The
    /// threshold itself is good enough: only scores strictly below it draw a
    /// reply.
    pub fn is_acceptable(&self) -> (r: bool)
        ensures
            r <==> self.units >= REPLY_THRESHOLD_UNITS,
    {
        self.units >= REPLY_THRESHOLD_UNITS
    }

    /// The decimal text of the score, exactly as [`score_text`] states it.
    pub fn render(&self) -> (r: String)
        requires
            self.wf(),
        ensures
            r@ == score_text(self.units as int),
    {
        if self.units == SCORE_SCALE {
            proof {
                reveal_strlit("1");
            }
            return String::from_str("1");
        }
        if self.units == 0 {
            proof {
                reveal_strlit("0");
            }
            return String::from_str("0");
        }
        proof {
            reveal_strlit("0.");
        }
        let mut out = String::from_str("0.");
        let u = self.units;
        let kept: u32 = if u % 10 != 0 {
            5
        } else if u % 100 != 0 {
            4
        } else if u % 1000 != 0 {
            3
        } else if u % 10000 != 0 {
            2
        } else {
            1
        };
        push_char(&mut out, dec_digit_char(u / 10000 % 10));
        if kept >= 2 {
            push_char(&mut out, dec_digit_char(u / 1000 % 10));
        }
        if kept >= 3 {
            push_char(&mut out, dec_digit_char(u / 100 % 10));
        }
        if kept >= 4 {
            push_char(&mut out, dec_digit_char(u / 10 % 10));
        }
        if kept >= 5 {
            push_char(&mut out, dec_digit_char(u % 10));
        }
        proof {
            assert(out@ =~= seq!['0', '.'] + five_digits(u as int).take(kept_digits(u as int)));
        }
        out
    }
}

/// The decimal digit character for a value below ten.
fn dec_digit_char(d: u32) -> (c: char)
    requires
        d < 10,
    ensures
        c == dec_digit(d as int),
{
    if d == 0 {
        '0'
    } else if d == 1 {
        '1'
    } else if d == 2 {
        '2'
    } else if d == 3 {
        '3'
    } else if d == 4 {
        '4'
    } else if d == 5 {
        '5'
    } else if d == 6 {
        '6'
    } else if d == 7 {
        '7'
    } else if d == 8 {
        '8'
    } else {
        '9'
    }
}

} // verus!
