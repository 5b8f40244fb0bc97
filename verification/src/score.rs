//! The player's score.

use vstd::prelude::*;

verus! {

/// Points awarded for each piece of food.
pub const POINTS_PER_FOOD: u32 = 100;

/// The character of a decimal digit.
pub open spec fn digit_char(d: int) -> char {
    ((48 + d) as u8) as char
}

/// The decimal notation of a number, most significant digit first.
pub open spec fn decimal(n: nat) -> Seq<char>
    decreases n,
{
    if n < 10 {
        seq![digit_char(n as int)]
    } else {
        decimal(n / 10).push(digit_char((n % 10) as int))
    }
}

/// The line of text that shows a score: the points in decimal notation
/// behind a label, which says so when the game is over.
pub open spec fn score_line(points: int, game_over: bool) -> Seq<char> {
    (if game_over {
        "Game Over - Score: "@
    } else {
        "Score: "@
    }) + decimal(points as nat)
}

/// `String::push` appends the one character to the end of the string and
/// leaves what was there in place.
pub assume_specification[ String::push ](s: &mut String, ch: char)
    ensures
        final(s)@ == old(s)@.push(ch),
;

/// Appends the decimal notation of `n` to `s`.
fn push_decimal(s: &mut String, n: u32)
    ensures
        final(s)@ == old(s)@ + decimal(n as nat),
    decreases n,
{
    if n >= 10 {
        push_decimal(s, n / 10);
    }
    let digit: u8 = (n % 10) as u8;
    s.push((48 + digit) as char);
    assert(s@ =~= old(s)@ + decimal(n as nat));
}

/// The points a player has collected.
pub struct Score {
    points: u32,
}

impl View for Score {
    type V = int;

    closed spec fn view(&self) -> int {
        self.points as int
    }
}

impl Score {
    /// A score of zero.
    pub fn new() -> (s: Score)
        ensures
            s@ == 0,
    {
        Score { points: 0 }
    }

    /// Adds the points of one piece of food.
    pub fn increase(&mut self)
        requires
            old(self)@ + POINTS_PER_FOOD <= u32::MAX,
        ensures
            final(self)@ == old(self)@ + POINTS_PER_FOOD,
    {
        self.points += POINTS_PER_FOOD;
    }

    /// The line of text that shows this score.
    pub fn text(&self, game_over: bool) -> (s: String)
        ensures
            s@ == score_line(self@, game_over),
    {
        let mut s = if game_over {
            "Game Over - Score: ".to_owned()
        } else {
            "Score: ".to_owned()
        };
        push_decimal(&mut s, self.points);
        s
    }

    /// The points collected so far.
    pub fn get(&self) -> (p: u32)
        ensures
            p == self@,
    {
        self.points
    }
}

} // verus!
