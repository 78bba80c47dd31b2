//! A named partnership of two seats across the table, with its scores.

use crate::table::Seat;
use vstd::prelude::*;

verus! {

/// Which of the two fixed partnerships a team is: the user's team sits
/// Bottom/Top, the opposing team Left/Right.
#[derive(Debug, Clone, Copy, PartialEq, Eq, Structural)]
pub enum TeamType {
    Home,
    Away,
}

/// Two non-adjacent seats with a name, the points won across the whole
/// game, and the tricks taken in the hand being played.
#[derive(Debug, Clone)]
pub struct Team {
    pub name: String,
    pub first_seat: Seat,
    pub second_seat: Seat,
    pub game_score: u8,
    pub hand_score: u8,
}

impl Team {
    /// The set of seats the team occupies.
    pub open spec fn seats(self) -> Set<Seat> {
        set![self.first_seat, self.second_seat]
    }

    /// The two seats are partners: directly across the table, never
    /// adjacent.
    pub open spec fn wf(self) -> bool {
        self.second_seat == self.first_seat.partner()
    }

    pub open spec fn spec_has_seat(self, seat: Seat) -> bool {
        seat == self.first_seat || seat == self.second_seat
    }

    /// A team with the given name on the given pair of partnered seats,
    /// with both scores starting at zero.
    pub fn new(name: String, first_seat: Seat, second_seat: Seat) -> (r: Team)
        requires
            second_seat == first_seat.partner(),
        ensures
            r.name == name,
            r.first_seat == first_seat,
            r.second_seat == second_seat,
            r.game_score == 0,
            r.hand_score == 0,
            r.wf(),
    {
        Team { name, first_seat, second_seat, game_score: 0, hand_score: 0 }
    }

    pub fn has_seat(&self, seat: Seat) -> (r: bool)
        ensures
            r == self.spec_has_seat(seat),
    {
        seat == self.first_seat || seat == self.second_seat
    }

    /// Record tricks or points won during the hand being played.
    pub fn add_hand_points(&mut self, points: u8)
        requires
            old(self).hand_score + points <= 255,
        ensures
            final(self).hand_score == old(self).hand_score + points,
            final(self).name == old(self).name,
            final(self).first_seat == old(self).first_seat,
            final(self).second_seat == old(self).second_seat,
            final(self).game_score == old(self).game_score,
    {
        self.hand_score = self.hand_score + points;
    }

    /// Fold the points earned this hand into the game score — saturating at
    /// the counter's top, far above the winning threshold — and reset the
    /// per-hand score for the next hand.
    pub fn advance_game_score(&mut self, points: u8)
        ensures
            final(self).game_score == if old(self).game_score + points <= 255 {
                old(self).game_score + points
            } else {
                255
            },
            final(self).hand_score == 0,
            final(self).name == old(self).name,
            final(self).first_seat == old(self).first_seat,
            final(self).second_seat == old(self).second_seat,
    {
        if self.game_score <= 255 - points {
            self.game_score = self.game_score + points;
        } else {
            self.game_score = 255;
        }
        self.hand_score = 0;
    }
}

} // verus!
