//! The four fixed table positions, in clockwise turn order.

use rand::Rng;
use vstd::prelude::*;

verus! {

/// One of the four fixed positions around the table. Turn order cycles
/// Bottom -> Left -> Top -> Right -> Bottom; Bottom/Top and Left/Right
/// are the two fixed partnerships.
#[derive(Debug, Clone, Copy, PartialEq, Eq, Hash, Structural)]
pub enum Seat {
    Bottom,
    Left,
    Top,
    Right,
}

impl Seat {
    /// Position of the seat in turn order, counting from Bottom.
    pub open spec fn index(self) -> int {
        match self {
            Seat::Bottom => 0,
            Seat::Left => 1,
            Seat::Top => 2,
            Seat::Right => 3,
        }
    }

    /// The seat to the left, i.e. the next seat in turn order.
    pub open spec fn spec_next(&self) -> Seat {
        match self {
            Seat::Bottom => Seat::Left,
            Seat::Left => Seat::Top,
            Seat::Top => Seat::Right,
            Seat::Right => Seat::Bottom,
        }
    }

    /// The seat at the given position in turn order, counting from Bottom.
    pub open spec fn at_pos(j: int) -> Seat {
        if j == 0 {
            Seat::Bottom
        } else if j == 1 {
            Seat::Left
        } else if j == 2 {
            Seat::Top
        } else {
            Seat::Right
        }
    }

    /// The seat reached after `n` steps in turn order.
    pub open spec fn advanced_by(self, n: nat) -> Seat {
        Seat::at_pos((self.index() + n) % 4)
    }

    /// The partner seat, directly across the table.
    pub open spec fn partner(self) -> Seat {
        self.spec_next().spec_next()
    }

    /// Advance to the next seat in turn order; the ring has no end.
    #[verifier::when_used_as_spec(spec_next)]
    pub fn next(&self) -> (r: Seat)
        ensures
            r == self.spec_next(),
    {
        match self {
            Seat::Bottom => Seat::Left,
            Seat::Left => Seat::Top,
            Seat::Top => Seat::Right,
            Seat::Right => Seat::Bottom,
        }
    }

    /// Position of the seat in turn order, counting from Bottom.
    pub fn get_index(&self) -> (r: u8)
        ensures
            r as int == self.index(),
    {
        match self {
            Seat::Bottom => 0,
            Seat::Left => 1,
            Seat::Top => 2,
            Seat::Right => 3,
        }
    }

    /// The seat `n` steps onward in turn order.
    pub fn advance(self, n: usize) -> (r: Seat)
        requires
            n < 4,
        ensures
            r == self.advanced_by(n as nat),
    {
        let j = (self.get_index() as usize + n) % 4;
        Seat::from_index(j as u8)
    }

    /// The seat at the given position in turn order, counting from Bottom.
    pub fn from_index(i: u8) -> (r: Seat)
        requires
            i < 4,
        ensures
            r.index() == i as int,
    {
        match i {
            0 => Seat::Bottom,
            1 => Seat::Left,
            2 => Seat::Top,
            _ => Seat::Right,
        }
    }
}

/// A uniformly chosen seat, used once per game to pick the first dealer.
pub fn random_seat() -> Seat {
    Seat::from_index(random_seat_index())
}

/// Relies on rand::Rng::gen_range: returns a value uniformly drawn from
/// the given range, here 0..4.
#[verifier::external_body]
fn random_seat_index() -> (r: u8)
    ensures
        r < 4,
{
    rand::thread_rng().gen_range(0..4)
}

/// The four applications of `next` visit every seat once and return to the
/// start: the seats form a ring with no seat skipped.
pub proof fn lemma_seat_ring_closure(s: Seat)
    ensures
        s.spec_next().spec_next().spec_next().spec_next() == s,
        s.spec_next() != s,
        s.spec_next().spec_next() != s,
        s.spec_next().spec_next().spec_next() != s,
{
}

/// Stepping around the ring from any seat reaches all four seats within
/// four steps.
pub proof fn lemma_seat_ring_covers(s: Seat, t: Seat)
    ensures
        exists|n: nat| n < 4 && s.advanced_by(n) == t,
{
    let i = s.index();
    let j = t.index();
    let n: nat = (if j >= i {
        j - i
    } else {
        j + 4 - i
    }) as nat;
    assert(s.advanced_by(n) == t);
}

} // verus!
