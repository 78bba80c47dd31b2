//! A seated participant: a name, who controls it, and a hand of cards.

use crate::cards::{Card, Suit};
use vstd::prelude::*;

verus! {

/// Who controls a player: the person at the keyboard or the computer.
#[derive(Debug, Clone, Copy, PartialEq, Eq, Structural)]
pub enum PlayerType {
    User,
    Bot,
}

/// A named participant holding a hand of cards. Hands vary between zero
/// and five cards during dealing and shrink by one per card played.
#[derive(Debug, Clone)]
pub struct Player {
    pub name: String,
    pub player_type: PlayerType,
    pub hand: Vec<Card>,
}

impl Player {
    /// Every card held is a real playing card.
    pub open spec fn hand_wf(self) -> bool {
        forall|i: int| 0 <= i < self.hand@.len() ==> (#[trigger] self.hand@[i]).wf()
    }

    /// Whether the hand holds a card of the given suit.
    pub open spec fn spec_has_suit(self, suit: Suit) -> bool {
        exists|i: int| 0 <= i < self.hand@.len() && (#[trigger] self.hand@[i]).suit == suit
    }

    /// Create a player with an empty hand.
    pub fn new(name: String, player_type: PlayerType) -> (r: Player)
        ensures
            r.name == name,
            r.player_type == player_type,
            r.hand@ =~= Seq::<Card>::empty(),
    {
        Player { name, player_type, hand: Vec::new() }
    }

    /// Whether the player, asked in turn, claims the turned-up card's suit
    /// as trump. Default policy: always pass; real bidding strategy belongs
    /// to the layer that drives the engine.
    pub fn call_pickup(&self) -> (r: bool)
        ensures
            r == false,
    {
        false
    }

    /// The trump suit the player, asked in turn, names after the pickup
    /// round failed. Default policy: name the sentinel, i.e. pass.
    pub fn call_suit(&self) -> (r: Suit)
        ensures
            r == Suit::_None,
    {
        Suit::_None
    }

    /// Add a picked-up card at the end of the hand.
    pub fn pickup_card(&mut self, card: Card)
        ensures
            final(self).hand@ == old(self).hand@.push(card),
            final(self).name == old(self).name,
            final(self).player_type == old(self).player_type,
    {
        self.hand.push(card);
    }

    /// Remove and return the card at the given position of the hand.
    pub fn play_card(&mut self, index: usize) -> (r: Card)
        requires
            index < old(self).hand@.len(),
        ensures
            r == old(self).hand@[index as int],
            final(self).hand@ == old(self).hand@.remove(index as int),
            final(self).name == old(self).name,
            final(self).player_type == old(self).player_type,
    {
        self.hand.remove(index)
    }

    /// Position of the first card of the given suit, if the hand holds one.
    pub fn find_suit(&self, suit: Suit) -> (r: Option<usize>)
        ensures
            r is Some <==> self.spec_has_suit(suit),
    {
        let mut i: usize = 0;
        while i < self.hand.len()
            invariant
                i <= self.hand@.len(),
                forall|j: int| 0 <= j < i ==> (#[trigger] self.hand@[j]).suit != suit,
            decreases self.hand@.len() - i,
        {
            if self.hand[i].suit == suit {
                return Some(i);
            }
            i += 1;
        }
        None
    }

    /// Position of the first copy of the given card, if the hand holds it.
    pub fn find_card(&self, card: Card) -> (r: Option<usize>)
        ensures
            match r {
                Some(i) => {
                    &&& 0 <= i < self.hand@.len()
                    &&& self.hand@[i as int] == card
                    &&& forall|j: int| 0 <= j < i ==> self.hand@[j] != card
                },
                None => forall|j: int| 0 <= j < self.hand@.len() ==> self.hand@[j] != card,
            },
    {
        let mut i: usize = 0;
        while i < self.hand.len()
            invariant
                i <= self.hand@.len(),
                forall|j: int| 0 <= j < i ==> self.hand@[j] != card,
            decreases self.hand@.len() - i,
        {
            if self.hand[i] == card {
                return Some(i);
            }
            i += 1;
        }
        None
    }
}

} // verus!
