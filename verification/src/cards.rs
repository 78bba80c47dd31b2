//! Card identity (face, suit), relative ranking under trump and lead-suit
//! rules, and the shuffled 24-card deck.

use rand::seq::SliceRandom;
use vstd::prelude::*;
use vstd::string::StringExecFns;

verus! {

/// The color a suit belongs to: Hearts and Diamonds are Red, Clubs and
/// Spades are Black.
#[derive(Debug, Copy, Clone, PartialEq, Eq, Structural)]
pub enum SuitColor {
    Red,
    Black,
}

/// A card suit, plus a sentinel value used while no trump has been chosen.
#[derive(Debug, Copy, Clone, PartialEq, Eq, Structural)]
pub enum Suit {
    Hearts,
    Diamonds,
    Clubs,
    Spades,
    _None,
}

impl Suit {
    /// The one-character glyph that displays the suit.
    pub open spec fn spec_symbol(self) -> char {
        match self {
            Suit::Hearts => '♥',
            Suit::Diamonds => '♦',
            Suit::Clubs => '♣',
            Suit::Spades => '♠',
            Suit::_None => '_',
        }
    }

    /// The suit's display name.
    pub open spec fn spec_name(self) -> Seq<char> {
        match self {
            Suit::Hearts => "Hearts"@,
            Suit::Diamonds => "Diamonds"@,
            Suit::Clubs => "Clubs"@,
            Suit::Spades => "Spades"@,
            Suit::_None => "None"@,
        }
    }

    /// The suit's color; the sentinel counts as Black, as the catch-all arm
    /// of the original match does.
    pub open spec fn spec_color(self) -> SuitColor {
        match self {
            Suit::Hearts | Suit::Diamonds => SuitColor::Red,
            _ => SuitColor::Black,
        }
    }

    #[verifier::when_used_as_spec(spec_symbol)]
    pub fn get_symbol(self) -> (r: char)
        ensures
            r == self.spec_symbol(),
    {
        match self {
            Suit::Hearts => '♥',
            Suit::Diamonds => '♦',
            Suit::Clubs => '♣',
            Suit::Spades => '♠',
            Suit::_None => '_',
        }
    }

    pub fn get_name(self) -> (r: String)
        ensures
            r@ == self.spec_name(),
    {
        match self {
            Suit::Hearts => "Hearts".to_owned(),
            Suit::Diamonds => "Diamonds".to_owned(),
            Suit::Clubs => "Clubs".to_owned(),
            Suit::Spades => "Spades".to_owned(),
            Suit::_None => "None".to_owned(),
        }
    }

    #[verifier::when_used_as_spec(spec_color)]
    pub fn get_color(self) -> (r: SuitColor)
        ensures
            r == self.spec_color(),
    {
        match self {
            Suit::Hearts | Suit::Diamonds => SuitColor::Red,
            _ => SuitColor::Black,
        }
    }
}

/// A card face, Nine through Ace.
#[derive(Debug, Copy, Clone, PartialEq, Eq, Structural)]
pub enum Face {
    Nine,
    Ten,
    Jack,
    Queen,
    King,
    Ace,
}

impl Face {
    /// The one-character glyph that displays the face.
    pub open spec fn spec_symbol(self) -> char {
        match self {
            Face::Nine => '9',
            Face::Ten => 'T',
            Face::Jack => 'J',
            Face::Queen => 'Q',
            Face::King => 'K',
            Face::Ace => 'A',
        }
    }

    /// The face's display name.
    pub open spec fn spec_name(self) -> Seq<char> {
        match self {
            Face::Nine => "Nine"@,
            Face::Ten => "Ten"@,
            Face::Jack => "Jack"@,
            Face::Queen => "Queen"@,
            Face::King => "King"@,
            Face::Ace => "Ace"@,
        }
    }

    /// The natural rank of the face, 9 through 14.
    pub open spec fn spec_rank(self) -> int {
        match self {
            Face::Nine => 9,
            Face::Ten => 10,
            Face::Jack => 11,
            Face::Queen => 12,
            Face::King => 13,
            Face::Ace => 14,
        }
    }

    #[verifier::when_used_as_spec(spec_symbol)]
    pub fn get_symbol(self) -> (r: char)
        ensures
            r == self.spec_symbol(),
    {
        match self {
            Face::Nine => '9',
            Face::Ten => 'T',
            Face::Jack => 'J',
            Face::Queen => 'Q',
            Face::King => 'K',
            Face::Ace => 'A',
        }
    }

    pub fn get_name(self) -> (r: String)
        ensures
            r@ == self.spec_name(),
    {
        match self {
            Face::Nine => "Nine".to_owned(),
            Face::Ten => "Ten".to_owned(),
            Face::Jack => "Jack".to_owned(),
            Face::Queen => "Queen".to_owned(),
            Face::King => "King".to_owned(),
            Face::Ace => "Ace".to_owned(),
        }
    }

    pub fn get_rank(self) -> (r: u8)
        ensures
            r as int == self.spec_rank(),
    {
        match self {
            Face::Nine => 9,
            Face::Ten => 10,
            Face::Jack => 11,
            Face::Queen => 12,
            Face::King => 13,
            Face::Ace => 14,
        }
    }
}

/// An immutable (face, suit) pair.
#[derive(Debug, Copy, Clone, PartialEq, Eq, Structural)]
pub struct Card {
    pub face: Face,
    pub suit: Suit,
}

impl Card {
    /// A real playing card carries one of the four suits, never the
    /// sentinel.
    pub open spec fn wf(self) -> bool {
        self.suit != Suit::_None
    }

    /// True iff the card is the Jack of the suit sharing trump's color
    /// while not being trump itself: the second-highest card of the hand.
    pub open spec fn spec_is_left_bower(self, high_suit: Suit) -> bool {
        &&& high_suit != Suit::_None
        &&& self.face == Face::Jack
        &&& self.spec_color() == high_suit.spec_color()
        &&& self.suit != high_suit
    }

    /// The card's color is its suit's color.
    pub open spec fn spec_color(self) -> SuitColor {
        self.suit.spec_color()
    }

    /// The rank of the card relative to the given high (trump) and lead
    /// suits. While no trump has been chosen the natural rank 9..14 comes
    /// back unmodified, whatever the lead; under a trump the natural
    /// ranks are boosted into disjoint bands: lead suit +6, trump
    /// Nine/Ten +12, trump Queen/King/Ace +11, the left bower +15, and
    /// the right bower (trump Jack) +16.
    pub open spec fn spec_rank(self, high_suit: Suit, lead_suit: Suit) -> int {
        let natural = self.face.spec_rank();
        if high_suit == Suit::_None {
            natural
        } else if self.spec_is_left_bower(high_suit) {
            natural + 15
        } else if self.suit == high_suit {
            match self.face {
                Face::Nine | Face::Ten => natural + 12,
                Face::Jack => natural + 16,
                _ => natural + 11,
            }
        } else if self.suit == lead_suit {
            natural + 6
        } else {
            natural
        }
    }

    /// A card that is neither trump, nor of the lead suit, nor the left
    /// bower: it keeps its natural rank.
    pub open spec fn spec_is_plain(self, high_suit: Suit, lead_suit: Suit) -> bool {
        &&& self.suit != high_suit
        &&& self.suit != lead_suit
        &&& !self.spec_is_left_bower(high_suit)
    }

    pub fn new(face: Face, suit: Suit) -> (r: Card)
        ensures
            r == (Card { face, suit }),
    {
        Card { face, suit }
    }

    /// The display name of the card, e.g. `9 of ♥`.
    pub fn get_name(self) -> (r: String)
        ensures
            r@ == seq![self.face.spec_symbol()] + " of "@ + seq![self.suit.spec_symbol()],
    {
        let mut r = String::new();
        push_char(&mut r, self.face.get_symbol());
        r.append(" of ");
        push_char(&mut r, self.suit.get_symbol());
        proof {
            assert(r@ =~= seq![self.face.spec_symbol()] + " of "@ + seq![self.suit.spec_symbol()]);
        }
        r
    }

    pub fn get_color(self) -> (r: SuitColor)
        ensures
            r == self.spec_color(),
    {
        self.suit.get_color()
    }

    /// Return the rank of the card relative to the given high and lead
    /// suits; under a fixed pair of suits this compares any two cards
    /// within one trick.
    pub fn get_rank(self, high_suit: Suit, lead_suit: Suit) -> (r: u8)
        ensures
            r as int == self.spec_rank(high_suit, lead_suit),
    {
        let rank = self.face.get_rank();
        if matches!(high_suit, Suit::_None) {
            return rank;
        }
        if self.is_left_bower(high_suit) {
            return rank + 15;
        }
        if self.suit == high_suit {
            match self.face {
                Face::Nine | Face::Ten => rank + 12,
                Face::Jack => rank + 16,
                _ => rank + 11,
            }
        } else if self.suit == lead_suit {
            rank + 6
        } else {
            rank
        }
    }

    pub fn is_left_bower(self, high_suit: Suit) -> (r: bool)
        ensures
            r == self.spec_is_left_bower(high_suit),
    {
        high_suit != Suit::_None && matches!(self.face, Face::Jack)
            && self.get_color() == high_suit.get_color() && self.suit != high_suit
    }
}

/// Relies on String::push: appends a single character at the end of the
/// string.
#[verifier::external_body]
pub(crate) fn push_char(s: &mut String, c: char)
    ensures
        final(s)@ == old(s)@.push(c),
{
    s.push(c)
}

/// The suit of the `j`-th block of six cards in generation order.
pub open spec fn suit_at(j: int) -> Suit {
    if j == 0 {
        Suit::Hearts
    } else if j == 1 {
        Suit::Diamonds
    } else if j == 2 {
        Suit::Clubs
    } else {
        Suit::Spades
    }
}

/// The face of the `j`-th card within a suit block in generation order.
pub open spec fn face_at(j: int) -> Face {
    if j == 0 {
        Face::Nine
    } else if j == 1 {
        Face::Ten
    } else if j == 2 {
        Face::Jack
    } else if j == 3 {
        Face::Queen
    } else if j == 4 {
        Face::King
    } else {
        Face::Ace
    }
}

/// Position of a suit among the four real suits.
pub open spec fn suit_pos(s: Suit) -> int {
    match s {
        Suit::Hearts => 0,
        Suit::Diamonds => 1,
        Suit::Clubs => 2,
        Suit::Spades => 3,
        Suit::_None => 4,
    }
}

/// Position of a face within a suit block.
pub open spec fn face_pos(f: Face) -> int {
    match f {
        Face::Nine => 0,
        Face::Ten => 1,
        Face::Jack => 2,
        Face::Queen => 3,
        Face::King => 4,
        Face::Ace => 5,
    }
}

/// The `i`-th card in generation order: suit-major, face-minor.
pub open spec fn card_at(i: int) -> Card {
    Card { face: face_at(i % 6), suit: suit_at(i / 6) }
}

/// Position of a card in generation order.
pub open spec fn card_pos(c: Card) -> int {
    suit_pos(c.suit) * 6 + face_pos(c.face)
}

/// All 24 cards in generation order: each of the four suits, Nine
/// through Ace.
pub open spec fn full_deck() -> Seq<Card> {
    Seq::new(24, |i: int| card_at(i))
}

/// An ordered sequence of cards, constructed pre-shuffled with all 24
/// cards, and consumed from the front by `deal`.
#[derive(Debug, Clone)]
pub struct Deck {
    pub cards: Vec<Card>,
}

impl Deck {
    /// Build the 24 cards in generation order, then shuffle: the deck
    /// holds each of the 24 (face, suit) combinations exactly once, in
    /// some order.
    pub fn new() -> (r: Deck)
        ensures
            r.cards@.len() == 24,
            r.cards@.to_multiset() == full_deck().to_multiset(),
    {
        let mut cards: Vec<Card> = Vec::new();
        let mut i: usize = 0;
        while i < 24
            invariant
                i <= 24,
                cards@ =~= full_deck().take(i as int),
            decreases 24 - i,
        {
            cards.push(card_from_index(i));
            proof {
                assert(cards@ =~= full_deck().take(i + 1));
            }
            i += 1;
        }
        proof {
            assert(cards@ =~= full_deck());
        }
        shuffle_cards(&mut cards);
        Deck { cards }
    }

    /// Re-shuffle the remaining cards in place.
    pub fn shuffle(&mut self)
        ensures
            final(self).cards@.to_multiset() == old(self).cards@.to_multiset(),
            final(self).cards@.len() == old(self).cards@.len(),
    {
        shuffle_cards(&mut self.cards);
    }

    /// Remove and return the first `num_cards` cards in current order;
    /// the caller must never request more cards than remain.
    pub fn deal(&mut self, num_cards: usize) -> (dealt: Vec<Card>)
        requires
            num_cards <= old(self).cards@.len(),
        ensures
            dealt@ == old(self).cards@.take(num_cards as int),
            final(self).cards@ == old(self).cards@.skip(num_cards as int),
    {
        let mut rest = self.cards.split_off(num_cards);
        core::mem::swap(&mut self.cards, &mut rest);
        proof {
            assert(rest@ =~= old(self).cards@.take(num_cards as int));
            assert(self.cards@ =~= old(self).cards@.skip(num_cards as int));
        }
        rest
    }
}

/// Relies on rand's SliceRandom::shuffle: permutes the slice in place by
/// swapping elements, so exactly the same cards remain afterwards, in an
/// order that nothing here depends on.
#[verifier::external_body]
fn shuffle_cards(cards: &mut Vec<Card>)
    ensures
        final(cards)@.to_multiset() == old(cards)@.to_multiset(),
        final(cards)@.len() == old(cards)@.len(),
{
    cards.shuffle(&mut rand::thread_rng());
}

/// The `i`-th card in generation order.
fn card_from_index(i: usize) -> (r: Card)
    requires
        i < 24,
    ensures
        r == card_at(i as int),
{
    let s = i / 6;
    let f = i % 6;
    let suit = match s {
        0 => Suit::Hearts,
        1 => Suit::Diamonds,
        2 => Suit::Clubs,
        _ => Suit::Spades,
    };
    let face = match f {
        0 => Face::Nine,
        1 => Face::Ten,
        2 => Face::Jack,
        3 => Face::Queen,
        4 => Face::King,
        _ => Face::Ace,
    };
    Card { face, suit }
}

/// Generation order enumerates each card at its position: the full deck
/// has no duplicates, every playing card appears in it, and it holds
/// nothing else.
pub proof fn lemma_full_deck_complete()
    ensures
        full_deck().len() == 24,
        full_deck().no_duplicates(),
        forall|c: Card| c.wf() ==> full_deck().contains(c),
        forall|i: int| 0 <= i < 24 ==> (#[trigger] full_deck()[i]).wf(),
{
    assert forall|i: int, j: int|
        0 <= i < 24 && 0 <= j < 24 && i != j implies full_deck()[i] != full_deck()[j] by {
        lemma_card_at_pos(i);
        lemma_card_at_pos(j);
    };
    assert forall|c: Card| c.wf() implies full_deck().contains(c) by {
        lemma_card_pos_at(c);
        assert(full_deck()[card_pos(c)] == c);
    };
}

/// A sequence holding exactly the cards of the full deck — as any deal of
/// the whole shuffled deck does — has all 24 distinct (face, suit)
/// combinations exactly once.
pub proof fn lemma_full_deck_round_trip(s: Seq<Card>)
    requires
        s.to_multiset() == full_deck().to_multiset(),
    ensures
        s.len() == 24,
        s.no_duplicates(),
        forall|c: Card| c.wf() ==> s.contains(c),
        forall|i: int| 0 <= i < s.len() ==> (#[trigger] s[i]).wf(),
{
    broadcast use vstd::seq_lib::group_to_multiset_ensures;

    lemma_full_deck_complete();
    s.to_multiset_ensures();
    full_deck().to_multiset_ensures();
    full_deck().lemma_multiset_has_no_duplicates();
    s.lemma_multiset_has_no_duplicates_conv();
    assert forall|c: Card| c.wf() implies s.contains(c) by {
        assert(full_deck().contains(c));
        assert(full_deck().to_multiset().count(c) > 0);
    };
    assert forall|i: int| 0 <= i < s.len() implies (#[trigger] s[i]).wf() by {
        assert(s.contains(s[i]));
        assert(full_deck().to_multiset().count(s[i]) > 0);
        assert(full_deck().contains(s[i]));
        let j = choose|j: int| 0 <= j < full_deck().len() && full_deck()[j] == s[i];
        assert(full_deck()[j].wf());
    };
}

/// With no trump chosen, ranking reduces to the face's natural rank, for
/// every card and whatever the lead suit.
pub proof fn lemma_rank_no_trump(c: Card, lead_suit: Suit)
    ensures
        c.spec_rank(Suit::_None, lead_suit) == c.face.spec_rank(),
{
}

/// Under a fixed chosen trump and lead, two distinct playing cards never
/// tie unless both are plain — off-trump, off-lead and no bower. Ranking
/// is thus injective over every card that can win a trick.
pub proof fn lemma_rank_injective(c1: Card, c2: Card, high_suit: Suit, lead_suit: Suit)
    requires
        c1.wf(),
        c2.wf(),
        high_suit != Suit::_None,
        c1 != c2,
        !(c1.spec_is_plain(high_suit, lead_suit) && c2.spec_is_plain(high_suit, lead_suit)),
    ensures
        c1.spec_rank(high_suit, lead_suit) != c2.spec_rank(high_suit, lead_suit),
{
}

/// A tie under a fixed chosen trump means both cards are plain and share
/// a face: the only collisions ranking allows.
pub proof fn lemma_rank_tie_is_plain(c1: Card, c2: Card, high_suit: Suit, lead_suit: Suit)
    requires
        c1.wf(),
        c2.wf(),
        high_suit != Suit::_None,
        c1 != c2,
        c1.spec_rank(high_suit, lead_suit) == c2.spec_rank(high_suit, lead_suit),
    ensures
        c1.spec_is_plain(high_suit, lead_suit),
        c2.spec_is_plain(high_suit, lead_suit),
        c1.face == c2.face,
{
    if !(c1.spec_is_plain(high_suit, lead_suit) && c2.spec_is_plain(high_suit, lead_suit)) {
        lemma_rank_injective(c1, c2, high_suit, lead_suit);
    }
}

/// Cards in generation order sit at their own position.
proof fn lemma_card_at_pos(i: int)
    requires
        0 <= i < 24,
    ensures
        card_pos(card_at(i)) == i,
        card_at(i).wf(),
{
    vstd::arithmetic::div_mod::lemma_fundamental_div_mod(i, 6);
}

/// Every playing card is found at its position in generation order.
proof fn lemma_card_pos_at(c: Card)
    requires
        c.wf(),
    ensures
        0 <= card_pos(c) < 24,
        card_at(card_pos(c)) == c,
{
    let sp = suit_pos(c.suit);
    let fp = face_pos(c.face);
    assert((sp * 6 + fp) / 6 == sp && (sp * 6 + fp) % 6 == fp) by (nonlinear_arith)
        requires
            0 <= sp < 4,
            0 <= fp < 6,
    ;
}

} // verus!
