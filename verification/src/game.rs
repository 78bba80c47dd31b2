//! The game engine: the aggregate Game value and the tick-driven state
//! machine that advances it through dealing, bidding, trick play and
//! scoring.

use crate::cards::{full_deck, Card, Deck, Suit};
use crate::player::{Player, PlayerType};
use crate::table::Seat;
use crate::team::{Team, TeamType};
use vstd::prelude::*;

verus! {

/// A team's game score at which the game is won.
pub const WINNING_SCORE: u8 = 10;

/// The lifecycle phase the engine is in; the phases cycle with the hands.
#[derive(Debug, Clone, Copy, PartialEq, Eq, Structural)]
pub enum GameState {
    PickingDealer,
    DealingHand,
    CallingPickup,
    CallingHighSuit,
    PlayingHand,
}

impl GameState {
    /// The phase that ordinarily follows this one in the hand's cycle.
    pub open spec fn spec_next(&self) -> GameState {
        match self {
            GameState::PickingDealer => GameState::DealingHand,
            GameState::DealingHand => GameState::CallingPickup,
            GameState::CallingPickup => GameState::CallingHighSuit,
            GameState::CallingHighSuit => GameState::PlayingHand,
            GameState::PlayingHand => GameState::PickingDealer,
        }
    }

    /// The phase's display name.
    pub open spec fn spec_name(&self) -> Seq<char> {
        match self {
            GameState::PickingDealer => "Picking Dealer"@,
            GameState::DealingHand => "Dealing Hand"@,
            GameState::CallingPickup => "Calling Pickup"@,
            GameState::CallingHighSuit => "Calling High Suit"@,
            GameState::PlayingHand => "Playing Hand"@,
        }
    }

    #[verifier::when_used_as_spec(spec_next)]
    pub fn next(&self) -> (r: GameState)
        ensures
            r == self.spec_next(),
    {
        match self {
            GameState::PickingDealer => GameState::DealingHand,
            GameState::DealingHand => GameState::CallingPickup,
            GameState::CallingPickup => GameState::CallingHighSuit,
            GameState::CallingHighSuit => GameState::PlayingHand,
            GameState::PlayingHand => GameState::PickingDealer,
        }
    }

    pub fn get_name(&self) -> (r: String)
        ensures
            r@ == self.spec_name(),
    {
        match self {
            GameState::PickingDealer => "Picking Dealer".to_owned(),
            GameState::DealingHand => "Dealing Hand".to_owned(),
            GameState::CallingPickup => "Calling Pickup".to_owned(),
            GameState::CallingHighSuit => "Calling High Suit".to_owned(),
            GameState::PlayingHand => "Playing Hand".to_owned(),
        }
    }
}

/// Why the engine rejected a user action. A rejected action leaves the
/// game unchanged; the caller may report the reason and continue.
#[derive(Debug, Clone, Copy, PartialEq, Eq, Structural)]
pub enum ActionError {
    /// The action does not belong to the current lifecycle phase.
    WrongState,
    /// The acting seat is not the seat whose turn it is.
    NotYourTurn,
    /// The card to play is not in the acting player's hand.
    CardNotInHand,
    /// The player holds a card of the lead suit and must play one.
    MustFollowSuit,
    /// The named trump suit is the sentinel or the turned-down suit.
    SuitNotCallable,
    /// The dealer's discard position is out of range.
    BadDiscard,
}

/// The seat-keyed mapping of the four players. Every seat is populated
/// from construction on and the mapping never shrinks, so lookups are
/// total and can never fail.
#[derive(Debug, Clone)]
pub struct PlayerMap {
    pub bottom: Player,
    pub left: Player,
    pub top: Player,
    pub right: Player,
}

impl PlayerMap {
    /// The player sitting in the given seat.
    pub open spec fn spec_get(self, seat: Seat) -> Player {
        match seat {
            Seat::Bottom => self.bottom,
            Seat::Left => self.left,
            Seat::Top => self.top,
            Seat::Right => self.right,
        }
    }

    /// The mapping with the given seat's player replaced.
    pub open spec fn spec_set(self, seat: Seat, p: Player) -> PlayerMap {
        match seat {
            Seat::Bottom => PlayerMap { bottom: p, ..self },
            Seat::Left => PlayerMap { left: p, ..self },
            Seat::Top => PlayerMap { top: p, ..self },
            Seat::Right => PlayerMap { right: p, ..self },
        }
    }

    /// Total number of cards held across the four hands.
    pub open spec fn hands_total(self) -> int {
        self.spec_get(Seat::Bottom).hand@.len() + self.spec_get(Seat::Left).hand@.len()
            + self.spec_get(Seat::Top).hand@.len() + self.spec_get(
            Seat::Right,
        ).hand@.len() as int
    }

    /// All cards held anywhere are real playing cards.
    pub open spec fn hands_wf(self) -> bool {
        forall|s: Seat| (#[trigger] self.spec_get(s)).hand_wf()
    }

    pub fn get(&self, seat: Seat) -> (r: &Player)
        ensures
            *r == self.spec_get(seat),
    {
        match seat {
            Seat::Bottom => &self.bottom,
            Seat::Left => &self.left,
            Seat::Top => &self.top,
            Seat::Right => &self.right,
        }
    }

    pub fn get_mut(&mut self, seat: Seat) -> (r: &mut Player)
        ensures
            *r == old(self).spec_get(seat),
            *final(self) == old(self).spec_set(seat, *final(r)),
    {
        match seat {
            Seat::Bottom => &mut self.bottom,
            Seat::Left => &mut self.left,
            Seat::Top => &mut self.top,
            Seat::Right => &mut self.right,
        }
    }

    /// Replace the hand of the player in the given seat.
    pub fn set_hand(&mut self, seat: Seat, hand: Vec<Card>)
        ensures
            hand_becomes(*old(self), *final(self), seat, hand@),
    {
        match seat {
            Seat::Bottom => self.bottom.hand = hand,
            Seat::Left => self.left.hand = hand,
            Seat::Top => self.top.hand = hand,
            Seat::Right => self.right.hand = hand,
        }
    }

    /// Take every card back from all four hands.
    pub fn clear_hands(&mut self)
        ensures
            cleared_hands(*old(self), *final(self)),
    {
        self.bottom.hand = Vec::new();
        self.left.hand = Vec::new();
        self.top.hand = Vec::new();
        self.right.hand = Vec::new();
    }
}

/// `post` is `pre` with a new hand: same name, same controller.
pub open spec fn player_updated_hand(pre: Player, post: Player, hand: Seq<Card>) -> bool {
    &&& post.name == pre.name
    &&& post.player_type == pre.player_type
    &&& post.hand@ == hand
}

/// The given seat's hand is replaced and every other player is untouched.
pub open spec fn hand_becomes(pre: PlayerMap, post: PlayerMap, seat: Seat, hand: Seq<Card>) -> bool {
    &&& player_updated_hand(pre.spec_get(seat), post.spec_get(seat), hand)
    &&& forall|s: Seat| s != seat ==> #[trigger] post.spec_get(s) == pre.spec_get(s)
}

/// Every hand is emptied; names and controllers stay.
pub open spec fn cleared_hands(pre: PlayerMap, post: PlayerMap) -> bool {
    forall|s: Seat|
        player_updated_hand(pre.spec_get(s), #[trigger] post.spec_get(s), Seq::empty())
}

/// The partnership a seat belongs to: Bottom/Top sit on the user's team,
/// Left/Right on the opposing team.
pub open spec fn team_of_seat(seat: Seat) -> TeamType {
    match seat {
        Seat::Bottom | Seat::Top => TeamType::Home,
        _ => TeamType::Away,
    }
}

/// Distance in turn order from seat `a` to seat `b`, between 0 and 3.
pub open spec fn offset_from(a: Seat, b: Seat) -> int {
    let d = b.index() - a.index();
    if d >= 0 {
        d
    } else {
        d + 4
    }
}

/// The aggregate game value: lifecycle phase, both teams, the seat-keyed
/// players, the deck, the trick underway, the chosen trump, and the
/// turn/dealer/leader pointers.
#[derive(Debug, Clone)]
pub struct Game {
    pub state: GameState,
    pub user_team: Team,
    pub opp_team: Team,
    pub players: PlayerMap,
    pub deck: Deck,
    pub trick: Vec<Card>,
    pub trump_suit: Suit,
    pub caller_team: TeamType,
    pub current_player_seat: Seat,
    pub dealer_seat: Seat,
    pub leader_seat: Seat,
    pub hand_num: u8,
}

impl Game {
    /// The hand held by the player in the given seat.
    pub open spec fn hand_of(self, seat: Seat) -> Seq<Card> {
        self.players.spec_get(seat).hand@
    }

    /// Tricks resolved so far in the hand being played.
    pub open spec fn tricks_taken(self) -> int {
        self.user_team.hand_score + self.opp_team.hand_score
    }

    /// 1 if the seat has already played into the trick underway, else 0.
    pub open spec fn played_flag(self, seat: Seat) -> int {
        if offset_from(self.leader_seat, seat) < self.trick@.len() {
            1
        } else {
            0
        }
    }

    /// The two teams sit on their fixed partnered seats and the trick
    /// counts are sane.
    pub open spec fn teams_wf(self) -> bool {
        &&& self.user_team.first_seat == Seat::Bottom
        &&& self.user_team.second_seat == Seat::Top
        &&& self.opp_team.first_seat == Seat::Left
        &&& self.opp_team.second_seat == Seat::Right
        &&& self.user_team.hand_score <= 5
        &&& self.opp_team.hand_score <= 5
        &&& self.tricks_taken() <= 5
    }

    /// Every card in a hand, in the deck or in the trick is a real
    /// playing card.
    pub open spec fn cards_wf(self) -> bool {
        &&& self.players.hands_wf()
        &&& forall|i: int|
            0 <= i < self.deck.cards@.len() ==> (#[trigger] self.deck.cards@[i]).wf()
        &&& forall|i: int| 0 <= i < self.trick@.len() ==> (#[trigger] self.trick@[i]).wf()
    }

    /// Shape between hands: a full deck, empty hands, no trick underway,
    /// no trump chosen and no tricks counted.
    pub open spec fn reset_shape(self) -> bool {
        &&& self.deck.cards@.len() == 24
        &&& self.hand_of(Seat::Bottom).len() == 0
        &&& self.hand_of(Seat::Left).len() == 0
        &&& self.hand_of(Seat::Top).len() == 0
        &&& self.hand_of(Seat::Right).len() == 0
        &&& self.trick@.len() == 0
        &&& self.trump_suit == Suit::_None
        &&& self.user_team.hand_score == 0
        &&& self.opp_team.hand_score == 0
    }

    /// Shape while dealing: five cards reach each seat in turn order
    /// starting left of the dealer; the deck shrinks by exactly the cards
    /// handed out.
    pub open spec fn dealing_shape(self) -> bool {
        let first = self.dealer_seat.spec_next();
        let served = self.players.hands_total() / 5;
        &&& self.trump_suit == Suit::_None
        &&& self.trick@.len() == 0
        &&& self.user_team.hand_score == 0
        &&& self.opp_team.hand_score == 0
        &&& self.deck.cards@.len() + self.players.hands_total() == 24
        &&& (self.hand_of(Seat::Bottom).len() == 0 || self.hand_of(Seat::Bottom).len() == 5)
        &&& (self.hand_of(Seat::Left).len() == 0 || self.hand_of(Seat::Left).len() == 5)
        &&& (self.hand_of(Seat::Top).len() == 0 || self.hand_of(Seat::Top).len() == 5)
        &&& (self.hand_of(Seat::Right).len() == 0 || self.hand_of(Seat::Right).len() == 5)
        &&& self.current_player_seat == first.advanced_by(((served % 4) as nat))
        &&& (self.hand_of(Seat::Bottom).len() == 5 <==> offset_from(first, Seat::Bottom) < served)
        &&& (self.hand_of(Seat::Left).len() == 5 <==> offset_from(first, Seat::Left) < served)
        &&& (self.hand_of(Seat::Top).len() == 5 <==> offset_from(first, Seat::Top) < served)
        &&& (self.hand_of(Seat::Right).len() == 5 <==> offset_from(first, Seat::Right) < served)
    }

    /// Shape during bidding: every hand at five cards and the four-card
    /// kitty on the table, its top card turned up.
    pub open spec fn calling_shape(self) -> bool {
        &&& self.hand_of(Seat::Bottom).len() == 5
        &&& self.hand_of(Seat::Left).len() == 5
        &&& self.hand_of(Seat::Top).len() == 5
        &&& self.hand_of(Seat::Right).len() == 5
        &&& self.deck.cards@.len() == 4
        &&& self.trick@.len() == 0
        &&& self.trump_suit == Suit::_None
        &&& self.user_team.hand_score == 0
        &&& self.opp_team.hand_score == 0
    }

    /// Shape during trick play: a trump is chosen, the kitty keeps four
    /// cards, the turn rotates from the trick leader, and every card is
    /// accounted for between hands, the trick underway and resolved
    /// tricks.
    pub open spec fn playing_shape(self) -> bool {
        &&& self.trump_suit != Suit::_None
        &&& self.deck.cards@.len() == 4
        &&& self.trick@.len() <= 4
        &&& self.players.hands_total() + self.trick@.len() + 4 * self.tricks_taken() == 20
        &&& self.current_player_seat == self.leader_seat.advanced_by(self.trick@.len() as nat)
        &&& self.hand_of(Seat::Bottom).len() == 5 - self.tricks_taken() - self.played_flag(
            Seat::Bottom,
        )
        &&& self.hand_of(Seat::Left).len() == 5 - self.tricks_taken() - self.played_flag(
            Seat::Left,
        )
        &&& self.hand_of(Seat::Top).len() == 5 - self.tricks_taken() - self.played_flag(Seat::Top)
        &&& self.hand_of(Seat::Right).len() == 5 - self.tricks_taken() - self.played_flag(
            Seat::Right,
        )
    }

    /// The engine's internal invariant: established by `new` and preserved
    /// by every tick and accepted action.
    pub open spec fn wf(self) -> bool {
        &&& self.teams_wf()
        &&& self.cards_wf()
        &&& match self.state {
            GameState::PickingDealer => self.reset_shape(),
            GameState::DealingHand => self.dealing_shape(),
            GameState::CallingPickup => self.calling_shape(),
            GameState::CallingHighSuit => self.calling_shape(),
            GameState::PlayingHand => self.playing_shape(),
        }
    }

    /// A fresh, fully seeded game: the named user at Bottom with a bot
    /// partner at Top, two bot opponents at Left and Right, a shuffled
    /// full deck, zero scores, and the engine about to pick the first
    /// dealer.
    pub fn new(
        user_name: String,
        partner_name: String,
        opp1_name: String,
        opp2_name: String,
        user_team_name: String,
        opp_team_name: String,
    ) -> (g: Game)
        ensures
            g.wf(),
            g.state == GameState::PickingDealer,
            g.hand_num == 0,
            g.current_player_seat == Seat::Bottom,
            g.dealer_seat == Seat::Bottom,
            g.leader_seat == Seat::Bottom,
            g.trump_suit == Suit::_None,
            g.user_team.name == user_team_name,
            g.opp_team.name == opp_team_name,
            g.user_team.game_score == 0,
            g.opp_team.game_score == 0,
            g.user_team.hand_score == 0,
            g.opp_team.hand_score == 0,
            g.players.bottom.name == user_name,
            g.players.bottom.player_type == PlayerType::User,
            g.players.top.name == partner_name,
            g.players.top.player_type == PlayerType::Bot,
            g.players.left.name == opp1_name,
            g.players.left.player_type == PlayerType::Bot,
            g.players.right.name == opp2_name,
            g.players.right.player_type == PlayerType::Bot,
            g.deck.cards@.len() == 24,
            g.deck.cards@.to_multiset() == full_deck().to_multiset(),
    {
        let deck = Deck::new();
        let user_team = Team::new(user_team_name, Seat::Bottom, Seat::Top);
        let opp_team = Team::new(opp_team_name, Seat::Left, Seat::Right);
        let players = PlayerMap {
            bottom: Player::new(user_name, PlayerType::User),
            left: Player::new(opp1_name, PlayerType::Bot),
            top: Player::new(partner_name, PlayerType::Bot),
            right: Player::new(opp2_name, PlayerType::Bot),
        };
        let g = Game {
            state: GameState::PickingDealer,
            user_team,
            opp_team,
            players,
            deck,
            trick: Vec::new(),
            trump_suit: Suit::_None,
            caller_team: TeamType::Home,
            current_player_seat: Seat::Bottom,
            dealer_seat: Seat::Bottom,
            leader_seat: Seat::Bottom,
            hand_num: 0,
        };
        proof {
            crate::cards::lemma_full_deck_round_trip(g.deck.cards@);
            crate::cards::lemma_full_deck_complete();
            assert forall|i: int| 0 <= i < g.deck.cards@.len() implies (
            #[trigger] g.deck.cards@[i]).wf() by {
                assert(g.deck.cards@.contains(g.deck.cards@[i]));
            };
        }
        g
    }

    /// The player whose turn it is.
    pub fn current_player(&self) -> (r: &Player)
        ensures
            *r == self.players.spec_get(self.current_player_seat),
    {
        self.players.get(self.current_player_seat)
    }

    /// The player sitting in the given seat; every seat is populated.
    pub fn get_player_in_seat(&self, seat: Seat) -> (r: &Player)
        ensures
            *r == self.players.spec_get(seat),
    {
        self.players.get(seat)
    }

    /// The team that has reached the winning score, if either has.
    pub fn winning_team(&self) -> (r: Option<TeamType>)
        ensures
            r == (if self.user_team.game_score >= WINNING_SCORE {
                Some(TeamType::Home)
            } else if self.opp_team.game_score >= WINNING_SCORE {
                Some(TeamType::Away)
            } else {
                None::<TeamType>
            }),
    {
        if self.user_team.game_score >= WINNING_SCORE {
            Some(TeamType::Home)
        } else if self.opp_team.game_score >= WINNING_SCORE {
            Some(TeamType::Away)
        } else {
            None
        }
    }

    /// Advance the engine by at most one bounded unit of work and return
    /// the updated pacing counter. Picking the dealer and finishing the
    /// deal happen at once; dealing hands out five cards to one seat
    /// every sixth tick; the bidding phases wait for actions; trick play
    /// resolves a full trick, or tallies the finished hand, one tick at
    /// a time.
    pub fn handle_game_tick(&mut self, tick_count: u64) -> (r: u64)
        requires
            old(self).wf(),
        ensures
            final(self).wf(),
            tick_rel(*old(self), *final(self), tick_count, r),
    {
        match self.state {
            GameState::PickingDealer => {
                if self.hand_num == 0 {
                    self.dealer_seat = crate::table::random_seat();
                } else {
                    self.dealer_seat = self.dealer_seat.next();
                }
                self.current_player_seat = self.dealer_seat.next();
                if self.hand_num < 255 {
                    self.hand_num = self.hand_num + 1;
                }
                self.state = GameState::DealingHand;
                tick_count
            },
            GameState::DealingHand => {
                if tick_count >= 5 {
                    if self.current_player().hand.is_empty() {
                        self.deal_step();
                    } else {
                        self.current_player_seat = self.dealer_seat.next();
                        self.state = GameState::CallingPickup;
                    }
                    0
                } else {
                    tick_count + 1
                }
            },
            GameState::CallingPickup => tick_count,
            GameState::CallingHighSuit => tick_count,
            GameState::PlayingHand => {
                if self.trick.len() == 4 {
                    self.resolve_trick_step();
                } else {
                    let tricks = self.user_team.hand_score + self.opp_team.hand_score;
                    if tricks == 5 {
                        self.score_hand_step();
                    }
                }
                tick_count
            },
        }
    }

    /// Serve five cards off the deck to the seat whose turn it is.
    fn deal_step(&mut self)
        requires
            old(self).wf(),
            old(self).state == GameState::DealingHand,
            old(self).hand_of(old(self).current_player_seat).len() == 0,
        ensures
            final(self).wf(),
            deals_five(*old(self), *final(self)),
    {
        let seat = self.current_player_seat;
        proof {
            assert(old(self).players.hands_total() <= 15);
        }
        let dealt = self.deck.deal(5);
        self.players.set_hand(seat, dealt);
        self.next_turn();
        proof {
            let pre = *old(self);
            let newhand = self.players.spec_get(seat).hand@;
            assert(newhand == pre.deck.cards@.take(5));
            assert forall|i: int| 0 <= i < newhand.len() implies (#[trigger] newhand[i]).wf() by {
                assert(newhand[i] == pre.deck.cards@[i]);
            };
            assert forall|i: int|
                0 <= i < self.deck.cards@.len() implies (#[trigger] self.deck.cards@[i]).wf() by {
                assert(self.deck.cards@[i] == pre.deck.cards@[i + 5]);
            };
            assert(self.players.hands_total() == pre.players.hands_total() + 5);
            assert((pre.players.hands_total() + 5) / 5 == pre.players.hands_total() / 5 + 1);
        }
    }

    /// Resolve a full trick: the winning play's seat takes it and leads on.
    fn resolve_trick_step(&mut self)
        requires
            old(self).wf(),
            old(self).state == GameState::PlayingHand,
            old(self).trick@.len() == 4,
        ensures
            final(self).wf(),
            resolves_trick(*old(self), *final(self)),
    {
        let w = winning_play_index(&self.trick, self.trump_suit);
        let wseat = self.leader_seat.advance(w);
        if matches!(wseat, Seat::Bottom | Seat::Top) {
            self.user_team.add_hand_points(1);
        } else {
            self.opp_team.add_hand_points(1);
        }
        self.trick.clear();
        self.leader_seat = wseat;
        self.current_player_seat = wseat;
        proof {
            assert(is_winning_play(old(self).trick@, old(self).trump_suit, w as int)
                && resolves_trick_with(*old(self), *self, w as int));
        }
    }

    /// Tally the finished hand into the game scores and reset the table
    /// for the next hand.
    fn score_hand_step(&mut self)
        requires
            old(self).wf(),
            old(self).state == GameState::PlayingHand,
            old(self).tricks_taken() == 5,
            old(self).trick@.len() < 4,
        ensures
            final(self).wf(),
            scores_hand(*old(self), *final(self)),
    {
        let caller_tricks = if matches!(self.caller_team, TeamType::Home) {
            self.user_team.hand_score
        } else {
            self.opp_team.hand_score
        };
        let caller_pts: u8 = if caller_tricks == 5 {
            2
        } else if caller_tricks >= 3 {
            1
        } else {
            0
        };
        let defender_pts: u8 = if caller_tricks >= 3 {
            0
        } else {
            2
        };
        let home_pts = if matches!(self.caller_team, TeamType::Home) {
            caller_pts
        } else {
            defender_pts
        };
        let away_pts = if matches!(self.caller_team, TeamType::Home) {
            defender_pts
        } else {
            caller_pts
        };
        self.user_team.advance_game_score(home_pts);
        self.opp_team.advance_game_score(away_pts);
        self.players.clear_hands();
        self.deck = Deck::new();
        self.trump_suit = Suit::_None;
        self.state = GameState::PickingDealer;
        proof {
            crate::cards::lemma_full_deck_round_trip(self.deck.cards@);
        }
    }

    /// Accept the turned-up card as trump on behalf of the acting seat.
    /// The dealer picks the card up and discards the card at
    /// `discard_index` among the resulting six. Rejected — with the game
    /// unchanged — out of the pickup round, out of turn, or with the
    /// discard position out of range.
    pub fn accept_pickup(&mut self, seat: Seat, discard_index: usize) -> (r: Result<
        (),
        ActionError,
    >)
        requires
            old(self).wf(),
        ensures
            final(self).wf(),
            ({
                let pre = *old(self);
                let post = *final(self);
                if pre.state != GameState::CallingPickup {
                    r == Err::<(), ActionError>(ActionError::WrongState) && post == pre
                } else if seat != pre.current_player_seat {
                    r == Err::<(), ActionError>(ActionError::NotYourTurn) && post == pre
                } else if discard_index >= 6 {
                    r == Err::<(), ActionError>(ActionError::BadDiscard) && post == pre
                } else {
                    r == Ok::<(), ActionError>(()) && accepts_pickup(
                        pre,
                        post,
                        seat,
                        discard_index as int,
                    )
                }
            }),
    {
        if !matches!(self.state, GameState::CallingPickup) {
            return Err(ActionError::WrongState);
        }
        if seat != self.current_player_seat {
            return Err(ActionError::NotYourTurn);
        }
        if discard_index >= 6 {
            return Err(ActionError::BadDiscard);
        }
        let dealer = self.dealer_seat;
        let up_cards = self.deck.deal(1);
        let up = up_cards[0];
        let p = self.players.get_mut(dealer);
        p.pickup_card(up);
        let discarded = p.play_card(discard_index);
        self.deck.cards.push(discarded);
        self.trump_suit = up.suit;
        self.caller_team = if matches!(seat, Seat::Bottom | Seat::Top) {
            TeamType::Home
        } else {
            TeamType::Away
        };
        self.leader_seat = self.dealer_seat.next();
        self.current_player_seat = self.leader_seat;
        self.state = GameState::PlayingHand;
        proof {
            let pre = *old(self);
            let picked = pre.hand_of(pre.dealer_seat).push(pre.deck.cards@[0]);
            let newhand = self.players.spec_get(pre.dealer_seat).hand@;
            assert(up == pre.deck.cards@[0]);
            assert(newhand == picked.remove(discard_index as int));
            assert(self.deck.cards@ == pre.deck.cards@.skip(1).push(
                picked[discard_index as int],
            ));
            assert forall|i: int| 0 <= i < newhand.len() implies (#[trigger] newhand[i]).wf() by {
                if i < discard_index {
                    assert(newhand[i] == picked[i]);
                } else {
                    assert(newhand[i] == picked[i + 1]);
                }
            };
            assert forall|i: int|
                0 <= i < self.deck.cards@.len() implies (#[trigger] self.deck.cards@[i]).wf() by {
                if i < 3 {
                    assert(self.deck.cards@[i] == pre.deck.cards@[i + 1]);
                }
            };
        }
        Ok(())
    }

    /// Pass on the turned-up card on behalf of the acting seat; when the
    /// dealer passes last, the suit-calling round begins. Rejected out of
    /// the pickup round or out of turn, with the game unchanged.
    pub fn pass_pickup(&mut self, seat: Seat) -> (r: Result<(), ActionError>)
        requires
            old(self).wf(),
        ensures
            final(self).wf(),
            ({
                let pre = *old(self);
                let post = *final(self);
                if pre.state != GameState::CallingPickup {
                    r == Err::<(), ActionError>(ActionError::WrongState) && post == pre
                } else if seat != pre.current_player_seat {
                    r == Err::<(), ActionError>(ActionError::NotYourTurn) && post == pre
                } else {
                    r == Ok::<(), ActionError>(()) && passes_pickup(pre, post)
                }
            }),
    {
        if !matches!(self.state, GameState::CallingPickup) {
            return Err(ActionError::WrongState);
        }
        if seat != self.current_player_seat {
            return Err(ActionError::NotYourTurn);
        }
        if seat == self.dealer_seat {
            self.state = GameState::CallingHighSuit;
            self.current_player_seat = self.dealer_seat.next();
        } else {
            self.next_turn();
        }
        Ok(())
    }

    /// Name the given suit as trump on behalf of the acting seat.
    /// Rejected out of the suit-calling round, out of turn, or when the
    /// suit is the sentinel or the turned-down kitty suit.
    pub fn call_high_suit(&mut self, seat: Seat, suit: Suit) -> (r: Result<(), ActionError>)
        requires
            old(self).wf(),
        ensures
            final(self).wf(),
            ({
                let pre = *old(self);
                let post = *final(self);
                if pre.state != GameState::CallingHighSuit {
                    r == Err::<(), ActionError>(ActionError::WrongState) && post == pre
                } else if seat != pre.current_player_seat {
                    r == Err::<(), ActionError>(ActionError::NotYourTurn) && post == pre
                } else if suit == Suit::_None || suit == pre.deck.cards@[0].suit {
                    r == Err::<(), ActionError>(ActionError::SuitNotCallable) && post == pre
                } else {
                    r == Ok::<(), ActionError>(()) && calls_high_suit(pre, post, seat, suit)
                }
            }),
    {
        if !matches!(self.state, GameState::CallingHighSuit) {
            return Err(ActionError::WrongState);
        }
        if seat != self.current_player_seat {
            return Err(ActionError::NotYourTurn);
        }
        let turned_down = self.deck.cards[0].suit;
        if matches!(suit, Suit::_None) || suit == turned_down {
            return Err(ActionError::SuitNotCallable);
        }
        self.trump_suit = suit;
        self.caller_team = if matches!(seat, Seat::Bottom | Seat::Top) {
            TeamType::Home
        } else {
            TeamType::Away
        };
        self.leader_seat = self.dealer_seat.next();
        self.current_player_seat = self.leader_seat;
        self.state = GameState::PlayingHand;
        Ok(())
    }

    /// Pass on naming a suit on behalf of the acting seat; when the
    /// dealer passes last, the hand is thrown in for the next dealer.
    /// Rejected out of the suit-calling round or out of turn, with the
    /// game unchanged.
    pub fn pass_high_suit(&mut self, seat: Seat) -> (r: Result<(), ActionError>)
        requires
            old(self).wf(),
        ensures
            final(self).wf(),
            ({
                let pre = *old(self);
                let post = *final(self);
                if pre.state != GameState::CallingHighSuit {
                    r == Err::<(), ActionError>(ActionError::WrongState) && post == pre
                } else if seat != pre.current_player_seat {
                    r == Err::<(), ActionError>(ActionError::NotYourTurn) && post == pre
                } else if seat == pre.dealer_seat {
                    r == Ok::<(), ActionError>(()) && throws_in(pre, post)
                } else {
                    r == Ok::<(), ActionError>(()) && post == (Game {
                        current_player_seat: pre.current_player_seat.spec_next(),
                        ..pre
                    })
                }
            }),
    {
        if !matches!(self.state, GameState::CallingHighSuit) {
            return Err(ActionError::WrongState);
        }
        if seat != self.current_player_seat {
            return Err(ActionError::NotYourTurn);
        }
        if seat == self.dealer_seat {
            self.players.clear_hands();
            self.deck = Deck::new();
            self.state = GameState::PickingDealer;
            proof {
                crate::cards::lemma_full_deck_round_trip(self.deck.cards@);
            }
        } else {
            self.next_turn();
        }
        Ok(())
    }

    /// Play the given card from the acting player's hand into the trick.
    /// Rejected — with the game unchanged, byte for byte — outside trick
    /// play or while a full trick awaits resolution, out of turn, when
    /// the player does not hold the card, or when it breaks the rule to
    /// follow the lead suit while able.
    #[verifier::rlimit(100)]
    pub fn play_card(&mut self, seat: Seat, card: Card) -> (r: Result<(), ActionError>)
        requires
            old(self).wf(),
        ensures
            final(self).wf(),
            ({
                let pre = *old(self);
                let post = *final(self);
                if pre.state != GameState::PlayingHand || pre.trick@.len() == 4 {
                    r == Err::<(), ActionError>(ActionError::WrongState) && post == pre
                } else if seat != pre.current_player_seat {
                    r == Err::<(), ActionError>(ActionError::NotYourTurn) && post == pre
                } else if !pre.hand_of(seat).contains(card) {
                    r == Err::<(), ActionError>(ActionError::CardNotInHand) && post == pre
                } else if pre.trick@.len() > 0 && card.suit != pre.trick@[0].suit
                    && pre.players.spec_get(seat).spec_has_suit(pre.trick@[0].suit) {
                    r == Err::<(), ActionError>(ActionError::MustFollowSuit) && post == pre
                } else {
                    r == Ok::<(), ActionError>(()) && (exists|i: int|
                        plays_card(pre, post, seat, card, i))
                }
            }),
    {
        if !matches!(self.state, GameState::PlayingHand) || self.trick.len() == 4 {
            return Err(ActionError::WrongState);
        }
        if seat != self.current_player_seat {
            return Err(ActionError::NotYourTurn);
        }
        let idx = match self.players.get(seat).find_card(card) {
            Some(i) => i,
            None => {
                proof {
                    assert(!old(self).hand_of(seat).contains(card));
                }
                return Err(ActionError::CardNotInHand);
            },
        };
        if self.trick.len() > 0 {
            let lead = self.trick[0].suit;
            if card.suit != lead {
                if self.players.get(seat).find_suit(lead).is_some() {
                    return Err(ActionError::MustFollowSuit);
                }
            }
        }
        let played = self.players.get_mut(seat).play_card(idx);
        self.trick.push(played);
        self.next_turn();
        proof {
            let pre = *old(self);
            assert(pre.hand_of(seat).contains(card));
            let newhand = self.players.spec_get(seat).hand@;
            assert(newhand == pre.hand_of(seat).remove(idx as int));
            assert forall|i: int| 0 <= i < newhand.len() implies (#[trigger] newhand[i]).wf() by {
                if i < idx {
                    assert(newhand[i] == pre.hand_of(seat)[i]);
                } else {
                    assert(newhand[i] == pre.hand_of(seat)[i + 1]);
                }
            };
            assert(plays_card(pre, *self, seat, card, idx as int));
        }
        Ok(())
    }

    /// Pass the turn to the next seat in turn order.
    fn next_turn(&mut self)
        ensures
            *final(self) == (Game {
                current_player_seat: old(self).current_player_seat.spec_next(),
                ..*old(self)
            }),
    {
        self.current_player_seat = self.current_player_seat.next();
    }
}

/// The acting player claims the turned-up card's suit as trump: the
/// dealer takes that card into the hand and discards the card at the
/// given position of the resulting six, the kitty keeps the discard at
/// its bottom, and the seat left of the dealer leads the first trick.
pub open spec fn accepts_pickup(pre: Game, post: Game, caller: Seat, discard_index: int) -> bool {
    let up = pre.deck.cards@[0];
    let picked = pre.hand_of(pre.dealer_seat).push(up);
    let discarded = picked[discard_index];
    &&& hand_becomes(pre.players, post.players, pre.dealer_seat, picked.remove(discard_index))
    &&& post.deck.cards@ == pre.deck.cards@.skip(1).push(discarded)
    &&& post.trump_suit == up.suit
    &&& post.caller_team == team_of_seat(caller)
    &&& post.state == GameState::PlayingHand
    &&& post.leader_seat == pre.dealer_seat.spec_next()
    &&& post.current_player_seat == pre.dealer_seat.spec_next()
    &&& post.dealer_seat == pre.dealer_seat
    &&& post.hand_num == pre.hand_num
    &&& post.user_team == pre.user_team
    &&& post.opp_team == pre.opp_team
    &&& post.trick == pre.trick
}

/// The acting player passes on the turned-up card; when the dealer —
/// asked last — passes too, the pickup round is over and naming a suit
/// begins again at the dealer's left.
pub open spec fn passes_pickup(pre: Game, post: Game) -> bool {
    if pre.current_player_seat == pre.dealer_seat {
        post == (Game {
            state: GameState::CallingHighSuit,
            current_player_seat: pre.dealer_seat.spec_next(),
            ..pre
        })
    } else {
        post == (Game { current_player_seat: pre.current_player_seat.spec_next(), ..pre })
    }
}

/// The acting player names trump and the seat left of the dealer leads
/// the first trick.
pub open spec fn calls_high_suit(pre: Game, post: Game, caller: Seat, suit: Suit) -> bool {
    post == (Game {
        trump_suit: suit,
        caller_team: team_of_seat(caller),
        state: GameState::PlayingHand,
        leader_seat: pre.dealer_seat.spec_next(),
        current_player_seat: pre.dealer_seat.spec_next(),
        ..pre
    })
}

/// Every seat passed twice: the hand is thrown in. All cards return to a
/// fresh shuffled deck and the engine moves on to pick the next dealer.
pub open spec fn throws_in(pre: Game, post: Game) -> bool {
    &&& post.state == GameState::PickingDealer
    &&& cleared_hands(pre.players, post.players)
    &&& post.deck.cards@.len() == 24
    &&& post.deck.cards@.to_multiset() == full_deck().to_multiset()
    &&& post.trick@.len() == 0
    &&& post.trump_suit == Suit::_None
    &&& post.user_team == pre.user_team
    &&& post.opp_team == pre.opp_team
    &&& post.caller_team == pre.caller_team
    &&& post.current_player_seat == pre.current_player_seat
    &&& post.dealer_seat == pre.dealer_seat
    &&& post.leader_seat == pre.leader_seat
    &&& post.hand_num == pre.hand_num
}

/// The first copy of the card leaves the acting player's hand — position
/// `i` — joins the trick, and the turn passes on.
pub open spec fn plays_card(pre: Game, post: Game, seat: Seat, card: Card, i: int) -> bool {
    &&& 0 <= i < pre.hand_of(seat).len()
    &&& pre.hand_of(seat)[i] == card
    &&& forall|j: int| 0 <= j < i ==> pre.hand_of(seat)[j] != card
    &&& hand_becomes(pre.players, post.players, seat, pre.hand_of(seat).remove(i))
    &&& post.trick@ == pre.trick@.push(card)
    &&& post.current_player_seat == seat.spec_next()
    &&& post.state == pre.state
    &&& post.user_team == pre.user_team
    &&& post.opp_team == pre.opp_team
    &&& post.deck == pre.deck
    &&& post.trump_suit == pre.trump_suit
    &&& post.caller_team == pre.caller_team
    &&& post.dealer_seat == pre.dealer_seat
    &&& post.leader_seat == pre.leader_seat
    &&& post.hand_num == pre.hand_num
}

/// The dealer is chosen — rotating one seat after the first hand — the
/// seat left of the dealer is set to act first, and dealing begins.
/// The hand counter advances here, as the new hand begins (saturating at
/// its top): the counter is what distinguishes the very first hand,
/// whose dealer is drawn at random, from every later hand, whose dealer
/// is the next seat around — so this tick is the one place it may move.
/// Everything else is untouched.
pub open spec fn picks_dealer(pre: Game, post: Game) -> bool {
    &&& post.state == GameState::DealingHand
    &&& (pre.hand_num > 0 ==> post.dealer_seat == pre.dealer_seat.spec_next())
    &&& post.current_player_seat == post.dealer_seat.spec_next()
    &&& post.hand_num == (if pre.hand_num < 255 {
        pre.hand_num + 1
    } else {
        255
    })
    &&& post.leader_seat == pre.leader_seat
    &&& post.user_team == pre.user_team
    &&& post.opp_team == pre.opp_team
    &&& post.players == pre.players
    &&& post.deck == pre.deck
    &&& post.trick == pre.trick
    &&& post.trump_suit == pre.trump_suit
    &&& post.caller_team == pre.caller_team
}

/// One dealing step: the seat whose turn it is — its hand still empty —
/// receives the next five cards off the deck and the turn passes on.
pub open spec fn deals_five(pre: Game, post: Game) -> bool {
    let seat = pre.current_player_seat;
    &&& pre.hand_of(seat).len() == 0
    &&& hand_becomes(pre.players, post.players, seat, pre.deck.cards@.take(5))
    &&& post.deck.cards@ == pre.deck.cards@.skip(5)
    &&& post.current_player_seat == seat.spec_next()
    &&& post.state == pre.state
    &&& post.dealer_seat == pre.dealer_seat
    &&& post.leader_seat == pre.leader_seat
    &&& post.hand_num == pre.hand_num
    &&& post.user_team == pre.user_team
    &&& post.opp_team == pre.opp_team
    &&& post.trick == pre.trick
    &&& post.trump_suit == pre.trump_suit
    &&& post.caller_team == pre.caller_team
}

/// Every hand is full: the seat left of the dealer is set to open the
/// bidding on the turned-up kitty card.
pub open spec fn finishes_dealing(pre: Game, post: Game) -> bool {
    &&& pre.hand_of(pre.current_player_seat).len() != 0
    &&& post == (Game {
        state: GameState::CallingPickup,
        current_player_seat: pre.dealer_seat.spec_next(),
        ..pre
    })
}

/// The rank the `i`-th card of the trick competes with: trump rules
/// against the suit that led the trick.
pub open spec fn trick_rank(trick: Seq<Card>, trump: Suit, i: int) -> int {
    trick[i].spec_rank(trump, trick[0].suit)
}

/// Position `w` holds the winning card of the trick: no card ranks above
/// it and no earlier card ranks equal to it.
pub open spec fn is_winning_play(trick: Seq<Card>, trump: Suit, w: int) -> bool {
    &&& 0 <= w < trick.len()
    &&& forall|j: int|
        0 <= j < trick.len() ==> #[trigger] trick_rank(trick, trump, j) <= trick_rank(
            trick,
            trump,
            w,
        )
    &&& forall|j: int|
        0 <= j < w ==> #[trigger] trick_rank(trick, trump, j) < trick_rank(trick, trump, w)
}

/// A trick resolves one way only: the conditions of `is_winning_play`
/// pin a single position, so the ranking decides every trick.
pub proof fn lemma_winning_play_unique(trick: Seq<Card>, trump: Suit, w1: int, w2: int)
    requires
        is_winning_play(trick, trump, w1),
        is_winning_play(trick, trump, w2),
    ensures
        w1 == w2,
{
    if w1 < w2 {
        assert(trick_rank(trick, trump, w1) < trick_rank(trick, trump, w2));
        assert(trick_rank(trick, trump, w2) <= trick_rank(trick, trump, w1));
    }
    if w2 < w1 {
        assert(trick_rank(trick, trump, w2) < trick_rank(trick, trump, w1));
        assert(trick_rank(trick, trump, w1) <= trick_rank(trick, trump, w2));
    }
}

/// The full trick resolves to the play at position `w`: the seat that
/// made it takes the trick for its team, leads the next trick, and the
/// table is cleared. Hands, deck and everything else stay.
pub open spec fn resolves_trick_with(pre: Game, post: Game, w: int) -> bool {
    let wseat = pre.leader_seat.advanced_by(w as nat);
    &&& post.leader_seat == wseat
    &&& post.current_player_seat == wseat
    &&& post.trick@.len() == 0
    &&& (if team_of_seat(wseat) == TeamType::Home {
        post.user_team == (Team {
            hand_score: (pre.user_team.hand_score + 1) as u8,
            ..pre.user_team
        }) && post.opp_team == pre.opp_team
    } else {
        post.opp_team == (Team {
            hand_score: (pre.opp_team.hand_score + 1) as u8,
            ..pre.opp_team
        }) && post.user_team == pre.user_team
    })
    &&& post.players == pre.players
    &&& post.deck == pre.deck
    &&& post.state == pre.state
    &&& post.trump_suit == pre.trump_suit
    &&& post.caller_team == pre.caller_team
    &&& post.dealer_seat == pre.dealer_seat
    &&& post.hand_num == pre.hand_num
}

/// The full trick is resolved in favor of its winning play.
pub open spec fn resolves_trick(pre: Game, post: Game) -> bool {
    &&& pre.trick@.len() == 4
    &&& exists|w: int|
        #[trigger] is_winning_play(pre.trick@, pre.trump_suit, w) && resolves_trick_with(
            pre,
            post,
            w,
        )
}

/// Points a finished hand awards, as (calling team, defending team):
/// one for taking three or four tricks, two for a march of all five,
/// and two to the defenders when the callers fall short.
pub open spec fn hand_points(caller_tricks: int) -> (int, int) {
    if caller_tricks == 5 {
        (2, 0)
    } else if caller_tricks >= 3 {
        (1, 0)
    } else {
        (0, 2)
    }
}

/// The team's hand score folds into its game score — saturating at the
/// counter's top — and resets; nothing else about the team changes.
pub open spec fn team_scored(pre: Team, post: Team, points: int) -> bool {
    &&& post.game_score == (if pre.game_score + points <= 255 {
        pre.game_score + points
    } else {
        255
    })
    &&& post.hand_score == 0
    &&& post.name == pre.name
    &&& post.first_seat == pre.first_seat
    &&& post.second_seat == pre.second_seat
}

/// The finished hand is tallied into the game scores, every hand is
/// cleared, a fresh shuffled deck is built, trump is forgotten, and the
/// engine returns to pick the next dealer.
pub open spec fn scores_hand(pre: Game, post: Game) -> bool {
    let caller_tricks = if pre.caller_team == TeamType::Home {
        pre.user_team.hand_score as int
    } else {
        pre.opp_team.hand_score as int
    };
    let pts = hand_points(caller_tricks);
    let home_pts = if pre.caller_team == TeamType::Home {
        pts.0
    } else {
        pts.1
    };
    let away_pts = if pre.caller_team == TeamType::Home {
        pts.1
    } else {
        pts.0
    };
    &&& pre.tricks_taken() == 5
    &&& post.state == GameState::PickingDealer
    &&& team_scored(pre.user_team, post.user_team, home_pts)
    &&& team_scored(pre.opp_team, post.opp_team, away_pts)
    &&& cleared_hands(pre.players, post.players)
    &&& post.deck.cards@.len() == 24
    &&& post.deck.cards@.to_multiset() == crate::cards::full_deck().to_multiset()
    &&& post.trick@.len() == 0
    &&& post.trump_suit == Suit::_None
    &&& post.caller_team == pre.caller_team
    &&& post.current_player_seat == pre.current_player_seat
    &&& post.dealer_seat == pre.dealer_seat
    &&& post.leader_seat == pre.leader_seat
    &&& post.hand_num == pre.hand_num
}

/// What one engine tick does, phase by phase, relating the game and the
/// pacing counter before the tick to the game and the counter after it:
/// picking the dealer and finishing the deal happen at once; dealing
/// serves one seat and resets the counter once it passes its threshold,
/// and otherwise only counts; the bidding phases wait for actions; trick
/// play resolves a full trick, or tallies the finished hand, one tick at
/// a time, and otherwise waits.
pub open spec fn tick_rel(pre: Game, post: Game, count_before: u64, count_after: u64) -> bool {
    match pre.state {
        GameState::PickingDealer => picks_dealer(pre, post) && count_after == count_before,
        GameState::DealingHand => (if count_before >= 5 {
            count_after == 0 && (if pre.hand_of(pre.current_player_seat).len() == 0 {
                deals_five(pre, post)
            } else {
                finishes_dealing(pre, post)
            })
        } else {
            count_after == count_before + 1 && post == pre
        }),
        GameState::CallingPickup => post == pre && count_after == count_before,
        GameState::CallingHighSuit => post == pre && count_after == count_before,
        GameState::PlayingHand => count_after == count_before && (if pre.trick@.len() == 4 {
            resolves_trick(pre, post)
        } else if pre.tricks_taken() == 5 {
            scores_hand(pre, post)
        } else {
            post == pre
        }),
    }
}

/// One observable move of the engine: a tick that did work, or an action
/// that was accepted. Rejected actions and waiting ticks leave the game
/// identical and are no move.
pub open spec fn is_step(pre: Game, post: Game) -> bool {
    &&& pre.wf()
    &&& post.wf()
    &&& pre != post
    &&& {
        ||| (pre.state == GameState::PickingDealer && picks_dealer(pre, post))
        ||| (pre.state == GameState::DealingHand && (deals_five(pre, post) || finishes_dealing(
            pre,
            post,
        )))
        ||| (pre.state == GameState::CallingPickup && (passes_pickup(pre, post) || (exists|
            seat: Seat,
            di: int,
        |
            accepts_pickup(pre, post, seat, di))))
        ||| (pre.state == GameState::CallingHighSuit && ((pre.current_player_seat
            == pre.dealer_seat && throws_in(pre, post)) || (pre.current_player_seat
            != pre.dealer_seat && post == (Game {
            current_player_seat: pre.current_player_seat.spec_next(),
            ..pre
        })) || (exists|seat: Seat, suit: Suit| calls_high_suit(pre, post, seat, suit))))
        ||| (pre.state == GameState::PlayingHand && (resolves_trick(pre, post) || scores_hand(
            pre,
            post,
        ) || (exists|seat: Seat, card: Card, i: int| plays_card(pre, post, seat, card, i))))
    }
}

/// Engine moves follow the lifecycle's edges and no others: dealing
/// follows picking the dealer; dealing loops or opens the pickup round;
/// the pickup round loops or passes to suit-calling or straight to trick
/// play; suit-calling loops, starts trick play, or throws the hand in;
/// trick play loops until the hand is tallied and a new hand begins.
pub proof fn lemma_step_edges(pre: Game, post: Game)
    requires
        is_step(pre, post),
    ensures
        match pre.state {
            GameState::PickingDealer => post.state == GameState::DealingHand,
            GameState::DealingHand => post.state == GameState::DealingHand || post.state
                == GameState::CallingPickup,
            GameState::CallingPickup => post.state == GameState::CallingPickup || post.state
                == GameState::CallingHighSuit || post.state == GameState::PlayingHand,
            GameState::CallingHighSuit => post.state == GameState::CallingHighSuit || post.state
                == GameState::PlayingHand || post.state == GameState::PickingDealer,
            GameState::PlayingHand => post.state == GameState::PlayingHand || post.state
                == GameState::PickingDealer,
        },
{
}

/// The dealer pointer moves only when a new hand's dealer is picked, and
/// then — on every hand after the first — exactly one seat onward.
pub proof fn lemma_step_dealer(pre: Game, post: Game)
    requires
        is_step(pre, post),
    ensures
        pre.state != GameState::PickingDealer ==> post.dealer_seat == pre.dealer_seat,
        (pre.state == GameState::PickingDealer && pre.hand_num > 0) ==> post.dealer_seat
            == pre.dealer_seat.spec_next(),
{
}

/// Away from PickingDealer the dealer pointer never moves along a run of
/// engine steps.
proof fn lemma_dealer_fixed(tr: Seq<Game>, k: int)
    requires
        1 <= k < tr.len(),
        forall|j: int| 0 <= j < tr.len() - 1 ==> is_step(#[trigger] tr[j], tr[j + 1]),
        forall|j: int|
            0 < j < tr.len() - 1 ==> (#[trigger] tr[j]).state != GameState::PickingDealer,
    ensures
        tr[k].dealer_seat == tr[1].dealer_seat,
    decreases k,
{
    if k > 1 {
        lemma_dealer_fixed(tr, k - 1);
        lemma_step_dealer(tr[k - 1], tr[k]);
    }
}

/// One full hand rotates the dealer exactly one seat: over any run of
/// engine steps that leaves PickingDealer on a hand after the first and
/// first returns there at its end, the final dealer is the next seat
/// after the starting dealer.
pub proof fn lemma_hand_cycle(tr: Seq<Game>)
    requires
        tr.len() >= 2,
        forall|j: int| 0 <= j < tr.len() - 1 ==> is_step(#[trigger] tr[j], tr[j + 1]),
        tr[0].state == GameState::PickingDealer,
        tr[0].hand_num > 0,
        forall|j: int|
            0 < j < tr.len() - 1 ==> (#[trigger] tr[j]).state != GameState::PickingDealer,
        tr.last().state == GameState::PickingDealer,
    ensures
        tr.last().dealer_seat == tr[0].dealer_seat.spec_next(),
{
    assert(is_step(tr[0], tr[1]));
    lemma_step_dealer(tr[0], tr[1]);
    lemma_dealer_fixed(tr, tr.len() - 1);
}

/// How much of the hand is still to run: a measure that every engine
/// step away from PickingDealer strictly decreases. Dealing counts the
/// cards still to hand out; the bidding phases count the seats still to
/// be asked before the dealer; trick play counts the cards still to
/// play and the tricks still to resolve; and the phase offsets order
/// the phases themselves.
pub open spec fn hand_measure(g: Game) -> int {
    match g.state {
        GameState::PickingDealer => 0,
        GameState::DealingHand => 200 + (24 - g.players.hands_total()),
        GameState::CallingPickup => 100 + offset_from(g.current_player_seat, g.dealer_seat),
        GameState::CallingHighSuit => 50 + offset_from(g.current_player_seat, g.dealer_seat),
        GameState::PlayingHand => g.players.hands_total() + (5 - g.tricks_taken()) + 1,
    }
}

/// Away from PickingDealer a well-formed game still has work to do.
proof fn lemma_measure_positive(g: Game)
    requires
        g.wf(),
        g.state != GameState::PickingDealer,
    ensures
        hand_measure(g) >= 1,
{
}

/// Every engine step within a hand strictly decreases the measure: no
/// run of ticks and accepted actions can circle inside one hand forever.
pub proof fn lemma_step_measure(pre: Game, post: Game)
    requires
        is_step(pre, post),
        pre.state != GameState::PickingDealer,
    ensures
        hand_measure(post) < hand_measure(pre),
        hand_measure(post) >= 0,
{
    lemma_measure_positive(pre);
    if post.state != GameState::PickingDealer {
        lemma_measure_positive(post);
    }
    match pre.state {
        GameState::PickingDealer => {},
        GameState::DealingHand => {
            if deals_five(pre, post) {
                assert(post.players.hands_total() == pre.players.hands_total() + 5);
            } else {
                assert(finishes_dealing(pre, post));
                assert(offset_from(post.current_player_seat, post.dealer_seat) == 3);
                assert(hand_measure(post) == 103);
                assert(hand_measure(pre) >= 200);
            }
        },
        GameState::CallingPickup => {
            if passes_pickup(pre, post) {
                if pre.current_player_seat == pre.dealer_seat {
                    assert(offset_from(post.current_player_seat, post.dealer_seat) == 3);
                    assert(hand_measure(post) == 53);
                    assert(hand_measure(pre) == 100);
                } else {
                    assert(offset_from(pre.current_player_seat.spec_next(), pre.dealer_seat)
                        == offset_from(pre.current_player_seat, pre.dealer_seat) - 1);
                }
            } else {
                let (seat, di): (Seat, int) = choose|seat: Seat, di: int|
                    accepts_pickup(pre, post, seat, di);
                assert(accepts_pickup(pre, post, seat, di));
                assert(post.tricks_taken() == 0 && post.trick@.len() == 0);
                assert(post.players.hands_total() == 20);
                assert(hand_measure(post) == 26);
                assert(hand_measure(pre) >= 100);
            }
        },
        GameState::CallingHighSuit => {
            if pre.current_player_seat == pre.dealer_seat && throws_in(pre, post) {
                assert(hand_measure(post) == 0);
            } else if pre.current_player_seat != pre.dealer_seat && post == (Game {
                current_player_seat: pre.current_player_seat.spec_next(),
                ..pre
            }) {
                assert(offset_from(pre.current_player_seat.spec_next(), pre.dealer_seat)
                    == offset_from(pre.current_player_seat, pre.dealer_seat) - 1);
            } else {
                let (seat, suit): (Seat, Suit) = choose|seat: Seat, suit: Suit|
                    calls_high_suit(pre, post, seat, suit);
                assert(calls_high_suit(pre, post, seat, suit));
                assert(post.tricks_taken() == 0 && post.trick@.len() == 0);
                assert(post.players.hands_total() == 20);
                assert(hand_measure(post) == 26);
                assert(hand_measure(pre) >= 50);
            }
        },
        GameState::PlayingHand => {
            if resolves_trick(pre, post) {
                let w: int = choose|w: int|
                    is_winning_play(pre.trick@, pre.trump_suit, w) && resolves_trick_with(
                        pre,
                        post,
                        w,
                    );
                assert(resolves_trick_with(pre, post, w));
                assert(post.players.hands_total() == pre.players.hands_total());
                assert(post.tricks_taken() == pre.tricks_taken() + 1);
            } else if scores_hand(pre, post) {
                assert(hand_measure(post) == 0);
            } else {
                let (seat, card, i): (Seat, Card, int) = choose|seat: Seat, card: Card, i: int|
                    plays_card(pre, post, seat, card, i);
                assert(plays_card(pre, post, seat, card, i));
                assert(post.players.hands_total() == pre.players.hands_total() - 1);
                assert(post.tricks_taken() == pre.tricks_taken());
            }
        },
    }
}

/// The hand always completes: any run of engine steps longer than the
/// starting measure passes through PickingDealer. Together with the
/// edge and dealer lemmas this is the state machine's cycle: each
/// revolution is one bounded hand, and the dealer moves one seat.
pub proof fn lemma_hand_terminates(tr: Seq<Game>)
    requires
        tr.len() >= 1,
        tr[0].wf(),
        forall|j: int| 0 <= j < tr.len() - 1 ==> is_step(#[trigger] tr[j], tr[j + 1]),
        tr.len() > hand_measure(tr[0]),
    ensures
        exists|j: int|
            0 <= j < tr.len() && (#[trigger] tr[j]).state == GameState::PickingDealer,
    decreases tr.len(),
{
    if tr[0].state == GameState::PickingDealer {
        assert(tr[0].state == GameState::PickingDealer);
    } else {
        lemma_measure_positive(tr[0]);
        assert(is_step(tr[0], tr[1]));
        lemma_step_measure(tr[0], tr[1]);
        let rest = tr.subrange(1, tr.len() as int);
        assert forall|j: int|
            0 <= j < rest.len() - 1 implies is_step(#[trigger] rest[j], rest[j + 1]) by {
            assert(rest[j] == tr[j + 1]);
            assert(rest[j + 1] == tr[j + 2]);
            assert(is_step(tr[j + 1], tr[j + 2]));
        };
        assert(rest[0].wf());
        assert(rest.len() > hand_measure(rest[0]));
        lemma_hand_terminates(rest);
        let j: int = choose|j: int|
            0 <= j < rest.len() && (#[trigger] rest[j]).state == GameState::PickingDealer;
        assert(tr[j + 1].state == GameState::PickingDealer);
    }
}

/// Dealing leaves nothing half done: once the engine has moved past
/// DealingHand into the pickup round, every seat holds exactly five
/// cards and the deck is down by exactly twenty from its full
/// twenty-four.
pub proof fn lemma_dealing_complete(g: Game)
    requires
        g.wf(),
        g.state == GameState::CallingPickup,
    ensures
        g.hand_of(Seat::Bottom).len() == 5,
        g.hand_of(Seat::Left).len() == 5,
        g.hand_of(Seat::Top).len() == 5,
        g.hand_of(Seat::Right).len() == 5,
        g.deck.cards@.len() == 24 - 20,
{
}

/// Position of the winning play of a non-empty trick: the first card
/// whose rank no other card exceeds.
fn winning_play_index(trick: &Vec<Card>, trump: Suit) -> (w: usize)
    requires
        trick@.len() >= 1,
    ensures
        is_winning_play(trick@, trump, w as int),
{
    let lead_suit = trick[0].suit;
    let mut best: usize = 0;
    let mut best_rank = trick[0].get_rank(trump, lead_suit);
    let mut i: usize = 1;
    while i < trick.len()
        invariant
            trick@.len() >= 1,
            lead_suit == trick@[0].suit,
            1 <= i <= trick@.len(),
            best < i,
            best_rank as int == trick_rank(trick@, trump, best as int),
            forall|j: int|
                0 <= j < i ==> #[trigger] trick_rank(trick@, trump, j) <= best_rank as int,
            forall|j: int|
                0 <= j < best ==> #[trigger] trick_rank(trick@, trump, j) < best_rank as int,
        decreases trick@.len() - i,
    {
        let r = trick[i].get_rank(trump, lead_suit);
        proof {
            assert(r as int == trick_rank(trick@, trump, i as int));
        }
        if r > best_rank {
            best = i;
            best_rank = r;
        }
        i += 1;
    }
    best
}

} // verus!
