use euchre_tui::cards::{Card, Face, Suit};
use euchre_tui::game::{ActionError, Game, GameState};
use euchre_tui::player::{Player, PlayerType};
use euchre_tui::table::Seat;
use euchre_tui::team::{Team, TeamType};

const ALL_SUITS: [Suit; 4] = [Suit::Hearts, Suit::Diamonds, Suit::Clubs, Suit::Spades];
const ALL_FACES: [Face; 6] = [Face::Nine, Face::Ten, Face::Jack, Face::Queen, Face::King, Face::Ace];
const ALL_SEATS: [Seat; 4] = [Seat::Bottom, Seat::Left, Seat::Top, Seat::Right];

fn fresh_game() -> Game {
    Game::new(
        "User".to_string(),
        "Partner".to_string(),
        "Opponent 1".to_string(),
        "Opponent 2".to_string(),
        "Good Guys".to_string(),
        "Bad Guys".to_string(),
    )
}

/// Tick the engine until it reaches the given state, within a bound.
fn tick_until(game: &mut Game, tick: u64, target: GameState, bound: u32) -> u64 {
    let mut tick = tick;
    let mut steps = 0;
    while game.state != target {
        tick = game.handle_game_tick(tick);
        steps += 1;
        assert!(steps < bound, "engine did not reach the expected state");
    }
    tick
}

/// Play out the five tricks of a hand, always choosing the first card
/// the engine accepts, until the engine returns to PickingDealer.
fn play_out_hand(game: &mut Game, tick: u64) -> u64 {
    let mut tick = tick;
    let mut steps = 0;
    while game.state == GameState::PlayingHand {
        steps += 1;
        assert!(steps < 200, "trick play did not finish");
        let tricks = game.user_team.hand_score + game.opp_team.hand_score;
        if game.trick.len() == 4 || tricks == 5 {
            tick = game.handle_game_tick(tick);
            continue;
        }
        let seat = game.current_player_seat;
        let hand = game.get_player_in_seat(seat).hand.clone();
        let mut played = false;
        for card in hand {
            if game.play_card(seat, card).is_ok() {
                played = true;
                break;
            }
        }
        assert!(played, "no legal card was accepted");
    }
    tick
}

/// A comparable snapshot of everything observable about a game.
fn snapshot(game: &Game) -> (
    (GameState, Seat, Seat, Seat, u8, Suit, TeamType),
    (Vec<Card>, Vec<Card>),
    (Vec<Card>, Vec<Card>, Vec<Card>, Vec<Card>),
    (String, u8, u8, String, u8, u8),
) {
    (
        (
            game.state,
            game.current_player_seat,
            game.dealer_seat,
            game.leader_seat,
            game.hand_num,
            game.trump_suit,
            game.caller_team,
        ),
        (game.deck.cards.clone(), game.trick.clone()),
        (
            game.players.bottom.hand.clone(),
            game.players.left.hand.clone(),
            game.players.top.hand.clone(),
            game.players.right.hand.clone(),
        ),
        (
            game.user_team.name.clone(),
            game.user_team.game_score,
            game.user_team.hand_score,
            game.opp_team.name.clone(),
            game.opp_team.game_score,
            game.opp_team.hand_score,
        ),
    )
}

#[test]
fn new_game_is_seeded_and_ready() {
    let game = fresh_game();
    assert_eq!(game.state, GameState::PickingDealer);
    assert_eq!(game.hand_num, 0);
    assert_eq!(game.dealer_seat, Seat::Bottom);
    assert_eq!(game.leader_seat, Seat::Bottom);
    assert_eq!(game.current_player_seat, Seat::Bottom);
    assert_eq!(game.deck.cards.len(), 24);
    assert_eq!(game.user_team.name, "Good Guys");
    assert_eq!(game.opp_team.name, "Bad Guys");
    assert_eq!(game.user_team.game_score, 0);
    assert_eq!(game.opp_team.game_score, 0);
    assert_eq!(game.current_player().name, "User");
    assert!(matches!(game.current_player().player_type, PlayerType::User));
    assert_eq!(game.get_player_in_seat(Seat::Top).name, "Partner");
    assert!(matches!(game.get_player_in_seat(Seat::Top).player_type, PlayerType::Bot));
    assert!(game.winning_team().is_none());
}

#[test]
fn dealing_fills_every_hand_with_five_cards() {
    let mut game = fresh_game();
    let tick = game.handle_game_tick(0);
    assert_eq!(game.state, GameState::DealingHand);
    // Below the pacing threshold a tick only advances the counter.
    let tick = game.handle_game_tick(tick);
    assert_eq!(tick, 1);
    assert!(game.get_player_in_seat(game.dealer_seat.next()).hand.is_empty());
    tick_until(&mut game, tick, GameState::CallingPickup, 100);
    for seat in ALL_SEATS {
        assert_eq!(game.get_player_in_seat(seat).hand.len(), 5);
    }
    assert_eq!(game.deck.cards.len(), 24 - 20);
    assert_eq!(game.current_player_seat, game.dealer_seat.next());
}

#[test]
fn full_hand_cycle_rotates_the_dealer_once() {
    let mut game = fresh_game();
    // First hand: the dealer is chosen at random, then everything cycles.
    let mut tick = game.handle_game_tick(0);
    let first_dealer = game.dealer_seat;
    assert_eq!(game.current_player_seat, first_dealer.next());
    assert_eq!(game.hand_num, 1);
    tick = tick_until(&mut game, tick, GameState::CallingPickup, 100);
    for _ in 0..4 {
        let seat = game.current_player_seat;
        game.pass_pickup(seat).unwrap();
    }
    assert_eq!(game.state, GameState::CallingHighSuit);
    assert_eq!(game.current_player_seat, game.dealer_seat.next());
    let turned_down = game.deck.cards[0].suit;
    let called = ALL_SUITS.into_iter().find(|&s| s != turned_down).unwrap();
    let seat = game.current_player_seat;
    game.call_high_suit(seat, called).unwrap();
    assert_eq!(game.state, GameState::PlayingHand);
    assert_eq!(game.trump_suit, called);
    assert_eq!(game.leader_seat, game.dealer_seat.next());
    tick = play_out_hand(&mut game, tick);
    assert_eq!(game.state, GameState::PickingDealer);
    assert_eq!(game.dealer_seat, first_dealer);
    let tricks_scored = game.user_team.game_score + game.opp_team.game_score;
    assert!(tricks_scored == 1 || tricks_scored == 2);
    assert_eq!(game.user_team.hand_score, 0);
    assert_eq!(game.opp_team.hand_score, 0);
    assert_eq!(game.deck.cards.len(), 24);
    for seat in ALL_SEATS {
        assert!(game.get_player_in_seat(seat).hand.is_empty());
    }
    // Second hand: the dealer rotates exactly one seat.
    game.handle_game_tick(tick);
    assert_eq!(game.state, GameState::DealingHand);
    assert_eq!(game.dealer_seat, first_dealer.next());
    assert_eq!(game.hand_num, 2);
}

#[test]
fn accepting_the_pickup_sets_trump_and_exchanges_the_card() {
    let mut game = fresh_game();
    let tick = game.handle_game_tick(0);
    tick_until(&mut game, tick, GameState::CallingPickup, 100);
    let turned_up = game.deck.cards[0];
    let dealer = game.dealer_seat;
    let seat = game.current_player_seat;
    game.accept_pickup(seat, 0).unwrap();
    assert_eq!(game.state, GameState::PlayingHand);
    assert_eq!(game.trump_suit, turned_up.suit);
    assert_eq!(game.get_player_in_seat(dealer).hand.len(), 5);
    assert!(game.get_player_in_seat(dealer).hand.contains(&turned_up));
    assert_eq!(game.deck.cards.len(), 4);
    assert_eq!(game.leader_seat, dealer.next());
    assert_eq!(game.current_player_seat, dealer.next());
}

#[test]
fn all_passing_twice_throws_the_hand_in() {
    let mut game = fresh_game();
    let tick = game.handle_game_tick(0);
    tick_until(&mut game, tick, GameState::CallingPickup, 100);
    for _ in 0..4 {
        let seat = game.current_player_seat;
        game.pass_pickup(seat).unwrap();
    }
    assert_eq!(game.state, GameState::CallingHighSuit);
    for _ in 0..4 {
        let seat = game.current_player_seat;
        game.pass_high_suit(seat).unwrap();
    }
    assert_eq!(game.state, GameState::PickingDealer);
    assert_eq!(game.deck.cards.len(), 24);
    for seat in ALL_SEATS {
        assert!(game.get_player_in_seat(seat).hand.is_empty());
    }
}

#[test]
fn actions_in_the_wrong_state_are_rejected() {
    let mut game = fresh_game();
    let before = snapshot(&game);
    let any_card = Card::new(Face::Nine, Suit::Hearts);
    assert_eq!(game.play_card(Seat::Bottom, any_card), Err(ActionError::WrongState));
    assert_eq!(game.pass_pickup(Seat::Bottom), Err(ActionError::WrongState));
    assert_eq!(game.accept_pickup(Seat::Bottom, 0), Err(ActionError::WrongState));
    assert_eq!(game.call_high_suit(Seat::Bottom, Suit::Hearts), Err(ActionError::WrongState));
    assert_eq!(game.pass_high_suit(Seat::Bottom), Err(ActionError::WrongState));
    assert_eq!(snapshot(&game), before);
}

#[test]
fn acting_out_of_turn_is_rejected() {
    let mut game = fresh_game();
    let tick = game.handle_game_tick(0);
    tick_until(&mut game, tick, GameState::CallingPickup, 100);
    let wrong = game.current_player_seat.next();
    let before = snapshot(&game);
    assert_eq!(game.pass_pickup(wrong), Err(ActionError::NotYourTurn));
    assert_eq!(game.accept_pickup(wrong, 0), Err(ActionError::NotYourTurn));
    assert_eq!(snapshot(&game), before);
}

#[test]
fn bad_discard_position_is_rejected() {
    let mut game = fresh_game();
    let tick = game.handle_game_tick(0);
    tick_until(&mut game, tick, GameState::CallingPickup, 100);
    let seat = game.current_player_seat;
    let before = snapshot(&game);
    assert_eq!(game.accept_pickup(seat, 6), Err(ActionError::BadDiscard));
    assert_eq!(snapshot(&game), before);
}

#[test]
fn turned_down_suit_cannot_be_called() {
    let mut game = fresh_game();
    let tick = game.handle_game_tick(0);
    tick_until(&mut game, tick, GameState::CallingPickup, 100);
    for _ in 0..4 {
        let seat = game.current_player_seat;
        game.pass_pickup(seat).unwrap();
    }
    let turned_down = game.deck.cards[0].suit;
    let seat = game.current_player_seat;
    let before = snapshot(&game);
    assert_eq!(game.call_high_suit(seat, turned_down), Err(ActionError::SuitNotCallable));
    assert_eq!(game.call_high_suit(seat, Suit::_None), Err(ActionError::SuitNotCallable));
    assert_eq!(snapshot(&game), before);
}

#[test]
fn playing_a_card_not_in_hand_leaves_the_game_unchanged() {
    let mut game = fresh_game();
    let tick = game.handle_game_tick(0);
    tick_until(&mut game, tick, GameState::CallingPickup, 100);
    let seat = game.current_player_seat;
    game.accept_pickup(seat, 0).unwrap();
    assert_eq!(game.state, GameState::PlayingHand);
    let current = game.current_player_seat;
    let hand = game.get_player_in_seat(current).hand.clone();
    let absent = ALL_SUITS
        .into_iter()
        .flat_map(|s| ALL_FACES.into_iter().map(move |f| Card::new(f, s)))
        .find(|c| !hand.contains(c))
        .unwrap();
    let before = snapshot(&game);
    assert_eq!(game.play_card(current, absent), Err(ActionError::CardNotInHand));
    assert_eq!(snapshot(&game), before);
}

#[test]
fn breaking_follow_suit_is_rejected() {
    // Hands are shuffled, so try fresh games until the second player to a
    // trick holds both a lead-suit card and an off-suit card.
    for _ in 0..50 {
        let mut game = fresh_game();
        let tick = game.handle_game_tick(0);
        tick_until(&mut game, tick, GameState::CallingPickup, 100);
        let seat = game.current_player_seat;
        game.accept_pickup(seat, 0).unwrap();
        let leader = game.current_player_seat;
        let lead_card = game.get_player_in_seat(leader).hand[0];
        game.play_card(leader, lead_card).unwrap();
        let follower = game.current_player_seat;
        let hand = game.get_player_in_seat(follower).hand.clone();
        let holds_lead = hand.iter().any(|c| c.suit == lead_card.suit);
        let off_suit = hand.iter().copied().find(|c| c.suit != lead_card.suit);
        if holds_lead {
            if let Some(off) = off_suit {
                let before = snapshot(&game);
                assert_eq!(game.play_card(follower, off), Err(ActionError::MustFollowSuit));
                assert_eq!(snapshot(&game), before);
                let legal = hand.iter().copied().find(|c| c.suit == lead_card.suit).unwrap();
                game.play_card(follower, legal).unwrap();
                return;
            }
        }
    }
    panic!("no game produced a hand with both a lead-suit and an off-suit card");
}

#[test]
fn game_state_next_cycles_through_all_phases() {
    let s0 = GameState::PickingDealer;
    let s1 = s0.next();
    let s2 = s1.next();
    let s3 = s2.next();
    let s4 = s3.next();
    assert_eq!(s1, GameState::DealingHand);
    assert_eq!(s2, GameState::CallingPickup);
    assert_eq!(s3, GameState::CallingHighSuit);
    assert_eq!(s4, GameState::PlayingHand);
    assert_eq!(s4.next(), GameState::PickingDealer);
    assert_eq!(s0.get_name(), "Picking Dealer");
    assert_eq!(s4.get_name(), "Playing Hand");
}

#[test]
fn team_scores_accumulate_and_reset() {
    let mut team = Team::new("Good Guys".to_string(), Seat::Bottom, Seat::Top);
    assert_eq!(team.game_score, 0);
    assert_eq!(team.hand_score, 0);
    assert!(team.has_seat(Seat::Bottom));
    assert!(team.has_seat(Seat::Top));
    assert!(!team.has_seat(Seat::Left));
    team.add_hand_points(3);
    assert_eq!(team.hand_score, 3);
    team.advance_game_score(2);
    assert_eq!(team.game_score, 2);
    assert_eq!(team.hand_score, 0);
    team.advance_game_score(255);
    team.advance_game_score(255);
    assert_eq!(team.game_score, 255);
}

#[test]
fn player_hand_operations() {
    let mut player = Player::new("Pat".to_string(), PlayerType::Bot);
    assert!(player.hand.is_empty());
    assert!(!player.call_pickup());
    assert_eq!(player.call_suit(), Suit::_None);
    let nine = Card::new(Face::Nine, Suit::Hearts);
    let ace = Card::new(Face::Ace, Suit::Spades);
    player.pickup_card(nine);
    player.pickup_card(ace);
    assert_eq!(player.hand.len(), 2);
    assert_eq!(player.find_card(ace), Some(1));
    assert_eq!(player.find_card(Card::new(Face::Ten, Suit::Clubs)), None);
    assert_eq!(player.find_suit(Suit::Hearts), Some(0));
    assert_eq!(player.find_suit(Suit::Diamonds), None);
    let played = player.play_card(0);
    assert_eq!(played, nine);
    assert_eq!(player.hand, vec![ace]);
}

#[test]
fn winning_team_appears_at_ten_points() {
    let mut game = fresh_game();
    assert!(game.winning_team().is_none());
    game.user_team.advance_game_score(10);
    assert_eq!(game.winning_team(), Some(TeamType::Home));
    game.opp_team.advance_game_score(11);
    assert_eq!(game.winning_team(), Some(TeamType::Home));
    game.user_team.game_score = 0;
    assert_eq!(game.winning_team(), Some(TeamType::Away));
}
