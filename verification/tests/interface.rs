use euchre_tui::cards::{Card, Face, Suit};
use euchre_tui::game::GameState;
use euchre_tui::interface::{
    card_area, GameScreen, InterfaceCallback, InterfaceState, SetupScreenState, SetupState,
    CARD_HEIGHT, CARD_WIDTH,
};
use euchre_tui::game::Game;

fn fresh_game() -> Game {
    Game::new(
        "User".to_string(),
        "Partner".to_string(),
        "Opponent 1".to_string(),
        "Opponent 2".to_string(),
        "Good Guys".to_string(),
        "Bad Guys".to_string(),
    )
}

#[test]
fn setup_screen_state_steps_and_stops_at_the_ends() {
    assert_eq!(SetupScreenState::UserName.next(), SetupScreenState::TeamName);
    assert_eq!(SetupScreenState::TeamName.next(), SetupScreenState::Confirm);
    assert_eq!(SetupScreenState::Confirm.next(), SetupScreenState::Confirm);
    assert_eq!(SetupScreenState::Confirm.prev(), SetupScreenState::TeamName);
    assert_eq!(SetupScreenState::TeamName.prev(), SetupScreenState::UserName);
    assert_eq!(SetupScreenState::UserName.prev(), SetupScreenState::UserName);
}

#[test]
fn setup_state_steps_and_stops_at_the_ends() {
    assert_eq!(SetupState::UserName.next_step(), SetupState::TeamName);
    assert_eq!(SetupState::TeamName.next_step(), SetupState::Done);
    assert_eq!(SetupState::Done.next_step(), SetupState::Done);
    assert_eq!(SetupState::Done.prev_step(), SetupState::TeamName);
    assert_eq!(SetupState::TeamName.prev_step(), SetupState::UserName);
    assert_eq!(SetupState::UserName.prev_step(), SetupState::UserName);
}

#[test]
fn interface_state_and_callback_shapes() {
    let state = InterfaceState::Splash;
    assert_eq!(state, InterfaceState::Splash);
    assert!(state != InterfaceState::GameSetup);
    assert!(InterfaceState::GameTable != InterfaceState::GameSetup);
    let callback = InterfaceCallback::StartGame { game: fresh_game() };
    match callback {
        InterfaceCallback::StartGame { game } => {
            assert_eq!(game.state, GameState::PickingDealer);
        }
        _ => panic!("expected a start-game callback"),
    }
    assert!(matches!(InterfaceCallback::NoOp, InterfaceCallback::NoOp));
    assert!(matches!(InterfaceCallback::Exit, InterfaceCallback::Exit));
    assert!(matches!(InterfaceCallback::QuitToSplash, InterfaceCallback::QuitToSplash));
    assert!(matches!(InterfaceCallback::SetupNewGame, InterfaceCallback::SetupNewGame));
}

#[test]
fn game_screen_holds_and_ticks_a_game() {
    let mut screen = GameScreen::new();
    assert!(screen.game.is_none());
    assert!(!screen.is_paused);
    assert_eq!(screen.tick_count, 0);

    screen.handle_tick_event();
    assert!(screen.game.is_none());

    screen.set_game(fresh_game());
    assert!(screen.game.is_some());

    screen.is_paused = true;
    screen.handle_tick_event();
    assert_eq!(screen.game.as_ref().unwrap().state, GameState::PickingDealer);
    assert_eq!(screen.tick_count, 0);

    screen.is_paused = false;
    screen.handle_tick_event();
    assert_eq!(screen.game.as_ref().unwrap().state, GameState::DealingHand);
}

#[test]
fn card_area_draws_the_card_in_seven_lines() {
    let lines = card_area(Card::new(Face::Nine, Suit::Hearts));
    assert_eq!(lines.len(), CARD_HEIGHT);
    assert_eq!(lines[0], "─".repeat(CARD_WIDTH));
    assert_eq!(lines[1], " 9       ");
    assert_eq!(lines[2], " ".repeat(CARD_WIDTH));
    assert_eq!(lines[3], "    ♥    ");
    assert_eq!(lines[4], " ".repeat(CARD_WIDTH));
    assert_eq!(lines[5], "       9 ");
    assert_eq!(lines[6], "─".repeat(CARD_WIDTH));
    let royal = card_area(Card::new(Face::Queen, Suit::Spades));
    assert_eq!(royal[1], " Q       ");
    assert_eq!(royal[3], "    ♠    ");
    assert_eq!(royal[5], "       Q ");
}
