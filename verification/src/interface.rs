//! Engine-facing state of the presentation layer: which screen is up,
//! what a screen hands back to the application, the setup form's focus
//! cycle, the game screen's pacing state, and the text shape of a card.

use crate::cards::{push_char, Card};
use crate::game::{tick_rel, Game};
use vstd::prelude::*;

verus! {

/// Which screen the interface is showing.
#[derive(Debug, Clone, Copy, PartialEq, Eq, Structural)]
pub enum InterfaceState {
    Splash,
    GameSetup,
    GameTable,
}

/// What a screen asks the application to do after handling an event.
#[derive(Debug)]
pub enum InterfaceCallback {
    NoOp,
    Exit,
    QuitToSplash,
    SetupNewGame,
    StartGame { game: Game },
}

/// Which field of the setup form has focus; Confirm is the final stop.
#[derive(Debug, Clone, Copy, PartialEq, Eq, Structural)]
pub enum SetupScreenState {
    UserName,
    TeamName,
    Confirm,
}

impl SetupScreenState {
    /// The focus one step down the form; Confirm stays put.
    pub open spec fn spec_next(&self) -> SetupScreenState {
        match self {
            SetupScreenState::UserName => SetupScreenState::TeamName,
            SetupScreenState::TeamName => SetupScreenState::Confirm,
            SetupScreenState::Confirm => SetupScreenState::Confirm,
        }
    }

    /// The focus one step up the form; the first field stays put.
    pub open spec fn spec_prev(&self) -> SetupScreenState {
        match self {
            SetupScreenState::Confirm => SetupScreenState::TeamName,
            SetupScreenState::TeamName => SetupScreenState::UserName,
            SetupScreenState::UserName => SetupScreenState::UserName,
        }
    }

    #[verifier::when_used_as_spec(spec_next)]
    pub fn next(&self) -> (r: SetupScreenState)
        ensures
            r == self.spec_next(),
    {
        match self {
            SetupScreenState::UserName => SetupScreenState::TeamName,
            SetupScreenState::TeamName => SetupScreenState::Confirm,
            SetupScreenState::Confirm => SetupScreenState::Confirm,
        }
    }

    #[verifier::when_used_as_spec(spec_prev)]
    pub fn prev(&self) -> (r: SetupScreenState)
        ensures
            r == self.spec_prev(),
    {
        match self {
            SetupScreenState::Confirm => SetupScreenState::TeamName,
            SetupScreenState::TeamName => SetupScreenState::UserName,
            SetupScreenState::UserName => SetupScreenState::UserName,
        }
    }
}

/// A coarser focus cycle for a plainer setup form: Done marks the form
/// complete rather than asking to confirm.
#[derive(Debug, Clone, Copy, PartialEq, Eq, Structural)]
pub enum SetupState {
    UserName,
    TeamName,
    Done,
}

impl SetupState {
    pub open spec fn spec_next_step(&self) -> SetupState {
        match self {
            SetupState::UserName => SetupState::TeamName,
            SetupState::TeamName => SetupState::Done,
            SetupState::Done => SetupState::Done,
        }
    }

    pub open spec fn spec_prev_step(&self) -> SetupState {
        match self {
            SetupState::Done => SetupState::TeamName,
            SetupState::TeamName => SetupState::UserName,
            SetupState::UserName => SetupState::UserName,
        }
    }

    #[verifier::when_used_as_spec(spec_next_step)]
    pub fn next_step(&self) -> (r: SetupState)
        ensures
            r == self.spec_next_step(),
    {
        match self {
            SetupState::UserName => SetupState::TeamName,
            SetupState::TeamName => SetupState::Done,
            SetupState::Done => SetupState::Done,
        }
    }

    #[verifier::when_used_as_spec(spec_prev_step)]
    pub fn prev_step(&self) -> (r: SetupState)
        ensures
            r == self.spec_prev_step(),
    {
        match self {
            SetupState::Done => SetupState::TeamName,
            SetupState::TeamName => SetupState::UserName,
            SetupState::UserName => SetupState::UserName,
        }
    }
}

/// The game screen's engine-facing state: the game being shown once one
/// has started, whether the pause menu is up, and the pacing counter the
/// dealing animation runs on.
#[derive(Debug)]
pub struct GameScreen {
    pub game: Option<Game>,
    pub is_paused: bool,
    pub tick_count: u64,
}

impl GameScreen {
    /// A game, once set, is always a well-formed engine state.
    pub open spec fn wf(self) -> bool {
        match self.game {
            Some(g) => g.wf(),
            None => true,
        }
    }

    /// A fresh screen with no game yet.
    pub fn new() -> (r: GameScreen)
        ensures
            r.game is None,
            !r.is_paused,
            r.tick_count == 0,
            r.wf(),
    {
        GameScreen { game: None, is_paused: false, tick_count: 0 }
    }

    /// Show the given game.
    pub fn set_game(&mut self, game: Game)
        requires
            game.wf(),
        ensures
            final(self).game == Some(game),
            final(self).is_paused == old(self).is_paused,
            final(self).tick_count == old(self).tick_count,
            final(self).wf(),
    {
        self.game = Some(game);
    }

    /// Advance the game by one engine tick unless paused or no game is
    /// up: the game and the pacing counter after the call stand in the
    /// engine's own tick relation to the ones before it.
    pub fn handle_tick_event(&mut self)
        requires
            old(self).wf(),
        ensures
            final(self).wf(),
            final(self).is_paused == old(self).is_paused,
            old(self).is_paused || old(self).game is None ==> *final(self) == *old(self),
            (!old(self).is_paused && old(self).game is Some) ==> (match (
                old(self).game,
                final(self).game,
            ) {
                (Some(g0), Some(g1)) => tick_rel(
                    g0,
                    g1,
                    old(self).tick_count,
                    final(self).tick_count,
                ),
                _ => false,
            }),
    {
        if self.is_paused {
            return ;
        }
        match &mut self.game {
            Some(game) => {
                self.tick_count = game.handle_game_tick(self.tick_count);
            },
            None => {},
        }
    }
}

/// The fixed text width and height of one card drawn on the table.
pub const CARD_WIDTH: usize = 9;

pub const CARD_HEIGHT: usize = 7;

/// The same character `n` times.
pub open spec fn repeat_char(c: char, n: int) -> Seq<char> {
    Seq::new(n as nat, |i: int| c)
}

/// A string of the same character `n` times.
fn repeat_string(c: char, n: usize) -> (r: String)
    ensures
        r@ == repeat_char(c, n as int),
{
    let mut r = String::new();
    let mut i: usize = 0;
    while i < n
        invariant
            i <= n,
            r@ == repeat_char(c, i as int),
        decreases n - i,
    {
        push_char(&mut r, c);
        proof {
            assert(r@ =~= repeat_char(c, i + 1));
        }
        i += 1;
    }
    r
}

/// The seven text lines that draw one card: top and bottom rules, the
/// face symbol in the upper left and lower right corners, and the suit
/// symbol centered in the middle.
pub fn card_area(card: Card) -> (r: Vec<String>)
    ensures
        r@.len() == CARD_HEIGHT as int,
        r@[0]@ == repeat_char('─', CARD_WIDTH as int),
        r@[1]@ == seq![' ', card.face.spec_symbol()] + repeat_char(' ', CARD_WIDTH - 2),
        r@[2]@ == repeat_char(' ', CARD_WIDTH as int),
        r@[3]@ == repeat_char(' ', CARD_WIDTH as int / 2) + seq![card.suit.spec_symbol()]
            + repeat_char(' ', CARD_WIDTH as int / 2),
        r@[4]@ == repeat_char(' ', CARD_WIDTH as int),
        r@[5]@ == repeat_char(' ', CARD_WIDTH - 2) + seq![card.face.spec_symbol(), ' '],
        r@[6]@ == repeat_char('─', CARD_WIDTH as int),
{
    let mut r: Vec<String> = Vec::new();
    r.push(repeat_string('─', CARD_WIDTH));

    let mut corner_top = String::new();
    push_char(&mut corner_top, ' ');
    push_char(&mut corner_top, card.face.get_symbol());
    corner_top.append(repeat_string(' ', CARD_WIDTH - 2).as_str());
    proof {
        assert(corner_top@ =~= seq![' ', card.face.spec_symbol()] + repeat_char(
            ' ',
            CARD_WIDTH - 2,
        ));
    }
    r.push(corner_top);

    r.push(repeat_string(' ', CARD_WIDTH));

    let mut middle = repeat_string(' ', CARD_WIDTH / 2);
    push_char(&mut middle, card.suit.get_symbol());
    middle.append(repeat_string(' ', CARD_WIDTH / 2).as_str());
    proof {
        assert(middle@ =~= repeat_char(' ', CARD_WIDTH as int / 2) + seq![card.suit.spec_symbol()]
            + repeat_char(' ', CARD_WIDTH as int / 2));
    }
    r.push(middle);

    r.push(repeat_string(' ', CARD_WIDTH));

    let mut corner_bottom = repeat_string(' ', CARD_WIDTH - 2);
    push_char(&mut corner_bottom, card.face.get_symbol());
    push_char(&mut corner_bottom, ' ');
    proof {
        assert(corner_bottom@ =~= repeat_char(' ', CARD_WIDTH - 2) + seq![
            card.face.spec_symbol(),
            ' ',
        ]);
    }
    r.push(corner_bottom);

    r.push(repeat_string('─', CARD_WIDTH));
    r
}

} // verus!
