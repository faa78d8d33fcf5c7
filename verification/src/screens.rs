use vstd::prelude::*;

use crate::key_bindings::GameAction;
use crate::tictactoe::{empty_board, GameState, Outcome, PlaceError, Player, WinCombination};

verus! {

/// The screens of the graphical front end.
#[derive(Debug, Copy, Clone, PartialEq, Eq, Structural)]
pub enum Screen {
    Menu,
    LocalPlay,
    ServerMode,
    ClientMode,
    Quit,
}

/// The buttons of the menu, from top to bottom.
#[derive(Debug, Copy, Clone, PartialEq, Eq, Structural)]
pub enum MenuButton {
    LocalPlay,
    ServerMode,
    ClientMode,
    QuitApp,
}

/// The screen that the menu's keyboard shortcuts lead to: Escape quits, and
/// `1`, `2`, `3` open local play, server mode and client mode, checked in that order.
pub fn menu_shortcut(escape: bool, one: bool, two: bool, three: bool) -> (s: Option<Screen>)
    ensures
        s == if escape {
            Some(Screen::Quit)
        } else if one {
            Some(Screen::LocalPlay)
        } else if two {
            Some(Screen::ServerMode)
        } else if three {
            Some(Screen::ClientMode)
        } else {
            None
        },
{
    if escape {
        Some(Screen::Quit)
    } else if one {
        Some(Screen::LocalPlay)
    } else if two {
        Some(Screen::ServerMode)
    } else if three {
        Some(Screen::ClientMode)
    } else {
        None
    }
}

/// The screen that a menu button leads to; "Quit App" quits.
pub fn menu_button_target(button: MenuButton) -> (s: Screen)
    ensures
        s == match button {
            MenuButton::LocalPlay => Screen::LocalPlay,
            MenuButton::ServerMode => Screen::ServerMode,
            MenuButton::ClientMode => Screen::ClientMode,
            MenuButton::QuitApp => Screen::Quit,
        },
{
    match button {
        MenuButton::LocalPlay => Screen::LocalPlay,
        MenuButton::ServerMode => Screen::ServerMode,
        MenuButton::ClientMode => Screen::ClientMode,
        MenuButton::QuitApp => Screen::Quit,
    }
}

/// The local play screen: the game and the result of the last placement.
pub struct LocalPlay {
    pub game: GameState,
    pub last_placement: Result<(), PlaceError>,
}

impl LocalPlay {
    /// A fresh game with no placement yet.
    pub fn new() -> (lp: LocalPlay)
        ensures
            lp.game.active_player == Player::Naught,
            lp.game.outcome == None::<Outcome>,
            lp.game.board@ == empty_board(),
            lp.game.is_consistent(),
            lp.last_placement == Ok::<(), PlaceError>(()),
    {
        LocalPlay { game: GameState::default(), last_placement: Ok(()) }
    }

    /// Carries out the action of a frame: a placement keeps its result, a reset
    /// starts a fresh game, and closing returns to the menu, which is the only
    /// time a screen is returned.
    pub fn apply(&mut self, action: Option<GameAction>) -> (next: Option<Screen>)
        ensures
            next == if action == Some(GameAction::CloseBoard) {
                Some(Screen::Menu)
            } else {
                None::<Screen>
            },
            match action {
                Some(GameAction::PlaceToken(x, y)) => old(self).game.placement(
                    x,
                    y,
                    &final(self).game,
                    final(self).last_placement,
                ),
                Some(GameAction::ResetBoard) => {
                    &&& final(self).game.active_player == Player::Naught
                    &&& final(self).game.outcome == None::<Outcome>
                    &&& final(self).game.board@ == empty_board()
                    &&& final(self).last_placement == Ok::<(), PlaceError>(())
                },
                _ => final(self).game.same_as(&old(self).game) && final(self).last_placement
                    == old(self).last_placement,
            },
            old(self).game.is_consistent() ==> final(self).game.is_consistent(),
    {
        match action {
            Some(GameAction::PlaceToken(x, y)) => {
                self.last_placement = self.game.place(x, y);
                None
            },
            Some(GameAction::ResetBoard) => {
                self.game = GameState::default();
                self.last_placement = Ok(());
                None
            },
            Some(GameAction::CloseBoard) => Some(Screen::Menu),
            None => None,
        }
    }
}

/// The line that won the game, if a player won.
pub fn winning_line(outcome: Option<Outcome>) -> (w: Option<WinCombination>)
    ensures
        w == match outcome {
            Some(Outcome::PlayerWins(_, line)) => Some(line),
            _ => None::<WinCombination>,
        },
{
    if let Some(Outcome::PlayerWins(_, combination)) = outcome {
        Some(combination)
    } else {
        None
    }
}

/// How a tile of the board is shaded.
#[derive(Debug, Copy, Clone, PartialEq, Eq, Structural)]
pub enum TileShade {
    /// The tile lies on the winning line.
    Highlight,
    Dark,
    Light,
}

/// The shade of tile `(x, y)`: highlighted on the winning line, else a
/// checker pattern that is dark where `x + 3 * y` is even.
pub fn tile_shade(x: usize, y: usize, win: Option<WinCombination>) -> (s: TileShade)
    requires
        x <= 2,
        y <= 2,
    ensures
        s == match win {
            Some(line) if (x, y) == line.0 || (x, y) == line.1 || (x, y) == line.2 => TileShade::Highlight,
            _ => if (x + y * 3) % 2 == 0 {
                TileShade::Dark
            } else {
                TileShade::Light
            },
        },
{
    if let Some(pos) = win {
        if (x == pos.0.0 && y == pos.0.1) || (x == pos.1.0 && y == pos.1.1) || (x == pos.2.0 && y
            == pos.2.1) {
            return TileShade::Highlight;
        }
    }
    if (x + y * 3) % 2 == 0 {
        TileShade::Dark
    } else {
        TileShade::Light
    }
}

/// What the side panel says of a finished game.
pub open spec fn outcome_text(o: Outcome) -> Seq<char> {
    match o {
        Outcome::Draw => "Draw - no winner"@,
        Outcome::PlayerWins(Player::Cross, _) => "Cross won!"@,
        Outcome::PlayerWins(Player::Naught, _) => "Naught won!"@,
    }
}

/// The side panel names the winner of a won game, and says "Draw" of a draw.
pub proof fn lemma_outcome_text_names_winner(p: Player, line: WinCombination)
    ensures
        outcome_text(Outcome::PlayerWins(p, line)) == p.display_name() + " won!"@,
        outcome_text(Outcome::Draw).take(4) == "Draw"@,
{
    reveal_strlit("Naught won!");
    reveal_strlit("Cross won!");
    reveal_strlit("Draw - no winner");
    reveal_strlit("Naught");
    reveal_strlit("Cross");
    reveal_strlit(" won!");
    reveal_strlit("Draw");
    assert(outcome_text(Outcome::PlayerWins(p, line)) =~= p.display_name() + " won!"@);
    assert(outcome_text(Outcome::Draw).take(4) =~= "Draw"@);
}

/// What the side panel says of a finished game.
pub fn outcome_message(o: Outcome) -> (s: String)
    ensures
        s@ == outcome_text(o),
{
    let message = match o {
        Outcome::Draw => "Draw - no winner",
        Outcome::PlayerWins(Player::Cross, _) => "Cross won!",
        Outcome::PlayerWins(Player::Naught, _) => "Naught won!",
    };
    message.to_owned()
}

/// What the side panel says of a refused placement.
pub open spec fn error_text(e: PlaceError) -> Seq<char> {
    "ERROR:\n"@ + e.display_name()
}

/// What the side panel says of a refused placement.
pub fn error_message(e: PlaceError) -> (s: String)
    ensures
        s@ == error_text(e),
{
    String::from_str("ERROR:\n").concat(e.to_string().as_str())
}

/// How a line of the side panel is drawn.
#[derive(Debug, Copy, Clone, PartialEq, Eq, Structural)]
pub enum PanelStyle {
    Error,
    Text,
    /// In the colour of the player.
    PlayerColor(Player),
}

/// A line of the side panel: its text, its height from the top, and its style.
pub struct PanelLine {
    pub text: String,
    pub y: i32,
    pub style: PanelStyle,
}

/// The texts, heights and styles of some panel lines.
pub open spec fn panel_view(lines: Seq<PanelLine>) -> Seq<(Seq<char>, i32, PanelStyle)> {
    lines.map_values(|l: PanelLine| (l.text@, l.y, l.style))
}

/// What the side panel shows above its help text: the error of a refused
/// last placement at the top; below it (50 lower when the error is shown) the
/// outcome of a finished game, or "Active Player" with the player to move
/// under it in that player's colour.
pub open spec fn panel_spec(game: &GameState, last_placement: Result<(), PlaceError>) -> Seq<(Seq<char>, i32, PanelStyle)> {
    let (top, y) = match last_placement {
        Err(e) => (seq![(error_text(e), 10i32, PanelStyle::Error)], 60i32),
        Ok(_) => (Seq::empty(), 10i32),
    };
    match game.outcome {
        Some(o) => top.push((outcome_text(o), y, PanelStyle::Text)),
        None => top.push(("Active Player"@, y, PanelStyle::Text)).push(
            (game.active_player.display_name(), (y + 30) as i32, PanelStyle::PlayerColor(game.active_player)),
        ),
    }
}

/// The lines of the side panel above its help text.
pub fn side_panel_lines(game: &GameState, last_placement: Result<(), PlaceError>) -> (v: Vec<PanelLine>)
    ensures
        panel_view(v@) == panel_spec(game, last_placement),
{
    let mut v: Vec<PanelLine> = Vec::new();
    let mut y: i32 = 10;
    if let Err(err) = last_placement {
        v.push(PanelLine { text: error_message(err), y, style: PanelStyle::Error });
        y += 50;
    }
    match game.outcome {
        Some(outcome) => {
            v.push(PanelLine { text: outcome_message(outcome), y, style: PanelStyle::Text });
        },
        None => {
            v.push(PanelLine { text: String::from_str("Active Player"), y, style: PanelStyle::Text });
            v.push(
                PanelLine {
                    text: game.active_player.to_string(),
                    y: y + 30,
                    style: PanelStyle::PlayerColor(game.active_player),
                },
            );
        },
    }
    assert(panel_view(v@) =~= panel_spec(game, last_placement));
    v
}

} // verus!
