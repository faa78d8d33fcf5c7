use vstd::prelude::*;

use crate::classic;
use crate::tictactoe::{GameState, Outcome, PlaceError};

verus! {

/// What the terminal front ends read from the user.
#[derive(Debug, Copy, Clone, PartialEq, Eq, Structural)]
pub enum Input {
    /// The left mouse button went down.
    MouseLeftDown,
    /// The quit key (shift and `q`) was pressed.
    Quit,
    /// Another key that stands for a character was pressed.
    Key(char),
    /// Anything else.
    Other,
}

/// What a terminal event stands for, given whether it is the left mouse
/// button going down, whether it is the quit key, and the character of a key
/// event that stands for one: the mouse click first, then the quit key, then
/// the character.
pub fn terminal_input(mouse_left_down: bool, quit_key: bool, key_char: Option<char>) -> (i: Input)
    ensures
        i == if mouse_left_down {
            Input::MouseLeftDown
        } else if quit_key {
            Input::Quit
        } else {
            match key_char {
                Some(c) => Input::Key(c),
                None => Input::Other,
            }
        },
{
    if mouse_left_down {
        Input::MouseLeftDown
    } else if quit_key {
        Input::Quit
    } else {
        match key_char {
            Some(c) => Input::Key(c),
            None => Input::Other,
        }
    }
}

/// What the front end does after an input, beside updating its state.
#[derive(Debug, Copy, Clone, PartialEq, Eq, Structural)]
pub enum Effect {
    Nothing,
    /// Report the mouse click.
    MouseClicked,
    /// Say goodbye, naming how many mouse clicks were ignored.
    Goodbye,
}

/// The cell `(x, y)` that a key places on: the keys `q w e`, `a s d` and
/// `y|z x c` lie over the top, middle and bottom row of the board.
pub open spec fn key_cell(c: char) -> Option<(usize, usize)> {
    if c == 'q' {
        Some((0, 2))
    } else if c == 'w' {
        Some((1, 2))
    } else if c == 'e' {
        Some((2, 2))
    } else if c == 'a' {
        Some((0, 1))
    } else if c == 's' {
        Some((1, 1))
    } else if c == 'd' {
        Some((2, 1))
    } else if c == 'y' || c == 'z' {
        Some((0, 0))
    } else if c == 'x' {
        Some((1, 0))
    } else if c == 'c' {
        Some((2, 0))
    } else {
        None
    }
}

/// The cell that a key places on, if any.
pub fn cell_for_key(c: char) -> (r: Option<(usize, usize)>)
    ensures
        r == key_cell(c),
{
    if c == 'q' {
        Some((0, 2))
    } else if c == 'w' {
        Some((1, 2))
    } else if c == 'e' {
        Some((2, 2))
    } else if c == 'a' {
        Some((0, 1))
    } else if c == 's' {
        Some((1, 1))
    } else if c == 'd' {
        Some((2, 1))
    } else if c == 'y' || c == 'z' {
        Some((0, 0))
    } else if c == 'x' {
        Some((1, 0))
    } else if c == 'c' {
        Some((2, 0))
    } else {
        None
    }
}

/// The keys of the terminal front end as they lie on the keyboard: three
/// keyboard rows, top row first, each from left to right.
pub open spec fn keyboard_rows() -> Seq<Seq<char>> {
    seq![seq!['q', 'w', 'e'], seq!['a', 's', 'd'], seq!['y', 'x', 'c']]
}

/// The keys lie over the board as on the keyboard: the key `i`-th from the
/// left in the `r`-th keyboard row from the top places on cell `(i, 2 - r)`,
/// so the top keyboard row places on the row `y = 2`; `z` places where `y` does.
pub proof fn lemma_keys_lie_like_the_keyboard(r: int, i: int)
    requires
        0 <= r < 3,
        0 <= i < 3,
    ensures
        key_cell(keyboard_rows()[r][i]) == Some((i as usize, (2 - r) as usize)),
        key_cell('z') == key_cell('y'),
{
}

/// Only the keys of the keyboard rows, and `z`, place a token.
pub proof fn lemma_only_keyboard_keys_place(c: char)
    requires
        key_cell(c) is Some,
    ensures
        c == 'z' || exists|r: int, i: int| 0 <= r < 3 && 0 <= i < 3 && #[trigger] keyboard_rows()[r][i] == c,
{
    let rows = keyboard_rows();
    if c != 'z' {
        let r: int = if c == 'q' || c == 'w' || c == 'e' {
            0
        } else if c == 'a' || c == 's' || c == 'd' {
            1
        } else {
            2
        };
        let i: int = if c == 'q' || c == 'a' || c == 'y' {
            0
        } else if c == 'w' || c == 's' || c == 'x' {
            1
        } else {
            2
        };
        assert(rows[r][i] == c);
    }
}

/// The label that an empty cell shows: the key (or keys) that place on it.
pub open spec fn label_of(x: usize, y: usize) -> Seq<char> {
    if x == 0 && y == 2 {
        "q"@
    } else if x == 1 && y == 2 {
        "w"@
    } else if x == 2 && y == 2 {
        "e"@
    } else if x == 0 && y == 1 {
        "a"@
    } else if x == 1 && y == 1 {
        "s"@
    } else if x == 2 && y == 1 {
        "d"@
    } else if x == 0 && y == 0 {
        "y|z"@
    } else if x == 1 && y == 0 {
        "x"@
    } else if x == 2 && y == 0 {
        "c"@
    } else {
        "_"@
    }
}

/// The label that the empty cell `(x, y)` shows.
pub fn cell_label(x: usize, y: usize) -> (s: String)
    ensures
        s@ == label_of(x, y),
{
    let label = if x == 0 && y == 2 {
        "q"
    } else if x == 1 && y == 2 {
        "w"
    } else if x == 2 && y == 2 {
        "e"
    } else if x == 0 && y == 1 {
        "a"
    } else if x == 1 && y == 1 {
        "s"
    } else if x == 2 && y == 1 {
        "d"
    } else if x == 0 && y == 0 {
        "y|z"
    } else if x == 1 && y == 0 {
        "x"
    } else if x == 2 && y == 0 {
        "c"
    } else {
        "_"
    };
    label.to_owned()
}

/// Each empty cell's label names exactly the keys that place on that cell.
pub proof fn lemma_labels_name_keys(x: usize, y: usize, c: char)
    requires
        x <= 2,
        y <= 2,
        c != '|',
    ensures
        label_of(x, y).contains(c) <==> key_cell(c) == Some((x, y)),
{
    reveal_strlit("q");
    reveal_strlit("w");
    reveal_strlit("e");
    reveal_strlit("a");
    reveal_strlit("s");
    reveal_strlit("d");
    reveal_strlit("y|z");
    reveal_strlit("x");
    reveal_strlit("c");
    if key_cell(c) == Some((x, y)) {
        if c == 'z' {
            assert(label_of(x, y)[2] == c);
        } else {
            assert(label_of(x, y)[0] == c);
        }
    }
}

/// The terminal front end of the game: the game, the last placement's result,
/// whether it still runs, and how many mouse clicks it ignored.
#[derive(Debug)]
pub struct App {
    pub mouse_events_ignored: i32,
    pub running: bool,
    pub state: GameState,
    pub last_place: Result<(), PlaceError>,
}

impl Default for App {
    /// A running front end with a fresh game.
    fn default() -> (app: App)
        ensures
            app.mouse_events_ignored == 0,
            app.running,
            app.state.active_player == crate::tictactoe::Player::Naught,
            app.state.outcome == None::<Outcome>,
            app.state.board@ == crate::tictactoe::empty_board(),
            app.state.is_consistent(),
            app.last_place == Ok::<(), PlaceError>(()),
    {
        App { state: GameState::default(), mouse_events_ignored: 0, running: true, last_place: Ok(()) }
    }
}

impl App {
    /// Stops the front end.
    pub fn goodbye(&mut self)
        ensures
            !final(self).running,
            final(self).mouse_events_ignored == old(self).mouse_events_ignored,
            final(self).state.same_as(&old(self).state),
            final(self).last_place == old(self).last_place,
    {
        self.running = false;
    }

    /// Handles one input: a mouse click is counted, the quit key stops the
    /// front end, a key over a cell places the active player's token there and
    /// keeps the result, anything else changes nothing.
    pub fn update(&mut self, input: Input) -> (e: Effect)
        requires
            input == Input::MouseLeftDown ==> old(self).mouse_events_ignored < i32::MAX,
        ensures
            final(self).running == (old(self).running && input != Input::Quit),
            input == Input::MouseLeftDown ==> final(self).mouse_events_ignored
                == old(self).mouse_events_ignored + 1,
            input != Input::MouseLeftDown ==> final(self).mouse_events_ignored
                == old(self).mouse_events_ignored,
            e == match input {
                Input::MouseLeftDown => Effect::MouseClicked,
                Input::Quit => Effect::Goodbye,
                _ => Effect::Nothing,
            },
            match input {
                Input::Key(c) => match key_cell(c) {
                    Some(pos) => old(self).state.placement(
                        pos.0,
                        pos.1,
                        &final(self).state,
                        final(self).last_place,
                    ),
                    None => final(self).state.same_as(&old(self).state) && final(self).last_place
                        == old(self).last_place,
                },
                _ => final(self).state.same_as(&old(self).state) && final(self).last_place
                    == old(self).last_place,
            },
            old(self).state.is_consistent() ==> final(self).state.is_consistent(),
    {
        match input {
            Input::MouseLeftDown => {
                self.mouse_events_ignored += 1;
                Effect::MouseClicked
            },
            Input::Quit => {
                self.goodbye();
                Effect::Goodbye
            },
            Input::Key(c) => {
                if let Some(pos) = cell_for_key(c) {
                    self.last_place = self.state.place(pos.0, pos.1);
                }
                Effect::Nothing
            },
            Input::Other => Effect::Nothing,
        }
    }

    /// The sidebar's status line: who won, a draw, or who is to move.
    pub open spec fn status_of(&self) -> Seq<char> {
        match self.state.outcome {
            Some(Outcome::PlayerWins(p, _)) => "Game over: "@ + p.display_name() + " won!"@,
            Some(Outcome::Draw) => "Game Over: Draw!"@,
            None => "Current player: "@ + self.state.active_player.display_name(),
        }
    }

    /// The sidebar's status line.
    pub fn status_text(&self) -> (s: String)
        ensures
            s@ == self.status_of(),
    {
        match self.state.outcome {
            Some(Outcome::PlayerWins(player, _)) => {
                String::from_str("Game over: ").concat(player.to_string().as_str()).concat(" won!")
            },
            Some(Outcome::Draw) => String::from_str("Game Over: Draw!"),
            None => String::from_str("Current player: ").concat(
                self.state.active_player.to_string().as_str(),
            ),
        }
    }

    /// The hint below the status line: shown when the last placement met a taken cell.
    pub fn error_hint(&self) -> (s: String)
        ensures
            s@ == if self.last_place == Err::<(), PlaceError>(PlaceError::CellOccupied) {
                "\nCell already occupied"@
            } else {
                ""@
            },
    {
        match self.last_place {
            Err(PlaceError::CellOccupied) => String::from_str("\nCell already occupied"),
            _ => String::from_str(""),
        }
    }
}

/// The terminal front end of the classic game.
#[derive(Debug)]
pub struct ClassicApp {
    pub mouse_events_ignored: i32,
    pub running: bool,
    pub state: classic::GameState,
}

impl ClassicApp {
    /// A running front end with a fresh game.
    pub fn default() -> (app: ClassicApp)
        ensures
            app.mouse_events_ignored == 0,
            app.running,
            app.state.active_player == classic::Player::Naught,
            app.state.outcome == None::<classic::Outcome>,
            classic::grid(app.state.board) == classic::empty_grid(),
            app.state.is_consistent(),
    {
        ClassicApp { mouse_events_ignored: 0, running: true, state: classic::GameState::default() }
    }

    /// Stops the front end.
    pub fn goodbye(&mut self)
        ensures
            !final(self).running,
            final(self).mouse_events_ignored == old(self).mouse_events_ignored,
            final(self).state.same_as(&old(self).state),
    {
        self.running = false;
    }

    /// An input that the classic front end handles without failing: a key over
    /// a cell must name a placement that the game accepts.
    pub open spec fn accepts(&self, input: Input) -> bool {
        &&& input == Input::MouseLeftDown ==> self.mouse_events_ignored < i32::MAX
        &&& input matches Input::Key(c) ==> match key_cell(c) {
            Some(pos) => self.state.place_error(pos.0, pos.1) is None,
            None => true,
        }
    }

    /// The error of the placement that a key input asks for and the game refuses.
    pub fn refusal(&self, input: Input) -> (r: Option<classic::PlaceError>)
        ensures
            r == match input {
                Input::Key(c) => match key_cell(c) {
                    Some(pos) => self.state.place_error(pos.0, pos.1),
                    None => None,
                },
                _ => None,
            },
    {
        match input {
            Input::Key(c) => match cell_for_key(c) {
                Some(pos) => self.state.check_place(pos.0, pos.1),
                None => None,
            },
            _ => None,
        }
    }

    /// Handles one input as `App::update` does, for the classic game.
    pub fn update(&mut self, input: Input) -> (e: Effect)
        requires
            old(self).accepts(input),
        ensures
            final(self).running == (old(self).running && input != Input::Quit),
            input == Input::MouseLeftDown ==> final(self).mouse_events_ignored
                == old(self).mouse_events_ignored + 1,
            input != Input::MouseLeftDown ==> final(self).mouse_events_ignored
                == old(self).mouse_events_ignored,
            e == match input {
                Input::MouseLeftDown => Effect::MouseClicked,
                Input::Quit => Effect::Goodbye,
                _ => Effect::Nothing,
            },
            match input {
                Input::Key(c) => match key_cell(c) {
                    Some(pos) => old(self).state.placement(
                        pos.0,
                        pos.1,
                        &final(self).state,
                        Ok(()),
                    ),
                    None => final(self).state.same_as(&old(self).state),
                },
                _ => final(self).state.same_as(&old(self).state),
            },
            old(self).state.is_consistent() ==> final(self).state.is_consistent(),
    {
        match input {
            Input::MouseLeftDown => {
                self.mouse_events_ignored += 1;
                Effect::MouseClicked
            },
            Input::Quit => {
                self.goodbye();
                Effect::Goodbye
            },
            Input::Key(c) => {
                if let Some(pos) = cell_for_key(c) {
                    let r = self.state.place(pos.0, pos.1);
                    assert(r is Ok);
                }
                Effect::Nothing
            },
            Input::Other => Effect::Nothing,
        }
    }

    /// The sidebar's status line: the outcome, or who is to move.
    pub open spec fn status_of(&self) -> Seq<char> {
        match self.state.outcome {
            Some(o) => "Game over! Outcome: "@ + o.display_name(),
            None => "Current player: "@ + self.state.active_player.display_name(),
        }
    }

    /// The sidebar's status line.
    pub fn status_text(&self) -> (s: String)
        ensures
            s@ == self.status_of(),
    {
        match self.state.outcome {
            Some(o) => String::from_str("Game over! Outcome: ").concat(o.to_string().as_str()),
            None => String::from_str("Current player: ").concat(
                self.state.active_player.to_string().as_str(),
            ),
        }
    }
}

} // verus!
