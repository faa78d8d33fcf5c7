use vstd::prelude::*;

use crate::classic::{empty_grid, grid, win_of, GameState, Outcome, PlaceError, Player};

verus! {

/// What the window front end reads from the user. Keys are given by the
/// upper-case letter printed at their place on a US keyboard, whatever the layout.
#[derive(Debug, Copy, Clone, PartialEq, Eq, Structural)]
pub enum WindowInput {
    /// The window was closed or Escape was pressed.
    Quit,
    /// Shift (either one) and `R` were pressed together.
    Reset,
    /// A key was pressed at the place of this letter.
    Key(char),
    /// Anything else.
    Other,
}

/// What a window event stands for, given whether the window was closed,
/// whether Escape went down, the letter at whose place a key went down, and
/// whether a Shift key was held: closing or Escape quits; `R` with Shift
/// resets; any other letter is that key.
pub fn window_input(quit: bool, escape: bool, letter: Option<char>, shift: bool) -> (i: WindowInput)
    ensures
        i == if quit || escape {
            WindowInput::Quit
        } else {
            match letter {
                Some(c) => if c == 'R' && shift {
                    WindowInput::Reset
                } else {
                    WindowInput::Key(c)
                },
                None => WindowInput::Other,
            }
        },
{
    if quit || escape {
        WindowInput::Quit
    } else {
        match letter {
            Some(c) => if c == 'R' && shift {
                WindowInput::Reset
            } else {
                WindowInput::Key(c)
            },
            None => WindowInput::Other,
        }
    }
}

/// The cell `(x, y)` that the key at a letter's place places on: `Q W E`,
/// `A S D` and `Z X C` lie over the rows `y = 0, 1, 2`.
pub open spec fn letter_cell(c: char) -> Option<(usize, usize)> {
    if c == 'Q' {
        Some((0, 0))
    } else if c == 'W' {
        Some((1, 0))
    } else if c == 'E' {
        Some((2, 0))
    } else if c == 'A' {
        Some((0, 1))
    } else if c == 'S' {
        Some((1, 1))
    } else if c == 'D' {
        Some((2, 1))
    } else if c == 'Z' {
        Some((0, 2))
    } else if c == 'X' {
        Some((1, 2))
    } else if c == 'C' {
        Some((2, 2))
    } else {
        None
    }
}

/// The cell that the key at a letter's place places on, if any.
pub fn cell_for_letter(c: char) -> (r: Option<(usize, usize)>)
    ensures
        r == letter_cell(c),
{
    if c == 'Q' {
        Some((0, 0))
    } else if c == 'W' {
        Some((1, 0))
    } else if c == 'E' {
        Some((2, 0))
    } else if c == 'A' {
        Some((0, 1))
    } else if c == 'S' {
        Some((1, 1))
    } else if c == 'D' {
        Some((2, 1))
    } else if c == 'Z' {
        Some((0, 2))
    } else if c == 'X' {
        Some((1, 2))
    } else if c == 'C' {
        Some((2, 2))
    } else {
        None
    }
}

/// The letters of the cell keys as they lie on a US keyboard: three keyboard
/// rows, top row first, each from left to right.
pub open spec fn keyboard_rows() -> Seq<Seq<char>> {
    seq![seq!['Q', 'W', 'E'], seq!['A', 'S', 'D'], seq!['Z', 'X', 'C']]
}

/// The keys mirror the keyboard: the key `x`-th from the left in the `y`-th
/// keyboard row from the top places on cell `(x, y)`, and its letter is the
/// one that the cell shows.
pub proof fn lemma_keys_mirror_keyboard(x: usize, y: usize)
    requires
        x <= 2,
        y <= 2,
    ensures
        letter_cell(keyboard_rows()[y as int][x as int]) == Some((x, y)),
        cell_letter(x, y) == keyboard_rows()[y as int][x as int],
{
}

/// The letter of the key that places on cell `(x, y)`.
pub open spec fn cell_letter(x: usize, y: usize) -> char {
    if y == 0 {
        if x == 0 {
            'Q'
        } else if x == 1 {
            'W'
        } else {
            'E'
        }
    } else if y == 1 {
        if x == 0 {
            'A'
        } else if x == 1 {
            'S'
        } else {
            'D'
        }
    } else {
        if x == 0 {
            'Z'
        } else if x == 1 {
            'X'
        } else {
            'C'
        }
    }
}

/// The letter of the key that places on cell `(x, y)`, whose name the empty cell shows.
pub fn letter_for_cell(x: usize, y: usize) -> (c: char)
    requires
        x <= 2,
        y <= 2,
    ensures
        c == cell_letter(x, y),
{
    if y == 0 {
        if x == 0 {
            'Q'
        } else if x == 1 {
            'W'
        } else {
            'E'
        }
    } else if y == 1 {
        if x == 0 {
            'A'
        } else if x == 1 {
            'S'
        } else {
            'D'
        }
    } else {
        if x == 0 {
            'Z'
        } else if x == 1 {
            'X'
        } else {
            'C'
        }
    }
}

/// The key whose name a cell shows places on that cell, and no other key does.
pub proof fn lemma_cell_letter_places_there(x: usize, y: usize, c: char)
    requires
        x <= 2,
        y <= 2,
    ensures
        letter_cell(cell_letter(x, y)) == Some((x, y)),
        letter_cell(c) == Some((x, y)) ==> c == cell_letter(x, y),
{
}

/// The game of the window front end: whether it is to quit, the game, and
/// the result of the last placement.
pub struct WindowGame {
    pub quit: bool,
    pub board: GameState,
    pub last_placement: Result<(), PlaceError>,
}

impl WindowGame {
    /// A fresh game that is not to quit.
    pub fn new() -> (g: WindowGame)
        ensures
            !g.quit,
            g.board.active_player == Player::Naught,
            g.board.outcome == None::<Outcome>,
            grid(g.board.board) == empty_grid(),
            g.board.is_consistent(),
            g.last_placement == Ok::<(), PlaceError>(()),
    {
        WindowGame { quit: false, board: GameState::default(), last_placement: Ok(()) }
    }

    /// Starts a fresh game and forgets the last placement.
    pub fn reset_board(&mut self)
        ensures
            final(self).quit == old(self).quit,
            final(self).board.active_player == Player::Naught,
            final(self).board.outcome == None::<Outcome>,
            grid(final(self).board.board) == empty_grid(),
            final(self).board.is_consistent(),
            final(self).last_placement == Ok::<(), PlaceError>(()),
    {
        self.last_placement = Ok(());
        self.board = GameState::default();
    }

    /// Handles one input: quitting, resetting, or a placement on the key's cell
    /// whose result is kept.
    pub fn process_input(&mut self, input: WindowInput)
        ensures
            final(self).quit == (old(self).quit || input == WindowInput::Quit),
            match input {
                WindowInput::Reset => {
                    &&& final(self).board.active_player == Player::Naught
                    &&& final(self).board.outcome == None::<Outcome>
                    &&& grid(final(self).board.board) == empty_grid()
                    &&& final(self).last_placement == Ok::<(), PlaceError>(())
                },
                WindowInput::Key(c) => match letter_cell(c) {
                    Some(pos) => old(self).board.placement(
                        pos.0,
                        pos.1,
                        &final(self).board,
                        final(self).last_placement,
                    ),
                    None => final(self).board.same_as(&old(self).board) && final(self).last_placement
                        == old(self).last_placement,
                },
                _ => final(self).board.same_as(&old(self).board) && final(self).last_placement
                    == old(self).last_placement,
            },
            old(self).board.is_consistent() ==> final(self).board.is_consistent(),
    {
        match input {
            WindowInput::Quit => self.quit = true,
            WindowInput::Reset => self.reset_board(),
            WindowInput::Key(c) => {
                if let Some(pos) = cell_for_letter(c) {
                    self.last_placement = self.board.place(pos.0, pos.1);
                }
            },
            WindowInput::Other => {},
        }
    }
}

/// What the status box says of a finished game.
pub open spec fn outcome_text(o: Outcome) -> Seq<char> {
    match o {
        Outcome::NaughtWins => "Naught wins!"@,
        Outcome::CrossWins => "Cross wins!"@,
        Outcome::Draw => "Draw - no winner!"@,
    }
}

/// The status box names the winner of a won game, and says "Draw" of a draw.
pub proof fn lemma_outcome_text_names_winner(p: Player)
    ensures
        outcome_text(win_of(p)) == p.display_name() + " wins!"@,
        outcome_text(Outcome::Draw).take(4) == "Draw"@,
{
    reveal_strlit("Naught wins!");
    reveal_strlit("Cross wins!");
    reveal_strlit("Draw - no winner!");
    reveal_strlit("Naught");
    reveal_strlit("Cross");
    reveal_strlit(" wins!");
    reveal_strlit("Draw");
    assert(outcome_text(win_of(p)) =~= p.display_name() + " wins!"@);
    assert(outcome_text(Outcome::Draw).take(4) =~= "Draw"@);
}

/// What the status box says of a finished game.
pub fn outcome_message(o: Outcome) -> (s: String)
    ensures
        s@ == outcome_text(o),
{
    let message = match o {
        Outcome::NaughtWins => "Naught wins!",
        Outcome::CrossWins => "Cross wins!",
        Outcome::Draw => "Draw - no winner!",
    };
    message.to_owned()
}

/// What the status box says of a refused placement.
pub fn error_message(e: PlaceError) -> (s: String)
    ensures
        s@ == "Error: "@ + e.display_name(),
{
    String::from_str("Error: ").concat(e.to_string().as_str())
}

/// How a status line is drawn.
#[derive(Debug, Copy, Clone, PartialEq, Eq, Structural)]
pub enum TextStyle {
    Plain,
    Error,
}

/// A line of the status box: its text, its row from the top, and its style.
pub struct StatusLine {
    pub text: String,
    pub row: usize,
    pub style: TextStyle,
}

/// The texts, rows and styles of some status lines.
pub open spec fn lines_view(lines: Seq<StatusLine>) -> Seq<(Seq<char>, usize, TextStyle)> {
    lines.map_values(|l: StatusLine| (l.text@, l.row, l.style))
}

impl WindowGame {
    /// What the status box shows: the outcome of a finished game; otherwise
    /// "Active Player:", the player to move, and the error of the last
    /// placement if it was refused.
    pub open spec fn status_spec(&self) -> Seq<(Seq<char>, usize, TextStyle)> {
        match self.board.outcome {
            Some(o) => seq![(outcome_text(o), 0usize, TextStyle::Plain)],
            None => {
                let base = seq![
                    ("Active Player:"@, 0usize, TextStyle::Plain),
                    (self.board.active_player.display_name(), 1usize, TextStyle::Plain),
                ];
                match self.last_placement {
                    Err(e) => base.push(("Error: "@ + e.display_name(), 2usize, TextStyle::Error)),
                    Ok(_) => base,
                }
            },
        }
    }

    /// The lines of the status box.
    pub fn status_lines(&self) -> (v: Vec<StatusLine>)
        ensures
            lines_view(v@) == self.status_spec(),
    {
        let mut v: Vec<StatusLine> = Vec::new();
        match self.board.outcome {
            Some(o) => {
                v.push(StatusLine { text: outcome_message(o), row: 0, style: TextStyle::Plain });
            },
            None => {
                v.push(StatusLine { text: String::from_str("Active Player:"), row: 0, style: TextStyle::Plain });
                v.push(StatusLine { text: self.board.active_player.to_string(), row: 1, style: TextStyle::Plain });
                if let Err(e) = self.last_placement {
                    v.push(StatusLine { text: error_message(e), row: 2, style: TextStyle::Error });
                }
            },
        }
        assert(lines_view(v@) =~= self.status_spec());
        v
    }
}

} // verus!
