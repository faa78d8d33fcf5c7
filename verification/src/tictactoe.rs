use vstd::prelude::*;

use crate::counting::{count_of, lemma_count_none, lemma_count_update};

verus! {

/// One of the two players.
#[derive(Debug, Copy, Clone, PartialEq, Eq, Structural)]
pub enum Player {
    Naught,
    Cross,
}

impl Player {
    /// The player who moves after `self`.
    pub open spec fn opponent(self) -> Player {
        match self {
            Player::Naught => Player::Cross,
            Player::Cross => Player::Naught,
        }
    }

    /// Each player's opponent is the other player.
    pub proof fn lemma_opponent_is_other(self)
        ensures
            self.opponent() != self,
            self.opponent().opponent() == self,
    {
    }

    /// The name under which a player is shown.
    pub open spec fn display_name(self) -> Seq<char> {
        match self {
            Player::Naught => "Naught"@,
            Player::Cross => "Cross"@,
        }
    }

    /// The player's name, as the front ends show it.
    pub fn to_string(&self) -> (s: String)
        ensures
            s@ == self.display_name(),
    {
        match self {
            Player::Naught => "Naught".to_owned(),
            Player::Cross => "Cross".to_owned(),
        }
    }
}

/// What a board holds at one position.
#[derive(Debug, Copy, Clone, PartialEq, Eq, Structural)]
pub enum Cell {
    Empty,
    PlayerOccupied(Player),
}

/// Three positions `(x, y)` that form a line on the board.
pub type WinCombination = ((usize, usize), (usize, usize), (usize, usize));

/// How a finished game ended.
#[derive(Debug, Copy, Clone, PartialEq, Eq)]
pub enum Outcome {
    /// The player completed the given line.
    PlayerWins(Player, WinCombination),
    /// Every cell is taken and no line is complete.
    Draw,
}

/// Why a placement was refused.
#[derive(Debug, Copy, Clone, PartialEq, Eq, Structural)]
pub enum PlaceError {
    InvalidCoordinates,
    CellOccupied,
    GameOver,
}

impl PlaceError {
    /// The name under which an error is shown.
    pub open spec fn display_name(self) -> Seq<char> {
        match self {
            PlaceError::InvalidCoordinates => "InvalidCoordinates"@,
            PlaceError::CellOccupied => "CellOccupied"@,
            PlaceError::GameOver => "GameOver"@,
        }
    }

    /// The error's name, as the front ends show it.
    pub fn to_string(&self) -> (s: String)
        ensures
            s@ == self.display_name(),
    {
        match self {
            PlaceError::InvalidCoordinates => "InvalidCoordinates".to_owned(),
            PlaceError::CellOccupied => "CellOccupied".to_owned(),
            PlaceError::GameOver => "GameOver".to_owned(),
        }
    }
}

/// A game in progress: whose turn it is, how the game ended (if it has),
/// and the board, stored row by row (`x + 3 * y`).
#[derive(Debug)]
pub struct GameState {
    pub active_player: Player,
    pub outcome: Option<Outcome>,
    pub board: [Cell; 9],
}

/// Where position `(x, y)` is stored in the board.
pub open spec fn cell_index(pos: (usize, usize)) -> int {
    pos.0 + 3 * pos.1
}

/// A position lies on the board.
pub open spec fn on_board(pos: (usize, usize)) -> bool {
    pos.0 <= 2 && pos.1 <= 2
}

/// The lines that win the game, in the order in which they are checked:
/// the three columns, the three rows, then the two diagonals.
pub open spec fn win_combinations() -> Seq<WinCombination> {
    seq![
        ((0, 0), (0, 1), (0, 2)),
        ((1, 0), (1, 1), (1, 2)),
        ((2, 0), (2, 1), (2, 2)),
        ((0, 0), (1, 0), (2, 0)),
        ((0, 1), (1, 1), (2, 1)),
        ((0, 2), (1, 2), (2, 2)),
        ((0, 0), (1, 1), (2, 2)),
        ((0, 2), (1, 1), (2, 0)),
    ]
}

/// The player who holds all three cells of `line`, if one does.
pub open spec fn line_winner(board: Seq<Cell>, line: WinCombination) -> Option<Player> {
    match board[cell_index(line.0)] {
        Cell::PlayerOccupied(p) => {
            if board[cell_index(line.1)] == Cell::PlayerOccupied(p) && board[cell_index(line.2)]
                == Cell::PlayerOccupied(p) {
                Some(p)
            } else {
                None
            }
        },
        Cell::Empty => None,
    }
}

/// The first complete line, searching the winning lines from index `k` on.
pub open spec fn first_win_from(board: Seq<Cell>, k: nat) -> Option<Outcome>
    decreases 8 - k,
{
    if k >= 8 {
        None
    } else {
        match line_winner(board, win_combinations()[k as int]) {
            Some(p) => Some(Outcome::PlayerWins(p, win_combinations()[k as int])),
            None => first_win_from(board, k + 1),
        }
    }
}

/// No cell of the board is empty.
pub open spec fn board_full(board: Seq<Cell>) -> bool {
    forall|i: int| 0 <= i < 9 ==> board[i] != Cell::Empty
}

/// How a board decides the game: the first complete line in the order of
/// `win_combinations`, else a draw when the board is full, else nothing yet.
pub open spec fn evaluate(board: Seq<Cell>) -> Option<Outcome> {
    match first_win_from(board, 0) {
        Some(o) => Some(o),
        None => if board_full(board) {
            Some(Outcome::Draw)
        } else {
            None
        },
    }
}

/// When the first complete line from `k` on is none, no line from `k` on is complete.
pub proof fn lemma_no_win_from(board: Seq<Cell>, k: nat)
    requires
        first_win_from(board, k) == None::<Outcome>,
    ensures
        forall|j: int| k <= j < 8 ==> line_winner(board, #[trigger] win_combinations()[j]) == None::<Player>,
    decreases 8 - k,
{
    if k < 8 {
        lemma_no_win_from(board, k + 1);
    }
}

/// A decision found from `k` on names a complete line from `k` on and its holder.
pub proof fn lemma_win_from(board: Seq<Cell>, k: nat)
    requires
        first_win_from(board, k) is Some,
    ensures
        exists|j: int|
            k <= j < 8 && (#[trigger] line_winner(board, win_combinations()[j])) is Some
                && first_win_from(board, k) == Some(
                Outcome::PlayerWins(line_winner(board, win_combinations()[j]).unwrap(), win_combinations()[j]),
            ),
    decreases 8 - k,
{
    if k < 8 {
        if line_winner(board, win_combinations()[k as int]) is None {
            lemma_win_from(board, k + 1);
        }
    }
}

/// Placing `p` on a board that no line decides can only complete lines of `p`.
pub proof fn lemma_winner_is_mover(board: Seq<Cell>, x: usize, y: usize, p: Player)
    requires
        board.len() == 9,
        on_board((x, y)),
        first_win_from(board, 0) == None::<Outcome>,
    ensures
        match first_win_from(board.update(cell_index((x, y)), Cell::PlayerOccupied(p)), 0) {
            Some(Outcome::PlayerWins(q, _)) => q == p,
            _ => true,
        },
{
    let after = board.update(cell_index((x, y)), Cell::PlayerOccupied(p));
    lemma_no_win_from(board, 0);
    if first_win_from(after, 0) is Some {
        lemma_win_from(after, 0);
        let j = choose|j: int|
            0 <= j < 8 && (#[trigger] line_winner(after, win_combinations()[j])) is Some
                && first_win_from(after, 0) == Some(
                Outcome::PlayerWins(line_winner(after, win_combinations()[j]).unwrap(), win_combinations()[j]),
            );
        assert(line_winner(board, win_combinations()[j]) == None::<Player>);
    }
}

impl Cell {
    /// The cell with the other player's token in place of this one's.
    pub open spec fn swapped(self) -> Cell {
        match self {
            Cell::Empty => Cell::Empty,
            Cell::PlayerOccupied(p) => Cell::PlayerOccupied(p.opponent()),
        }
    }
}

/// The board with every token handed to the other player.
pub open spec fn swap_players(board: Seq<Cell>) -> Seq<Cell> {
    board.map_values(|c: Cell| c.swapped())
}

/// The outcome with the winner replaced by the other player and the line kept.
pub open spec fn swap_outcome(o: Option<Outcome>) -> Option<Outcome> {
    match o {
        Some(Outcome::PlayerWins(p, line)) => Some(Outcome::PlayerWins(p.opponent(), line)),
        other => other,
    }
}

/// The search for a complete line from `k` on sees the swapped winner on the swapped board.
pub proof fn lemma_swap_first_win(board: Seq<Cell>, k: nat)
    requires
        board.len() == 9,
    ensures
        first_win_from(swap_players(board), k) == swap_outcome(first_win_from(board, k)),
    decreases 8 - k,
{
    if k < 8 {
        lemma_swap_first_win(board, k + 1);
        let line = win_combinations()[k as int];
        let sw = swap_players(board);
        assert(sw[cell_index(line.0)] == board[cell_index(line.0)].swapped());
        assert(sw[cell_index(line.1)] == board[cell_index(line.1)].swapped());
        assert(sw[cell_index(line.2)] == board[cell_index(line.2)].swapped());
    }
}

/// Swapping the players on a board swaps the winner that the board decides,
/// with the same winning line; a draw and an undecided board stay as they are.
pub proof fn lemma_swap_players(board: Seq<Cell>)
    requires
        board.len() == 9,
    ensures
        evaluate(swap_players(board)) == swap_outcome(evaluate(board)),
{
    lemma_swap_first_win(board, 0);
    let sw = swap_players(board);
    assert(board_full(sw) == board_full(board)) by {
        assert forall|i: int| 0 <= i < 9 implies (sw[i] != Cell::Empty) == (board[i] != Cell::Empty) by {
            assert(sw[i] == board[i].swapped());
        }
    }
}

/// On a board where some line is held by one player, the board decides a win.
pub proof fn lemma_held_line_wins(board: Seq<Cell>, j: int, k: nat)
    requires
        0 <= k <= j < 8,
        line_winner(board, win_combinations()[j]) is Some,
    ensures
        first_win_from(board, k) matches Some(Outcome::PlayerWins(_, _)),
    decreases j - k,
{
    if k < j {
        lemma_held_line_wins(board, j, k + 1);
    }
}

/// Three tokens of one player on either diagonal win the game.
pub proof fn lemma_diagonal_wins(board: Seq<Cell>, p: Player)
    requires
        (board[0] == Cell::PlayerOccupied(p) && board[4] == Cell::PlayerOccupied(p) && board[8]
            == Cell::PlayerOccupied(p)) || (board[2] == Cell::PlayerOccupied(p) && board[4]
            == Cell::PlayerOccupied(p) && board[6] == Cell::PlayerOccupied(p)),
    ensures
        evaluate(board) matches Some(Outcome::PlayerWins(_, _)),
{
    if board[0] == Cell::PlayerOccupied(p) && board[4] == Cell::PlayerOccupied(p) && board[8]
        == Cell::PlayerOccupied(p) {
        lemma_held_line_wins(board, 6, 0);
    } else {
        lemma_held_line_wins(board, 7, 0);
    }
}

/// Three positions form a straight line across the board, listed from one
/// end to the other: a column from y = 0 to y = 2, a row from x = 0 to x = 2,
/// or one of the two diagonals through the centre.
pub open spec fn is_straight_line(l: WinCombination) -> bool {
    let (a, b, c) = l;
    ||| (a.0 == b.0 && b.0 == c.0 && a.0 <= 2 && a.1 == 0 && b.1 == 1 && c.1 == 2)
    ||| (a.1 == b.1 && b.1 == c.1 && a.1 <= 2 && a.0 == 0 && b.0 == 1 && c.0 == 2)
    ||| (a == (0usize, 0usize) && b == (1usize, 1usize) && c == (2usize, 2usize))
    ||| (a == (0usize, 2usize) && b == (1usize, 1usize) && c == (2usize, 0usize))
}

/// Every row, column and diagonal that one player holds entirely wins the game.
pub proof fn lemma_every_line_wins(board: Seq<Cell>, l: WinCombination, p: Player)
    requires
        is_straight_line(l),
        board[cell_index(l.0)] == Cell::PlayerOccupied(p),
        board[cell_index(l.1)] == Cell::PlayerOccupied(p),
        board[cell_index(l.2)] == Cell::PlayerOccupied(p),
    ensures
        evaluate(board) matches Some(Outcome::PlayerWins(_, _)),
{
    if l == win_combinations()[0] {
        lemma_held_line_wins(board, 0, 0);
    } else if l == win_combinations()[1] {
        lemma_held_line_wins(board, 1, 0);
    } else if l == win_combinations()[2] {
        lemma_held_line_wins(board, 2, 0);
    } else if l == win_combinations()[3] {
        lemma_held_line_wins(board, 3, 0);
    } else if l == win_combinations()[4] {
        lemma_held_line_wins(board, 4, 0);
    } else if l == win_combinations()[5] {
        lemma_held_line_wins(board, 5, 0);
    } else if l == win_combinations()[6] {
        lemma_held_line_wins(board, 6, 0);
    } else if l == win_combinations()[7] {
        lemma_held_line_wins(board, 7, 0);
    }
}

/// A win that a board decides names a straight line that the winner holds entirely.
pub proof fn lemma_reported_line_is_held(board: Seq<Cell>)
    ensures
        evaluate(board) matches Some(Outcome::PlayerWins(q, l)) ==> {
            &&& is_straight_line(l)
            &&& board[cell_index(l.0)] == Cell::PlayerOccupied(q)
            &&& board[cell_index(l.1)] == Cell::PlayerOccupied(q)
            &&& board[cell_index(l.2)] == Cell::PlayerOccupied(q)
        },
{
    if first_win_from(board, 0) is Some {
        lemma_win_from(board, 0);
        let j = choose|j: int|
            0 <= j < 8 && (#[trigger] line_winner(board, win_combinations()[j])) is Some
                && first_win_from(board, 0) == Some(
                Outcome::PlayerWins(line_winner(board, win_combinations()[j]).unwrap(), win_combinations()[j]),
            );
        assert(is_straight_line(win_combinations()[j]));
    }
}

/// A draw is declared only when every cell is taken; an undecided board has
/// an empty cell; and a board with every cell taken is always decided.
pub proof fn lemma_draw_only_when_full(board: Seq<Cell>)
    requires
        board.len() == 9,
    ensures
        evaluate(board) == Some(Outcome::Draw) ==> forall|x: usize, y: usize|
            x <= 2 && y <= 2 ==> board[cell_index((x, y))] != Cell::Empty,
        evaluate(board) is None ==> exists|x: usize, y: usize|
            x <= 2 && y <= 2 && board[cell_index((x, y))] == Cell::Empty,
        (forall|x: usize, y: usize| x <= 2 && y <= 2 ==> board[cell_index((x, y))] != Cell::Empty)
            ==> evaluate(board) is Some,
{
    if first_win_from(board, 0) is Some {
        lemma_win_from(board, 0);
    }
    if evaluate(board) is None {
        let i = choose|i: int| 0 <= i < 9 && board[i] == Cell::Empty;
        let x = (i % 3) as usize;
        let y = (i / 3) as usize;
        assert(board[cell_index((x, y))] == Cell::Empty);
    }
    if forall|x: usize, y: usize| x <= 2 && y <= 2 ==> board[cell_index((x, y))] != Cell::Empty {
        assert forall|i: int| 0 <= i < 9 implies board[i] != Cell::Empty by {
            let x = (i % 3) as usize;
            let y = (i / 3) as usize;
            assert(board[cell_index((x, y))] != Cell::Empty);
        }
    }
}

/// No line of a fresh board is complete.
proof fn lemma_no_winner_on_empty()
    ensures
        first_win_from(empty_board(), 0) == None::<Outcome>,
        evaluate(empty_board()) == None::<Outcome>,
{
    reveal_with_fuel(first_win_from, 9);
    assert(!board_full(empty_board())) by {
        assert(empty_board()[0] == Cell::Empty);
    }
}

/// The board of a fresh game.
pub open spec fn empty_board() -> Seq<Cell> {
    Seq::new(9, |i: int| Cell::Empty)
}

impl Default for GameState {
    /// A fresh game: an empty board, no outcome, and Naught to move.
    fn default() -> (g: GameState)
        ensures
            g.active_player == Player::Naught,
            g.outcome == None::<Outcome>,
            g.board@ == empty_board(),
            g.is_consistent(),
    {
        let board = [Cell::Empty; 9];
        assert(board@ == vstd::array::spec_array_fill_for_copy_type::<Cell, 9>(Cell::Empty)@);
        assert(board@ =~= empty_board());
        let g = GameState { active_player: Player::Naught, outcome: None, board };
        proof {
            lemma_count_none(g.board@, Cell::PlayerOccupied(Player::Naught));
            lemma_count_none(g.board@, Cell::PlayerOccupied(Player::Cross));
            lemma_no_winner_on_empty();
        }
        g
    }
}

impl GameState {
    /// The state can be reached by play from a fresh game: Naught has moved as
    /// often as Cross, or once more when Cross is to move, and the recorded
    /// outcome is the one the board decides.
    pub open spec fn is_consistent(&self) -> bool {
        let naughts = count_of(self.board@, Cell::PlayerOccupied(Player::Naught));
        let crosses = count_of(self.board@, Cell::PlayerOccupied(Player::Cross));
        &&& self.active_player == Player::Naught ==> naughts == crosses
        &&& self.active_player == Player::Cross ==> naughts == crosses + 1
        &&& self.outcome == evaluate(self.board@)
    }

    /// A consistent game whose board is full is over: no further placement is taken.
    pub proof fn lemma_full_board_is_over(g: &GameState, x: usize, y: usize)
        requires
            g.is_consistent(),
            board_full(g.board@),
        ensures
            g.outcome is Some,
            g.place_error(x, y) is Some,
    {
    }

    /// The cell at position `(x, y)`.
    pub fn get_cell(&self, pos: (usize, usize)) -> (c: Cell)
        requires
            on_board(pos),
        ensures
            c == self.board@[cell_index(pos)],
    {
        self.board[pos.0 + 3 * pos.1]
    }

    /// The cell at position `(x, y)`, to be written in place.
    fn get_cell_mut(&mut self, pos: (usize, usize)) -> (c: &mut Cell)
        requires
            on_board(pos),
        ensures
            *c == old(self).board@[cell_index(pos)],
            final(self).board@ == old(self).board@.update(cell_index(pos), *final(c)),
            final(self).active_player == old(self).active_player,
            final(self).outcome == old(self).outcome,
    {
        &mut self.board[pos.0 + 3 * pos.1]
    }

    /// The board, the player to move and the outcome are those of `other`.
    pub open spec fn same_as(&self, other: &GameState) -> bool {
        &&& self.board@ == other.board@
        &&& self.active_player == other.active_player
        &&& self.outcome == other.outcome
    }

    /// The error that placing a token at `(x, y)` meets, if any: a position off
    /// the board first, then a finished game, then a taken cell.
    pub open spec fn place_error(&self, x: usize, y: usize) -> Option<PlaceError> {
        if !on_board((x, y)) {
            Some(PlaceError::InvalidCoordinates)
        } else if self.outcome is Some {
            Some(PlaceError::GameOver)
        } else if self.board@[cell_index((x, y))] != Cell::Empty {
            Some(PlaceError::CellOccupied)
        } else {
            None
        }
    }

    /// Placing a token at `(x, y)` turns this game into `after` and returns `r`:
    /// a refused placement returns its error and leaves the game as it was; a
    /// placement that succeeds fills the cell with the active player's token,
    /// hands the turn to the other player and records what the board decides.
    pub open spec fn placement(&self, x: usize, y: usize, after: &GameState, r: Result<(), PlaceError>) -> bool {
        match self.place_error(x, y) {
            Some(e) => r == Err::<(), PlaceError>(e) && after.same_as(self),
            None => {
                &&& r == Ok::<(), PlaceError>(())
                &&& after.board@ == self.board@.update(
                    cell_index((x, y)),
                    Cell::PlayerOccupied(self.active_player),
                )
                &&& after.active_player == self.active_player.opponent()
                &&& after.outcome == evaluate(after.board@)
            },
        }
    }

    /// Places the active player's token at `(x, y)`, hands the turn to the
    /// other player and records the outcome if the board now decides the game.
    /// A refused placement leaves the game as it was.
    pub fn place(&mut self, x: usize, y: usize) -> (r: Result<(), PlaceError>)
        ensures
            old(self).placement(x, y, final(self), r),
            old(self).is_consistent() ==> final(self).is_consistent(),
            old(self).is_consistent() && r is Ok ==> match final(self).outcome {
                Some(Outcome::PlayerWins(p, _)) => p == old(self).active_player,
                _ => true,
            },
    {
        if x > 2 || y > 2 {
            return Err(PlaceError::InvalidCoordinates);
        }
        if self.outcome.is_some() {
            return Err(PlaceError::GameOver);
        }
        match self.get_cell((x, y)) {
            Cell::PlayerOccupied(_) => {
                return Err(PlaceError::CellOccupied);
            },
            Cell::Empty => {
                let mover = self.active_player;
                *self.get_cell_mut((x, y)) = Cell::PlayerOccupied(mover);
            },
        }
        self.active_player = match self.active_player {
            Player::Naught => Player::Cross,
            Player::Cross => Player::Naught,
        };
        if let Some(outcome) = self.check_wincondition() {
            self.outcome = Some(outcome);
        }
        proof {
            let i = cell_index((x, y));
            let mover = Cell::PlayerOccupied(old(self).active_player);
            lemma_count_update(old(self).board@, i, mover, Cell::PlayerOccupied(Player::Naught));
            lemma_count_update(old(self).board@, i, mover, Cell::PlayerOccupied(Player::Cross));
            if old(self).is_consistent() {
                lemma_winner_is_mover(old(self).board@, x, y, old(self).active_player);
            }
        }
        Ok(())
    }

    /// How the current board decides the game.
    fn check_wincondition(&self) -> (o: Option<Outcome>)
        ensures
            o == evaluate(self.board@),
    {
        let lines: [WinCombination; 8] = [
            ((0, 0), (0, 1), (0, 2)),
            ((1, 0), (1, 1), (1, 2)),
            ((2, 0), (2, 1), (2, 2)),
            ((0, 0), (1, 0), (2, 0)),
            ((0, 1), (1, 1), (2, 1)),
            ((0, 2), (1, 2), (2, 2)),
            ((0, 0), (1, 1), (2, 2)),
            ((0, 2), (1, 1), (2, 0)),
        ];
        assert(lines@ =~= win_combinations());
        let mut k: usize = 0;
        while k < 8
            invariant
                k <= 8,
                lines@ == win_combinations(),
                first_win_from(self.board@, 0) == first_win_from(self.board@, k as nat),
            decreases 8 - k,
        {
            let condition = lines[k];
            let first = self.get_cell(condition.0);
            if let Cell::PlayerOccupied(player) = first {
                let second = self.get_cell(condition.1);
                let third = self.get_cell(condition.2);
                if first == second && second == third {
                    return Some(Outcome::PlayerWins(player, condition));
                }
            }
            k += 1;
        }
        let mut i: usize = 0;
        while i < 9
            invariant
                i <= 9,
                first_win_from(self.board@, 0) == None::<Outcome>,
                forall|j: int| 0 <= j < i ==> self.board@[j] != Cell::Empty,
            decreases 9 - i,
        {
            if self.board[i] == Cell::Empty {
                return None;
            }
            i += 1;
        }
        Some(Outcome::Draw)
    }
}

} // verus!
