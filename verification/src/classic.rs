use vstd::prelude::*;

use crate::counting::{count_of, lemma_count_none, lemma_count_update};

verus! {

/// One of the two players.
#[derive(Debug, Copy, Clone, PartialEq, Eq, Structural)]
pub enum Player {
    Naught,
    Cross,
}

impl Player {
    /// The player who moves after `self`.
    pub open spec fn opponent(self) -> Player {
        match self {
            Player::Naught => Player::Cross,
            Player::Cross => Player::Naught,
        }
    }

    /// Each player's opponent is the other player.
    pub proof fn lemma_opponent_is_other(self)
        ensures
            self.opponent() != self,
            self.opponent().opponent() == self,
    {
    }

    /// The name under which a player is shown.
    pub open spec fn display_name(self) -> Seq<char> {
        match self {
            Player::Naught => "Naught"@,
            Player::Cross => "Cross"@,
        }
    }

    /// The player's name, as the front end shows it.
    pub fn to_string(&self) -> (s: String)
        ensures
            s@ == self.display_name(),
    {
        match self {
            Player::Naught => "Naught".to_owned(),
            Player::Cross => "Cross".to_owned(),
        }
    }
}

/// How a finished game ended.
#[derive(Debug, Copy, Clone, PartialEq, Eq, Structural)]
pub enum Outcome {
    NaughtWins,
    CrossWins,
    Draw,
}

impl Outcome {
    /// The name under which an outcome is shown.
    pub open spec fn display_name(self) -> Seq<char> {
        match self {
            Outcome::NaughtWins => "NaughtWins"@,
            Outcome::CrossWins => "CrossWins"@,
            Outcome::Draw => "Draw"@,
        }
    }

    /// The outcome's name, as the front end shows it.
    pub fn to_string(&self) -> (s: String)
        ensures
            s@ == self.display_name(),
    {
        match self {
            Outcome::NaughtWins => "NaughtWins".to_owned(),
            Outcome::CrossWins => "CrossWins".to_owned(),
            Outcome::Draw => "Draw".to_owned(),
        }
    }
}

/// The name of a win names the winner.
pub proof fn lemma_win_name_names_winner(p: Player)
    ensures
        win_of(p).display_name() == p.display_name() + "Wins"@,
{
    reveal_strlit("NaughtWins");
    reveal_strlit("CrossWins");
    reveal_strlit("Naught");
    reveal_strlit("Cross");
    reveal_strlit("Wins");
    assert(win_of(p).display_name() =~= p.display_name() + "Wins"@);
}

/// The outcome in which `p` wins.
pub open spec fn win_of(p: Player) -> Outcome {
    match p {
        Player::Naught => Outcome::NaughtWins,
        Player::Cross => Outcome::CrossWins,
    }
}

impl From<Player> for Outcome {
    /// The outcome in which `value` wins.
    fn from(value: Player) -> (o: Outcome) {
        match value {
            Player::Naught => Outcome::NaughtWins,
            Player::Cross => Outcome::CrossWins,
        }
    }
}

impl vstd::std_specs::convert::FromSpecImpl<Player> for Outcome {
    open spec fn obeys_from_spec() -> bool {
        true
    }

    open spec fn from_spec(value: Player) -> Outcome {
        win_of(value)
    }
}

/// What a board holds at one position.
#[derive(Debug, Copy, Clone, PartialEq, Eq, Structural)]
pub enum Cell {
    Empty,
    PlayerOccupied(Player),
}

/// Why a placement was refused.
#[derive(Debug, Copy, Clone, PartialEq, Eq, Structural)]
pub enum PlaceError {
    InvalidCoordinates,
    CellOccupied,
    GameOver,
}

impl PlaceError {
    /// The name under which an error is shown.
    pub open spec fn display_name(self) -> Seq<char> {
        match self {
            PlaceError::InvalidCoordinates => "InvalidCoordinates"@,
            PlaceError::CellOccupied => "CellOccupied"@,
            PlaceError::GameOver => "GameOver"@,
        }
    }

    /// The error's name, as the front end shows it.
    pub fn to_string(&self) -> (s: String)
        ensures
            s@ == self.display_name(),
    {
        match self {
            PlaceError::InvalidCoordinates => "InvalidCoordinates".to_owned(),
            PlaceError::CellOccupied => "CellOccupied".to_owned(),
            PlaceError::GameOver => "GameOver".to_owned(),
        }
    }
}

/// A game in progress: whose turn it is, how the game ended (if it has),
/// and the board, indexed `board[x][y]`.
#[derive(Debug)]
pub struct GameState {
    pub active_player: Player,
    pub outcome: Option<Outcome>,
    pub board: [[Cell; 3]; 3],
}

/// Three positions `(x, y)` whose cells end the game when one player holds all of them.
pub type WinCombination = ((usize, usize), (usize, usize), (usize, usize));

/// The board as a sequence of columns, each a sequence of cells.
pub open spec fn grid(board: [[Cell; 3]; 3]) -> Seq<Seq<Cell>> {
    Seq::new(3, |x: int| board@[x]@)
}

/// The cell at `(x, y)` of a board given as columns.
pub open spec fn cell_at(g: Seq<Seq<Cell>>, pos: (usize, usize)) -> Cell {
    g[pos.0 as int][pos.1 as int]
}

/// A position lies on the board.
pub open spec fn on_board(pos: (usize, usize)) -> bool {
    pos.0 <= 2 && pos.1 <= 2
}

/// The lines that end the game, in the order in which they are checked: the
/// three columns, the three rows, then the two diagonals.
pub open spec fn win_combinations() -> Seq<WinCombination> {
    seq![
        ((0, 0), (0, 1), (0, 2)),
        ((1, 0), (1, 1), (1, 2)),
        ((2, 0), (2, 1), (2, 2)),
        ((0, 0), (1, 0), (2, 0)),
        ((0, 1), (1, 1), (2, 1)),
        ((0, 2), (1, 2), (2, 2)),
        ((0, 0), (1, 1), (2, 2)),
        ((0, 2), (1, 1), (2, 0)),
    ]
}

/// The player who holds all three cells of `line`, if one does.
pub open spec fn line_winner(g: Seq<Seq<Cell>>, line: WinCombination) -> Option<Player> {
    match cell_at(g, line.0) {
        Cell::PlayerOccupied(p) => {
            if cell_at(g, line.1) == Cell::PlayerOccupied(p) && cell_at(g, line.2)
                == Cell::PlayerOccupied(p) {
                Some(p)
            } else {
                None
            }
        },
        Cell::Empty => None,
    }
}

/// The outcome of the first complete line, searching from index `k` on.
pub open spec fn first_win_from(g: Seq<Seq<Cell>>, k: nat) -> Option<Outcome>
    decreases 8 - k,
{
    if k >= 8 {
        None
    } else {
        match line_winner(g, win_combinations()[k as int]) {
            Some(p) => Some(win_of(p)),
            None => first_win_from(g, k + 1),
        }
    }
}

/// No cell of the board is empty.
pub open spec fn board_full(g: Seq<Seq<Cell>>) -> bool {
    forall|x: int, y: int| 0 <= x < 3 && 0 <= y < 3 ==> g[x][y] != Cell::Empty
}

/// How a board decides the game: the winner of the first complete line, else a
/// draw when the board is full, else nothing yet.
pub open spec fn evaluate(g: Seq<Seq<Cell>>) -> Option<Outcome> {
    match first_win_from(g, 0) {
        Some(o) => Some(o),
        None => if board_full(g) {
            Some(Outcome::Draw)
        } else {
            None
        },
    }
}

/// How many cells of the board hold `c`.
pub open spec fn count_grid(g: Seq<Seq<Cell>>, c: Cell) -> nat {
    count_of(g[0], c) + count_of(g[1], c) + count_of(g[2], c)
}

/// When the first complete line from `k` on is none, no line from `k` on is complete.
pub proof fn lemma_no_win_from(g: Seq<Seq<Cell>>, k: nat)
    requires
        first_win_from(g, k) == None::<Outcome>,
    ensures
        forall|j: int| k <= j < 8 ==> line_winner(g, #[trigger] win_combinations()[j]) == None::<Player>,
    decreases 8 - k,
{
    if k < 8 {
        lemma_no_win_from(g, k + 1);
    }
}

/// A decision found from `k` on is the win of the holder of a complete line from `k` on.
pub proof fn lemma_win_from(g: Seq<Seq<Cell>>, k: nat)
    requires
        first_win_from(g, k) is Some,
    ensures
        exists|j: int|
            k <= j < 8 && (#[trigger] line_winner(g, win_combinations()[j])) is Some
                && first_win_from(g, k) == Some(win_of(line_winner(g, win_combinations()[j]).unwrap())),
    decreases 8 - k,
{
    if k < 8 {
        if line_winner(g, win_combinations()[k as int]) is None {
            lemma_win_from(g, k + 1);
        }
    }
}

/// Placing `p` on a board that no line decides can only complete lines of `p`.
pub proof fn lemma_winner_is_mover(g: Seq<Seq<Cell>>, x: usize, y: usize, p: Player)
    requires
        g.len() == 3,
        forall|i: int| 0 <= i < 3 ==> (#[trigger] g[i]).len() == 3,
        on_board((x, y)),
        first_win_from(g, 0) == None::<Outcome>,
    ensures
        first_win_from(g.update(x as int, g[x as int].update(y as int, Cell::PlayerOccupied(p))), 0)
            is Some ==> first_win_from(
            g.update(x as int, g[x as int].update(y as int, Cell::PlayerOccupied(p))),
            0,
        ) == Some(win_of(p)),
{
    let after = g.update(x as int, g[x as int].update(y as int, Cell::PlayerOccupied(p)));
    lemma_no_win_from(g, 0);
    if first_win_from(after, 0) is Some {
        lemma_win_from(after, 0);
        let j = choose|j: int|
            0 <= j < 8 && (#[trigger] line_winner(after, win_combinations()[j])) is Some
                && first_win_from(after, 0) == Some(win_of(line_winner(after, win_combinations()[j]).unwrap()));
        assert(line_winner(g, win_combinations()[j]) == None::<Player>);
    }
}

impl Cell {
    /// The cell with the other player's token in place of this one's.
    pub open spec fn swapped(self) -> Cell {
        match self {
            Cell::Empty => Cell::Empty,
            Cell::PlayerOccupied(p) => Cell::PlayerOccupied(p.opponent()),
        }
    }
}

/// The board with every token handed to the other player.
pub open spec fn swap_grid(g: Seq<Seq<Cell>>) -> Seq<Seq<Cell>> {
    g.map_values(|col: Seq<Cell>| col.map_values(|c: Cell| c.swapped()))
}

/// The outcome with the other player as the winner; a draw stays a draw.
pub open spec fn swap_outcome(o: Option<Outcome>) -> Option<Outcome> {
    match o {
        Some(Outcome::NaughtWins) => Some(Outcome::CrossWins),
        Some(Outcome::CrossWins) => Some(Outcome::NaughtWins),
        other => other,
    }
}

/// The board has three columns of three cells.
pub open spec fn is_grid(g: Seq<Seq<Cell>>) -> bool {
    g.len() == 3 && forall|x: int| 0 <= x < 3 ==> (#[trigger] g[x]).len() == 3
}

/// The search for a complete line from `k` on sees the swapped winner on the swapped board.
pub proof fn lemma_swap_first_win(g: Seq<Seq<Cell>>, k: nat)
    requires
        is_grid(g),
    ensures
        first_win_from(swap_grid(g), k) == swap_outcome(first_win_from(g, k)),
    decreases 8 - k,
{
    if k < 8 {
        lemma_swap_first_win(g, k + 1);
        let line = win_combinations()[k as int];
        let sw = swap_grid(g);
        assert(cell_at(sw, line.0) == cell_at(g, line.0).swapped());
        assert(cell_at(sw, line.1) == cell_at(g, line.1).swapped());
        assert(cell_at(sw, line.2) == cell_at(g, line.2).swapped());
    }
}

/// Swapping the players on a board swaps the winner that the board decides;
/// a draw and an undecided board stay as they are.
pub proof fn lemma_swap_players(g: Seq<Seq<Cell>>)
    requires
        is_grid(g),
    ensures
        evaluate(swap_grid(g)) == swap_outcome(evaluate(g)),
{
    lemma_swap_first_win(g, 0);
    let sw = swap_grid(g);
    assert(board_full(sw) == board_full(g)) by {
        assert forall|x: int, y: int| 0 <= x < 3 && 0 <= y < 3 implies (sw[x][y] != Cell::Empty)
            == (g[x][y] != Cell::Empty) by {
            assert(sw[x][y] == g[x][y].swapped());
        }
    }
}

/// On a board where some line is held by one player, the board decides a win.
pub proof fn lemma_held_line_wins(g: Seq<Seq<Cell>>, j: int, k: nat)
    requires
        0 <= k <= j < 8,
        line_winner(g, win_combinations()[j]) is Some,
    ensures
        first_win_from(g, k) is Some,
        first_win_from(g, k) != Some(Outcome::Draw),
    decreases j - k,
{
    if k < j {
        lemma_held_line_wins(g, j, k + 1);
    }
}

/// Three tokens of one player on either diagonal win the game.
pub proof fn lemma_diagonal_wins(g: Seq<Seq<Cell>>, p: Player)
    requires
        (g[0][0] == Cell::PlayerOccupied(p) && g[1][1] == Cell::PlayerOccupied(p) && g[2][2]
            == Cell::PlayerOccupied(p)) || (g[0][2] == Cell::PlayerOccupied(p) && g[1][1]
            == Cell::PlayerOccupied(p) && g[2][0] == Cell::PlayerOccupied(p)),
    ensures
        evaluate(g) is Some,
        evaluate(g) != Some(Outcome::Draw),
{
    if g[0][0] == Cell::PlayerOccupied(p) && g[1][1] == Cell::PlayerOccupied(p) && g[2][2]
        == Cell::PlayerOccupied(p) {
        lemma_held_line_wins(g, 6, 0);
    } else {
        lemma_held_line_wins(g, 7, 0);
    }
}

/// Three positions form a straight line across the board, listed from one
/// end to the other: a column from y = 0 to y = 2, a row from x = 0 to x = 2,
/// or one of the two diagonals through the centre.
pub open spec fn is_straight_line(l: WinCombination) -> bool {
    let (a, b, c) = l;
    ||| (a.0 == b.0 && b.0 == c.0 && a.0 <= 2 && a.1 == 0 && b.1 == 1 && c.1 == 2)
    ||| (a.1 == b.1 && b.1 == c.1 && a.1 <= 2 && a.0 == 0 && b.0 == 1 && c.0 == 2)
    ||| (a == (0usize, 0usize) && b == (1usize, 1usize) && c == (2usize, 2usize))
    ||| (a == (0usize, 2usize) && b == (1usize, 1usize) && c == (2usize, 0usize))
}

/// Every row, column and diagonal that one player holds entirely wins the game.
pub proof fn lemma_every_line_wins(g: Seq<Seq<Cell>>, l: WinCombination, p: Player)
    requires
        is_straight_line(l),
        cell_at(g, l.0) == Cell::PlayerOccupied(p),
        cell_at(g, l.1) == Cell::PlayerOccupied(p),
        cell_at(g, l.2) == Cell::PlayerOccupied(p),
    ensures
        evaluate(g) is Some && evaluate(g) != Some(Outcome::Draw),
{
    if l == win_combinations()[0] {
        lemma_held_line_wins(g, 0, 0);
    } else if l == win_combinations()[1] {
        lemma_held_line_wins(g, 1, 0);
    } else if l == win_combinations()[2] {
        lemma_held_line_wins(g, 2, 0);
    } else if l == win_combinations()[3] {
        lemma_held_line_wins(g, 3, 0);
    } else if l == win_combinations()[4] {
        lemma_held_line_wins(g, 4, 0);
    } else if l == win_combinations()[5] {
        lemma_held_line_wins(g, 5, 0);
    } else if l == win_combinations()[6] {
        lemma_held_line_wins(g, 6, 0);
    } else if l == win_combinations()[7] {
        lemma_held_line_wins(g, 7, 0);
    }
}

/// A draw is declared only when every cell is taken; an undecided board has
/// an empty cell; and a board with every cell taken is always decided.
pub proof fn lemma_draw_only_when_full(g: Seq<Seq<Cell>>)
    requires
        is_grid(g),
    ensures
        evaluate(g) == Some(Outcome::Draw) ==> forall|x: usize, y: usize|
            x <= 2 && y <= 2 ==> cell_at(g, (x, y)) != Cell::Empty,
        evaluate(g) is None ==> exists|x: usize, y: usize|
            x <= 2 && y <= 2 && cell_at(g, (x, y)) == Cell::Empty,
        (forall|x: usize, y: usize| x <= 2 && y <= 2 ==> cell_at(g, (x, y)) != Cell::Empty)
            ==> evaluate(g) is Some,
{
    if first_win_from(g, 0) is Some {
        lemma_win_from(g, 0);
    }
    if evaluate(g) is None {
        let (a, b) = choose|a: int, b: int| 0 <= a < 3 && 0 <= b < 3 && g[a][b] == Cell::Empty;
        assert(cell_at(g, (a as usize, b as usize)) == Cell::Empty);
    }
    if forall|x: usize, y: usize| x <= 2 && y <= 2 ==> cell_at(g, (x, y)) != Cell::Empty {
        assert forall|a: int, b: int| 0 <= a < 3 && 0 <= b < 3 implies g[a][b] != Cell::Empty by {
            assert(cell_at(g, (a as usize, b as usize)) != Cell::Empty);
        }
    }
}

/// No line of a fresh board is complete.
proof fn lemma_no_winner_on_empty()
    ensures
        evaluate(empty_grid()) == None::<Outcome>,
{
    reveal_with_fuel(first_win_from, 9);
    assert(!board_full(empty_grid())) by {
        assert(empty_grid()[0][0] == Cell::Empty);
    }
}

/// The board of a fresh game.
pub open spec fn empty_grid() -> Seq<Seq<Cell>> {
    Seq::new(3, |x: int| Seq::new(3, |y: int| Cell::Empty))
}

impl Default for GameState {
    /// A fresh game: an empty board, no outcome, and Naught to move.
    fn default() -> (g: GameState)
        ensures
            g.active_player == Player::Naught,
            g.outcome == None::<Outcome>,
            grid(g.board) == empty_grid(),
            g.is_consistent(),
    {
        let g = GameState {
            active_player: Player::Naught,
            outcome: None,
            board: [[Cell::Empty; 3]; 3],
        };
        assert forall|x: int| 0 <= x < 3 implies grid(g.board)[x] =~= empty_grid()[x] by {}
        assert(grid(g.board) =~= empty_grid());
        proof {
            let e = empty_grid();
            lemma_count_none(e[0], Cell::PlayerOccupied(Player::Naught));
            lemma_count_none(e[1], Cell::PlayerOccupied(Player::Naught));
            lemma_count_none(e[2], Cell::PlayerOccupied(Player::Naught));
            lemma_count_none(e[0], Cell::PlayerOccupied(Player::Cross));
            lemma_count_none(e[1], Cell::PlayerOccupied(Player::Cross));
            lemma_count_none(e[2], Cell::PlayerOccupied(Player::Cross));
            lemma_no_winner_on_empty();
        }
        g
    }
}

impl GameState {
    /// The state can be reached by play from a fresh game: Naught has moved as
    /// often as Cross, or once more when Cross is to move, and the recorded
    /// outcome is the one the board decides.
    pub open spec fn is_consistent(&self) -> bool {
        let naughts = count_grid(grid(self.board), Cell::PlayerOccupied(Player::Naught));
        let crosses = count_grid(grid(self.board), Cell::PlayerOccupied(Player::Cross));
        &&& self.active_player == Player::Naught ==> naughts == crosses
        &&& self.active_player == Player::Cross ==> naughts == crosses + 1
        &&& self.outcome == evaluate(grid(self.board))
    }

    /// A consistent game whose board is full is over: no further placement is taken.
    pub proof fn lemma_full_board_is_over(g: &GameState, x: usize, y: usize)
        requires
            g.is_consistent(),
            board_full(grid(g.board)),
        ensures
            g.outcome is Some,
            g.place_error(x, y) is Some,
    {
    }

    /// The cell at position `(x, y)`.
    pub fn get_cell(&self, pos: (usize, usize)) -> (c: Cell)
        requires
            on_board(pos),
        ensures
            c == cell_at(grid(self.board), pos),
    {
        self.board[pos.0][pos.1]
    }

    /// The board, the player to move and the outcome are those of `other`.
    pub open spec fn same_as(&self, other: &GameState) -> bool {
        &&& grid(self.board) == grid(other.board)
        &&& self.active_player == other.active_player
        &&& self.outcome == other.outcome
    }

    /// The error that placing a token at `(x, y)` meets, if any: a position off
    /// the board first, then a finished game, then a taken cell.
    pub open spec fn place_error(&self, x: usize, y: usize) -> Option<PlaceError> {
        if !on_board((x, y)) {
            Some(PlaceError::InvalidCoordinates)
        } else if self.outcome is Some {
            Some(PlaceError::GameOver)
        } else if cell_at(grid(self.board), (x, y)) != Cell::Empty {
            Some(PlaceError::CellOccupied)
        } else {
            None
        }
    }

    /// The error that placing a token at `(x, y)` would meet, found without placing it.
    pub fn check_place(&self, x: usize, y: usize) -> (r: Option<PlaceError>)
        ensures
            r == self.place_error(x, y),
    {
        if x > 2 || y > 2 {
            Some(PlaceError::InvalidCoordinates)
        } else if self.outcome.is_some() {
            Some(PlaceError::GameOver)
        } else if self.board[x][y] != Cell::Empty {
            Some(PlaceError::CellOccupied)
        } else {
            None
        }
    }

    /// Placing a token at `(x, y)` turns this game into `after` and returns `r`:
    /// a refused placement returns its error and leaves the game as it was; a
    /// placement that succeeds fills the cell with the active player's token,
    /// hands the turn to the other player and records what the board decides.
    pub open spec fn placement(&self, x: usize, y: usize, after: &GameState, r: Result<(), PlaceError>) -> bool {
        match self.place_error(x, y) {
            Some(e) => r == Err::<(), PlaceError>(e) && after.same_as(self),
            None => {
                &&& r == Ok::<(), PlaceError>(())
                &&& grid(after.board) == grid(self.board).update(
                    x as int,
                    grid(self.board)[x as int].update(y as int, Cell::PlayerOccupied(self.active_player)),
                )
                &&& after.active_player == self.active_player.opponent()
                &&& after.outcome == evaluate(grid(after.board))
            },
        }
    }

    /// Places the active player's token at `(x, y)`, hands the turn to the
    /// other player and records the outcome if the board now decides the game.
    /// A refused placement leaves the game as it was.
    pub fn place(&mut self, x: usize, y: usize) -> (r: Result<(), PlaceError>)
        ensures
            old(self).placement(x, y, final(self), r),
            old(self).is_consistent() ==> final(self).is_consistent(),
            old(self).is_consistent() && r is Ok && final(self).outcome != Some(Outcome::Draw)
                ==> final(self).outcome is None || final(self).outcome == Some(
                win_of(old(self).active_player),
            ),
    {
        if x > 2 || y > 2 {
            return Err(PlaceError::InvalidCoordinates);
        }
        if self.outcome.is_some() {
            return Err(PlaceError::GameOver);
        }
        let cell = self.board[x][y];
        match cell {
            Cell::PlayerOccupied(_) => {
                return Err(PlaceError::CellOccupied);
            },
            Cell::Empty => {
                self.board[x][y] = Cell::PlayerOccupied(self.active_player);
            },
        }
        assert(grid(self.board) =~= grid(old(self).board).update(
            x as int,
            grid(old(self).board)[x as int].update(y as int, Cell::PlayerOccupied(old(self).active_player)),
        ));
        self.active_player = match self.active_player {
            Player::Naught => Player::Cross,
            Player::Cross => Player::Naught,
        };
        if let Some(outcome) = self.check_wincondition() {
            self.outcome = Some(outcome);
        }
        proof {
            let g = grid(old(self).board);
            let mover = Cell::PlayerOccupied(old(self).active_player);
            lemma_count_update(g[x as int], y as int, mover, Cell::PlayerOccupied(Player::Naught));
            lemma_count_update(g[x as int], y as int, mover, Cell::PlayerOccupied(Player::Cross));
            if old(self).is_consistent() {
                lemma_winner_is_mover(g, x, y, old(self).active_player);
            }
        }
        Ok(())
    }

    /// How the current board decides the game.
    fn check_wincondition(&self) -> (o: Option<Outcome>)
        ensures
            o == evaluate(grid(self.board)),
    {
        let lines: [WinCombination; 8] = [
            ((0, 0), (0, 1), (0, 2)),
            ((1, 0), (1, 1), (1, 2)),
            ((2, 0), (2, 1), (2, 2)),
            ((0, 0), (1, 0), (2, 0)),
            ((0, 1), (1, 1), (2, 1)),
            ((0, 2), (1, 2), (2, 2)),
            ((0, 0), (1, 1), (2, 2)),
            ((0, 2), (1, 1), (2, 0)),
        ];
        assert(lines@ =~= win_combinations());
        let mut k: usize = 0;
        while k < 8
            invariant
                k <= 8,
                lines@ == win_combinations(),
                first_win_from(grid(self.board), 0) == first_win_from(grid(self.board), k as nat),
            decreases 8 - k,
        {
            let condition = lines[k];
            let first = self.get_cell(condition.0);
            if let Cell::PlayerOccupied(player) = first {
                let second = self.get_cell(condition.1);
                let third = self.get_cell(condition.2);
                if first == second && second == third {
                    return Some(Outcome::from(player));
                }
            }
            k += 1;
        }
        let mut x: usize = 0;
        while x < 3
            invariant
                x <= 3,
                first_win_from(grid(self.board), 0) == None::<Outcome>,
                forall|i: int, j: int|
                    0 <= i < x && 0 <= j < 3 ==> grid(self.board)[i][j] != Cell::Empty,
            decreases 3 - x,
        {
            let mut y: usize = 0;
            while y < 3
                invariant
                    x < 3,
                    y <= 3,
                    first_win_from(grid(self.board), 0) == None::<Outcome>,
                    forall|i: int, j: int|
                        0 <= i < x && 0 <= j < 3 ==> grid(self.board)[i][j] != Cell::Empty,
                    forall|j: int| 0 <= j < y ==> grid(self.board)[x as int][j] != Cell::Empty,
                decreases 3 - y,
            {
                if self.board[x][y] == Cell::Empty {
                    return None;
                }
                y += 1;
            }
            x += 1;
        }
        Some(Outcome::Draw)
    }
}

} // verus!
