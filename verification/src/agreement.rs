use vstd::prelude::*;

use crate::classic;
use crate::tictactoe;

verus! {

/// The player of the row-indexed game (`tictactoe`) that stands for a classic player.
pub open spec fn player_of(p: classic::Player) -> tictactoe::Player {
    match p {
        classic::Player::Naught => tictactoe::Player::Naught,
        classic::Player::Cross => tictactoe::Player::Cross,
    }
}

/// The cell of the row-indexed game that stands for a classic cell.
pub open spec fn cell_of(c: classic::Cell) -> tictactoe::Cell {
    match c {
        classic::Cell::Empty => tictactoe::Cell::Empty,
        classic::Cell::PlayerOccupied(p) => tictactoe::Cell::PlayerOccupied(player_of(p)),
    }
}

/// A classic board (columns of cells) stored row by row, as the row-indexed game stores it.
pub open spec fn flatten(g: Seq<Seq<classic::Cell>>) -> Seq<tictactoe::Cell> {
    Seq::new(9, |i: int| cell_of(g[i % 3][i / 3]))
}

/// The classic outcome that a decision of the row-indexed game stands for: the
/// winner without its line, or a draw.
pub open spec fn classic_outcome(o: Option<tictactoe::Outcome>) -> Option<classic::Outcome> {
    match o {
        Some(tictactoe::Outcome::PlayerWins(tictactoe::Player::Naught, _)) => Some(classic::Outcome::NaughtWins),
        Some(tictactoe::Outcome::PlayerWins(tictactoe::Player::Cross, _)) => Some(classic::Outcome::CrossWins),
        Some(tictactoe::Outcome::Draw) => Some(classic::Outcome::Draw),
        None => None,
    }
}

/// Each position of a classic board holds what the flattened board holds there.
proof fn lemma_flatten_at(g: Seq<Seq<classic::Cell>>, pos: (usize, usize))
    requires
        classic::on_board(pos),
    ensures
        flatten(g)[tictactoe::cell_index(pos)] == cell_of(classic::cell_at(g, pos)),
{
    let i = tictactoe::cell_index(pos);
    assert(i % 3 == pos.0 && i / 3 == pos.1) by (nonlinear_arith)
        requires
            i == pos.0 + 3 * pos.1,
            0 <= pos.0 <= 2,
            0 <= pos.1 <= 2,
    ;
}

/// Both games search the same lines in the same order.
proof fn lemma_first_win_agrees(g: Seq<Seq<classic::Cell>>, k: nat)
    ensures
        classic::first_win_from(g, k) == classic_outcome(tictactoe::first_win_from(flatten(g), k)),
    decreases 8 - k,
{
    if k < 8 {
        lemma_first_win_agrees(g, k + 1);
        let line = classic::win_combinations()[k as int];
        assert(line == tictactoe::win_combinations()[k as int]);
        lemma_flatten_at(g, line.0);
        lemma_flatten_at(g, line.1);
        lemma_flatten_at(g, line.2);
    }
}

/// The classic game decides a board as the row-indexed game decides the same board
/// stored row by row, naming only the winner.
pub proof fn lemma_classic_agrees(g: Seq<Seq<classic::Cell>>)
    ensures
        classic::evaluate(g) == classic_outcome(tictactoe::evaluate(flatten(g))),
{
    lemma_first_win_agrees(g, 0);
    let f = flatten(g);
    assert(classic::board_full(g) == tictactoe::board_full(f)) by {
        if classic::board_full(g) {
            assert forall|i: int| 0 <= i < 9 implies f[i] != tictactoe::Cell::Empty by {
                assert(0 <= i % 3 < 3 && 0 <= i / 3 < 3);
            }
        }
        if tictactoe::board_full(f) {
            assert forall|x: int, y: int| 0 <= x < 3 && 0 <= y < 3 implies g[x][y]
                != classic::Cell::Empty by {
                lemma_flatten_at(g, (x as usize, y as usize));
            }
        }
    }
}

/// A classic game and a row-indexed game with the same tokens
/// (`t.board[x + 3 * y]` standing for `s.board[x][y]`) are decided alike:
/// the same winner, a draw in both, or neither decided.
pub proof fn lemma_classic_game_agrees(s: &classic::GameState, t: &tictactoe::GameState)
    requires
        forall|x: int, y: int|
            0 <= x < 3 && 0 <= y < 3 ==> t.board@[x + 3 * y] == cell_of(#[trigger] s.board[x][y]),
    ensures
        classic::evaluate(classic::grid(s.board)) == classic_outcome(tictactoe::evaluate(t.board@)),
{
    let g = classic::grid(s.board);
    assert forall|i: int| 0 <= i < 9 implies t.board@[i] == #[trigger] flatten(g)[i] by {
        let x = i % 3;
        let y = i / 3;
        assert(i == x + 3 * y && 0 <= x < 3 && 0 <= y < 3) by (nonlinear_arith)
            requires
                0 <= i < 9,
                x == i % 3,
                y == i / 3,
        ;
        assert(t.board@[x + 3 * y] == cell_of(s.board[x][y]));
    }
    assert(t.board@ =~= flatten(g));
    lemma_classic_agrees(g);
}

} // verus!
