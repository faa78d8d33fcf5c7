use tictactoe::classic;
use tictactoe::tictactoe::{Cell, GameState, Outcome, Player};

fn play(moves: &[(usize, usize)]) -> GameState {
    let mut game = GameState::default();
    for &(x, y) in moves {
        game.place(x, y).unwrap();
    }
    game
}

fn play_classic(moves: &[(usize, usize)]) -> classic::GameState {
    let mut game = classic::GameState::default();
    for &(x, y) in moves {
        game.place(x, y).unwrap();
    }
    game
}

fn swapped(c: Cell) -> Cell {
    match c {
        Cell::Empty => Cell::Empty,
        Cell::PlayerOccupied(Player::Naught) => Cell::PlayerOccupied(Player::Cross),
        Cell::PlayerOccupied(Player::Cross) => Cell::PlayerOccupied(Player::Naught),
    }
}

#[test]
fn swapping_players_swaps_the_winner() {
    // Naught wins on column x = 0; the same board with the tokens swapped is Cross's.
    let game = play(&[(0, 0), (1, 0), (0, 1), (1, 1), (0, 2)]);
    assert_eq!(game.outcome, Some(Outcome::PlayerWins(Player::Naught, ((0, 0), (0, 1), (0, 2)))));
    // Cross takes Naught's cells and Naught takes Cross's, with one more
    // Naught token at (2, 2) since Naught moves first.
    let mirrored = play(&[(1, 0), (0, 0), (1, 1), (0, 1), (2, 2), (0, 2)]);
    assert_eq!(mirrored.outcome, Some(Outcome::PlayerWins(Player::Cross, ((0, 0), (0, 1), (0, 2)))));
    for i in 0..9 {
        if i != 8 {
            assert_eq!(mirrored.board[i], swapped(game.board[i]));
        }
    }
}

#[test]
fn classic_and_row_indexed_game_agree() {
    let sequences: [&[(usize, usize)]; 4] = [
        &[(0, 0), (1, 0), (0, 1), (1, 1), (0, 2)],
        &[(0, 0), (1, 0), (0, 1), (1, 1), (2, 2), (1, 2)],
        &[(0, 0), (1, 1), (2, 2), (0, 2), (2, 0), (2, 1), (1, 2), (1, 0), (0, 1)],
        &[(0, 0), (1, 0), (1, 1), (2, 0), (2, 2)],
    ];
    for moves in sequences {
        let t = play(moves);
        let s = play_classic(moves);
        let expected = match t.outcome {
            Some(Outcome::PlayerWins(Player::Naught, _)) => Some(classic::Outcome::NaughtWins),
            Some(Outcome::PlayerWins(Player::Cross, _)) => Some(classic::Outcome::CrossWins),
            Some(Outcome::Draw) => Some(classic::Outcome::Draw),
            None => None,
        };
        assert_eq!(s.outcome, expected);
    }
}

#[test]
fn classic_diagonal_board_is_won_by_naught() {
    // board[x][y]: Naught on (0,0), (1,1), (2,2); Cross on (0,1), (1,0).
    let game = play_classic(&[(0, 0), (0, 1), (1, 1), (1, 0), (2, 2)]);
    assert_eq!(game.outcome, Some(classic::Outcome::NaughtWins));
}
