use tictactoe::tictactoe::{Cell, GameState, Outcome, PlaceError, Player};

#[test]
fn test_default_gives_empty_board() {
    let game = GameState::default();
    assert!(game.outcome.is_none(), "Expected outcome to be empty");
    assert!(game.board.iter().all(|c| *c == Cell::Empty), "Expected only empty cells");
}

#[test]
fn test_place_occupies_cell() {
    let mut game = GameState::default();
    game.place(0, 0).unwrap();
    assert_eq!(Cell::PlayerOccupied(Player::Naught), game.get_cell((0, 0)));
}

#[test]
fn tictactoe_test_game_state() {
    let mut game = GameState::default();
    assert_eq!(game.outcome, None);
    game.place(0, 0).unwrap(); // Naught
    game.place(1, 0).unwrap(); // Cross
    game.place(0, 1).unwrap(); // Naught
    game.place(1, 1).unwrap(); // Cross
    game.place(0, 2).unwrap(); // Naught wins
    assert_eq!(game.outcome, Some(Outcome::PlayerWins(Player::Naught, ((0, 0), (0, 1), (0, 2)),)));
}

#[test]
fn tictactoe_test_game_state_cross_wins() {
    let mut game = GameState::default();
    assert_eq!(game.outcome, None);
    game.place(0, 0).unwrap(); // Naught
    game.place(1, 0).unwrap(); // Cross
    game.place(0, 1).unwrap(); // Naught
    game.place(1, 1).unwrap(); // Cross
    game.place(2, 2).unwrap(); // Naught
    game.place(1, 2).unwrap(); // Cross wins
    assert_eq!(game.outcome, Some(Outcome::PlayerWins(Player::Cross, ((1, 0), (1, 1), (1, 2)),)));
}

#[test]
fn tictactoe_test_game_state_draw() {
    let mut game = GameState::default();
    assert_eq!(game.outcome, None);

    game.place(0, 0).unwrap(); // Naught
    game.place(1, 1).unwrap(); // Cross
    game.place(2, 2).unwrap(); // Naught
    game.place(0, 2).unwrap(); // Cross
    game.place(2, 0).unwrap(); // Naught
    game.place(2, 1).unwrap(); // Cross
    game.place(1, 2).unwrap(); // Naught
    game.place(1, 0).unwrap(); // Cross
    game.place(0, 1).unwrap(); // Naught -> Draw

    assert_eq!(game.outcome, Some(Outcome::Draw));
}

#[test]
fn test_place_fails_on_occupied() {
    // Other player cannot occupy the same space
    let mut game = GameState::default();
    game.place(1, 1).unwrap(); // Naught
    assert_eq!(game.place(1, 1), Err(PlaceError::CellOccupied));

    // Neither can you overwrite your own space
    let mut game = GameState::default();
    game.place(1, 1).unwrap(); // Naught
    game.place(0, 0).unwrap(); // Cross
    assert_eq!(game.place(1, 1), Err(PlaceError::CellOccupied));
}

#[test]
fn test_place_fails_illegal_coordinates() {
    let mut game = GameState::default();
    assert_eq!(game.place(0, 3), Err(PlaceError::InvalidCoordinates));
    assert_eq!(game.place(3, 3), Err(PlaceError::InvalidCoordinates));
    assert_eq!(game.place(255, 255), Err(PlaceError::InvalidCoordinates));
}

#[test]
fn test_place_fails_on_gameover() {
    let mut game = GameState::default();
    game.place(0, 0).unwrap();
    game.place(0, 1).unwrap();
    game.place(1, 0).unwrap();
    game.place(1, 1).unwrap();
    game.place(2, 0).unwrap();

    assert_eq!(game.place(2, 1), Err(PlaceError::GameOver));
    assert!(game.outcome.is_some(), "Expected game to be over");
}

#[test]
fn board_is_stored_row_by_row() {
    let mut game = GameState::default();
    game.place(2, 1).unwrap();
    assert_eq!(game.board[2 + 3 * 1], Cell::PlayerOccupied(Player::Naught));
    assert_eq!(game.get_cell((2, 1)), Cell::PlayerOccupied(Player::Naught));
    assert_eq!(game.get_cell((1, 2)), Cell::Empty);
}

#[test]
fn turns_alternate_and_errors_keep_the_turn() {
    let mut game = GameState::default();
    assert_eq!(game.active_player, Player::Naught);
    game.place(0, 0).unwrap();
    assert_eq!(game.active_player, Player::Cross);
    assert_eq!(game.place(0, 0), Err(PlaceError::CellOccupied));
    assert_eq!(game.active_player, Player::Cross);
    assert_eq!(game.place(5, 0), Err(PlaceError::InvalidCoordinates));
    assert_eq!(game.active_player, Player::Cross);
    game.place(1, 0).unwrap();
    assert_eq!(game.active_player, Player::Naught);
}

#[test]
fn diagonal_wins_name_their_line() {
    let mut game = GameState::default();
    game.place(0, 0).unwrap(); // Naught
    game.place(1, 0).unwrap(); // Cross
    game.place(1, 1).unwrap(); // Naught
    game.place(2, 0).unwrap(); // Cross
    game.place(2, 2).unwrap(); // Naught wins on the diagonal
    assert_eq!(game.outcome, Some(Outcome::PlayerWins(Player::Naught, ((0, 0), (1, 1), (2, 2)))));

    let mut game = GameState::default();
    game.place(0, 0).unwrap(); // Naught
    game.place(0, 2).unwrap(); // Cross
    game.place(1, 0).unwrap(); // Naught
    game.place(1, 1).unwrap(); // Cross
    game.place(2, 2).unwrap(); // Naught
    game.place(2, 0).unwrap(); // Cross wins on the anti-diagonal
    assert_eq!(game.outcome, Some(Outcome::PlayerWins(Player::Cross, ((0, 2), (1, 1), (2, 0)))));
}

#[test]
fn earliest_line_in_table_order_is_reported() {
    // The last move completes column x = 0 and row y = 0 at once; columns come first.
    let mut game = GameState::default();
    game.place(0, 1).unwrap(); // Naught
    game.place(1, 1).unwrap(); // Cross
    game.place(0, 2).unwrap(); // Naught
    game.place(1, 2).unwrap(); // Cross
    game.place(1, 0).unwrap(); // Naught
    game.place(2, 1).unwrap(); // Cross
    game.place(2, 0).unwrap(); // Naught
    game.place(2, 2).unwrap(); // Cross
    game.place(0, 0).unwrap(); // Naught completes both
    assert_eq!(game.outcome, Some(Outcome::PlayerWins(Player::Naught, ((0, 0), (0, 1), (0, 2)))));
}

#[test]
fn winner_is_the_player_who_moved_last() {
    let mut game = GameState::default();
    let moves = [(0, 0), (1, 0), (0, 1), (1, 1), (2, 2), (1, 2)];
    let mut mover = game.active_player;
    for (x, y) in moves {
        mover = game.active_player;
        game.place(x, y).unwrap();
    }
    match game.outcome {
        Some(Outcome::PlayerWins(p, _)) => assert_eq!(p, mover),
        other => panic!("expected a win, got {:?}", other),
    }
}

#[test]
fn names_of_players_and_errors() {
    assert_eq!(Player::Naught.to_string(), "Naught");
    assert_eq!(Player::Cross.to_string(), "Cross");
    assert_eq!(PlaceError::InvalidCoordinates.to_string(), "InvalidCoordinates");
    assert_eq!(PlaceError::CellOccupied.to_string(), "CellOccupied");
}
