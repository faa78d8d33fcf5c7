use tictactoe::classic::{Cell, GameState, Outcome, PlaceError, Player};

#[test]
fn main_test_game_state() {
    let mut game = GameState::default();
    assert_eq!(game.outcome, None);
    game.place(0, 0).unwrap(); // Naught
    game.place(1, 0).unwrap(); // Cross
    game.place(0, 1).unwrap(); // Naught
    game.place(1, 1).unwrap(); // Cross
    game.place(0, 2).unwrap(); // Naught wins
    assert_eq!(game.outcome, Some(Outcome::NaughtWins));
}

#[test]
fn main_test_game_state_cross_wins() {
    let mut game = GameState::default();
    assert_eq!(game.outcome, None);
    game.place(0, 0).unwrap(); // Naught
    game.place(1, 0).unwrap(); // Cross
    game.place(0, 1).unwrap(); // Naught
    game.place(1, 1).unwrap(); // Cross
    game.place(2, 2).unwrap(); // Naught
    game.place(1, 2).unwrap(); // Cross wins
    assert_eq!(game.outcome, Some(Outcome::CrossWins));
}

#[test]
fn main_test_game_state_draw() {
    let mut game = GameState::default();
    assert_eq!(game.outcome, None);

    game.place(0, 0).unwrap(); // Naught
    game.place(1, 1).unwrap(); // Cross
    game.place(2, 2).unwrap(); // Naught
    game.place(0, 2).unwrap(); // Cross
    game.place(2, 0).unwrap(); // Naught
    game.place(2, 1).unwrap(); // Cross
    game.place(1, 2).unwrap(); // Naught
    game.place(1, 0).unwrap(); // Cross
    game.place(0, 1).unwrap(); // Naught -> Draw

    assert_eq!(game.outcome, Some(Outcome::Draw));
}

#[test]
fn classic_outcome_from_player() {
    assert_eq!(Outcome::from(Player::Naught), Outcome::NaughtWins);
    assert_eq!(Outcome::from(Player::Cross), Outcome::CrossWins);
}

#[test]
fn classic_place_errors_leave_game_unchanged() {
    let mut game = GameState::default();
    assert_eq!(game.place(3, 0), Err(PlaceError::InvalidCoordinates));
    assert_eq!(game.place(0, 3), Err(PlaceError::InvalidCoordinates));
    game.place(1, 1).unwrap();
    assert_eq!(game.place(1, 1), Err(PlaceError::CellOccupied));
    assert_eq!(game.active_player, Player::Cross);
    assert_eq!(game.get_cell((1, 1)), Cell::PlayerOccupied(Player::Naught));
    assert_eq!(game.board[1][1], Cell::PlayerOccupied(Player::Naught));
}

#[test]
fn classic_game_over_refuses_placements() {
    let mut game = GameState::default();
    game.place(0, 0).unwrap();
    game.place(1, 0).unwrap();
    game.place(0, 1).unwrap();
    game.place(1, 1).unwrap();
    game.place(0, 2).unwrap();
    assert_eq!(game.place(2, 2), Err(PlaceError::GameOver));
    assert_eq!(game.get_cell((2, 2)), Cell::Empty);
}

#[test]
fn classic_row_wins() {
    // Row y = 0: (0,0), (1,0), (2,0) held by Naught.
    let mut game = GameState::default();
    game.place(0, 0).unwrap();
    game.place(0, 1).unwrap();
    game.place(1, 0).unwrap();
    game.place(1, 1).unwrap();
    game.place(2, 0).unwrap();
    assert_eq!(game.outcome, Some(Outcome::NaughtWins));
}

#[test]
fn classic_diagonals_win() {
    // Naught holds (0,0), (1,1), (2,2).
    let mut game = GameState::default();
    game.place(0, 0).unwrap(); // Naught
    game.place(1, 0).unwrap(); // Cross
    game.place(1, 1).unwrap(); // Naught
    game.place(0, 1).unwrap(); // Cross
    game.place(2, 2).unwrap(); // Naught
    assert_eq!(game.outcome, Some(Outcome::NaughtWins));

    // Cross holds (0,2), (1,1), (2,0).
    let mut game = GameState::default();
    game.place(0, 0).unwrap(); // Naught
    game.place(0, 2).unwrap(); // Cross
    game.place(1, 0).unwrap(); // Naught
    game.place(1, 1).unwrap(); // Cross
    game.place(2, 2).unwrap(); // Naught
    game.place(2, 0).unwrap(); // Cross
    assert_eq!(game.outcome, Some(Outcome::CrossWins));
}

#[test]
fn classic_l_shape_does_not_win() {
    // (0,0), (1,1), (0,2) is no line.
    let mut game = GameState::default();
    game.place(0, 0).unwrap(); // Naught
    game.place(2, 0).unwrap(); // Cross
    game.place(1, 1).unwrap(); // Naught
    game.place(2, 1).unwrap(); // Cross
    game.place(0, 2).unwrap(); // Naught
    assert_eq!(game.outcome, None);
}

#[test]
fn classic_names() {
    assert_eq!(Player::Naught.to_string(), "Naught");
    assert_eq!(Player::Cross.to_string(), "Cross");
    assert_eq!(Outcome::CrossWins.to_string(), "CrossWins");
    assert_eq!(PlaceError::GameOver.to_string(), "GameOver");
}
