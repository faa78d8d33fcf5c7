use tictactoe::classic;
use tictactoe::key_bindings::{GameAction, KeyBinding, KEY_C, KEY_ESCAPE, KEY_Q, KEY_R, KEY_S, KEY_W};
use tictactoe::screens::{
    side_panel_lines, PanelStyle,
    error_message, menu_button_target, menu_shortcut, outcome_message, tile_shade, winning_line,
    LocalPlay, MenuButton, Screen, TileShade,
};
use tictactoe::sdl_game::{self, cell_for_letter, letter_for_cell, window_input, WindowGame, WindowInput};
use tictactoe::terminal::{cell_for_key, cell_label, terminal_input, App, ClassicApp, Effect, Input};
use tictactoe::tictactoe::{Cell, Outcome, PlaceError, Player};

#[test]
fn terminal_keys_map_to_cells() {
    assert_eq!(cell_for_key('q'), Some((0, 2)));
    assert_eq!(cell_for_key('s'), Some((1, 1)));
    assert_eq!(cell_for_key('y'), Some((0, 0)));
    assert_eq!(cell_for_key('z'), Some((0, 0)));
    assert_eq!(cell_for_key('c'), Some((2, 0)));
    assert_eq!(cell_for_key('p'), None);
    assert_eq!(cell_for_key('Q'), None);
}

#[test]
fn terminal_labels_name_the_keys() {
    assert_eq!(cell_label(0, 2), "q");
    assert_eq!(cell_label(0, 0), "y|z");
    assert_eq!(cell_label(2, 1), "d");
    assert_eq!(cell_label(3, 0), "_");
    for x in 0..3 {
        for y in 0..3 {
            for c in cell_label(x, y).chars().filter(|c| *c != '|') {
                assert_eq!(cell_for_key(c), Some((x, y)));
            }
        }
    }
}

#[test]
fn terminal_app_plays_and_quits() {
    let mut app = App::default();
    assert!(app.running);
    assert_eq!(app.update(Input::Key('y')), Effect::Nothing);
    assert_eq!(app.state.get_cell((0, 0)), Cell::PlayerOccupied(Player::Naught));
    assert_eq!(app.last_place, Ok(()));
    assert_eq!(app.update(Input::Key('z')), Effect::Nothing);
    assert_eq!(app.last_place, Err(PlaceError::CellOccupied));
    assert_eq!(app.error_hint(), "\nCell already occupied");
    assert_eq!(app.status_text(), "Current player: Cross");
    assert_eq!(app.update(Input::MouseLeftDown), Effect::MouseClicked);
    assert_eq!(app.mouse_events_ignored, 1);
    assert_eq!(app.update(Input::Other), Effect::Nothing);
    assert_eq!(app.update(Input::Quit), Effect::Goodbye);
    assert!(!app.running);
}

#[test]
fn terminal_app_reports_the_winner() {
    let mut app = App::default();
    for c in ['y', 'x', 'a', 's', 'q'] {
        app.update(Input::Key(c));
    }
    assert_eq!(app.status_text(), "Game over: Naught won!");
    assert_eq!(app.error_hint(), "");
    app.update(Input::Key('e'));
    assert_eq!(app.last_place, Err(PlaceError::GameOver));
    assert_eq!(app.error_hint(), "");
}

#[test]
fn classic_terminal_app_plays() {
    let mut app = ClassicApp::default();
    assert_eq!(app.status_text(), "Current player: Naught");
    app.update(Input::Key('y'));
    app.update(Input::Key('x'));
    app.update(Input::Key('a'));
    app.update(Input::Key('s'));
    app.update(Input::Key('q'));
    assert_eq!(app.state.outcome, Some(classic::Outcome::NaughtWins));
    assert_eq!(app.status_text(), "Game over! Outcome: NaughtWins");
    assert_eq!(app.update(Input::Quit), Effect::Goodbye);
    assert!(!app.running);
}

fn names(labels: [&str; 9]) -> Vec<Option<String>> {
    labels.iter().map(|s| if s.is_empty() { None } else { Some(s.to_string()) }).collect()
}

#[test]
fn key_binding_names_and_positions() {
    let kb = KeyBinding::from_key_names(
        names(["q", "w", "e", "a", "s", "d", "", "x", "c"]),
        Some("r".to_string()),
        None,
    );
    assert_eq!(kb.labels[6], "?");
    assert_eq!(kb.reset_name, "r");
    assert_eq!(kb.close_name, "Esc");
    assert_eq!(kb.get_name(KEY_Q), "Q");
    assert_eq!(kb.get_name(KEY_R), "?");
    assert_eq!(kb.get_name_for_position(1, 1), "S");
    assert_eq!(kb.get_name_for_position(0, 2), "?");
    assert_eq!(kb.key_to_position(KEY_W), Some((1, 0)));
    assert_eq!(kb.key_to_position(KEY_C), Some((2, 2)));
    assert_eq!(kb.key_to_position(KEY_ESCAPE), None);
    for x in 0..3 {
        for y in 0..3 {
            assert_eq!(kb.key_to_position(kb.positions[x + 3 * y]), Some((x, y)));
        }
    }
}

#[test]
fn key_binding_actions() {
    let kb = KeyBinding::from_key_names(names(["q", "w", "e", "a", "s", "d", "z", "x", "c"]), None, None);
    assert_eq!(kb.reset_name, "?");
    assert_eq!(kb.get_action(true, true, Some(KEY_S)), Some(GameAction::ResetBoard));
    assert_eq!(kb.get_action(false, true, Some(KEY_S)), Some(GameAction::CloseBoard));
    assert_eq!(kb.get_action(false, false, Some(KEY_S)), Some(GameAction::PlaceToken(1, 1)));
    assert_eq!(kb.get_action(false, false, Some(KEY_R)), None);
    assert_eq!(kb.get_action(false, false, None), None);
}

#[test]
fn menu_choices() {
    assert_eq!(menu_shortcut(true, true, false, false), Some(Screen::Quit));
    assert_eq!(menu_shortcut(false, true, true, false), Some(Screen::LocalPlay));
    assert_eq!(menu_shortcut(false, false, true, true), Some(Screen::ServerMode));
    assert_eq!(menu_shortcut(false, false, false, true), Some(Screen::ClientMode));
    assert_eq!(menu_shortcut(false, false, false, false), None);
    assert_eq!(menu_button_target(MenuButton::ServerMode), Screen::ServerMode);
    assert_eq!(menu_button_target(MenuButton::QuitApp), Screen::Quit);
    assert_eq!(menu_button_target(MenuButton::LocalPlay), Screen::LocalPlay);
    assert_eq!(menu_button_target(MenuButton::ClientMode), Screen::ClientMode);
}

#[test]
fn local_play_actions() {
    let mut lp = LocalPlay::new();
    assert_eq!(lp.apply(Some(GameAction::PlaceToken(0, 0))), None);
    assert_eq!(lp.apply(Some(GameAction::PlaceToken(0, 0))), None);
    assert_eq!(lp.last_placement, Err(PlaceError::CellOccupied));
    assert_eq!(lp.apply(Some(GameAction::ResetBoard)), None);
    assert_eq!(lp.last_placement, Ok(()));
    assert_eq!(lp.game.get_cell((0, 0)), Cell::Empty);
    assert_eq!(lp.apply(None), None);
    assert_eq!(lp.apply(Some(GameAction::CloseBoard)), Some(Screen::Menu));
}

#[test]
fn board_shading_and_messages() {
    let line = ((0, 0), (1, 1), (2, 2));
    let outcome = Some(Outcome::PlayerWins(Player::Cross, line));
    assert_eq!(winning_line(outcome), Some(line));
    assert_eq!(winning_line(Some(Outcome::Draw)), None);
    assert_eq!(tile_shade(1, 1, Some(line)), TileShade::Highlight);
    assert_eq!(tile_shade(1, 0, Some(line)), TileShade::Light);
    assert_eq!(tile_shade(2, 0, None), TileShade::Dark);
    assert_eq!(tile_shade(1, 1, None), TileShade::Dark);
    assert_eq!(outcome_message(Outcome::Draw), "Draw - no winner");
    assert_eq!(outcome_message(Outcome::PlayerWins(Player::Cross, line)), "Cross won!");
    assert_eq!(outcome_message(Outcome::PlayerWins(Player::Naught, line)), "Naught won!");
    assert_eq!(error_message(PlaceError::CellOccupied), "ERROR:\nCellOccupied");
}

#[test]
fn window_keys_and_game() {
    assert_eq!(cell_for_letter('Q'), Some((0, 0)));
    assert_eq!(cell_for_letter('D'), Some((2, 1)));
    assert_eq!(cell_for_letter('C'), Some((2, 2)));
    assert_eq!(cell_for_letter('R'), None);
    for x in 0..3 {
        for y in 0..3 {
            assert_eq!(cell_for_letter(letter_for_cell(x, y)), Some((x, y)));
        }
    }
    let mut g = WindowGame::new();
    g.process_input(WindowInput::Key('S'));
    assert_eq!(g.board.get_cell((1, 1)), classic::Cell::PlayerOccupied(classic::Player::Naught));
    g.process_input(WindowInput::Key('S'));
    assert_eq!(g.last_placement, Err(classic::PlaceError::CellOccupied));
    assert_eq!(sdl_game::error_message(classic::PlaceError::CellOccupied), "Error: CellOccupied");
    g.process_input(WindowInput::Reset);
    assert_eq!(g.last_placement, Ok(()));
    assert_eq!(g.board.get_cell((1, 1)), classic::Cell::Empty);
    assert!(!g.quit);
    g.process_input(WindowInput::Quit);
    assert!(g.quit);
    assert_eq!(sdl_game::outcome_message(classic::Outcome::CrossWins), "Cross wins!");
    assert_eq!(sdl_game::outcome_message(classic::Outcome::Draw), "Draw - no winner!");
}

#[test]
fn window_status_lines() {
    let mut g = WindowGame::new();
    let lines = g.status_lines();
    assert_eq!(lines.len(), 2);
    assert_eq!(lines[0].text, "Active Player:");
    assert_eq!((lines[1].text.as_str(), lines[1].row), ("Naught", 1));
    g.process_input(WindowInput::Key('S'));
    g.process_input(WindowInput::Key('S'));
    let lines = g.status_lines();
    assert_eq!(lines.len(), 3);
    assert_eq!(lines[1].text, "Cross");
    assert_eq!(lines[2].text, "Error: CellOccupied");
    assert_eq!(lines[2].row, 2);
    assert_eq!(lines[2].style, sdl_game::TextStyle::Error);
    // Naught has (1,1); Cross, Naught, Cross, Naught, Cross take Q W A E Z,
    // so Cross holds (0,0), (0,1), (0,2).
    for c in ['Q', 'W', 'A', 'E', 'Z'] {
        g.process_input(WindowInput::Key(c));
    }
    assert_eq!(g.board.outcome, Some(classic::Outcome::CrossWins));
    let lines = g.status_lines();
    assert_eq!(lines.len(), 1);
    assert_eq!(lines[0].text, "Cross wins!");
}

#[test]
fn side_panel_lines_place_the_texts() {
    let mut lp = LocalPlay::new();
    let lines = side_panel_lines(&lp.game, lp.last_placement);
    assert_eq!(lines.len(), 2);
    assert_eq!((lines[0].text.as_str(), lines[0].y, lines[0].style), ("Active Player", 10, PanelStyle::Text));
    assert_eq!((lines[1].text.as_str(), lines[1].y), ("Naught", 40));
    assert_eq!(lines[1].style, PanelStyle::PlayerColor(Player::Naught));
    lp.apply(Some(GameAction::PlaceToken(0, 0)));
    lp.apply(Some(GameAction::PlaceToken(0, 0)));
    let lines = side_panel_lines(&lp.game, lp.last_placement);
    assert_eq!(lines.len(), 3);
    assert_eq!((lines[0].text.as_str(), lines[0].y, lines[0].style), ("ERROR:\nCellOccupied", 10, PanelStyle::Error));
    assert_eq!((lines[1].text.as_str(), lines[1].y), ("Active Player", 60));
    assert_eq!((lines[2].text.as_str(), lines[2].y), ("Cross", 90));
    for (x, y) in [(1, 0), (0, 1), (1, 1), (0, 2)] {
        lp.apply(Some(GameAction::PlaceToken(x, y)));
    }
    let lines = side_panel_lines(&lp.game, lp.last_placement);
    assert_eq!(lines.len(), 1);
    assert_eq!((lines[0].text.as_str(), lines[0].y), ("Naught won!", 10));
}

#[test]
fn key_binding_shows_reset_and_close_names_upper_case() {
    let kb = KeyBinding::from_key_names(names(["q", "w", "e", "a", "s", "d", "z", "x", "c"]), Some("r".to_string()), Some("esc".to_string()));
    assert_eq!(kb.reset_display_name(), "R");
    assert_eq!(kb.close_display_name(), "ESC");
}

#[test]
fn window_events_decode() {
    assert_eq!(window_input(true, false, None, false), WindowInput::Quit);
    assert_eq!(window_input(false, true, Some('Q'), false), WindowInput::Quit);
    assert_eq!(window_input(false, false, Some('R'), true), WindowInput::Reset);
    assert_eq!(window_input(false, false, Some('R'), false), WindowInput::Key('R'));
    assert_eq!(window_input(false, false, Some('Q'), true), WindowInput::Key('Q'));
    assert_eq!(window_input(false, false, None, true), WindowInput::Other);
    // R without Shift changes nothing.
    let mut g = WindowGame::new();
    g.process_input(WindowInput::Key('S'));
    g.process_input(window_input(false, false, Some('R'), false));
    assert_eq!(g.board.get_cell((1, 1)), classic::Cell::PlayerOccupied(classic::Player::Naught));
    g.process_input(window_input(false, false, Some('R'), true));
    assert_eq!(g.board.get_cell((1, 1)), classic::Cell::Empty);
}

#[test]
fn terminal_events_decode() {
    assert_eq!(terminal_input(true, false, None), Input::MouseLeftDown);
    assert_eq!(terminal_input(false, true, Some('q')), Input::Quit);
    assert_eq!(terminal_input(false, false, Some('q')), Input::Key('q'));
    assert_eq!(terminal_input(false, false, None), Input::Other);
}
