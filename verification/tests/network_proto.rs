use tictactoe::network_proto::{Message, ParseError};
use tictactoe::tictactoe::Player;

#[test]
fn good_bye_msg_round_trip() {
    let bytes: [u8; 3] = Message::Goodbye.into_bytes();
    assert_eq!(bytes, [b'B', b'Y', b'E']);
    let msg: Message = bytes.try_into().unwrap();
    assert_eq!(msg, Message::Goodbye);
}

#[test]
fn new_game_nought_msg_round_trip() {
    let bytes: [u8; 3] = Message::NewGame(Player::Naught).into_bytes();
    assert_eq!(bytes, [b'N', b'G', b'O']);
    let msg: Message = bytes.try_into().unwrap();
    assert_eq!(msg, Message::NewGame(Player::Naught));
}

#[test]
fn new_game_cross_msg_round_trip() {
    let bytes: [u8; 3] = Message::NewGame(Player::Cross).into_bytes();
    assert_eq!(bytes, [b'N', b'G', b'X']);
    let msg: Message = bytes.try_into().unwrap();
    assert_eq!(msg, Message::NewGame(Player::Cross));
}

#[test]
fn place_msg_round_trip() {
    let message = Message::Place { player: Player::Cross, x: 1, y: 2 };
    let bytes: [u8; 3] = message.into_bytes();
    assert_eq!(bytes, [b'X', b'1', b'2']);
    let msg: Message = bytes.try_into().unwrap();
    assert_eq!(msg, Message::Place { player: Player::Cross, x: 1, y: 2 });
}

#[test]
fn place_msg_round_trip_nought() {
    let message = Message::Place { player: Player::Naught, x: 0, y: 2 };
    let bytes: [u8; 3] = message.into_bytes();
    assert_eq!(bytes, [b'O', b'0', b'2']);
    let msg: Message = bytes.try_into().unwrap();
    assert_eq!(msg, Message::Place { player: Player::Naught, x: 0, y: 2 });
}

#[test]
fn bad_player_byte_is_rejected() {
    let bytes = [b'A', b'1', b'2'];
    let result: Result<Message, ParseError> = bytes.try_into();
    assert!(matches!(result, Err(ParseError::BadPlayerByte)));
}

#[test]
fn out_of_bounds_x_is_rejected() {
    let bytes = [b'X', b'3', b'0'];
    let result: Result<Message, ParseError> = bytes.try_into();
    assert!(matches!(result, Err(ParseError::Unknown)));
}

#[test]
fn out_of_bounds_y_is_rejected() {
    let bytes = [b'X', b'0', b'3'];
    let result: Result<Message, ParseError> = bytes.try_into();
    assert!(matches!(result, Err(ParseError::Unknown)));
}

#[test]
fn unknown_msg_is_rejected() {
    let bytes = [b'F', b'O', b'O'];
    let result: Result<Message, ParseError> = bytes.try_into();
    assert!(matches!(result, Err(ParseError::Unknown)));
}

#[test]
fn every_message_on_the_board_round_trips() {
    let mut messages = vec![Message::Goodbye, Message::NewGame(Player::Naught), Message::NewGame(Player::Cross)];
    for x in 0..3 {
        for y in 0..3 {
            messages.push(Message::Place { player: Player::Naught, x, y });
            messages.push(Message::Place { player: Player::Cross, x, y });
        }
    }
    for m in messages {
        let expected = match &m {
            Message::Place { player, x, y } => Message::Place { player: *player, x: *x, y: *y },
            Message::NewGame(p) => Message::NewGame(*p),
            Message::Goodbye => Message::Goodbye,
        };
        let bytes = m.into_bytes();
        let back: Message = bytes.try_into().unwrap();
        assert_eq!(back, expected);
    }
}

#[test]
fn decoded_bytes_encode_back() {
    for b in [*b"BYE", *b"NGO", *b"NGX", *b"O00", *b"X21", *b"O22"] {
        let m: Message = b.try_into().unwrap();
        assert_eq!(m.into_bytes(), b);
    }
}

#[test]
fn coordinates_beyond_the_board_encode_but_do_not_decode() {
    let bytes = Message::Place { player: Player::Cross, x: 3, y: 9 }.into_bytes();
    assert_eq!(bytes, [b'X', b'3', b'9']);
    let result: Result<Message, ParseError> = bytes.try_into();
    assert!(matches!(result, Err(ParseError::Unknown)));
}

#[test]
fn new_game_with_other_letter_is_unknown() {
    let result: Result<Message, ParseError> = [b'N', b'G', b'Z'].try_into();
    assert!(matches!(result, Err(ParseError::Unknown)));
    let result: Result<Message, ParseError> = [b'N', b'1', b'2'].try_into();
    assert!(matches!(result, Err(ParseError::BadPlayerByte)));
}
