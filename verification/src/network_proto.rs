use vstd::prelude::*;

use crate::tictactoe::Player;

verus! {

/// ASCII codes of the letters and digits that the protocol uses.
pub const ASCII_B: u8 = 66;
pub const ASCII_E: u8 = 69;
pub const ASCII_G: u8 = 71;
pub const ASCII_N: u8 = 78;
pub const ASCII_O: u8 = 79;
pub const ASCII_X: u8 = 88;
pub const ASCII_Y: u8 = 89;
pub const ASCII_ZERO: u8 = 48;
pub const ASCII_TWO: u8 = 50;

/// A message of the three-byte network protocol.
#[derive(Debug, PartialEq, Eq, Structural)]
pub enum Message {
    /// `NGO` or `NGX`: a new game in which the sender plays `Player`.
    NewGame(Player),
    /// `[O|X][0-2][0-2]`: the player places a token at `(x, y)`.
    Place { player: Player, x: usize, y: usize },
    /// `BYE`: the sender leaves.
    Goodbye,
}

/// Why three bytes are not a message.
#[derive(Debug, PartialEq, Eq, Structural)]
pub enum ParseError {
    /// The bytes match no message.
    Unknown,
    /// Two coordinate digits follow a byte that names no player.
    BadPlayerByte,
}

/// The byte that names a player on the wire.
pub open spec fn player_byte(p: Player) -> u8 {
    match p {
        Player::Naught => ASCII_O,
        Player::Cross => ASCII_X,
    }
}

/// The ASCII digit of a number below ten.
pub open spec fn digit(n: usize) -> u8
    recommends
        n < 10,
{
    (ASCII_ZERO + n) as u8
}

impl Message {
    /// The message can be written in three bytes: its coordinates are single digits.
    pub open spec fn encodable(&self) -> bool {
        match self {
            Message::Place { x, y, .. } => *x < 10 && *y < 10,
            _ => true,
        }
    }

    /// The message lies within the protocol: its coordinates are on the board.
    pub open spec fn on_board(&self) -> bool {
        match self {
            Message::Place { x, y, .. } => *x <= 2 && *y <= 2,
            _ => true,
        }
    }

    /// The three bytes that carry the message.
    pub open spec fn encoding(&self) -> Seq<u8> {
        match self {
            Message::NewGame(Player::Naught) => seq![ASCII_N, ASCII_G, ASCII_O],
            Message::NewGame(Player::Cross) => seq![ASCII_N, ASCII_G, ASCII_X],
            Message::Place { player, x, y } => seq![player_byte(*player), digit(*x), digit(*y)],
            Message::Goodbye => seq![ASCII_B, ASCII_Y, ASCII_E],
        }
    }
}

/// A byte is a coordinate digit: `'0'`, `'1'` or `'2'`.
pub open spec fn is_coordinate(b: u8) -> bool {
    ASCII_ZERO <= b <= ASCII_TWO
}

/// What three bytes mean: `BYE`, `NGO` and `NGX` first; else a placement when
/// both coordinates are digits from `'0'` to `'2'`, refused with
/// `BadPlayerByte` when the first byte is neither `'O'` nor `'X'`; else `Unknown`.
pub open spec fn decoding(b: Seq<u8>) -> Result<Message, ParseError>
    recommends
        b.len() == 3,
{
    if b[0] == ASCII_B && b[1] == ASCII_Y && b[2] == ASCII_E {
        Ok(Message::Goodbye)
    } else if b[0] == ASCII_N && b[1] == ASCII_G && b[2] == ASCII_O {
        Ok(Message::NewGame(Player::Naught))
    } else if b[0] == ASCII_N && b[1] == ASCII_G && b[2] == ASCII_X {
        Ok(Message::NewGame(Player::Cross))
    } else if is_coordinate(b[1]) && is_coordinate(b[2]) {
        if b[0] == ASCII_O {
            Ok(Message::Place { player: Player::Naught, x: (b[1] - ASCII_ZERO) as usize, y: (b[2] - ASCII_ZERO) as usize })
        } else if b[0] == ASCII_X {
            Ok(Message::Place { player: Player::Cross, x: (b[1] - ASCII_ZERO) as usize, y: (b[2] - ASCII_ZERO) as usize })
        } else {
            Err(ParseError::BadPlayerByte)
        }
    } else {
        Err(ParseError::Unknown)
    }
}

impl Message {
    /// The three bytes that carry the message.
    pub fn into_bytes(self) -> (bytes: [u8; 3])
        requires
            self.encodable(),
        ensures
            bytes@ == self.encoding(),
    {
        let bytes: [u8; 3] = match self {
            Message::NewGame(player) => match player {
                Player::Naught => [ASCII_N, ASCII_G, ASCII_O],
                Player::Cross => [ASCII_N, ASCII_G, ASCII_X],
            },
            Message::Place { player, x, y } => {
                let p: u8 = match player {
                    Player::Naught => ASCII_O,
                    Player::Cross => ASCII_X,
                };
                [p, ASCII_ZERO + x as u8, ASCII_ZERO + y as u8]
            },
            Message::Goodbye => [ASCII_B, ASCII_Y, ASCII_E],
        };
        assert(bytes@ =~= self.encoding());
        bytes
    }
}

impl TryFrom<[u8; 3]> for Message {
    type Error = ParseError;

    /// The message that three bytes carry.
    fn try_from(bytes: [u8; 3]) -> (r: Result<Message, ParseError>) {
        let b0 = bytes[0];
        let b1 = bytes[1];
        let b2 = bytes[2];
        if b0 == ASCII_B && b1 == ASCII_Y && b2 == ASCII_E {
            Ok(Message::Goodbye)
        } else if b0 == ASCII_N && b1 == ASCII_G && b2 == ASCII_O {
            Ok(Message::NewGame(Player::Naught))
        } else if b0 == ASCII_N && b1 == ASCII_G && b2 == ASCII_X {
            Ok(Message::NewGame(Player::Cross))
        } else if ASCII_ZERO <= b1 && b1 <= ASCII_TWO && ASCII_ZERO <= b2 && b2 <= ASCII_TWO {
            let player = if b0 == ASCII_O {
                Player::Naught
            } else if b0 == ASCII_X {
                Player::Cross
            } else {
                return Err(ParseError::BadPlayerByte);
            };
            Ok(Message::Place { player, x: (b1 - ASCII_ZERO) as usize, y: (b2 - ASCII_ZERO) as usize })
        } else {
            Err(ParseError::Unknown)
        }
    }
}

impl vstd::std_specs::convert::TryFromSpecImpl<[u8; 3]> for Message {
    open spec fn obeys_try_from_spec() -> bool {
        true
    }

    open spec fn try_from_spec(bytes: [u8; 3]) -> Result<Message, ParseError> {
        decoding(bytes@)
    }
}

/// The bytes of a message spell its text in ASCII: `BYE`, `NGO` or `NGX` for
/// a new game as Naught or Cross, and for a placement the player's letter
/// (`O` for Naught, `X` for Cross) followed by the digits of `x` and `y`.
pub proof fn lemma_encoding_spells_text(m: Message)
    requires
        m.encodable(),
    ensures
        match m {
            Message::Goodbye => m.encoding() == seq!['B' as u8, 'Y' as u8, 'E' as u8],
            Message::NewGame(Player::Naught) => m.encoding() == seq!['N' as u8, 'G' as u8, 'O' as u8],
            Message::NewGame(Player::Cross) => m.encoding() == seq!['N' as u8, 'G' as u8, 'X' as u8],
            Message::Place { player, x, y } => m.encoding() == seq![
                if player == Player::Naught {
                    'O' as u8
                } else {
                    'X' as u8
                },
                ('0' as int + x) as u8,
                ('0' as int + y) as u8,
            ],
        },
{
    assert(m.encoding() =~= match m {
        Message::Goodbye => seq!['B' as u8, 'Y' as u8, 'E' as u8],
        Message::NewGame(Player::Naught) => seq!['N' as u8, 'G' as u8, 'O' as u8],
        Message::NewGame(Player::Cross) => seq!['N' as u8, 'G' as u8, 'X' as u8],
        Message::Place { player, x, y } => seq![
            if player == Player::Naught {
                'O' as u8
            } else {
                'X' as u8
            },
            ('0' as int + x) as u8,
            ('0' as int + y) as u8,
        ],
    });
}

/// Every message within the protocol comes back unchanged from its three bytes.
pub proof fn lemma_decode_encode(m: Message)
    requires
        m.on_board(),
    ensures
        m.encodable(),
        decoding(m.encoding()) == Ok::<Message, ParseError>(m),
{
}

/// Three bytes that decode to a message are exactly that message's bytes,
/// and the message lies within the protocol.
pub proof fn lemma_encode_decode(b: Seq<u8>)
    requires
        b.len() == 3,
    ensures
        decoding(b) matches Ok(m) ==> m.on_board() && m.encodable() && m.encoding() =~= b,
{
}

/// Distinct messages within the protocol travel as distinct bytes.
pub proof fn lemma_encoding_injective(m1: Message, m2: Message)
    requires
        m1.on_board(),
        m2.on_board(),
        m1.encoding() == m2.encoding(),
    ensures
        m1 == m2,
{
    lemma_decode_encode(m1);
    lemma_decode_encode(m2);
}

} // verus!
