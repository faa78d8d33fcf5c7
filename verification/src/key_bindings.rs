use vstd::prelude::*;

verus! {

/// Key codes of the graphical front end's keyboard, as its window library numbers them.
pub const KEY_A: i32 = 65;
pub const KEY_C: i32 = 67;
pub const KEY_D: i32 = 68;
pub const KEY_E: i32 = 69;
pub const KEY_Q: i32 = 81;
pub const KEY_R: i32 = 82;
pub const KEY_S: i32 = 83;
pub const KEY_W: i32 = 87;
pub const KEY_X: i32 = 88;
pub const KEY_Z: i32 = 90;
pub const KEY_ESCAPE: i32 = 256;

/// What a key press asks the game screen to do.
#[derive(Debug, Copy, Clone, PartialEq, Eq, Structural)]
pub enum GameAction {
    /// Place the active player's token at `(x, y)`.
    PlaceToken(usize, usize),
    ResetBoard,
    CloseBoard,
}

/// The keys of the game screen and the names that the keyboard prints on them.
/// `positions[x + 3 * y]` is the key of cell `(x, y)`; `labels[i]` names `positions[i]`.
pub struct KeyBinding {
    pub positions: [i32; 9],
    pub labels: Vec<String>,
    pub reset_key: i32,
    pub reset_name: String,
    pub close_key: i32,
    pub close_name: String,
}

/// Names what `str::to_uppercase` returns for a string.
pub uninterp spec fn uppercase(s: Seq<char>) -> Seq<char>;

/// Calls `str::to_uppercase`: its result is named `uppercase` of the argument.
#[verifier::external_body]
fn to_uppercase(s: &str) -> (r: String)
    ensures
        r@ == uppercase(s@),
{
    s.to_uppercase()
}

/// The keys of the cells, row by row: `Q W E`, `A S D`, `Z X C`.
pub open spec fn default_positions() -> Seq<i32> {
    seq![KEY_Q, KEY_W, KEY_E, KEY_A, KEY_S, KEY_D, KEY_Z, KEY_X, KEY_C]
}

/// The first index from `from` on at which `positions` holds `key`.
pub open spec fn find_key(positions: Seq<i32>, key: i32, from: nat) -> Option<nat>
    decreases positions.len() - from,
{
    if from >= positions.len() {
        None
    } else if positions[from as int] == key {
        Some(from)
    } else {
        find_key(positions, key, from + 1)
    }
}

/// The key at index `i` is found at `i` when no earlier index from `from` on holds it.
pub proof fn lemma_find_key_first(positions: Seq<i32>, key: i32, from: nat, i: nat)
    requires
        from <= i < positions.len(),
        positions[i as int] == key,
        forall|j: int| from <= j < i ==> positions[j] != key,
    ensures
        find_key(positions, key, from) == Some(i),
    decreases i - from,
{
    if from < i {
        lemma_find_key_first(positions, key, from + 1, i);
    }
}

/// In a table of distinct keys, the key of cell `(x, y)` is found at that
/// cell, which `key_to_position` turns back into `(x, y)`.
pub proof fn lemma_cell_key_leads_back(positions: Seq<i32>, x: usize, y: usize)
    requires
        positions.len() == 9,
        x <= 2,
        y <= 2,
        forall|i: int, j: int| 0 <= i < j < 9 ==> positions[i] != positions[j],
    ensures
        find_key(positions, positions[x + 3 * y], 0) == Some((x + 3 * y) as nat),
        ((x + 3 * y) % 3) as usize == x,
        ((x + 3 * y) / 3) as usize == y,
{
    lemma_find_key_first(positions, positions[x + 3 * y], 0, (x + 3 * y) as nat);
}

/// The letters of the cell keys as they lie on the keyboard: three keyboard
/// rows, top row first, each from left to right.
pub open spec fn keyboard_rows() -> Seq<Seq<char>> {
    seq![seq!['Q', 'W', 'E'], seq!['A', 'S', 'D'], seq!['Z', 'X', 'C']]
}

/// The key code of a letter key: the letter's upper-case ASCII code.
pub open spec fn letter_key(c: char) -> i32 {
    c as i32
}

/// The cell keys mirror the keyboard: the key of the letter `x`-th from the
/// left in the `y`-th keyboard row from the top is found at the place of
/// cell `(x, y)`, which `key_to_position` reports as `(x, y)`.
pub proof fn lemma_cell_keys_mirror_keyboard(x: int, y: int)
    requires
        0 <= x < 3,
        0 <= y < 3,
    ensures
        find_key(default_positions(), letter_key(keyboard_rows()[y][x]), 0) == Some((x + 3 * y) as nat),
        (x + 3 * y) % 3 == x,
        (x + 3 * y) / 3 == y,
{
    lemma_default_positions_distinct();
    assert(default_positions()[x + 3 * y] == letter_key(keyboard_rows()[y][x]));
    lemma_find_key_first(
        default_positions(),
        letter_key(keyboard_rows()[y][x]),
        0,
        (x + 3 * y) as nat,
    );
}

/// The default cell keys are distinct.
pub proof fn lemma_default_positions_distinct()
    ensures
        forall|i: int, j: int| 0 <= i < j < 9 ==> default_positions()[i] != default_positions()[j],
{
}

/// The name under which a key is shown: the keyboard's name, or `fallback` when it has none.
pub open spec fn name_or(name: Option<String>, fallback: Seq<char>) -> Seq<char> {
    match name {
        Some(s) => s@,
        None => fallback,
    }
}

impl KeyBinding {
    /// The binding holds a label for each of its nine keys.
    pub open spec fn well_formed(&self) -> bool {
        self.labels@.len() == 9
    }

    /// The keys of the cells, row by row.
    pub fn cell_keys() -> (keys: [i32; 9])
        ensures
            keys@ == default_positions(),
    {
        let keys: [i32; 9] = [KEY_Q, KEY_W, KEY_E, KEY_A, KEY_S, KEY_D, KEY_Z, KEY_X, KEY_C];
        assert(keys@ =~= default_positions());
        keys
    }

    /// The binding of the keys `Q W E A S D Z X C`, `R` to restart and Escape
    /// to close, labelled with the names that the keyboard reports: a key
    /// without a name shows `?`, and Escape without a name shows `Esc`.
    pub fn from_key_names(names: Vec<Option<String>>, reset_name: Option<String>, close_name: Option<String>) -> (kb: KeyBinding)
        requires
            names@.len() == 9,
        ensures
            kb.well_formed(),
            kb.positions@ == default_positions(),
            forall|i: int| 0 <= i < 9 ==> #[trigger] kb.labels@[i]@ == name_or(names@[i], "?"@),
            kb.reset_key == KEY_R,
            kb.reset_name@ == name_or(reset_name, "?"@),
            kb.close_key == KEY_ESCAPE,
            kb.close_name@ == name_or(close_name, "Esc"@),
    {
        let positions = KeyBinding::cell_keys();
        let mut labels: Vec<String> = Vec::new();
        let mut i: usize = 0;
        while i < 9
            invariant
                i <= 9,
                names@.len() == 9,
                labels@.len() == i,
                forall|j: int| 0 <= j < i ==> #[trigger] labels@[j]@ == name_or(names@[j], "?"@),
            decreases 9 - i,
        {
            let label = match &names[i] {
                Some(name) => name.clone(),
                None => "?".to_owned(),
            };
            labels.push(label);
            i += 1;
        }
        let reset_name = match reset_name {
            Some(name) => name,
            None => "?".to_owned(),
        };
        let close_name = match close_name {
            Some(name) => name,
            None => "Esc".to_owned(),
        };
        KeyBinding { positions, labels, reset_key: KEY_R, reset_name, close_key: KEY_ESCAPE, close_name }
    }

    /// Where `key` stands among the cell keys: its first index, if any.
    fn position(&self, key: i32) -> (r: Option<usize>)
        ensures
            r matches Some(i) ==> i < 9 && find_key(self.positions@, key, 0) == Some(i as nat),
            r is None ==> find_key(self.positions@, key, 0) is None,
    {
        let mut i: usize = 0;
        while i < 9
            invariant
                i <= 9,
                find_key(self.positions@, key, 0) == find_key(self.positions@, key, i as nat),
            decreases 9 - i,
        {
            if self.positions[i] == key {
                return Some(i);
            }
            i += 1;
        }
        None
    }

    /// The name shown for a key: the upper-cased label of the cell key, or `?`
    /// for a key that no cell has.
    pub fn get_name(&self, key: i32) -> (s: String)
        requires
            self.well_formed(),
        ensures
            s@ == match find_key(self.positions@, key, 0) {
                Some(i) => uppercase(self.labels@[i as int]@),
                None => "?"@,
            },
    {
        match self.position(key) {
            Some(pos) => to_uppercase(self.labels[pos].as_str()),
            None => "?".to_owned(),
        }
    }

    /// The name shown for the restart key: its label, upper-cased.
    pub fn reset_display_name(&self) -> (s: String)
        ensures
            s@ == uppercase(self.reset_name@),
    {
        to_uppercase(self.reset_name.as_str())
    }

    /// The name shown for the close key: its label, upper-cased.
    pub fn close_display_name(&self) -> (s: String)
        ensures
            s@ == uppercase(self.close_name@),
    {
        to_uppercase(self.close_name.as_str())
    }

    /// The name shown for the key of cell `(x, y)`.
    pub fn get_name_for_position(&self, x: usize, y: usize) -> (s: String)
        requires
            self.well_formed(),
            x <= 2,
            y <= 2,
        ensures
            s@ == match find_key(self.positions@, self.positions@[x + y * 3], 0) {
                Some(i) => uppercase(self.labels@[i as int]@),
                None => "?"@,
            },
    {
        self.get_name(self.positions[x + y * 3])
    }

    /// The cell `(x, y)` whose key is `key`, if any.
    pub fn key_to_position(&self, key: i32) -> (r: Option<(usize, usize)>)
        ensures
            r == match find_key(self.positions@, key, 0) {
                Some(i) => Some(((i % 3) as usize, (i / 3) as usize)),
                None => None,
            },
    {
        match self.position(key) {
            Some(pos) => {
                let r = pos % 3;
                Some((r, (pos - r) / 3))
            },
            None => None,
        }
    }

    /// What the pressed keys ask for: restarting first, then closing, then a
    /// placement on the cell of the key that was pressed, if it is a cell key.
    pub fn get_action(&self, reset_pressed: bool, close_pressed: bool, pressed: Option<i32>) -> (a: Option<GameAction>)
        ensures
            a == if reset_pressed {
                Some(GameAction::ResetBoard)
            } else if close_pressed {
                Some(GameAction::CloseBoard)
            } else {
                match pressed {
                    Some(key) => match find_key(self.positions@, key, 0) {
                        Some(i) => Some(GameAction::PlaceToken((i % 3) as usize, (i / 3) as usize)),
                        None => None,
                    },
                    None => None,
                }
            },
    {
        if reset_pressed {
            Some(GameAction::ResetBoard)
        } else if close_pressed {
            Some(GameAction::CloseBoard)
        } else if let Some(key) = pressed {
            match self.key_to_position(key) {
                Some(p) => Some(GameAction::PlaceToken(p.0, p.1)),
                None => None,
            }
        } else {
            None
        }
    }
}

} // verus!
