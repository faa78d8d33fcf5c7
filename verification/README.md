# tictactoe

Tic-tac-toe whose rules come with proved specifications.

- `src/tictactoe.rs` — the game on a board stored row by row; the outcome
  names the winning line. `place` is specified exactly, and keeps the
  invariant that a game is reachable from a fresh one (move counts, and the
  recorded outcome is what the board decides); a winner is always the player
  who just moved, and swapping the players swaps the winner.
- `src/classic.rs` — the classic game on a board indexed by column, whose
  outcome only names the winner, with the same guarantees.
- `src/agreement.rs` — both games decide every board alike.
- `src/network_proto.rs` — the three-byte protocol (`NGO`, `NGX`, `BYE`,
  `[O|X][0-2][0-2]`); encoding and decoding invert each other.
- `src/terminal.rs`, `src/key_bindings.rs`, `src/screens.rs`,
  `src/sdl_game.rs` — the decisions of the front ends: what each input stands
  for, which key places where, what each input does to the game, and what
  the status texts say.
- `src/counting.rs` — counting lemmas used by the invariants.
- `app/` — the programs: terminal games on ratatui (`classic` for the classic
  game), and window games on SDL (`sdl`) and raylib (`raylib`).
