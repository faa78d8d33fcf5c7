//! Tic-tac-toe: the game rules, the three-byte network protocol and the
//! input decisions of the terminal and graphical front ends.

pub mod agreement;
pub mod classic;
pub mod counting;
pub mod key_bindings;
pub mod network_proto;
pub mod screens;
pub mod sdl_game;
pub mod terminal;
pub mod tictactoe;
