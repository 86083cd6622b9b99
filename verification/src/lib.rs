//! Hangman, verified: the rules of the game as a state machine with its laws,
//! the text that the player is shown, the reading of a guess from a line of
//! input, and the drawing of a word from a list. A small account record lives
//! beside it.

pub mod art;
pub mod game;
pub mod input;
pub mod laws;
pub mod render;
pub mod state;
pub mod text;
pub mod user;
pub mod words;
