//! Hangman: the rules of a word-guessing game, with machine-checked contracts.
//!
//! A secret word is laid out as a board of letters, each hidden at first. Every
//! guess uncovers all the letters equal to it; a guess that matches no letter
//! costs one of a fixed number of attempts. The game is won once every letter
//! is uncovered and lost once the attempts are used up.
//!
//! The crate holds no input or output: callers read the word list and the
//! player's lines, hand them over as plain values, and print what comes back.

pub mod board;
pub mod game;
pub mod input;
pub mod progress;
pub mod render;
pub mod text;
pub mod words;

pub use board::{create_letters, is_complete, uncover, Letter};
pub use game::{Game, Stage, ALLOWED_ATTEMPTS};
pub use input::{first_character, read_user_input_character, QUIT};
pub use progress::{check_progress, GameProgress};
pub use render::{
    closing_line, progress_line, shown, turns_line, GOODBYE, HIDDEN_GLYPH, PROMPT, WELCOME,
};
pub use words::{select_word, split_words, word_at, WordError, DELIMITER};
