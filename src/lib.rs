//! A single-table blackjack game: cards, deck, round board, rule engine and
//! the session state machine, with their behaviour stated and proved.
pub mod card;
pub mod board;
pub mod game_engine;
pub mod stats;
pub mod main_state;
