//! A minimal wagering game: an operator seeds a secret number, participants
//! pay a fixed entry fee to submit a guess, a correct guess drains the whole
//! pot to the guesser, and an incorrect guess forfeits the fee into the pot
//! and only learns a directional hint.
//!
//! The crate holds the game state machine and its fund-accounting
//! invariants; reading balances from and moving value on a real ledger is
//! the host's job and stays outside.

pub mod engine;
pub mod game;
pub mod ledger;
