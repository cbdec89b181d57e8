//! A two-player word-guessing game: words compared with accent-insensitive
//! equality, a host-authoritative turn state machine, the byte channel logic
//! used to receive the remote player's guesses, and the game's messages in
//! English and Portuguese.

pub mod word;
pub mod wordlist;
pub mod game;
pub mod channel;
pub mod messages;
