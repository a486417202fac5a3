//! The sound effects the game logic asks for, by name.
pub mod snd;
