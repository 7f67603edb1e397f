//! Rules engine for backgammon: the authoritative board state, dice-driven
//! move generation, legality checking, and the turn/win-condition state
//! machine. Rendering, input handling and physical dice simulation are the
//! caller's concern; they talk to this engine only through plain values.

pub mod board;
pub mod dice;
pub mod engine;
pub mod moves;
pub mod player;
pub mod rules;
