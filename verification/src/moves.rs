//! Moves and the error taxonomy. A move names an origin (a point or the
//! bar), a destination (a point or off the board) and the die value it
//! consumes. Moves are transient: they are produced by the validator or a
//! caller and consumed immediately by `Board::apply`.

use vstd::prelude::*;

verus! {

/// A place a checker can move from or to. `Bar` is only ever an origin
/// (re-entry); `Off` is only ever a destination (bear-off).
#[derive(Clone, Copy, PartialEq, Eq, Structural, Debug)]
pub enum Square {
    Bar,
    Point(u8),
    Off,
}

#[derive(Clone, Copy, PartialEq, Eq, Structural, Debug)]
pub struct Move {
    pub from: Square,
    pub to: Square,
    pub die: u8,
}

/// Rejection of a candidate move. `IllegalMove` covers every rule violation:
/// blocking, re-entry, bear-off gating, a die value that is not available,
/// or a request made in the wrong phase. `InvariantViolation` is reserved
/// for a broken checker-count invariant; the engine proves its invariants,
/// so no function of this crate ever returns it.
#[derive(Clone, Copy, PartialEq, Eq, Structural, Debug)]
pub enum MoveError {
    IllegalMove,
    InvariantViolation,
}

/// Rejection of a die consumption: the value is not among the unconsumed
/// values of the current roll.
#[derive(Clone, Copy, PartialEq, Eq, Structural, Debug)]
pub enum DiceError {
    ValueNotAvailable,
}

} // verus!
