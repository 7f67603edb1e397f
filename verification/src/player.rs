//! The two player identities, with their fixed movement direction and home
//! quadrant. White moves from point 24 down towards point 1 and bears off
//! from points 1..=6; Black moves from point 1 up towards point 24 and bears
//! off from points 19..=24.

use vstd::prelude::*;

verus! {

#[derive(Clone, Copy, PartialEq, Eq, Structural, Debug)]
pub enum Player {
    White,
    Black,
}

impl Player {
    pub open spec fn other_spec(self) -> Player {
        match self {
            Player::White => Player::Black,
            Player::Black => Player::White,
        }
    }

    pub fn other(self) -> (r: Player)
        ensures
            r == self.other_spec(),
    {
        match self {
            Player::White => Player::Black,
            Player::Black => Player::White,
        }
    }

    /// Pip distance of a point for this player: how many pips a checker on
    /// `pt` still has to travel before it is borne off.
    pub open spec fn pip_of(self, pt: int) -> int {
        match self {
            Player::White => pt,
            Player::Black => 25 - pt,
        }
    }

    /// A point is in this player's home quadrant when it is at most six pips
    /// from being borne off.
    pub open spec fn in_home_spec(self, pt: int) -> bool {
        1 <= self.pip_of(pt) <= 6
    }

    /// The point on which a checker re-enters from the bar with a given die:
    /// the entry is in the opponent's home quadrant, as if the checker came
    /// from just beyond the player's farthest point.
    pub open spec fn entry_point_spec(self, die: int) -> int {
        match self {
            Player::White => 25 - die,
            Player::Black => die,
        }
    }

    /// The destination reached from point `from` with a given die, following
    /// this player's direction of travel. The result may fall outside
    /// 1..=24, which is the bear-off region.
    pub open spec fn dest_point_spec(self, from: int, die: int) -> int {
        match self {
            Player::White => from - die,
            Player::Black => from + die,
        }
    }

    pub fn pip(self, pt: u8) -> (r: u8)
        requires
            1 <= pt <= 24,
        ensures
            r as int == self.pip_of(pt as int),
    {
        match self {
            Player::White => pt,
            Player::Black => 25 - pt,
        }
    }

    pub fn in_home(self, pt: u8) -> (r: bool)
        requires
            1 <= pt <= 24,
        ensures
            r == self.in_home_spec(pt as int),
    {
        self.pip(pt) <= 6
    }

    pub fn entry_point(self, die: u8) -> (r: u8)
        requires
            1 <= die <= 6,
        ensures
            r as int == self.entry_point_spec(die as int),
            1 <= r <= 24,
    {
        match self {
            Player::White => 25 - die,
            Player::Black => die,
        }
    }

    pub fn dest_point(self, from: u8, die: u8) -> (r: i32)
        requires
            1 <= from <= 24,
            1 <= die <= 6,
        ensures
            r as int == self.dest_point_spec(from as int, die as int),
    {
        match self {
            Player::White => from as i32 - die as i32,
            Player::Black => from as i32 + die as i32,
        }
    }
}

} // verus!
