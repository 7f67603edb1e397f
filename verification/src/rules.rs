//! Move legality and move generation. `legal_move` is the single
//! mathematical definition of which single-checker moves the rules permit;
//! `check_move` decides it, and `legal_moves` enumerates exactly the
//! permitted moves for the die values still available this turn.

use vstd::prelude::*;

use crate::board::{Board, BoardModel};
use crate::dice::DiceState;
use crate::moves::{Move, Square};
use crate::player::Player;

verus! {

/// The rules of movement, in one predicate. A move of `p` on board `m` is
/// legal when its die is a real die value and one of:
/// - re-entry: a checker waits on the bar, the move comes off the bar onto
///   the entry point for that die, and the entry point is not blocked;
/// - a plain advance: nothing waits on the bar, the origin holds a checker
///   of `p`, the destination is the origin advanced by the die in `p`'s
///   direction, still on the track, and not blocked;
/// - bear-off: nothing waits on the bar, every checker of `p` is home, the
///   origin holds a checker of `p`, and the die either matches the origin's
///   pip distance exactly or overshoots it with no checker farther out.
/// While any checker waits on the bar, every legal move is a re-entry.
pub open spec fn legal_move(m: BoardModel, p: Player, mv: Move) -> bool {
    &&& 1 <= mv.die <= 6
    &&& match (mv.from, mv.to) {
        (Square::Bar, Square::Point(t)) => {
            &&& m.bar(p) > 0
            &&& t as int == p.entry_point_spec(mv.die as int)
            &&& !m.is_blocked(p, t as int)
        },
        (Square::Point(f), Square::Point(t)) => {
            &&& m.bar(p) == 0
            &&& m.has_checker(p, f as int)
            &&& t as int == p.dest_point_spec(f as int, mv.die as int)
            &&& 1 <= t <= 24
            &&& !m.is_blocked(p, t as int)
        },
        (Square::Point(f), Square::Off) => {
            &&& m.bar(p) == 0
            &&& m.has_checker(p, f as int)
            &&& m.all_in_home(p)
            &&& (p.pip_of(f as int) == mv.die as int || (mv.die as int > p.pip_of(f as int)
                && m.no_checker_above(p, f as int)))
        },
        _ => false,
    }
}

/// Decision procedure for `legal_move`: the defense-in-depth check that
/// `Board::apply` runs on every candidate move.
pub fn check_move(b: &Board, p: Player, mv: Move) -> (r: bool)
    requires
        b.wf(),
    ensures
        r == legal_move(b.model(), p, mv),
{
    if mv.die < 1 || mv.die > 6 {
        return false;
    }
    match (mv.from, mv.to) {
        (Square::Bar, Square::Point(t)) => {
            if b.bar(p) == 0 {
                return false;
            }
            let e = p.entry_point(mv.die);
            t == e && !b.is_blocked(e, p)
        },
        (Square::Point(f), Square::Point(t)) => {
            if b.bar(p) > 0 {
                return false;
            }
            if f < 1 || f > 24 {
                return false;
            }
            if b.count(p, f) == 0 {
                return false;
            }
            let d = p.dest_point(f, mv.die);
            if d < 1 || d > 24 {
                return false;
            }
            t as i32 == d && !b.is_blocked(d as u8, p)
        },
        (Square::Point(f), Square::Off) => {
            if b.bar(p) > 0 {
                return false;
            }
            if f < 1 || f > 24 {
                return false;
            }
            if b.count(p, f) == 0 {
                return false;
            }
            if !b.all_in_home(p) {
                return false;
            }
            let pip = p.pip(f);
            mv.die == pip || (mv.die > pip && b.no_higher(p, f))
        },
        _ => false,
    }
}

/// Origins numbered for enumeration: 0 is the bar, 1..=24 the points. `Off`
/// is never an origin; 25 keeps it out of range.
pub open spec fn from_pos(s: Square) -> int {
    match s {
        Square::Bar => 0,
        Square::Point(f) => f as int,
        Square::Off => 25,
    }
}

/// The at most one legal move of `p` with die `d` from the origin numbered
/// `pos`: for a fixed board, player, die and origin the rules determine the
/// destination, so the result is `None` or that single move.
fn candidate_for(b: &Board, p: Player, d: u8, pos: u8) -> (c: Option<Move>)
    requires
        b.wf(),
        1 <= d <= 6,
        pos <= 24,
    ensures
        match c {
            Some(mv) => {
                &&& legal_move(b.model(), p, mv)
                &&& mv.die == d
                &&& from_pos(mv.from) == pos as int
                &&& forall|mv2: Move|
                    #[trigger] legal_move(b.model(), p, mv2) && mv2.die == d && from_pos(mv2.from)
                        == pos as int ==> mv2 == mv
            },
            None => forall|mv2: Move|
                mv2.die == d && from_pos(mv2.from) == pos as int ==> !(#[trigger] legal_move(
                    b.model(),
                    p,
                    mv2,
                )),
        },
{
    if pos == 0 {
        if b.bar(p) == 0 {
            return None;
        }
        let e = p.entry_point(d);
        if b.is_blocked(e, p) {
            return None;
        }
        Some(Move { from: Square::Bar, to: Square::Point(e), die: d })
    } else {
        let f = pos;
        if b.bar(p) > 0 {
            return None;
        }
        if b.count(p, f) == 0 {
            return None;
        }
        let t = p.dest_point(f, d);
        if 1 <= t && t <= 24 {
            if b.is_blocked(t as u8, p) {
                return None;
            }
            Some(Move { from: Square::Point(f), to: Square::Point(t as u8), die: d })
        } else {
            if !b.all_in_home(p) {
                return None;
            }
            let pip = p.pip(f);
            if d == pip || (d > pip && b.no_higher(p, f)) {
                Some(Move { from: Square::Point(f), to: Square::Off, die: d })
            } else {
                None
            }
        }
    }
}

/// Enumerates exactly the single-checker moves that are legal now for the
/// still-unconsumed die values: a move is in the result if and only if it
/// is legal on the board and its die value is still available. The board is
/// never mutated, and no ordering preference is expressed among the moves.
#[verifier::loop_isolation(false)]
pub fn legal_moves(b: &Board, p: Player, dice: &DiceState) -> (r: Vec<Move>)
    requires
        b.wf(),
    ensures
        forall|i: int|
            0 <= i < r@.len() ==> legal_move(b.model(), p, #[trigger] r@[i])
                && dice.remaining@.contains(r@[i].die),
        forall|mv: Move|
            #[trigger] legal_move(b.model(), p, mv) && dice.remaining@.contains(mv.die)
                ==> r@.contains(mv),
{
    let mut r: Vec<Move> = Vec::new();
    let mut d: u8 = 1;
    while d <= 6
        invariant
            1 <= d <= 7,
            forall|i: int|
                0 <= i < r@.len() ==> legal_move(b.model(), p, #[trigger] r@[i])
                    && dice.remaining@.contains(r@[i].die),
            forall|mv: Move|
                #[trigger] legal_move(b.model(), p, mv) && dice.remaining@.contains(mv.die)
                    && mv.die < d ==> r@.contains(mv),
        decreases 7 - d,
    {
        if dice.has_die(d) {
            let mut pos: u8 = 0;
            while pos <= 24
                invariant
                    pos <= 25,
                    dice.remaining@.contains(d),
                    forall|i: int|
                        0 <= i < r@.len() ==> legal_move(b.model(), p, #[trigger] r@[i])
                            && dice.remaining@.contains(r@[i].die),
                    forall|mv: Move|
                        #[trigger] legal_move(b.model(), p, mv) && dice.remaining@.contains(mv.die)
                            && (mv.die < d || (mv.die == d && from_pos(mv.from) < pos))
                            ==> r@.contains(mv),
                decreases 25 - pos,
            {
                match candidate_for(b, p, d, pos) {
                    Some(mv) => {
                        let ghost r0 = r@;
                        r.push(mv);
                        proof {
                            assert(r@[r0.len() as int] == mv);
                            assert(r@.contains(mv));
                            assert forall|m2: Move| r0.contains(m2) implies r@.contains(m2) by {
                                let j = choose|j: int| 0 <= j < r0.len() && r0[j] == m2;
                                assert(r@[j] == m2);
                            }
                        }
                    },
                    None => {},
                }
                pos = pos + 1;
            }
            proof {
                assert forall|mv: Move|
                    #[trigger] legal_move(b.model(), p, mv) && mv.die == d implies from_pos(
                    mv.from,
                ) < 25 by {}
            }
        }
        d = d + 1;
    }
    r
}

/// Some legal move exists for one of the still-available die values.
pub open spec fn any_move(m: BoardModel, p: Player, rem: Seq<u8>) -> bool {
    exists|mv: Move| #[trigger] legal_move(m, p, mv) && rem.contains(mv.die)
}

/// Truthful report of whether the player can move at all this turn;
/// `TurnEngine` ends the turn immediately when not.
pub fn has_any_move(b: &Board, p: Player, dice: &DiceState) -> (r: bool)
    requires
        b.wf(),
    ensures
        r == any_move(b.model(), p, dice.remaining@),
{
    let ms = legal_moves(b, p, dice);
    if ms.len() > 0 {
        proof {
            assert(legal_move(b.model(), p, ms@[0]) && dice.remaining@.contains(ms@[0].die));
        }
        true
    } else {
        proof {
            if any_move(b.model(), p, dice.remaining@) {
                let mv = choose|mv: Move|
                    legal_move(b.model(), p, mv) && dice.remaining@.contains(mv.die);
                assert(ms@.contains(mv));
            }
        }
        false
    }
}

/// True exactly when the player has no legal move for any still-available
/// die value.
pub fn no_legal_moves(b: &Board, p: Player, dice: &DiceState) -> (r: bool)
    requires
        b.wf(),
    ensures
        r == !any_move(b.model(), p, dice.remaining@),
{
    !has_any_move(b, p, dice)
}

/// Forced re-entry: while a player has a checker on the bar, no legal move
/// of that player starts anywhere but the bar.
pub proof fn lemma_forced_reentry(m: BoardModel, p: Player, mv: Move)
    requires
        legal_move(m, p, mv),
        m.bar(p) > 0,
    ensures
        mv.from == Square::Bar,
{
}

/// Bear-off gating: while any checker of a player stands outside the home
/// quadrant or on the bar, no legal move of that player bears off.
pub proof fn lemma_bear_off_gating(m: BoardModel, p: Player, mv: Move)
    requires
        legal_move(m, p, mv),
        !m.all_in_home(p),
    ensures
        mv.to != Square::Off,
{
}

} // verus!
