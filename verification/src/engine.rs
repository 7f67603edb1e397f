//! The turn state machine: roll, a loop of applied moves, turn handoff and
//! win detection. A collaborator supplies the rolled values and selects
//! moves; the engine owns every rule decision. A turn with no legal move at
//! roll time passes to the other player at once; a turn in progress ends as
//! soon as the dice are spent or no legal move remains; the fifteenth
//! checker borne off ends the game, and a finished game accepts no further
//! move.

use vstd::prelude::*;

use crate::board::{after_move, opening_model, Board};
use crate::dice::{initial_remaining, DiceState};
use crate::moves::{Move, MoveError, Square};
use crate::player::Player;
use crate::rules::{any_move, check_move, has_any_move, legal_move};

verus! {

#[derive(Clone, Copy, PartialEq, Eq, Structural, Debug)]
pub enum Phase {
    AwaitingRoll,
    Moving,
    GameOver,
}

pub struct TurnEngine {
    pub board: Board,
    pub dice: DiceState,
    pub phase: Phase,
    pub active: Player,
}

impl TurnEngine {
    /// The machine's invariant: the board and dice are well-formed, the
    /// moving player always has a legal move (the engine never waits for a
    /// move nobody can make), and a finished game records a winner with all
    /// fifteen checkers borne off.
    pub open spec fn wf(self) -> bool {
        &&& self.board.wf()
        &&& self.dice.wf()
        &&& self.phase == Phase::Moving ==> any_move(
            self.board.model(),
            self.active,
            self.dice.remaining@,
        )
        &&& self.phase == Phase::GameOver ==> self.board.model().home(self.active) == 15
    }

    /// A move the engine accepts right now: the turn is in its moving
    /// phase, the move is legal on the board, and its die value is still
    /// unconsumed.
    pub open spec fn move_allowed(self, mv: Move) -> bool {
        &&& self.phase == Phase::Moving
        &&& legal_move(self.board.model(), self.active, mv)
        &&& self.dice.remaining@.contains(mv.die)
    }

    /// How one accepted move takes the engine from `pre` to `post`: the
    /// board becomes `after_move`, the consumed die leaves the remaining
    /// multiset, and then the fifteenth checker borne off wins the game;
    /// otherwise the turn continues while a legal move remains for the
    /// unconsumed dice and passes to the other player the moment none does.
    pub open spec fn move_outcome(pre: TurnEngine, post: TurnEngine, mv: Move) -> bool {
        let me = pre.active;
        let b2 = after_move(pre.board.model(), me, mv);
        &&& post.board.model() == b2
        &&& post.dice.remaining_multiset() == pre.dice.remaining_multiset().remove(mv.die)
        &&& (b2.home(me) == 15 ==> post.phase == Phase::GameOver && post.active == me)
        &&& (b2.home(me) != 15 && !any_move(b2, me, post.dice.remaining@) ==> post.phase
            == Phase::AwaitingRoll && post.active == me.other_spec())
        &&& (b2.home(me) != 15 && any_move(b2, me, post.dice.remaining@) ==> post.phase
            == Phase::Moving && post.active == me)
    }

    /// A new game in the standard opening position, waiting for the first
    /// player's roll.
    pub fn new(first: Player) -> (e: TurnEngine)
        ensures
            e.wf(),
            e.phase == Phase::AwaitingRoll,
            e.active == first,
            e.board.model() == opening_model(),
    {
        TurnEngine {
            board: Board::new_standard(),
            // never consulted: the first roll replaces it before the first
            // move is considered
            dice: DiceState::from_roll(1, 2),
            phase: Phase::AwaitingRoll,
            active: first,
        }
    }

    /// Restores an engine from a persisted snapshot of its state, accepting
    /// it only when the machine invariant holds of the whole: a well-formed
    /// board and dice, a moving phase that really has a move to make, and a
    /// finished game that really has a winner.
    pub fn from_snapshot(board: Board, dice: DiceState, phase: Phase, active: Player) -> (r:
        Option<TurnEngine>)
        ensures
            match r {
                Some(e) => {
                    &&& e.wf()
                    &&& e.board == board
                    &&& e.dice == dice
                    &&& e.phase == phase
                    &&& e.active == active
                },
                None => !(TurnEngine { board, dice, phase, active }).wf(),
            },
    {
        if !board.is_well_formed() {
            return None;
        }
        if !dice.is_well_formed() {
            return None;
        }
        let accepted = match phase {
            Phase::AwaitingRoll => true,
            Phase::Moving => has_any_move(&board, active, &dice),
            Phase::GameOver => board.home(active) == 15,
        };
        if accepted {
            Some(TurnEngine { board, dice, phase, active })
        } else {
            None
        }
    }

    /// Accepts the two rolled values for the active player's turn. When the
    /// roll permits at least one move the turn enters its moving phase;
    /// otherwise the turn passes to the other player at once, with the
    /// board untouched and no move placed.
    pub fn roll(&mut self, d1: u8, d2: u8)
        requires
            old(self).wf(),
            old(self).phase == Phase::AwaitingRoll,
            1 <= d1 <= 6,
            1 <= d2 <= 6,
        ensures
            final(self).wf(),
            final(self).board.model() == old(self).board.model(),
            if any_move(old(self).board.model(), old(self).active, initial_remaining(d1, d2)) {
                &&& final(self).phase == Phase::Moving
                &&& final(self).active == old(self).active
                &&& final(self).dice.d1 == d1
                &&& final(self).dice.d2 == d2
                &&& final(self).dice.remaining@ == initial_remaining(d1, d2)
            } else {
                &&& final(self).phase == Phase::AwaitingRoll
                &&& final(self).active == old(self).active.other_spec()
            },
    {
        self.dice = DiceState::from_roll(d1, d2);
        if has_any_move(&self.board, self.active, &self.dice) {
            self.phase = Phase::Moving;
        } else {
            self.active = self.active.other();
        }
    }

    /// Applies one move selected by the collaborator. A move the rules do
    /// not allow right now is rejected with the whole engine unchanged.
    /// An accepted move updates the board, consumes its die, then: the
    /// fifteenth checker borne off wins the game; otherwise the turn
    /// continues while a legal move remains for the unconsumed dice and
    /// passes to the other player the moment none does.
    pub fn apply_move(&mut self, mv: Move) -> (r: Result<(), MoveError>)
        requires
            old(self).wf(),
        ensures
            final(self).wf(),
            r is Ok <==> old(self).move_allowed(mv),
            r is Err ==> final(self).board.model() == old(self).board.model()
                && final(self).phase == old(self).phase
                && final(self).active == old(self).active
                && final(self).dice.remaining@ == old(self).dice.remaining@
                && r == Result::<(), MoveError>::Err(MoveError::IllegalMove),
            r is Ok ==> Self::move_outcome(*old(self), *final(self), mv),
    {
        match self.phase {
            Phase::Moving => {},
            _ => {
                return Err(MoveError::IllegalMove);
            },
        }
        if !check_move(&self.board, self.active, mv) {
            return Err(MoveError::IllegalMove);
        }
        if !self.dice.has_die(mv.die) {
            return Err(MoveError::IllegalMove);
        }
        let res = self.board.apply(mv, self.active);
        match res {
            Ok(()) => {},
            Err(_) => {
                proof {
                    assert(false);
                }
                return Err(MoveError::IllegalMove);
            },
        }
        let cres = self.dice.consume(mv.die);
        match cres {
            Ok(()) => {},
            Err(_) => {
                proof {
                    assert(false);
                }
                return Err(MoveError::IllegalMove);
            },
        }
        if self.board.home(self.active) == 15 {
            self.phase = Phase::GameOver;
            return Ok(());
        }
        if !has_any_move(&self.board, self.active, &self.dice) {
            self.phase = Phase::AwaitingRoll;
            self.active = self.active.other();
        }
        Ok(())
    }

    /// Exactly one still-available die value makes the intent `(from, to)`
    /// a legal move right now.
    pub open spec fn unambiguous(self, from: Square, to: Square) -> bool {
        exists|d: u8|
            #[trigger] self.move_allowed(Move { from, to, die: d }) && (forall|d2: u8|
                #[trigger] self.move_allowed(Move { from, to, die: d2 }) ==> d2 == d)
    }

    /// Applies a collaborator's `(from, to)` intent, resolving the
    /// consuming die automatically. The intent is rejected, with the engine
    /// unchanged, when no available die makes it legal or when several do
    /// (the collaborator must then disambiguate through `apply_move`);
    /// otherwise the unique die is consumed and returned.
    pub fn apply_intent(&mut self, from: Square, to: Square) -> (r: Result<u8, MoveError>)
        requires
            old(self).wf(),
        ensures
            final(self).wf(),
            r is Ok <==> old(self).unambiguous(from, to),
            r matches Ok(d) ==> old(self).move_allowed(Move { from, to, die: d })
                && Self::move_outcome(*old(self), *final(self), Move { from, to, die: d }),
            r is Err ==> final(self).board.model() == old(self).board.model()
                && final(self).phase == old(self).phase
                && final(self).active == old(self).active
                && final(self).dice.remaining@ == old(self).dice.remaining@
                && r == Result::<u8, MoveError>::Err(MoveError::IllegalMove),
    {
        let ds = self.dice_for_intent(from, to);
        if ds.len() == 1 {
            let d = ds[0];
            proof {
                assert(ds@.contains(ds@[0]));
                assert forall|d2: u8|
                    #[trigger] self.move_allowed(Move { from, to, die: d2 }) implies d2 == d by {
                    assert(ds@.contains(d2));
                    let j = choose|j: int| 0 <= j < ds@.len() && ds@[j] == d2;
                    assert(j == 0);
                }
            }
            let res = self.apply_move(Move { from, to, die: d });
            match res {
                Ok(()) => Ok(d),
                Err(_) => {
                    proof {
                        assert(false);
                    }
                    Err(MoveError::IllegalMove)
                },
            }
        } else {
            proof {
                if self.unambiguous(from, to) {
                    let d = choose|d: u8|
                        #[trigger] self.move_allowed(Move { from, to, die: d }) && (forall|d2: u8|
                            #[trigger] self.move_allowed(Move { from, to, die: d2 }) ==> d2 == d);
                    assert(ds@.contains(d));
                    let j = choose|j: int| 0 <= j < ds@.len() && ds@[j] == d;
                    if ds@.len() >= 2 {
                        let other = if j == 0 {
                            ds@[1]
                        } else {
                            ds@[0]
                        };
                        assert(ds@.contains(other));
                        assert(other != d);
                        assert(self.move_allowed(Move { from, to, die: other }));
                    }
                    assert(false);
                }
            }
            Err(MoveError::IllegalMove)
        }
    }

    /// The winner, once the game is over.
    pub fn winner(&self) -> (r: Option<Player>)
        ensures
            r == if self.phase == Phase::GameOver {
                Some(self.active)
            } else {
                None::<Player>
            },
    {
        match self.phase {
            Phase::GameOver => Some(self.active),
            _ => None,
        }
    }

    /// The die values that would make the intent `(from, to)` an accepted
    /// move right now. The engine resolves the consuming die automatically
    /// when this has exactly one element; several elements mean the
    /// collaborator must disambiguate.
    #[verifier::loop_isolation(false)]
    pub fn dice_for_intent(&self, from: Square, to: Square) -> (r: Vec<u8>)
        requires
            self.wf(),
        ensures
            forall|d: u8| #[trigger] r@.contains(d) <==> self.move_allowed(
                Move { from, to, die: d },
            ),
            forall|i: int, j: int| 0 <= i < j < r@.len() ==> r@[i] < r@[j],
    {
        let mut r: Vec<u8> = Vec::new();
        let moving = match self.phase {
            Phase::Moving => true,
            _ => false,
        };
        if !moving {
            return r;
        }
        let mut d: u8 = 1;
        while d <= 6
            invariant
                1 <= d <= 7,
                self.phase == Phase::Moving,
                forall|x: u8| #[trigger] r@.contains(x) <==> (self.move_allowed(
                    Move { from, to, die: x },
                ) && x < d),
                forall|i: int| 0 <= i < r@.len() ==> #[trigger] r@[i] < d,
                forall|i: int, j: int| 0 <= i < j < r@.len() ==> r@[i] < r@[j],
            decreases 7 - d,
        {
            let mv = Move { from, to, die: d };
            if check_move(&self.board, self.active, mv) && self.dice.has_die(d) {
                let ghost r0 = r@;
                r.push(d);
                proof {
                    assert(r@[r0.len() as int] == d);
                    assert forall|x: u8| r@.contains(x) implies (self.move_allowed(
                        Move { from, to, die: x },
                    ) && x < d + 1) by {
                        let j = choose|j: int| 0 <= j < r@.len() && r@[j] == x;
                        if j < r0.len() {
                            assert(r0.contains(x));
                        }
                    }
                    assert forall|x: u8|
                        self.move_allowed(Move { from, to, die: x }) && x < d + 1 implies r@.contains(
                        x,
                    ) by {
                        if x < d {
                            assert(r0.contains(x));
                            let j = choose|j: int| 0 <= j < r0.len() && r0[j] == x;
                            assert(r@[j] == x);
                        } else {
                            assert(r@[r0.len() as int] == x);
                        }
                    }
                }
            }
            d = d + 1;
        }
        r
    }
}

} // verus!
