//! The board: 24 points, the two bars and the two home trays. The board is
//! the single source of truth for where every checker stands; it is mutated
//! only by `apply`, which enforces every movement rule and either performs
//! the whole move or leaves the board untouched.
//!
//! Each player's checkers are stored as a vector of 24 per-point counts
//! (index 0 is point 1). Well-formedness ties the two vectors together: no
//! point holds checkers of both players, and each player's points, bar and
//! home tray account for exactly 15 checkers.

use vstd::prelude::*;

use crate::moves::{Move, MoveError, Square};
use crate::player::Player;
use crate::rules::legal_move;

verus! {

/// The spec-level snapshot of a board: everything a collaborator can
/// observe, with no representation detail left out.
#[verifier::ext_equal]
pub struct BoardModel {
    pub white: Seq<u8>,
    pub black: Seq<u8>,
    pub bar_white: u8,
    pub bar_black: u8,
    pub home_white: u8,
    pub home_black: u8,
}

impl BoardModel {
    pub open spec fn counts(self, p: Player) -> Seq<u8> {
        match p {
            Player::White => self.white,
            Player::Black => self.black,
        }
    }

    pub open spec fn bar(self, p: Player) -> u8 {
        match p {
            Player::White => self.bar_white,
            Player::Black => self.bar_black,
        }
    }

    pub open spec fn home(self, p: Player) -> u8 {
        match p {
            Player::White => self.home_white,
            Player::Black => self.home_black,
        }
    }

    pub open spec fn with_counts(self, p: Player, s: Seq<u8>) -> BoardModel {
        match p {
            Player::White => BoardModel { white: s, ..self },
            Player::Black => BoardModel { black: s, ..self },
        }
    }

    pub open spec fn with_bar(self, p: Player, v: u8) -> BoardModel {
        match p {
            Player::White => BoardModel { bar_white: v, ..self },
            Player::Black => BoardModel { bar_black: v, ..self },
        }
    }

    pub open spec fn with_home(self, p: Player, v: u8) -> BoardModel {
        match p {
            Player::White => BoardModel { home_white: v, ..self },
            Player::Black => BoardModel { home_black: v, ..self },
        }
    }

    /// Count of this player's checkers on point `pt` (1-based).
    pub open spec fn count_at(self, p: Player, pt: int) -> u8 {
        self.counts(p)[pt - 1]
    }

    pub open spec fn has_checker(self, p: Player, pt: int) -> bool {
        1 <= pt <= 24 && self.count_at(p, pt) > 0
    }

    /// A destination is blocked for a player when the opponent holds two or
    /// more checkers there.
    pub open spec fn is_blocked(self, p: Player, pt: int) -> bool {
        self.count_at(p.other_spec(), pt) >= 2
    }

    /// Every checker of the player is borne off or inside the player's home
    /// quadrant: none waits on the bar and none stands on an outer point.
    pub open spec fn all_in_home(self, p: Player) -> bool {
        &&& self.bar(p) == 0
        &&& forall|pt: int|
            1 <= pt <= 24 && #[trigger] self.has_checker(p, pt) ==> p.in_home_spec(pt)
    }

    /// No checker of the player stands on a point strictly farther from
    /// bear-off than `pt`. This gates overshooting bear-off moves.
    pub open spec fn no_checker_above(self, p: Player, pt: int) -> bool {
        forall|q: int|
            1 <= q <= 24 && p.pip_of(q) > p.pip_of(pt) ==> !(#[trigger] self.has_checker(p, q))
    }

    /// Well-formedness: the invariant every public operation preserves.
    /// Point counts are capped by the 15 checkers a player owns, a point
    /// never holds checkers of both players, and each player's points, bar
    /// and home tray sum to exactly 15.
    pub open spec fn wf(self) -> bool {
        &&& self.white.len() == 24
        &&& self.black.len() == 24
        &&& forall|i: int| 0 <= i < 24 ==> #[trigger] self.white[i] <= 15
        &&& forall|i: int| 0 <= i < 24 ==> #[trigger] self.black[i] <= 15
        &&& forall|i: int|
            #![trigger self.white[i], self.black[i]]
            0 <= i < 24 ==> self.white[i] == 0 || self.black[i] == 0
        &&& total(self.white) + self.bar_white + self.home_white == 15
        &&& total(self.black) + self.bar_black + self.home_black == 15
    }
}

/// Sum of the first `n` entries of a per-point count vector.
pub open spec fn sum_upto(s: Seq<u8>, n: int) -> int
    decreases n,
{
    if n <= 0 {
        0
    } else {
        sum_upto(s, n - 1) + s[n - 1]
    }
}

/// Total number of checkers recorded on the 24 points.
pub open spec fn total(s: Seq<u8>) -> int {
    sum_upto(s, s.len() as int)
}

pub proof fn lemma_sum_nonneg(s: Seq<u8>, n: int)
    requires
        n <= s.len(),
    ensures
        sum_upto(s, n) >= 0,
    decreases n,
{
    if n > 0 {
        lemma_sum_nonneg(s, n - 1);
    }
}

/// Changing one entry changes the sum by exactly the difference at that
/// entry, and only when the entry lies below the summation bound.
pub proof fn lemma_sum_update(s: Seq<u8>, i: int, v: u8, n: int)
    requires
        0 <= i < s.len(),
        0 <= n <= s.len(),
    ensures
        sum_upto(s.update(i, v), n) == sum_upto(s, n) + (if i < n {
            v - s[i]
        } else {
            0
        }),
    decreases n,
{
    if n > 0 {
        lemma_sum_update(s, i, v, n - 1);
    }
}

/// No single entry exceeds the sum of a range that includes it.
pub proof fn lemma_elem_le_sum(s: Seq<u8>, i: int, n: int)
    requires
        0 <= i < n <= s.len(),
    ensures
        s[i] <= sum_upto(s, n),
    decreases n,
{
    if i == n - 1 {
        lemma_sum_nonneg(s, n - 1);
    } else {
        lemma_elem_le_sum(s, i, n - 1);
    }
}

/// Two distinct entries together do not exceed the sum.
pub proof fn lemma_two_elems_le_sum(s: Seq<u8>, i: int, j: int, n: int)
    requires
        0 <= i < n <= s.len(),
        0 <= j < n,
        i != j,
    ensures
        s[i] + s[j] <= sum_upto(s, n),
{
    let s0 = s.update(i, 0u8);
    lemma_sum_update(s, i, 0u8, n);
    lemma_elem_le_sum(s0, j, n);
}

/// The standard opening position for White, who moves 24 -> 1: two checkers
/// on point 24, five on 13, three on 8 and five on 6.
pub open spec fn opening_white() -> Seq<u8> {
    seq![
        0u8, 0, 0, 0, 0, 5, 0, 3, 0, 0, 0, 0, 5, 0, 0, 0, 0, 0, 0, 0, 0, 0, 0, 2,
    ]
}

/// The mirrored opening position for Black, who moves 1 -> 24: two checkers
/// on point 1, five on 12, three on 17 and five on 19.
pub open spec fn opening_black() -> Seq<u8> {
    seq![
        2u8, 0, 0, 0, 0, 0, 0, 0, 0, 0, 0, 5, 0, 0, 0, 0, 3, 0, 5, 0, 0, 0, 0, 0,
    ]
}

pub open spec fn opening_model() -> BoardModel {
    BoardModel {
        white: opening_white(),
        black: opening_black(),
        bar_white: 0,
        bar_black: 0,
        home_white: 0,
        home_black: 0,
    }
}

/// The board after one checker of `p` has been lifted from the origin of a
/// move: off the bar, or off its point.
pub open spec fn remove_origin(m: BoardModel, p: Player, from: Square) -> BoardModel {
    match from {
        Square::Bar => m.with_bar(p, (m.bar(p) - 1) as u8),
        Square::Point(f) => m.with_counts(
            p,
            m.counts(p).update(f - 1, (m.count_at(p, f as int) - 1) as u8),
        ),
        Square::Off => m,
    }
}

/// The board after the lifted checker of `p` has come down on the
/// destination of a move: into the home tray, or onto a point, displacing a
/// lone opposing checker to the opponent's bar.
pub open spec fn place_dest(m: BoardModel, p: Player, to: Square) -> BoardModel {
    match to {
        Square::Off => m.with_home(p, (m.home(p) + 1) as u8),
        Square::Point(t) => {
            let o = p.other_spec();
            let placed = m.with_counts(
                p,
                m.counts(p).update(t - 1, (m.count_at(p, t as int) + 1) as u8),
            );
            if m.count_at(o, t as int) == 1 {
                placed.with_counts(o, m.counts(o).update(t - 1, 0u8)).with_bar(
                    o,
                    (m.bar(o) + 1) as u8,
                )
            } else {
                placed
            }
        },
        Square::Bar => m,
    }
}

/// The full effect of a legal move on the board.
pub open spec fn after_move(m: BoardModel, p: Player, mv: Move) -> BoardModel {
    place_dest(remove_origin(m, p, mv.from), p, mv.to)
}

/// Sums a per-point count vector, in checkers.
#[verifier::loop_isolation(false)]
fn total_checkers(s: &Vec<u8>) -> (r: u32)
    requires
        s@.len() == 24,
    ensures
        r as int == total(s@),
        r <= 6120,
{
    let mut acc: u32 = 0;
    let mut i: usize = 0;
    while i < 24
        invariant
            i <= 24,
            acc as int == sum_upto(s@, i as int),
            acc as int <= 255 * i,
        decreases 24 - i,
    {
        acc = acc + s[i] as u32;
        i = i + 1;
    }
    acc
}

pub struct Board {
    pub white: Vec<u8>,
    pub black: Vec<u8>,
    pub bar_white: u8,
    pub bar_black: u8,
    pub home_white: u8,
    pub home_black: u8,
}

impl Board {
    pub open spec fn model(self) -> BoardModel {
        BoardModel {
            white: self.white@,
            black: self.black@,
            bar_white: self.bar_white,
            bar_black: self.bar_black,
            home_white: self.home_white,
            home_black: self.home_black,
        }
    }

    pub open spec fn wf(self) -> bool {
        self.model().wf()
    }

    /// Both count vectors cover the 24 points; holds even in the middle of
    /// a mutation, before the full invariant is restored.
    pub open spec fn len_ok(self) -> bool {
        self.white@.len() == 24 && self.black@.len() == 24
    }

    pub fn bar(&self, p: Player) -> (r: u8)
        ensures
            r == self.model().bar(p),
    {
        match p {
            Player::White => self.bar_white,
            Player::Black => self.bar_black,
        }
    }

    pub fn home(&self, p: Player) -> (r: u8)
        ensures
            r == self.model().home(p),
    {
        match p {
            Player::White => self.home_white,
            Player::Black => self.home_black,
        }
    }

    pub fn count(&self, p: Player, pt: u8) -> (r: u8)
        requires
            self.len_ok(),
            1 <= pt <= 24,
        ensures
            r == self.model().count_at(p, pt as int),
    {
        let idx: usize = (pt - 1) as usize;
        match p {
            Player::White => self.white[idx],
            Player::Black => self.black[idx],
        }
    }

    pub fn is_blocked(&self, pt: u8, p: Player) -> (r: bool)
        requires
            self.len_ok(),
            1 <= pt <= 24,
        ensures
            r == self.model().is_blocked(p, pt as int),
    {
        self.count(p.other(), pt) >= 2
    }

    #[verifier::loop_isolation(false)]
    pub fn all_in_home(&self, p: Player) -> (r: bool)
        requires
            self.len_ok(),
        ensures
            r == self.model().all_in_home(p),
    {
        if self.bar(p) > 0 {
            return false;
        }
        let mut pt: u8 = 1;
        while pt <= 24
            invariant
                1 <= pt <= 25,
                forall|q: int|
                    1 <= q < pt ==> (#[trigger] self.model().has_checker(p, q)
                        ==> p.in_home_spec(q)),
            decreases 25 - pt,
        {
            if self.count(p, pt) > 0 && !p.in_home(pt) {
                proof {
                    assert(self.model().has_checker(p, pt as int));
                }
                return false;
            }
            pt = pt + 1;
        }
        true
    }

    #[verifier::loop_isolation(false)]
    pub fn no_higher(&self, p: Player, pt: u8) -> (r: bool)
        requires
            self.len_ok(),
            1 <= pt <= 24,
        ensures
            r == self.model().no_checker_above(p, pt as int),
    {
        let mut q: u8 = 1;
        while q <= 24
            invariant
                1 <= q <= 25,
                forall|x: int|
                    1 <= x < q && p.pip_of(x) > p.pip_of(pt as int) ==> !(
                    #[trigger] self.model().has_checker(p, x)),
            decreases 25 - q,
        {
            if p.pip(q) > p.pip(pt) && self.count(p, q) > 0 {
                proof {
                    assert(self.model().has_checker(p, q as int));
                }
                return false;
            }
            q = q + 1;
        }
        true
    }

    /// The fixed opening position: two checkers on each player's 24-point,
    /// five on the 13-point, three on the 8-point and five on the 6-point,
    /// counted in each player's own direction of travel.
    pub fn new_standard() -> (b: Board)
        ensures
            b.wf(),
            b.model() == opening_model(),
    {
        let white: Vec<u8> = vec![
            0, 0, 0, 0, 0, 5, 0, 3, 0, 0, 0, 0, 5, 0, 0, 0, 0, 0, 0, 0, 0, 0, 0, 2,
        ];
        let black: Vec<u8> = vec![
            2, 0, 0, 0, 0, 0, 0, 0, 0, 0, 0, 5, 0, 0, 0, 0, 3, 0, 5, 0, 0, 0, 0, 0,
        ];
        let b = Board {
            white,
            black,
            bar_white: 0,
            bar_black: 0,
            home_white: 0,
            home_black: 0,
        };
        proof {
            assert(b.white@ =~= opening_white());
            assert(b.black@ =~= opening_black());
            assert(total(opening_white()) == 15) by {
                reveal_with_fuel(sum_upto, 25);
            }
            assert(total(opening_black()) == 15) by {
                reveal_with_fuel(sum_upto, 25);
            }
            assert(b.model() =~= opening_model());
        }
        b
    }

    /// Decides the board invariant, for a board rebuilt from a snapshot.
    pub fn is_well_formed(&self) -> (r: bool)
        ensures
            r == self.wf(),
    {
        if self.white.len() != 24 || self.black.len() != 24 {
            return false;
        }
        let mut i: usize = 0;
        while i < 24
            invariant
                i <= 24,
                self.white@.len() == 24,
                self.black@.len() == 24,
                forall|j: int| 0 <= j < i ==> #[trigger] self.white@[j] <= 15,
                forall|j: int| 0 <= j < i ==> #[trigger] self.black@[j] <= 15,
                forall|j: int|
                    #![trigger self.white@[j], self.black@[j]]
                    0 <= j < i ==> self.white@[j] == 0 || self.black@[j] == 0,
            decreases 24 - i,
        {
            if self.white[i] > 15 || self.black[i] > 15 {
                return false;
            }
            if self.white[i] > 0 && self.black[i] > 0 {
                return false;
            }
            i = i + 1;
        }
        let tw = total_checkers(&self.white);
        let tb = total_checkers(&self.black);
        tw + self.bar_white as u32 + self.home_white as u32 == 15 && tb + self.bar_black as u32
            + self.home_black as u32 == 15
    }

    /// Reconstructs a board from a snapshot (for persistence or a test
    /// fixture), accepting it only when it satisfies the full invariant.
    pub fn from_parts(
        white: Vec<u8>,
        black: Vec<u8>,
        bar_white: u8,
        bar_black: u8,
        home_white: u8,
        home_black: u8,
    ) -> (r: Option<Board>)
        ensures
            ({
                let cand = BoardModel {
                    white: white@,
                    black: black@,
                    bar_white,
                    bar_black,
                    home_white,
                    home_black,
                };
                match r {
                    Some(b) => cand.wf() && b.model() == cand,
                    None => !cand.wf(),
                }
            }),
    {
        let b = Board {
            white,
            black,
            bar_white,
            bar_black,
            home_white,
            home_black,
        };
        if b.is_well_formed() {
            Some(b)
        } else {
            None
        }
    }

    fn dec_point(&mut self, p: Player, pt: u8)
        requires
            old(self).len_ok(),
            1 <= pt <= 24,
            old(self).model().count_at(p, pt as int) >= 1,
        ensures
            final(self).len_ok(),
            final(self).model() == old(self).model().with_counts(
                p,
                old(self).model().counts(p).update(
                    pt as int - 1,
                    (old(self).model().count_at(p, pt as int) - 1) as u8,
                ),
            ),
    {
        let idx: usize = (pt - 1) as usize;
        match p {
            Player::White => {
                let c = self.white[idx];
                self.white[idx] = c - 1;
            },
            Player::Black => {
                let c = self.black[idx];
                self.black[idx] = c - 1;
            },
        }
    }

    fn inc_point(&mut self, p: Player, pt: u8)
        requires
            old(self).len_ok(),
            1 <= pt <= 24,
            old(self).model().count_at(p, pt as int) < 255,
        ensures
            final(self).len_ok(),
            final(self).model() == old(self).model().with_counts(
                p,
                old(self).model().counts(p).update(
                    pt as int - 1,
                    (old(self).model().count_at(p, pt as int) + 1) as u8,
                ),
            ),
    {
        let idx: usize = (pt - 1) as usize;
        match p {
            Player::White => {
                let c = self.white[idx];
                self.white[idx] = c + 1;
            },
            Player::Black => {
                let c = self.black[idx];
                self.black[idx] = c + 1;
            },
        }
    }

    fn dec_bar(&mut self, p: Player)
        requires
            old(self).model().bar(p) >= 1,
        ensures
            final(self).len_ok() == old(self).len_ok(),
            final(self).model() == old(self).model().with_bar(
                p,
                (old(self).model().bar(p) - 1) as u8,
            ),
    {
        match p {
            Player::White => {
                self.bar_white = self.bar_white - 1;
            },
            Player::Black => {
                self.bar_black = self.bar_black - 1;
            },
        }
    }

    fn inc_bar(&mut self, p: Player)
        requires
            old(self).model().bar(p) < 255,
        ensures
            final(self).len_ok() == old(self).len_ok(),
            final(self).model() == old(self).model().with_bar(
                p,
                (old(self).model().bar(p) + 1) as u8,
            ),
    {
        match p {
            Player::White => {
                self.bar_white = self.bar_white + 1;
            },
            Player::Black => {
                self.bar_black = self.bar_black + 1;
            },
        }
    }

    fn inc_home(&mut self, p: Player)
        requires
            old(self).model().home(p) < 255,
        ensures
            final(self).len_ok() == old(self).len_ok(),
            final(self).model() == old(self).model().with_home(
                p,
                (old(self).model().home(p) + 1) as u8,
            ),
    {
        match p {
            Player::White => {
                self.home_white = self.home_white + 1;
            },
            Player::Black => {
                self.home_black = self.home_black + 1;
            },
        }
    }

    /// Applies one validated single-checker move atomically. The whole rule
    /// set of `legal_move` is re-checked here (defense in depth): on a legal
    /// move the board becomes exactly `after_move` of its old state -- one
    /// checker lifted from the origin, placed on the destination or borne
    /// off, a lone opposing checker on the destination hit to the opponent's
    /// bar. An illegal move is rejected with the board left untouched.
    pub fn apply(&mut self, mv: Move, player: Player) -> (r: Result<(), MoveError>)
        requires
            old(self).wf(),
        ensures
            final(self).wf(),
            r is Ok <==> legal_move(old(self).model(), player, mv),
            r is Ok ==> final(self).model() == after_move(old(self).model(), player, mv),
            r is Err ==> final(self).model() == old(self).model() && r == Result::<
                (),
                MoveError,
            >::Err(MoveError::IllegalMove),
    {
        if !crate::rules::check_move(self, player, mv) {
            return Err(MoveError::IllegalMove);
        }
        let ghost m0 = self.model();
        proof {
            lemma_sum_nonneg(m0.counts(player), 24);
            lemma_sum_nonneg(m0.counts(player.other_spec()), 24);
        }
        match mv.from {
            Square::Bar => {
                self.dec_bar(player);
            },
            Square::Point(f) => {
                self.dec_point(player, f);
            },
            Square::Off => {
                proof {
                    assert(false);
                }
                return Err(MoveError::IllegalMove);
            },
        }
        proof {
            assert(self.model() =~= remove_origin(m0, player, mv.from));
        }
        let ghost m1 = self.model();
        match mv.to {
            Square::Off => {
                self.inc_home(player);
            },
            Square::Point(t) => {
                let opp = player.other();
                proof {
                    if mv.from is Point {
                        assert(t as int != mv.from->Point_0 as int);
                    }
                }
                let oc = self.count(opp, t);
                if oc == 1 {
                    self.dec_point(opp, t);
                    self.inc_bar(opp);
                }
                self.inc_point(player, t);
            },
            Square::Bar => {
                proof {
                    assert(false);
                }
                return Err(MoveError::IllegalMove);
            },
        }
        proof {
            assert(self.model() =~= after_move(m0, player, mv));
            lemma_after_move_wf(m0, player, mv);
        }
        Ok(())
    }

    /// Which player owns point `pt`, if any. A well-formed board has at
    /// most one owner per point.
    pub open spec fn owner_at(self, pt: int) -> Option<Player> {
        if self.model().count_at(Player::White, pt) > 0 {
            Some(Player::White)
        } else if self.model().count_at(Player::Black, pt) > 0 {
            Some(Player::Black)
        } else {
            None
        }
    }

    /// Snapshot query: the owner of a point together with how many of the
    /// owner's checkers stand on it; `(None, 0)` for an empty point.
    pub fn checkers_at(&self, pt: u8) -> (r: (Option<Player>, u8))
        requires
            self.wf(),
            1 <= pt <= 24,
        ensures
            r.0 == self.owner_at(pt as int),
            r.1 == self.model().count_at(Player::White, pt as int) + self.model().count_at(
                Player::Black,
                pt as int,
            ),
    {
        let w = self.count(Player::White, pt);
        let b = self.count(Player::Black, pt);
        if w > 0 {
            (Some(Player::White), w)
        } else if b > 0 {
            (Some(Player::Black), b)
        } else {
            (None, 0)
        }
    }
}

/// A legal move takes a well-formed board to a well-formed board: counts
/// stay within bounds, no point gains a second owner, and both players'
/// 15 checkers stay accounted for across points, bar and home tray.
pub proof fn lemma_after_move_wf(m: BoardModel, p: Player, mv: Move)
    requires
        m.wf(),
        legal_move(m, p, mv),
    ensures
        after_move(m, p, mv).wf(),
{
    let o = p.other_spec();
    let m1 = remove_origin(m, p, mv.from);
    let m2 = place_dest(m1, p, mv.to);
    lemma_sum_nonneg(m.counts(p), 24);
    lemma_sum_nonneg(m.counts(o), 24);
    match mv.from {
        Square::Bar => {
            assert(total(m1.counts(p)) == total(m.counts(p)));
        },
        Square::Point(f) => {
            let fi = f as int - 1;
            lemma_sum_update(m.counts(p), fi, (m.counts(p)[fi] - 1) as u8, 24);
            assert(total(m1.counts(p)) == total(m.counts(p)) - 1);
        },
        Square::Off => {
            assert(false);
        },
    }
    assert(m1.counts(o) == m.counts(o));
    match mv.to {
        Square::Off => {
            assert(total(m2.counts(p)) == total(m1.counts(p)));
        },
        Square::Point(t) => {
            let ti = t as int - 1;
            assert(0 <= ti < 24);
            if mv.from is Point {
                let f = mv.from->Point_0;
                assert(t as int != f as int);
                assert(m1.counts(p)[ti] == m.counts(p)[ti]);
            }
            if m1.count_at(o, t as int) == 1 {
                assert(m.counts(p)[ti] == 0);
            } else {
                assert(m.counts(o)[ti] == 0);
                match mv.from {
                    Square::Bar => {
                        lemma_elem_le_sum(m.counts(p), ti, 24);
                        assert(m.counts(p)[ti] <= 14);
                    },
                    Square::Point(f) => {
                        let fi = f as int - 1;
                        lemma_two_elems_le_sum(m.counts(p), ti, fi, 24);
                        assert(m.counts(p)[ti] <= 14);
                    },
                    Square::Off => {},
                }
            }
            lemma_sum_update(m1.counts(p), ti, (m1.counts(p)[ti] + 1) as u8, 24);
            if m1.count_at(o, t as int) == 1 {
                lemma_sum_update(m.counts(o), ti, 0u8, 24);
            }
        },
        Square::Bar => {
            assert(false);
        },
    }
    assert forall|i: int| 0 <= i < 24 implies m2.counts(p)[i] <= 15 by {}
    assert forall|i: int| 0 <= i < 24 implies m2.counts(o)[i] <= 15 by {}
    assert forall|i: int| 0 <= i < 24 implies m2.counts(p)[i] == 0 || m2.counts(o)[i] == 0 by {}
    assert(total(m2.counts(p)) + m2.bar(p) + m2.home(p) == 15);
    assert(total(m2.counts(o)) + m2.bar(o) + m2.home(o) == 15);
    assert(m2.counts(Player::White) == m2.white && m2.counts(Player::Black) == m2.black);
}

/// Conservation of checkers: in every well-formed board each player's
/// points, bar and home tray account for exactly 15 checkers. `apply`
/// preserves well-formedness, so this holds of every reachable board.
pub proof fn lemma_checker_conservation(b: Board, p: Player)
    requires
        b.wf(),
    ensures
        total(b.model().counts(p)) + b.model().bar(p) + b.model().home(p) == 15,
{
}

/// Exclusive ownership: in a well-formed board no point holds checkers of
/// both players at once.
pub proof fn lemma_point_single_owner(b: Board, pt: int)
    requires
        b.wf(),
        1 <= pt <= 24,
    ensures
        !(b.model().has_checker(Player::White, pt) && b.model().has_checker(Player::Black, pt)),
{
}

} // verus!
