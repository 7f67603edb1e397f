//! The current roll and the die values still usable this turn. Rolling is
//! the collaborator's concern (an injected pair of values, so tests and
//! callers can supply fixed sequences); this module owns the expansion of
//! doubles into four usable values and the consumption of one value per
//! applied move.

use vstd::multiset::Multiset;
use vstd::prelude::*;
use vstd::seq_lib::group_to_multiset_ensures;

use crate::moves::DiceError;

verus! {

pub struct DiceState {
    pub d1: u8,
    pub d2: u8,
    pub remaining: Vec<u8>,
}

/// The usable values of a fresh roll: the two values themselves, expanded
/// to four copies when the roll is doubles.
pub open spec fn initial_remaining(d1: u8, d2: u8) -> Seq<u8> {
    if d1 == d2 {
        seq![d1, d1, d1, d1]
    } else {
        seq![d1, d2]
    }
}

impl DiceState {
    pub open spec fn wf(self) -> bool {
        &&& 1 <= self.d1 <= 6
        &&& 1 <= self.d2 <= 6
        &&& self.remaining@.len() <= 4
        &&& forall|i: int|
            0 <= i < self.remaining@.len() ==> #[trigger] self.remaining@[i] == self.d1
                || self.remaining@[i] == self.d2
    }

    /// The multiset of usable values: consumption is order-blind.
    pub open spec fn remaining_multiset(self) -> Multiset<u8> {
        self.remaining@.to_multiset()
    }

    /// A fresh turn's dice from the two rolled values; doubles grant four
    /// moves of the rolled value.
    pub fn from_roll(d1: u8, d2: u8) -> (r: DiceState)
        requires
            1 <= d1 <= 6,
            1 <= d2 <= 6,
        ensures
            r.wf(),
            r.d1 == d1,
            r.d2 == d2,
            r.remaining@ == initial_remaining(d1, d2),
    {
        let remaining: Vec<u8> = if d1 == d2 {
            vec![d1, d1, d1, d1]
        } else {
            vec![d1, d2]
        };
        proof {
            assert(remaining@ =~= initial_remaining(d1, d2));
        }
        DiceState { d1, d2, remaining }
    }

    /// Decides the dice invariant, for dice rebuilt from a snapshot.
    #[verifier::loop_isolation(false)]
    pub fn is_well_formed(&self) -> (r: bool)
        ensures
            r == self.wf(),
    {
        if self.d1 < 1 || self.d1 > 6 || self.d2 < 1 || self.d2 > 6 {
            return false;
        }
        if self.remaining.len() > 4 {
            return false;
        }
        let mut i: usize = 0;
        while i < self.remaining.len()
            invariant
                i <= self.remaining@.len(),
                forall|j: int|
                    0 <= j < i ==> #[trigger] self.remaining@[j] == self.d1 || self.remaining@[j]
                        == self.d2,
            decreases self.remaining@.len() - i,
        {
            if self.remaining[i] != self.d1 && self.remaining[i] != self.d2 {
                return false;
            }
            i = i + 1;
        }
        true
    }

    /// Whether the roll was doubles, which granted four moves of the value.
    pub fn is_doubles(&self) -> (r: bool)
        ensures
            r == (self.d1 == self.d2),
    {
        self.d1 == self.d2
    }

    pub fn is_exhausted(&self) -> (r: bool)
        ensures
            r == (self.remaining@.len() == 0),
    {
        self.remaining.len() == 0
    }

    /// Whether one of the unconsumed values equals `die`.
    #[verifier::loop_isolation(false)]
    pub fn has_die(&self, die: u8) -> (r: bool)
        ensures
            r == self.remaining@.contains(die),
    {
        let mut i: usize = 0;
        while i < self.remaining.len()
            invariant
                i <= self.remaining@.len(),
                forall|j: int| 0 <= j < i ==> #[trigger] self.remaining@[j] != die,
            decreases self.remaining@.len() - i,
        {
            if self.remaining[i] == die {
                return true;
            }
            i = i + 1;
        }
        false
    }

    /// Removes one unconsumed value equal to `die`; rejected when no such
    /// value is left, with the dice unchanged.
    #[verifier::loop_isolation(false)]
    pub fn consume(&mut self, die: u8) -> (r: Result<(), DiceError>)
        ensures
            final(self).d1 == old(self).d1,
            final(self).d2 == old(self).d2,
            r is Ok <==> old(self).remaining@.contains(die),
            r is Ok ==> final(self).remaining_multiset() == old(self).remaining_multiset().remove(
                die,
            ) && final(self).remaining@.len() == old(self).remaining@.len() - 1,
            r is Err ==> final(self).remaining@ == old(self).remaining@ && r == Result::<
                (),
                DiceError,
            >::Err(DiceError::ValueNotAvailable),
            old(self).wf() ==> final(self).wf(),
    {
        let mut i: usize = 0;
        while i < self.remaining.len()
            invariant
                i <= self.remaining@.len(),
                forall|j: int| 0 <= j < i ==> #[trigger] self.remaining@[j] != die,
                *self == *old(self),
            decreases self.remaining@.len() - i,
        {
            if self.remaining[i] == die {
                let ghost pre = self.remaining@;
                self.remaining.remove(i);
                proof {
                    broadcast use group_to_multiset_ensures;

                    assert(pre[i as int] == die);
                    assert(pre.contains(die));
                    assert(self.remaining@.to_multiset() == pre.to_multiset().remove(die));
                }
                return Ok(());
            }
            i = i + 1;
        }
        Err(DiceError::ValueNotAvailable)
    }
}

} // verus!
