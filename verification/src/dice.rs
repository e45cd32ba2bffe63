//! Rolling dice, and counting what was rolled.

use crate::roll::{Roll, RollMod, RollSuff};
use crate::text::{decimal, decimal_text, push_char};
use vstd::prelude::*;

verus! {

/// One throw of a die with `size` faces: `rand::random_range` over the
/// faces from one to `size`, by the generator of the thread. Which face
/// comes up is chance; it is one of the faces.
#[verifier::external_body]
fn random_face(size: u32) -> (face: u32)
    requires
        size >= 1,
    ensures
        1 <= face <= size,
{
    rand::random_range(1..=size)
}

/// The sum of `results`.
pub open spec fn sum(results: Seq<u32>) -> nat
    decreases results.len(),
{
    if results.len() == 0 {
        0
    } else {
        sum(results.drop_last()) + results.last() as nat
    }
}

/// The place of the first of the highest of `results`.
pub open spec fn highest_at(results: Seq<u32>) -> int
    decreases results.len(),
{
    if results.len() <= 1 {
        0
    } else {
        let before = highest_at(results.drop_last());
        if results.last() > results[before] {
            results.len() - 1
        } else {
            before
        }
    }
}

/// The place of the first of the lowest of `results`.
pub open spec fn lowest_at(results: Seq<u32>) -> int
    decreases results.len(),
{
    if results.len() <= 1 {
        0
    } else {
        let before = lowest_at(results.drop_last());
        if results.last() < results[before] {
            results.len() - 1
        } else {
            before
        }
    }
}

/// The highest of `results`; nothing where there are none.
pub open spec fn highest(results: Seq<u32>) -> nat {
    if results.len() == 0 {
        0
    } else {
        results[highest_at(results)] as nat
    }
}

/// The lowest of `results`; nothing where there are none.
pub open spec fn lowest(results: Seq<u32>) -> nat {
    if results.len() == 0 {
        0
    } else {
        results[lowest_at(results)] as nat
    }
}

/// The sum of the highest `kept` of `results`, or of all where there are
/// fewer.
pub open spec fn kept_sum(results: Seq<u32>, kept: nat) -> nat
    decreases kept,
{
    if kept == 0 || results.len() == 0 {
        0
    } else {
        highest(results) + kept_sum(results.remove(highest_at(results)), (kept - 1) as nat)
    }
}

/// What `results` count for under `suff`: their sum, the highest, the
/// lowest, or the sum of the highest so many.
pub open spec fn counted(suff: RollSuff, results: Seq<u32>) -> nat {
    match suff {
        RollSuff::Plain => sum(results),
        RollSuff::Advantage => highest(results),
        RollSuff::Disadvantage => lowest(results),
        RollSuff::Keep(kept) => kept_sum(results, kept as nat),
    }
}

/// The places that [`highest_at`] and [`lowest_at`] name are places of
/// `results`, and nothing there is higher, or lower, than what is at them.
pub proof fn lemma_extremes(results: Seq<u32>)
    requires
        results.len() > 0,
    ensures
        0 <= highest_at(results) < results.len(),
        0 <= lowest_at(results) < results.len(),
        forall|i: int| 0 <= i < results.len() ==> #[trigger] results[i] <= highest(results),
        forall|i: int| 0 <= i < results.len() ==> #[trigger] results[i] >= lowest(results),
    decreases results.len(),
{
    if results.len() > 1 {
        let before = results.drop_last();
        lemma_extremes(before);
        assert forall|i: int| 0 <= i < results.len() implies #[trigger] results[i] <= highest(
            results,
        ) && results[i] >= lowest(results) by {
            if i < before.len() {
                assert(before[i] == results[i]);
            }
        }
    }
}

/// A sum is at most as many times the largest number as there are numbers.
pub proof fn lemma_sum_bound(results: Seq<u32>)
    ensures
        sum(results) <= results.len() * u32::MAX,
    decreases results.len(),
{
    if results.len() > 0 {
        lemma_sum_bound(results.drop_last());
        assert((results.len() - 1) * u32::MAX + u32::MAX == results.len() * u32::MAX)
            by (nonlinear_arith);
    }
}

/// The place of the first of the highest of `results`.
pub fn highest_position(results: &Vec<u32>) -> (at: usize)
    requires
        results@.len() > 0,
    ensures
        at == highest_at(results@),
        at < results@.len(),
{
    let mut at: usize = 0;
    let mut i: usize = 1;
    assert(results@.take(1).drop_last() =~= Seq::<u32>::empty());
    while i < results.len()
        invariant
            1 <= i <= results@.len(),
            at == highest_at(results@.take(i as int)),
            at < i,
        decreases results@.len() - i,
    {
        assert(results@.take(i + 1).drop_last() =~= results@.take(i as int));
        if results[i] > results[at] {
            at = i;
        }
        i += 1;
    }
    assert(results@.take(i as int) =~= results@);
    at
}

/// The place of the first of the lowest of `results`.
pub fn lowest_position(results: &Vec<u32>) -> (at: usize)
    requires
        results@.len() > 0,
    ensures
        at == lowest_at(results@),
        at < results@.len(),
{
    let mut at: usize = 0;
    let mut i: usize = 1;
    while i < results.len()
        invariant
            1 <= i <= results@.len(),
            at == lowest_at(results@.take(i as int)),
            at < i,
        decreases results@.len() - i,
    {
        assert(results@.take(i + 1).drop_last() =~= results@.take(i as int));
        if results[i] < results[at] {
            at = i;
        }
        i += 1;
    }
    assert(results@.take(i as int) =~= results@);
    at
}

/// What `results` count for under `suff`.
pub fn rolls_total(suff: RollSuff, results: &Vec<u32>) -> (total: u64)
    requires
        results@.len() <= u32::MAX,
    ensures
        total == counted(suff, results@),
{
    match suff {
        RollSuff::Plain => {
            let mut total: u64 = 0;
            let mut i: usize = 0;
            assert(results@.take(0) =~= Seq::<u32>::empty());
            while i < results.len()
                invariant
                    i <= results@.len(),
                    results@.len() <= u32::MAX,
                    total == sum(results@.take(i as int)),
                decreases results@.len() - i,
            {
                proof {
                    assert(results@.take(i + 1).drop_last() =~= results@.take(i as int));
                    lemma_sum_bound(results@.take(i + 1));
                    assert((i + 1) * u32::MAX <= u32::MAX * u32::MAX) by (nonlinear_arith)
                        requires
                            i + 1 <= u32::MAX,
                    ;
                }
                total = total + results[i] as u64;
                i += 1;
            }
            assert(results@.take(i as int) =~= results@);
            total
        },
        RollSuff::Advantage => {
            if results.len() == 0 {
                0
            } else {
                results[highest_position(results)] as u64
            }
        },
        RollSuff::Disadvantage => {
            if results.len() == 0 {
                0
            } else {
                results[lowest_position(results)] as u64
            }
        },
        RollSuff::Keep(kept) => {
            let mut left: Vec<u32> = results.clone();
            let mut total: u64 = 0;
            let mut taken: u32 = 0;
            while taken < kept && left.len() > 0
                invariant
                    taken <= kept,
                    left@.len() + taken == results@.len(),
                    results@.len() <= u32::MAX,
                    total <= taken * u32::MAX,
                    total + kept_sum(left@, (kept - taken) as nat) == kept_sum(
                        results@,
                        kept as nat,
                    ),
                decreases left@.len(),
            {
                let at = highest_position(&left);
                proof {
                    assert((taken + 1) * u32::MAX == taken * u32::MAX + u32::MAX)
                        by (nonlinear_arith);
                    assert((taken + 1) * u32::MAX <= u32::MAX * u32::MAX) by (nonlinear_arith)
                        requires
                            taken + 1 <= u32::MAX,
                    ;
                }
                total = total + left[at] as u64;
                left.remove(at);
                taken += 1;
            }
            total
        },
    }
}

impl Roll {
    /// Throw the dice of the roll: as many as its quantity, and one where
    /// that is none.
    pub fn throw(&self) -> (results: Vec<u32>)
        requires
            self.size >= 1,
        ensures
            results@.len() == (if self.quantity == 0 { 1 } else { self.quantity as int }),
            forall|i: int| 0 <= i < results@.len() ==> 1 <= #[trigger] results@[i] <= self.size,
    {
        let count = if self.quantity == 0 {
            1
        } else {
            self.quantity
        };
        let mut results: Vec<u32> = Vec::new();
        let mut i: u32 = 0;
        while i < count
            invariant
                i <= count,
                self.size >= 1,
                results@.len() == i,
                forall|k: int| 0 <= k < results@.len() ==> 1 <= #[trigger] results@[k] <= self.size,
            decreases count - i,
        {
            results.push(random_face(self.size));
            i += 1;
        }
        results
    }

    /// A copy of the roll.
    pub fn copy(&self) -> (roll: Roll)
        ensures
            roll@ == self@,
    {
        let mut mods: Vec<RollMod> = Vec::new();
        let mut i: usize = 0;
        while i < self.mods.len()
            invariant
                i <= self.mods@.len(),
                mods@.len() == i,
                forall|k: int| 0 <= k < i ==> (#[trigger] mods@[k])@ == self.mods@[k]@,
            decreases self.mods@.len() - i,
        {
            mods.push(RollMod { op: self.mods[i].op, amount: self.mods[i].amount.clone() });
            i += 1;
        }
        let roll = Roll { quantity: self.quantity, size: self.size, suff: self.suff, mods };
        assert(roll@.mods =~= self@.mods);
        roll
    }

    /// Throw the dice of the roll and keep what came up.
    pub fn resolve(self) -> (outcome: RollOutcome)
        requires
            self.size >= 1,
        ensures
            outcome.roll == self,
            outcome.results@.len() == (if self.quantity == 0 { 1 } else { self.quantity as int }),
            forall|i: int|
                0 <= i < outcome.results@.len() ==> 1 <= #[trigger] outcome.results@[i]
                    <= self.size,
    {
        let results = self.throw();
        RollOutcome { roll: self, results }
    }
}

/// A roll, and what its dice came up with.
#[derive(Debug, Clone, PartialEq, Eq)]
pub struct RollOutcome {
    pub roll: Roll,
    pub results: Vec<u32>,
}

/// `results` written in decimal, with a comma and a space between one and
/// the next.
pub open spec fn listed(results: Seq<u32>) -> Seq<char>
    decreases results.len(),
{
    if results.len() == 0 {
        Seq::empty()
    } else if results.len() == 1 {
        decimal(results[0] as nat)
    } else {
        listed(results.drop_last()) + seq![',', ' '] + decimal(results.last() as nat)
    }
}

impl RollOutcome {
    /// The roll that was made.
    pub fn into_roll(self) -> (roll: Roll)
        ensures
            roll == self.roll,
    {
        self.roll
    }

    /// A copy of the roll that was made.
    pub fn clone_roll(&self) -> (roll: Roll)
        ensures
            roll@ == self.roll@,
    {
        self.roll.copy()
    }

    /// What the dice count for, before the modifiers of the roll.
    pub fn total(&self) -> (total: u64)
        requires
            self.results@.len() <= u32::MAX,
        ensures
            total == counted(self.roll.suff, self.results@),
    {
        rolls_total(self.roll.suff, &self.results)
    }

    /// What the dice came up with, in the order they were thrown.
    pub fn format_results(&self) -> (text: String)
        ensures
            text@ == listed(self.results@),
    {
        let mut text = String::new();
        let mut i: usize = 0;
        assert(self.results@.take(0) =~= Seq::<u32>::empty());
        while i < self.results.len()
            invariant
                i <= self.results@.len(),
                text@ == listed(self.results@.take(i as int)),
            decreases self.results@.len() - i,
        {
            let ghost before = text@;
            if i > 0 {
                push_char(&mut text, ',');
                push_char(&mut text, ' ');
            }
            let number = decimal_text(self.results[i] as u64);
            text.append(number.as_str());
            proof {
                let now = self.results@.take(i + 1);
                assert(now.drop_last() =~= self.results@.take(i as int));
                if i > 0 {
                    assert(text@ =~= before + seq![',', ' '] + decimal(now.last() as nat));
                } else {
                    assert(text@ =~= decimal(now[0] as nat));
                }
            }
            i += 1;
        }
        assert(self.results@.take(i as int) =~= self.results@);
        text
    }
}

} // verus!
