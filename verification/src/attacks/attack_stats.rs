use vstd::prelude::*;

verus! {

/// What one run of an attack cost: the number of messages that it had the
/// generator produce.
#[derive(Clone, Copy, Debug)]
pub struct AttackStats {
    pub generated_messages_count: u64,
}

impl Default for AttackStats {
    fn default() -> (stats: Self)
        ensures
            stats.generated_messages_count == 0,
    {
        Self { generated_messages_count: 0 }
    }
}

/// What a sequence of observations comes to: their sum, the sum of their
/// squares, and how many they are.
pub ghost struct Totals {
    pub sum: nat,
    pub squares_sum: nat,
    pub count: nat,
}

impl Totals {
    /// The totals of no observation at all.
    pub open spec fn zero() -> Totals {
        Totals { sum: 0, squares_sum: 0, count: 0 }
    }

    /// The totals with one more observation folded in.
    pub open spec fn including(self, observation: nat) -> Totals {
        Totals {
            sum: self.sum + observation,
            squares_sum: self.squares_sum + observation * observation,
            count: self.count + 1,
        }
    }

    /// The totals can be held: the two sums in 128 bits, the count in 64.
    pub open spec fn fits(self) -> bool {
        &&& self.sum <= u128::MAX
        &&& self.squares_sum <= u128::MAX
        &&& self.count <= u64::MAX
    }
}

/// The totals of `observations`, folded in one after another.
pub open spec fn totals_of(observations: Seq<u64>) -> Totals
    decreases observations.len(),
{
    if observations.len() == 0 {
        Totals::zero()
    } else {
        totals_of(observations.drop_last()).including(observations.last() as nat)
    }
}

/// Two observations can be folded in in either order.
pub proof fn lemma_include_commutes(totals: Totals, first: nat, second: nat)
    ensures
        totals.including(first).including(second) == totals.including(second).including(first),
{
}

/// An observation can be taken out of its place and folded in last.
pub proof fn lemma_totals_of_remove(observations: Seq<u64>, i: int)
    requires
        0 <= i < observations.len(),
    ensures
        totals_of(observations) == totals_of(observations.remove(i)).including(
            observations[i] as nat,
        ),
    decreases observations.len(),
{
    if i != observations.len() - 1 {
        let rest = observations.remove(i);
        lemma_totals_of_remove(observations.drop_last(), i);
        assert(rest.drop_last() =~= observations.drop_last().remove(i));
        lemma_include_commutes(
            totals_of(rest.drop_last()),
            observations[i] as nat,
            observations.last() as nat,
        );
    }
}

/// The totals do not depend on the order of the observations: two
/// sequences that hold the same observations, each as often as the other,
/// come to the same totals.
pub proof fn lemma_totals_of_permutation(first: Seq<u64>, second: Seq<u64>)
    requires
        first.to_multiset() == second.to_multiset(),
    ensures
        totals_of(first) == totals_of(second),
    decreases first.len(),
{
    first.to_multiset_ensures();
    second.to_multiset_ensures();
    if first.len() > 0 {
        let observation = first.last();
        let last = first.len() - 1;
        assert(second.to_multiset().count(observation) > 0);
        let i = choose|i: int| 0 <= i < second.len() && second[i] == observation;
        assert(first.remove(last).to_multiset() =~= first.to_multiset().remove(first[last]));
        lemma_totals_of_permutation(first.drop_last(), second.remove(i));
        lemma_totals_of_remove(second, i);
    }
}

/// Why the cumulative statistics refused a call.
#[derive(Clone, Copy, Debug, PartialEq, Eq, Structural)]
pub enum StatsError {
    /// One more observation would take a sum or the count beyond what
    /// their integers hold.
    Overflow,
    /// No observation has been included yet, so there is nothing to
    /// derive a mean or a variance from.
    NoData,
}

/// The running totals over the runs of one configuration: the sum of the
/// counts, the sum of their squares, and how many runs were included.
///
/// The sums are held in 128 bits, so that the square of any 64-bit count
/// fits, and an overflow is refused instead of wrapping round.
#[derive(Debug)]
pub struct CumulativeAttackStats {
    sum: u128,
    squares_sum: u128,
    count: u64,
}

impl View for CumulativeAttackStats {
    type V = Totals;

    closed spec fn view(&self) -> Totals {
        Totals {
            sum: self.sum as nat,
            squares_sum: self.squares_sum as nat,
            count: self.count as nat,
        }
    }
}

impl Default for CumulativeAttackStats {
    /// Statistics over no run at all.
    fn default() -> (stats: Self)
        ensures
            stats@ == Totals::zero(),
    {
        Self { sum: 0, squares_sum: 0, count: 0 }
    }
}

impl CumulativeAttackStats {
    /// Folds one more run in. Where the new totals cannot be held, the
    /// call is refused and the statistics stay as they were.
    pub fn include_attack(&mut self, attack: &AttackStats) -> (outcome: Result<(), StatsError>)
        ensures
            match outcome {
                Ok(()) => {
                    &&& old(self)@.including(attack.generated_messages_count as nat).fits()
                    &&& final(self)@ == old(self)@.including(
                        attack.generated_messages_count as nat,
                    )
                },
                Err(error) => {
                    &&& !old(self)@.including(attack.generated_messages_count as nat).fits()
                    &&& error == StatsError::Overflow
                    &&& final(self)@ == old(self)@
                },
            },
    {
        let observation: u128 = attack.generated_messages_count as u128;
        let square = match observation.checked_mul(observation) {
            Some(square) => square,
            None => {
                return Err(StatsError::Overflow);
            },
        };
        let sum = match self.sum.checked_add(observation) {
            Some(sum) => sum,
            None => {
                return Err(StatsError::Overflow);
            },
        };
        let squares_sum = match self.squares_sum.checked_add(square) {
            Some(squares_sum) => squares_sum,
            None => {
                return Err(StatsError::Overflow);
            },
        };
        let count = match self.count.checked_add(1) {
            Some(count) => count,
            None => {
                return Err(StatsError::Overflow);
            },
        };
        self.sum = sum;
        self.squares_sum = squares_sum;
        self.count = count;
        Ok(())
    }

    /// The sum of the counts of the runs included.
    pub fn sum(&self) -> (sum: u128)
        ensures
            sum == self@.sum,
    {
        self.sum
    }

    /// The sum of the squares of the counts of the runs included.
    pub fn squares_sum(&self) -> (squares_sum: u128)
        ensures
            squares_sum == self@.squares_sum,
    {
        self.squares_sum
    }

    /// How many runs were included.
    pub fn count(&self) -> (count: u64)
        ensures
            count == self@.count,
    {
        self.count
    }

    /// The totals that a mean, a variance or a confidence interval is
    /// derived from: the sum, the sum of squares and the count, in this
    /// order. They are refused as long as no run has been included.
    pub fn observed(&self) -> (totals: Result<(u128, u128, u64), StatsError>)
        ensures
            match totals {
                Ok((sum, squares_sum, count)) => {
                    &&& count > 0
                    &&& sum == self@.sum
                    &&& squares_sum == self@.squares_sum
                    &&& count == self@.count
                },
                Err(error) => self@.count == 0 && error == StatsError::NoData,
            },
    {
        if self.count == 0 {
            Err(StatsError::NoData)
        } else {
            Ok((self.sum, self.squares_sum, self.count))
        }
    }
}

} // verus!
