//! Weighted rule sets: the choice among several productions by a random draw.

use vstd::prelude::*;
use vstd::slice::slice_to_vec;
use crate::accu::{
    accumulate, is_cumulative, is_distribution, lemma_partial_sum_monotonic, overflows, partial_sum,
    WeightError, UNIT,
};

verus! {

/// Why a weighted choice gave no production.
#[derive(Clone, Copy, Debug, PartialEq, Eq, Structural)]
pub enum RuleError {
    /// The weights are no distribution.
    Weights(WeightError),
    /// There are not as many productions as weights.
    CountMismatch,
    /// The draw is not below any bound: it is `UNIT` or more.
    DrawOutOfRange,
}

/// `bounds[k]` is the first bound that is larger than `rand`.
pub open spec fn selects(bounds: Seq<u32>, rand: u32, k: int) -> bool {
    &&& 0 <= k < bounds.len()
    &&& rand < bounds[k]
    &&& forall|j: int| 0 <= j < k ==> rand >= #[trigger] bounds[j]
}

/// `rand` falls into the share of the `k`-th weight: it is at least the sum
/// of the weights before it and less than that sum with the weight itself.
pub open spec fn in_share(terms: Seq<u32>, rand: u32, k: int) -> bool {
    &&& 0 <= k < terms.len()
    &&& partial_sum(terms, k) <= rand < partial_sum(terms, k + 1)
}

/// The first bound above the draw is the bound of the share that holds it.
pub proof fn lemma_selects_share(bounds: Seq<u32>, terms: Seq<u32>, rand: u32, k: int)
    requires
        is_cumulative(bounds, terms),
        selects(bounds, rand, k),
    ensures
        in_share(terms, rand, k),
{
    if k > 0 {
        assert(rand >= bounds[k - 1]);
    }
}

/// The index of the first bound above `rand`, if there is one.
fn position(bounds: &[u32], rand: u32) -> (out: Option<usize>)
    ensures
        match out {
            Some(k) => selects(bounds@, rand, k as int),
            None => forall|j: int| 0 <= j < bounds@.len() ==> rand >= #[trigger] bounds@[j],
        },
{
    let mut k: usize = 0;
    while k < bounds.len()
        invariant
            0 <= k <= bounds@.len(),
            forall|j: int| 0 <= j < k ==> rand >= #[trigger] bounds@[j],
        decreases bounds@.len() - k,
    {
        if rand < bounds[k] {
            return Some(k);
        }
        k += 1;
    }
    None
}

/// Chooses among `patterns` by the draw `rand`: the production whose weight
/// holds `rand` in its share of `0 .. UNIT`.
///
/// The weights are checked first, then the number of productions, then the
/// draw; the first fault found is the error returned.
pub fn rules<T, const N: usize>(rand: u32, probs: [u32; N], patterns: Vec<Vec<T>>) -> (out: Result<
    Vec<T>,
    RuleError,
>)
    ensures
        out is Ok <==> is_distribution(probs@) && patterns@.len() == N && rand < UNIT,
        out matches Ok(chosen) ==> exists|k: int|
            in_share(probs@, rand, k) && chosen == #[trigger] patterns@[k],
        out matches Err(e) ==> e == if overflows(probs@) {
            RuleError::Weights(WeightError::ProbabilityOverflow)
        } else if !is_distribution(probs@) {
            RuleError::Weights(WeightError::SumTooSmall)
        } else if patterns@.len() != N {
            RuleError::CountMismatch
        } else {
            RuleError::DrawOutOfRange
        },
{
    let bounds = match accumulate(probs) {
        Ok(b) => b,
        Err(e) => { return Err(RuleError::Weights(e)); },
    };
    if patterns.len() != N {
        return Err(RuleError::CountMismatch);
    }
    let mut patterns = patterns;
    match position(bounds.as_slice(), rand) {
        Some(k) => {
            proof {
                lemma_selects_share(bounds@, probs@, rand, k as int);
            }
            Ok(patterns.swap_remove(k))
        },
        None => Err(RuleError::DrawOutOfRange),
    }
}

/// A weighted rule set: the productions among which a draw chooses, with
/// weights that were found to be a distribution when the set was made.
pub struct RuleSet<T> {
    weights: Vec<u32>,
    bounds: Vec<u32>,
    patterns: Vec<Vec<T>>,
}

impl<T> RuleSet<T> {
    #[verifier::type_invariant]
    spec fn wf(self) -> bool {
        &&& is_distribution(self.weights@)
        &&& is_cumulative(self.bounds@, self.weights@)
        &&& self.patterns@.len() == self.weights@.len()
    }

    /// The weights, in the order in which they were given.
    pub closed spec fn weights(&self) -> Seq<u32> {
        self.weights@
    }

    /// The productions, in the order in which they were given.
    pub closed spec fn patterns(&self) -> Seq<Vec<T>> {
        self.patterns@
    }

    /// A rule set of `patterns` weighted by `probs`. Weights that are no
    /// distribution are turned down here, and so is a number of productions
    /// that differs from the number of weights.
    pub fn new<const N: usize>(probs: [u32; N], patterns: Vec<Vec<T>>) -> (out: Result<
        Self,
        RuleError,
    >)
        ensures
            out is Ok <==> is_distribution(probs@) && patterns@.len() == N,
            out matches Ok(set) ==> set.weights() == probs@ && set.patterns() == patterns@,
            out matches Err(e) ==> e == if overflows(probs@) {
                RuleError::Weights(WeightError::ProbabilityOverflow)
            } else if !is_distribution(probs@) {
                RuleError::Weights(WeightError::SumTooSmall)
            } else {
                RuleError::CountMismatch
            },
    {
        let totals = match accumulate(probs) {
            Ok(b) => b,
            Err(e) => { return Err(RuleError::Weights(e)); },
        };
        if patterns.len() != N {
            return Err(RuleError::CountMismatch);
        }
        let weights = slice_to_vec(probs.as_slice());
        let bounds = slice_to_vec(totals.as_slice());
        Ok(RuleSet { weights, bounds, patterns })
    }

    /// The production that the draw `rand` chooses: the one whose weight
    /// holds `rand` in its share of `0 .. UNIT`. A draw of `UNIT` or more
    /// chooses none.
    pub fn select(&self, rand: u32) -> (out: Result<&Vec<T>, RuleError>)
        ensures
            out is Ok <==> rand < UNIT,
            out matches Ok(chosen) ==> exists|k: int|
                in_share(self.weights(), rand, k) && *chosen == #[trigger] self.patterns()[k],
            out matches Err(e) ==> e == RuleError::DrawOutOfRange,
    {
        proof {
            use_type_invariant(self);
        }
        let ghost count = self.weights@.len() as int;
        assert(count > 0 && self.bounds@[count - 1] == UNIT);
        match position(self.bounds.as_slice(), rand) {
            Some(k) => {
                proof {
                    lemma_selects_share(self.bounds@, self.weights@, rand, k as int);
                    lemma_partial_sum_monotonic(self.weights@, k + 1, count);
                    assert(self.patterns@[k as int] == self.patterns()[k as int]);
                }
                Ok(&self.patterns[k])
            },
            None => Err(RuleError::DrawOutOfRange),
        }
    }
}

} // verus!
