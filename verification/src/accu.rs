//! Cumulative bounds of a list of probability weights.

use vstd::prelude::*;

verus! {

/// The probability 1.0. A weight is a count of `1 / UNIT` parts, which is the
/// resolution of a uniform random draw made from 24 random bits.
pub const UNIT: u32 = 0x100_0000;

/// Why a list of weights is not a probability distribution.
#[derive(Clone, Copy, Debug, PartialEq, Eq, Structural)]
pub enum WeightError {
    /// Some running total is larger than `UNIT`.
    ProbabilityOverflow,
    /// The weights add up to less than `UNIT`.
    SumTooSmall,
}

/// The sum of the first `n` weights.
pub open spec fn partial_sum(terms: Seq<u32>, n: int) -> int
    decreases n,
{
    if n <= 0 {
        0
    } else {
        partial_sum(terms, n - 1) + terms[n - 1]
    }
}

/// Some running total of the weights is larger than `UNIT`.
pub open spec fn overflows(terms: Seq<u32>) -> bool {
    exists|n: int| 0 < n <= terms.len() && #[trigger] partial_sum(terms, n) > UNIT
}

/// The weights form a distribution: they add up to exactly `UNIT`.
pub open spec fn is_distribution(terms: Seq<u32>) -> bool {
    partial_sum(terms, terms.len() as int) == UNIT
}

/// `bounds` holds the running totals of `terms`.
pub open spec fn is_cumulative(bounds: Seq<u32>, terms: Seq<u32>) -> bool {
    &&& bounds.len() == terms.len()
    &&& forall|i: int| 0 <= i < terms.len() ==> #[trigger] bounds[i] == partial_sum(terms, i + 1)
}

/// Running totals never shrink as more weights are taken in.
pub proof fn lemma_partial_sum_monotonic(terms: Seq<u32>, m: int, n: int)
    requires
        0 <= m <= n,
    ensures
        partial_sum(terms, m) <= partial_sum(terms, n),
    decreases n - m,
{
    if m < n {
        lemma_partial_sum_monotonic(terms, m, n - 1);
    }
}

/// The running totals of `terms`, or the reason why `terms` is no distribution.
///
/// The result is `Ok` exactly when the weights add up to `UNIT`. The bounds
/// then never decrease and the last one is `UNIT`. A running total above
/// `UNIT` is reported as `ProbabilityOverflow`; otherwise a total below `UNIT`
/// is reported as `SumTooSmall`.
pub fn accumulate<const N: usize>(terms: [u32; N]) -> (out: Result<[u32; N], WeightError>)
    ensures
        out is Ok <==> is_distribution(terms@),
        out == Err::<[u32; N], WeightError>(WeightError::ProbabilityOverflow) <==> overflows(
            terms@,
        ),
        out == Err::<[u32; N], WeightError>(WeightError::SumTooSmall) <==> !overflows(terms@)
            && partial_sum(terms@, N as int) < UNIT,
        out matches Ok(bounds) ==> {
            &&& is_cumulative(bounds@, terms@)
            &&& forall|i: int, j: int| 0 <= i <= j < N ==> bounds@[i] <= bounds@[j]
            &&& N > 0
            &&& bounds@[N - 1] == UNIT
        },
{
    let mut sums: [u32; N] = [0u32; N];
    let mut sum: u32 = 0;
    let mut i: usize = 0;
    while i < N
        invariant
            0 <= i <= N,
            sum == partial_sum(terms@, i as int),
            sum <= UNIT,
            forall|k: int| 0 <= k < i ==> #[trigger] sums@[k] == partial_sum(terms@, k + 1),
            forall|n: int| 0 < n <= i ==> #[trigger] partial_sum(terms@, n) <= UNIT,
        decreases N - i,
    {
        let term = terms[i];
        if term > UNIT - sum {
            assert(partial_sum(terms@, i + 1) > UNIT);
            proof {
                lemma_partial_sum_monotonic(terms@, i + 1, N as int);
            }
            return Err(WeightError::ProbabilityOverflow);
        }
        sum = sum + term;
        sums[i] = sum;
        i += 1;
    }
    if sum < UNIT {
        return Err(WeightError::SumTooSmall);
    }
    assert forall|a: int, b: int| 0 <= a <= b < N implies sums@[a] <= sums@[b] by {
        lemma_partial_sum_monotonic(terms@, a + 1, b + 1);
    }
    assert(N > 0);
    Ok(sums)
}

} // verus!
