use vstd::prelude::*;

verus! {

use vstd::arithmetic::div_mod::lemma_multiply_divide_lt;

/// Cut positions for quantile binning of `num_returns` sorted returns into
/// `num_bins` symbols: the k-th threshold (counting from 1) is the sorted
/// return at index `k * num_returns / num_bins`.  When the return count is
/// positive, every cut position is a valid index into the sorted returns.
pub fn quantile_cut_indices(num_returns: usize, num_bins: usize) -> (cuts: Vec<usize>)
    requires
        num_bins >= 1,
        num_returns * num_bins <= usize::MAX,
    ensures
        cuts@.len() == num_bins - 1,
        forall|k: int|
            0 <= k < cuts@.len() ==> cuts@[k] == (k + 1) * (num_returns as int) / (
            num_bins as int),
        num_returns > 0 ==> forall|k: int| 0 <= k < cuts@.len() ==> cuts@[k] < num_returns,
{
    let mut cuts: Vec<usize> = Vec::new();
    let mut i: usize = 1;
    while i < num_bins
        invariant
            1 <= i <= num_bins,
            num_returns * num_bins <= usize::MAX,
            cuts@.len() == i - 1,
            forall|k: int|
                0 <= k < cuts@.len() ==> cuts@[k] == (k + 1) * (num_returns as int) / (
                num_bins as int),
            num_returns > 0 ==> forall|k: int| 0 <= k < cuts@.len() ==> cuts@[k] < num_returns,
        decreases num_bins - i,
    {
        proof {
            assert((i as int) * (num_returns as int) <= (num_bins as int) * (num_returns as int))
                by (nonlinear_arith)
                requires
                    (i as int) <= (num_bins as int),
                    (num_returns as int) >= 0,
            ;
        }
        let position: usize = i * num_returns / num_bins;
        proof {
            if num_returns > 0 {
                assert((i as int) * (num_returns as int) < (num_bins as int) * (num_returns as int))
                    by (nonlinear_arith)
                    requires
                        (i as int) < (num_bins as int),
                        (num_returns as int) > 0,
                ;
                lemma_multiply_divide_lt(
                    (i as int) * (num_returns as int),
                    num_bins as int,
                    num_returns as int,
                );
            }
        }
        cuts.push(position);
        i = i + 1;
    }
    cuts
}

} // verus!
