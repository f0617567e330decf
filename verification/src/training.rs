use vstd::prelude::*;

verus! {

/// Number of Baum-Welch expectation/maximization passes that one training
/// call performs over the parameter store: none at all for an empty
/// observation sequence, otherwise exactly the requested iteration count —
/// there is no convergence check and no early exit.
pub open spec fn scheduled_passes(sequence_len: nat, iterations: nat) -> nat {
    if sequence_len == 0 {
        0nat
    } else {
        iterations
    }
}

/// Decides how many update passes a training call runs.  The trainer mutates
/// the parameter store once per scheduled pass and never otherwise, so a
/// result of zero means the store is left unchanged.
pub fn baum_welch_passes(sequence_len: usize, iterations: usize) -> (passes: usize)
    ensures
        passes as nat == scheduled_passes(sequence_len as nat, iterations as nat),
{
    if sequence_len == 0 {
        0
    } else {
        iterations
    }
}

/// The support of the emission re-estimation sum: the time steps at which a
/// given symbol was observed, in increasing order, each exactly once.  The
/// update for an emission entry divides the posterior mass collected over
/// exactly these steps by the mass collected over all steps.
pub fn symbol_positions(observations: &Vec<usize>, symbol: usize) -> (positions: Vec<usize>)
    ensures
        forall|k: int|
            0 <= k < positions@.len() ==> (#[trigger] positions@[k]) < observations@.len()
                && observations@[positions@[k] as int] == symbol,
        forall|k1: int, k2: int|
            0 <= k1 < k2 < positions@.len() ==> positions@[k1] < positions@[k2],
        forall|t: int|
            0 <= t < observations@.len() && observations@[t] == symbol ==> exists|k: int|
                0 <= k < positions@.len() && positions@[k] == t,
{
    let mut positions: Vec<usize> = Vec::new();
    let mut t: usize = 0;
    while t < observations.len()
        invariant
            t <= observations@.len(),
            forall|k: int|
                0 <= k < positions@.len() ==> (#[trigger] positions@[k]) < t
                    && observations@[positions@[k] as int] == symbol,
            forall|k1: int, k2: int|
                0 <= k1 < k2 < positions@.len() ==> positions@[k1] < positions@[k2],
            forall|tt: int|
                0 <= tt < t && observations@[tt] == symbol ==> exists|k: int|
                    0 <= k < positions@.len() && positions@[k] == tt,
        decreases observations@.len() - t,
    {
        let ghost previous = positions@;
        if observations[t] == symbol {
            positions.push(t);
        }
        proof {
            assert forall|tt: int|
                0 <= tt < t + 1 && observations@[tt] == symbol implies exists|k: int|
                    0 <= k < positions@.len() && positions@[k] == tt by {
                if tt == t as int {
                    assert(positions@ == previous.push(t));
                    assert(positions@[previous.len() as int] == t);
                } else {
                    let k = choose|k: int|
                        0 <= k < previous.len() && previous[k] == tt;
                    assert(positions@[k] == tt);
                }
            }
        }
        t = t + 1;
    }
    positions
}

/// Training on an empty observation sequence is a no-op: no update pass is
/// scheduled, whatever the iteration count, so the parameter store stays
/// unchanged.
pub proof fn lemma_empty_sequence_trains_nothing(iterations: nat)
    ensures
        scheduled_passes(0, iterations) == 0,
{
}

/// Training for zero iterations is a no-op: no update pass is scheduled,
/// whatever the sequence, so the parameter store stays unchanged.
pub proof fn lemma_zero_iterations_train_nothing(sequence_len: nat)
    ensures
        scheduled_passes(sequence_len, 0) == 0,
{
}

} // verus!
