use vstd::prelude::*;

verus! {

/// Every symbol of the sequence lies in `[0, num_symbols)`.
pub open spec fn symbols_in_range(observations: Seq<usize>, num_symbols: int) -> bool {
    forall|t: int| 0 <= t < observations.len() ==> observations[t] < num_symbols
}

/// Fail-fast check that an observation sequence only holds symbols the
/// emission tables have a column for; a caller rejects the sequence as an
/// invalid observation when this returns false, rather than indexing out of
/// range deep inside a recursion.
pub fn observations_in_range(observations: &Vec<usize>, num_symbols: usize) -> (ok: bool)
    ensures
        ok == symbols_in_range(observations@, num_symbols as int),
{
    let mut t: usize = 0;
    while t < observations.len()
        invariant
            t <= observations@.len(),
            forall|k: int| 0 <= k < t ==> observations@[k] < num_symbols,
        decreases observations@.len() - t,
    {
        if observations[t] >= num_symbols {
            assert(!symbols_in_range(observations@, num_symbols as int));
            return false;
        }
        t = t + 1;
    }
    true
}

/// Shape check for a probability table: there is one row per state and every
/// row has the declared number of columns.  The caller hands in the length of
/// each row; a mismatch is an invalid shape and fails before any computation.
pub fn row_lengths_match(
    row_lengths: &Vec<usize>,
    expected_rows: usize,
    expected_cols: usize,
) -> (ok: bool)
    ensures
        ok == (row_lengths@.len() == expected_rows && forall|i: int|
            0 <= i < row_lengths@.len() ==> row_lengths@[i] == expected_cols),
{
    if row_lengths.len() != expected_rows {
        return false;
    }
    let mut i: usize = 0;
    while i < row_lengths.len()
        invariant
            i <= row_lengths@.len(),
            forall|k: int| 0 <= k < i ==> row_lengths@[k] == expected_cols,
        decreases row_lengths@.len() - i,
    {
        if row_lengths[i] != expected_cols {
            assert(row_lengths@[i as int] != expected_cols);
            return false;
        }
        i = i + 1;
    }
    true
}

} // verus!
