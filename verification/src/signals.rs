use vstd::prelude::*;

verus! {

/// Trading action attached to a decoded hidden-state index: state 0 maps to a
/// buy signal (1), state 1 to a sell signal (-1), and every other state to
/// hold (0).  The labels are a caller-side convention; the engine itself
/// treats states as opaque indices.
pub open spec fn signal_for_state(state: int) -> int {
    if state == 0 {
        1
    } else if state == 1 {
        -1
    } else {
        0
    }
}

/// Maps each decoded regime index of a path to its trading signal.
pub fn generate_trading_signals(regimes: &[usize]) -> (signals: Vec<i32>)
    ensures
        signals@.len() == regimes@.len(),
        forall|k: int|
            0 <= k < regimes@.len() ==> signals@[k] == signal_for_state(regimes@[k] as int),
{
    let mut signals: Vec<i32> = Vec::new();
    let mut idx: usize = 0;
    while idx < regimes.len()
        invariant
            idx <= regimes@.len(),
            signals@.len() == idx,
            forall|k: int|
                0 <= k < idx ==> signals@[k] == signal_for_state(regimes@[k] as int),
        decreases regimes@.len() - idx,
    {
        let state: usize = *vstd::slice::slice_index_get(regimes, idx);
        let action: i32 = match state {
            0 => 1,
            1 => -1,
            _ => 0,
        };
        signals.push(action);
        idx = idx + 1;
    }
    signals
}

} // verus!
