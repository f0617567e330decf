use vstd::prelude::*;

verus! {

/// Well-formed backpointer table for a decode over `num_states` states: one
/// row per time step, one entry per target state, and every entry names a
/// valid source state.
pub open spec fn backpointers_wf(bp: Seq<Seq<usize>>, num_states: int) -> bool {
    forall|t: int|
        0 <= t < bp.len() ==> (#[trigger] bp[t]).len() == num_states && forall|j: int|
            0 <= j < bp[t].len() ==> bp[t][j] < num_states
}

/// The chronological state path that the backpointers determine: it has one
/// state per time step, ends in `last_state`, and each earlier entry is the
/// recorded best predecessor of the entry that follows it.
pub open spec fn is_backtracked_path(path: Seq<usize>, bp: Seq<Seq<usize>>, last_state: usize) -> bool {
    &&& path.len() == bp.len()
    &&& (bp.len() > 0 ==> path[bp.len() - 1] == last_state)
    &&& forall|t: int| 1 <= t < bp.len() ==> path[t - 1] == bp[t][#[trigger] path[t] as int]
}

/// A decode over a single time step returns exactly the chosen final state:
/// the path of a one-row backpointer table is the one-element sequence that
/// holds it.  The scoring pass chooses that state as the argmax of the
/// initial distribution times the first symbol's emission column, lowest
/// index first on ties, so for length-1 input the decoded path is that
/// argmax alone.
pub proof fn lemma_single_step_path(path: Seq<usize>, bp: Seq<Seq<usize>>, last_state: usize)
    requires
        bp.len() == 1,
        is_backtracked_path(path, bp, last_state),
    ensures
        path =~= seq![last_state],
{
}

/// `best` is the index of the maximal key, and the first such index: no key
/// exceeds it and every earlier key is strictly below it.
pub open spec fn is_first_argmax(keys: Seq<i64>, best: int) -> bool {
    &&& 0 <= best < keys.len()
    &&& forall|i: int| 0 <= i < keys.len() ==> keys[i] <= keys[best]
    &&& forall|i: int| 0 <= i < best ==> keys[i] < keys[best]
}

/// Argmax with the decoder's tie-break policy: the lowest index wins, first
/// seen first.  The Viterbi scoring pass hands in each score row as
/// order-preserving integer keys and records the winner as a backpointer or
/// as the final state of the path.
pub fn first_argmax(keys: &Vec<i64>) -> (best: usize)
    requires
        keys@.len() >= 1,
    ensures
        is_first_argmax(keys@, best as int),
{
    let mut best: usize = 0;
    let mut i: usize = 1;
    while i < keys.len()
        invariant
            keys@.len() >= 1,
            best < i <= keys@.len(),
            forall|k: int| 0 <= k < i ==> keys@[k] <= keys@[best as int],
            forall|k: int| 0 <= k < best ==> keys@[k] < keys@[best as int],
        decreases keys@.len() - i,
    {
        if keys[i] > keys[best] {
            best = i;
        }
        i = i + 1;
    }
    best
}

/// Positionwise agreement of two paths that backtrack the same table to the
/// same final state, shown from the last time step downwards.
proof fn lemma_backtrack_agree_at(
    p1: Seq<usize>,
    p2: Seq<usize>,
    bp: Seq<Seq<usize>>,
    last_state: usize,
    t: int,
)
    requires
        is_backtracked_path(p1, bp, last_state),
        is_backtracked_path(p2, bp, last_state),
        0 <= t < bp.len(),
    ensures
        p1[t] == p2[t],
    decreases bp.len() - t,
{
    if t < bp.len() - 1 {
        lemma_backtrack_agree_at(p1, p2, bp, last_state, t + 1);
        assert(p1[t] == bp[t + 1][p1[t + 1] as int]);
        assert(p2[t] == bp[t + 1][p2[t + 1] as int]);
    }
}

/// Decoding is deterministic: the backpointer table and the chosen final
/// state determine the decoded path completely, so two paths that backtrack
/// the same table to the same final state are equal.
pub proof fn lemma_backtracked_path_unique(
    p1: Seq<usize>,
    p2: Seq<usize>,
    bp: Seq<Seq<usize>>,
    last_state: usize,
)
    requires
        is_backtracked_path(p1, bp, last_state),
        is_backtracked_path(p2, bp, last_state),
    ensures
        p1 =~= p2,
{
    assert forall|t: int| 0 <= t < bp.len() implies p1[t] == p2[t] by {
        lemma_backtrack_agree_at(p1, p2, bp, last_state, t);
    }
}

/// Backtracking step of the Viterbi decoder: starting from the chosen final
/// state, walks the backpointers from the last time step down to time 0 and
/// returns the most probable state path in chronological order.  The scoring
/// pass that fills the table picks each entry as the argmax over source
/// states, lowest index first on ties, so the walk itself is deterministic.
pub fn backtrack_path(backpointers: &Vec<Vec<usize>>, num_states: usize, last_state: usize) -> (
    path: Vec<usize>)
    requires
        backpointers@.len() >= 1,
        last_state < num_states,
        backpointers_wf(backpointers.deep_view(), num_states as int),
    ensures
        is_backtracked_path(path@, backpointers.deep_view(), last_state),
        forall|t: int| 0 <= t < path@.len() ==> path@[t] < num_states,
{
    let ghost bpv: Seq<Seq<usize>> = backpointers.deep_view();
    let n: usize = backpointers.len();
    proof {
        assert(bpv.len() == n);
    }

    // `rev` holds the path back to front: rev[k] is the state at time n-1-k.
    let mut rev: Vec<usize> = Vec::new();
    rev.push(last_state);
    let mut t: usize = n - 1;
    while t >= 1
        invariant
            1 <= n,
            t <= n - 1,
            n == backpointers@.len(),
            bpv == backpointers.deep_view(),
            backpointers_wf(bpv, num_states as int),
            rev@.len() == n - t,
            rev@[0] == last_state,
            last_state < num_states,
            forall|k: int| 0 <= k < rev@.len() ==> rev@[k] < num_states,
            forall|k: int| 1 <= k < rev@.len() ==> rev@[k] == bpv[n - k][#[trigger] rev@[k - 1] as int],
        decreases t,
    {
        let current: usize = rev[rev.len() - 1];
        proof {
            assert(bpv[t as int].len() == num_states);
            assert(backpointers@[t as int]@ =~= bpv[t as int]);
        }
        let previous: usize = backpointers[t][current];
        rev.push(previous);
        t = t - 1;
    }

    // Emit the path front to back.
    let mut path: Vec<usize> = Vec::new();
    let mut i: usize = 0;
    while i < n
        invariant
            n >= 1,
            rev@.len() == n,
            path@.len() == i,
            i <= n,
            forall|k: int| 0 <= k < i ==> path@[k] == rev@[n - 1 - k],
        decreases n - i,
    {
        let state: usize = rev[n - 1 - i];
        path.push(state);
        i = i + 1;
    }

    proof {
        assert(path@[n - 1] == rev@[0]);
        assert forall|tt: int| 1 <= tt < n implies path@[tt - 1]
            == bpv[tt][#[trigger] path@[tt] as int] by {
            assert(path@[tt - 1] == rev@[n - tt]);
            assert(rev@[n - tt] == bpv[n - (n - tt)][rev@[n - tt - 1] as int]);
            assert(rev@[n - tt - 1] == path@[tt]);
        }
    }
    path
}

} // verus!
