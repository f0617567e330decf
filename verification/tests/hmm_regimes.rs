use hmm_regimes::backtrack_path;
use hmm_regimes::baum_welch_passes;
use hmm_regimes::first_argmax;
use hmm_regimes::generate_trading_signals;
use hmm_regimes::observations_in_range;
use hmm_regimes::quantile_cut_indices;
use hmm_regimes::row_lengths_match;
use hmm_regimes::symbol_positions;

#[test]
fn signals_map_states_to_actions() {
    let regimes: Vec<usize> = vec![0, 1, 2, 7];
    let signals = generate_trading_signals(&regimes);
    assert_eq!(signals, vec![1, -1, 0, 0]);
}

#[test]
fn signals_empty_path_gives_no_signal() {
    let regimes: Vec<usize> = Vec::new();
    let signals = generate_trading_signals(&regimes);
    assert!(signals.is_empty());
}

#[test]
fn observations_inside_range_are_accepted() {
    let observations: Vec<usize> = vec![0, 2, 1, 2, 0];
    assert!(observations_in_range(&observations, 3));
}

#[test]
fn observation_at_bound_is_rejected() {
    let observations: Vec<usize> = vec![0, 1, 3];
    assert!(!observations_in_range(&observations, 3));
}

#[test]
fn empty_observations_are_in_range() {
    let observations: Vec<usize> = Vec::new();
    assert!(observations_in_range(&observations, 0));
}

#[test]
fn matching_table_shape_is_accepted() {
    let row_lengths: Vec<usize> = vec![3, 3, 3];
    assert!(row_lengths_match(&row_lengths, 3, 3));
}

#[test]
fn wrong_row_count_is_an_invalid_shape() {
    let row_lengths: Vec<usize> = vec![3, 3];
    assert!(!row_lengths_match(&row_lengths, 3, 3));
}

#[test]
fn ragged_row_is_an_invalid_shape() {
    let row_lengths: Vec<usize> = vec![3, 2, 3];
    assert!(!row_lengths_match(&row_lengths, 3, 3));
}

#[test]
fn zero_iterations_schedule_no_pass() {
    assert_eq!(baum_welch_passes(5, 0), 0);
}

#[test]
fn empty_sequence_schedules_no_pass() {
    assert_eq!(baum_welch_passes(0, 900), 0);
}

#[test]
fn nonempty_sequence_schedules_every_requested_pass() {
    assert_eq!(baum_welch_passes(5, 900), 900);
}

#[test]
fn tercile_cuts_of_ten_returns() {
    assert_eq!(quantile_cut_indices(10, 3), vec![3, 6]);
}

#[test]
fn one_bin_needs_no_cut() {
    assert_eq!(quantile_cut_indices(10, 1), Vec::<usize>::new());
}

#[test]
fn cuts_of_no_returns_sit_at_zero() {
    assert_eq!(quantile_cut_indices(0, 4), vec![0, 0, 0]);
}

#[test]
fn symbol_positions_pick_the_matching_steps() {
    let observations: Vec<usize> = vec![0, 0, 1, 2, 2];
    assert_eq!(symbol_positions(&observations, 0), vec![0, 1]);
    assert_eq!(symbol_positions(&observations, 1), vec![2]);
    assert_eq!(symbol_positions(&observations, 2), vec![3, 4]);
}

#[test]
fn absent_symbol_has_no_positions() {
    let observations: Vec<usize> = vec![0, 0, 1];
    assert!(symbol_positions(&observations, 2).is_empty());
}

#[test]
fn argmax_picks_the_single_maximum() {
    let keys: Vec<i64> = vec![-3, 7, 2, 7];
    assert_eq!(first_argmax(&keys), 1);
}

#[test]
fn argmax_breaks_ties_by_lowest_index() {
    let keys: Vec<i64> = vec![5, 5, 5];
    assert_eq!(first_argmax(&keys), 0);
}

#[test]
fn argmax_of_one_key_is_its_index() {
    let keys: Vec<i64> = vec![i64::MIN];
    assert_eq!(first_argmax(&keys), 0);
}

#[test]
fn backtracking_follows_the_recorded_predecessors() {
    let backpointers: Vec<Vec<usize>> = vec![vec![0, 0], vec![1, 0], vec![0, 1]];
    let path = backtrack_path(&backpointers, 2, 1);
    assert_eq!(path, vec![0, 1, 1]);
}

#[test]
fn backtracking_one_step_returns_the_final_state() {
    let backpointers: Vec<Vec<usize>> = vec![vec![0, 0, 0]];
    let path = backtrack_path(&backpointers, 3, 2);
    assert_eq!(path, vec![2]);
}
