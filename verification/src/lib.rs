//! Verified core of a discrete hidden-Markov-model trading pipeline.
//!
//! The engine's probability tables live in floating point and are therefore
//! kept outside the verified library; what is verified here is the exact
//! integer-valued logic of the pipeline: validation of observation symbols,
//! the scheduling of Baum-Welch training passes, the quantile cut positions
//! used to discretise returns, the backtracking step of the Viterbi decoder,
//! and the mapping from decoded regimes to trading signals.

mod binning;
mod decoding;
mod signals;
mod training;
mod validation;

pub use binning::quantile_cut_indices;
pub use decoding::backpointers_wf;
pub use decoding::backtrack_path;
pub use decoding::first_argmax;
pub use decoding::is_backtracked_path;
pub use decoding::is_first_argmax;
pub use decoding::lemma_backtracked_path_unique;
pub use decoding::lemma_single_step_path;
pub use signals::generate_trading_signals;
pub use signals::signal_for_state;
pub use training::baum_welch_passes;
pub use training::scheduled_passes;
pub use training::symbol_positions;
pub use training::lemma_empty_sequence_trains_nothing;
pub use training::lemma_zero_iterations_train_nothing;
pub use validation::observations_in_range;
pub use validation::symbols_in_range;
pub use validation::row_lengths_match;
