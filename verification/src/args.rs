//! The run parameters a caller hands the engine: dataset and topology
//! locations, an output destination, and the scalar training knobs.
//!
//! Parsing a command line into these values is the embedding application's
//! concern; the engine only consumes them.

use vstd::prelude::*;

verus! {

/// One training run's parameters.
pub struct Args {
    /// Path of the file with training and validation sets.
    pub data: String,
    /// Path of the file with the network structure and hyperparameters.
    pub network: String,
    /// Path of the file where training results are stored, if any.
    pub output: Option<String>,
    /// Number of samples of the same network setup to train.
    pub threads: usize,
    /// Whether to shuffle training data during each cycle.
    pub shuffle: bool,
    /// Maximum number of epochs until the training loop finishes.
    pub epochs: usize,
    /// Maximum number of input vectors trained during each cycle, if set.
    pub batch_size: Option<usize>,
}

} // verus!
