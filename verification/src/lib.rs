//! A feed-forward neural-network training engine whose structural behaviour
//! is verified: matrix shapes, layer wiring, dropout masking, optimizer
//! state bookkeeping and the epoch scheduling are all covered by contracts.
//!
//! The engine is generic over an abstract scalar type ([`scalar::Scalar`]);
//! an embedding application supplies a concrete numeric carrier for it.

pub mod activation;
pub mod args;
pub mod cost;
pub mod encoder;
pub mod layer;
pub mod matrix;
pub mod metric;
pub mod optimizer;
pub mod perceptron;
pub mod rng;
pub mod scalar;
