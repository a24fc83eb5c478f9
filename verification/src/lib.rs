//! Integer-only evaluator for a shallow, quantized two-perspective network
//! ("NNUE" style), together with the incrementally maintained hidden-layer
//! state that a move-making caller keeps up to date feature by feature.
//!
//! The network maps 768 sparse binary input features to a hidden layer of
//! [`HIDDEN_SIZE`] signed 16-bit values per perspective, and the two hidden
//! vectors through a clipped-ReLU activation and an affine output layer to a
//! single integer score.

use vstd::prelude::*;

pub mod accumulator;
pub mod laws;
pub mod network;

pub use accumulator::Accumulator;
pub use network::Network;

verus! {

/// Number of sparse binary input features.
pub const FEATURES: usize = 768;

/// Width of the hidden layer: length of every weight column, of the bias
/// vector, and of every accumulator.
pub const HIDDEN_SIZE: usize = 128;

/// Quantization factor of the hidden layer; also the upper clipping bound of
/// the activation.
pub const QA: i16 = 255;

/// Quantization factor of the output layer.
pub const QB: i16 = 64;

/// Factor mapping the network's internal fixed-point units to score units.
pub const SCALE: i32 = 400;

/// Exact byte length of a weight blob: feature weights, feature bias, output
/// weights and output bias, each a little-endian signed 16-bit value.
pub const NETWORK_BYTES: usize = 2 * (FEATURES * HIDDEN_SIZE + HIDDEN_SIZE + 2 * HIDDEN_SIZE + 1);

} // verus!
