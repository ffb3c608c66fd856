//! A small feed-forward neural network with one hidden layer and one output
//! layer, trained by online gradient-descent backpropagation.
//!
//! The network is generic over its scalar type: the arithmetic and the
//! activation function come from an implementation of [`Scalar`], whose spec
//! counterparts name each result. Every function states its result exactly
//! over those counterparts and over the sequence views of the layers: the
//! forward pass, each weight and bias after a backpropagation step, and the
//! layers after any number of training passes.

mod laws;
mod network;
mod scalar;
mod training;

pub use laws::{
    lemma_step_moves_parameters, lemma_training_deterministic, lemma_zero_rate_keeps_layers,
};
pub use network::{
    network_accepts, network_fits, predict, spec_eval, spec_nudged, spec_outputs, spec_predict, Layer,
    Neuron,
};
pub use scalar::{dot_product, sigmoid_derivative, spec_dot, spec_sigmoid_derivative, Scalar};
pub use training::{
    backprop, spec_hidden_errors, spec_network_error, spec_output_error, spec_pass, spec_step_hidden,
    spec_step_output, spec_trained, train_network,
};
