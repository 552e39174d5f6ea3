//! A small fully-connected feed-forward network with manual backpropagation,
//! stated over an abstract scalar type and verified against a mathematical
//! model of the forward pass, the backward pass and the training loop.

pub mod scalar;
pub mod fixed;
pub mod activation;
pub mod algebra;
pub mod model;
pub mod network;
pub mod random;
pub mod laws;
