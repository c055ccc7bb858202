//! A small reverse-mode automatic-differentiation engine.
//!
//! Tensors live in an arena [`graph::Graph`]; building an operation records
//! the operands and the matching backward rule as provenance on the result,
//! and calling backward on a scalar output walks that provenance and
//! accumulates gradients into the leaf tensors.
//!
//! Every element of a tensor is the bit pattern of an IEEE-754 binary64
//! number (see [`scalar`]); the element arithmetic is done in software by
//! the `rustc_apfloat` crate, so that the whole engine is ordinary integer
//! code with exact contracts.

pub mod activation;
pub mod arithmetic;
pub mod backward;
pub mod buffer;
pub mod device;
pub mod dtype;
pub mod error;
pub mod graph;
pub mod laws;
pub mod layout;
pub mod nn;
pub mod node;
pub mod optim;
pub mod scalar;
pub mod storage;
pub mod tensor;
