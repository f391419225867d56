//! A feedforward neural-network core: layer descriptors, network topology
//! planning, and the integer-valued decision logic of mini-batch stochastic
//! gradient descent (sample shuffling, batch partitioning, accuracy counting
//! and argmax evaluation).
//!
//! Floating-point arithmetic (the dense kernels, activation and cost
//! evaluation, weight initialisation draws) cannot be expressed here; callers
//! perform it and exchange plain values with this crate. Where a vector of
//! single-precision values is moved or compared without being computed on, it
//! is carried as its IEEE-754 bit patterns (`u32`).

pub mod layer;
pub mod network;
mod neuron;
mod utility;

pub use network::backward_schedule;
pub use network::count_correct;
pub use network::lemma_weight_dimensions_chain;
pub use network::mini_batch_ranges;
pub use network::plan_network;
pub use network::shuffle;
pub use network::spec_correct_count;
pub use network::spec_valid_topology;
pub use network::TopologyError;
pub use neuron::activation_function::ActivationFunction;
pub use neuron::cost_function::CostFunction;
pub use neuron::initialisation::InitType;
pub use utility::float_sort_key;
pub use utility::leftmost_max_index;
pub use utility::lemma_leftmost_max_index;
pub use utility::max_index;
pub use utility::spec_float_sort_key;
