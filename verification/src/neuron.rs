//! Per-neuron configuration: the activation applied to a layer's
//! pre-activation values, the cost function an output layer trains against,
//! and the scheme initial weights are drawn from.

pub mod activation_function;
pub mod cost_function;
pub mod initialisation;
