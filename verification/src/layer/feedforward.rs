//! Descriptor of a feedforward (hidden) layer.

use vstd::prelude::*;

use super::LayerInfoTrait;
use crate::neuron::activation_function::ActivationFunction;
use crate::neuron::initialisation::InitType;

verus! {

/// Descriptor of a hidden feedforward layer: its activation, the scheme its
/// initial weights are drawn from, and its width. Its weight matrix is
/// `length x input_width`, the input width coming from the previous layer's
/// flattened output when the network is built.
#[derive(Copy, Clone, PartialEq, Eq, Structural, Debug)]
pub struct FeedForwardInfo {
    pub activation_function: ActivationFunction,
    pub init_type: InitType,
    pub length: usize,
}

impl FeedForwardInfo {
    pub fn new(activation_function: ActivationFunction, init_type: InitType, length: usize) -> (r:
        Self)
        ensures
            r.activation_function == activation_function,
            r.init_type == init_type,
            r.length == length,
    {
        FeedForwardInfo { activation_function, init_type, length }
    }
}

impl LayerInfoTrait for FeedForwardInfo {
    open spec fn spec_output(&self) -> Seq<usize> {
        seq![self.length, 1usize, 1usize]
    }

    fn output(&self) -> (r: [usize; 3]) {
        let r = [self.length, 1, 1];
        proof {
            assert(r@ =~= seq![self.length, 1usize, 1usize]);
        }
        r
    }
}

} // verus!
