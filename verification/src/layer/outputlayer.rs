//! Descriptor of the output layer.

use vstd::prelude::*;

use super::LayerInfoTrait;
use crate::neuron::activation_function::ActivationFunction;
use crate::neuron::cost_function::CostFunction;
use crate::neuron::initialisation::InitType;

verus! {

/// Descriptor of the output layer: its activation, the cost function it is
/// trained against, the scheme its initial weights are drawn from, and its
/// width. Its weight matrix is `length x input_width`, the input width
/// coming from the previous layer's flattened output when the network is
/// built.
#[derive(Copy, Clone, PartialEq, Eq, Structural, Debug)]
pub struct OutputLayerInfo {
    pub activation_function: ActivationFunction,
    pub cost_function: CostFunction,
    pub init_type: InitType,
    pub length: usize,
}

impl OutputLayerInfo {
    pub fn new(
        activation_function: ActivationFunction,
        cost_function: CostFunction,
        init_type: InitType,
        length: usize,
    ) -> (r: Self)
        ensures
            r.activation_function == activation_function,
            r.cost_function == cost_function,
            r.init_type == init_type,
            r.length == length,
    {
        OutputLayerInfo { activation_function, cost_function, init_type, length }
    }
}

impl LayerInfoTrait for OutputLayerInfo {
    open spec fn spec_output(&self) -> Seq<usize> {
        seq![self.length, 1usize, 1usize]
    }

    fn output(&self) -> (r: [usize; 3]) {
        let r = [self.length, 1, 1];
        proof {
            assert(r@ =~= seq![self.length, 1usize, 1usize]);
        }
        r
    }
}

} // verus!
