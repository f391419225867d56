//! Layer descriptors and the uniform shape interface they share.
//!
//! A network is described by an ordered list of [`LayerInfo`] values, one per
//! layer, consumed once at construction to size each trainable layer's weight
//! matrix from the previous layer's output width.

pub mod feedforward;
pub mod inputlayer;
pub mod outputlayer;

use vstd::prelude::*;

use feedforward::FeedForwardInfo;
use inputlayer::InputLayerInfo;
use outputlayer::OutputLayerInfo;

verus! {

/// Descriptor of one layer. A closed set of layer kinds, handled
/// exhaustively per operation.
#[derive(Copy, Clone, PartialEq, Eq, Debug)]
pub enum LayerInfo {
    FeedForward(FeedForwardInfo),
    InputLayer(InputLayerInfo),
    OutputLayer(OutputLayerInfo),
}

/// The shape interface of a layer descriptor: a three-dimensional output
/// shape, and the flattened width that the next layer's weight matrix is
/// sized from.
pub trait LayerInfoTrait {
    /// The three-dimensional output shape, as a mathematical sequence.
    spec fn spec_output(&self) -> Seq<usize>;

    /// The three-dimensional output shape.
    fn output(&self) -> (r: [usize; 3])
        ensures
            r@ == self.spec_output(),
    ;

    /// The output shape flattened to a single width: the product of its
    /// three dimensions.
    fn flattened_output(&self) -> (r: usize)
        requires
            self.spec_output().len() == 3,
            self.spec_output()[0] * self.spec_output()[1] <= usize::MAX,
            self.spec_output()[0] * self.spec_output()[1] * self.spec_output()[2] <= usize::MAX,
        ensures
            r == self.spec_output()[0] * self.spec_output()[1] * self.spec_output()[2],
    {
        let output = self.output();
        output[0] * output[1] * output[2]
    }
}

impl LayerInfoTrait for LayerInfo {
    open spec fn spec_output(&self) -> Seq<usize> {
        match self {
            LayerInfo::FeedForward(info) => info.spec_output(),
            LayerInfo::InputLayer(info) => info.spec_output(),
            LayerInfo::OutputLayer(info) => info.spec_output(),
        }
    }

    fn output(&self) -> (r: [usize; 3]) {
        match self {
            LayerInfo::FeedForward(info) => info.output(),
            LayerInfo::InputLayer(info) => info.output(),
            LayerInfo::OutputLayer(info) => info.output(),
        }
    }
}

} // verus!
