//! The activation function a layer applies to its pre-activation values.

use vstd::prelude::*;

verus! {

/// The activation applied by a trainable layer. A closed set: every
/// operation matches exhaustively, so a new kind is a deliberate,
/// compile-time-checked extension.
#[derive(Copy, Clone, PartialEq, Eq, Structural, Debug)]
pub enum ActivationFunction {
    Sigmoid,
    Softmax,
}

impl ActivationFunction {
    /// Whether the activation and its derivative are defined one element at a
    /// time. Softmax is only meaningful as a vector-wide normalised
    /// exponential and its derivative needs the full Jacobian, so evaluating
    /// it through the per-element interface must fail fatally rather than
    /// silently compute something wrong.
    pub open spec fn spec_supports_elementwise(self) -> bool {
        self is Sigmoid
    }

    /// Whether the per-element evaluation and derivative are implemented for
    /// this activation. A caller about to evaluate the activation of a single
    /// pre-activation value must treat `false` as a fatal condition.
    pub fn supports_elementwise(&self) -> (r: bool)
        ensures
            r == self.spec_supports_elementwise(),
    {
        match self {
            ActivationFunction::Sigmoid => true,
            ActivationFunction::Softmax => false,
        }
    }
}

} // verus!
