//! The cost function an output layer trains against, and the rules deciding
//! which cost/activation pairings have a fused output-gradient formula.

use vstd::prelude::*;

use crate::neuron::activation_function::ActivationFunction;

verus! {

/// The cost an output layer is trained against. A closed set, matched
/// exhaustively by every operation.
#[derive(Copy, Clone, PartialEq, Eq, Structural, Debug)]
pub enum CostFunction {
    CrossEntropy,
    Quadratic,
    LogLikelyhood,
}

impl CostFunction {
    /// Whether the fused dC/dz formula (`c_dz`) is implemented for this cost
    /// paired with the given activation:
    /// - Quadratic composes `(output - expected)` with the activation's
    ///   per-element derivative, so it needs an activation that supports one;
    /// - CrossEntropy is fused with Sigmoid (the derivative cancels
    ///   algebraically and the result is `output - expected`);
    /// - LogLikelyhood is fused with Softmax in the same way.
    pub open spec fn spec_c_dz_implemented(self, activation: ActivationFunction) -> bool {
        match self {
            CostFunction::Quadratic => activation.spec_supports_elementwise(),
            CostFunction::CrossEntropy => activation is Sigmoid,
            CostFunction::LogLikelyhood => activation is Softmax,
        }
    }

    /// Whether the fused output-gradient formula exists for this
    /// cost/activation pairing. Any other pairing is unimplemented, and a
    /// caller about to compute `c_dz` must treat `false` as a fatal
    /// condition, never a silent default.
    pub fn c_dz_implemented(&self, activation: &ActivationFunction) -> (r: bool)
        ensures
            r == self.spec_c_dz_implemented(*activation),
    {
        match self {
            CostFunction::Quadratic => activation.supports_elementwise(),
            CostFunction::CrossEntropy => matches!(activation, ActivationFunction::Sigmoid),
            CostFunction::LogLikelyhood => matches!(activation, ActivationFunction::Softmax),
        }
    }

    /// Whether the plain loss derivative dC/da is implemented for this cost
    /// on its own; only the Quadratic cost has one, the other two exist only
    /// fused with their activation. `false` is a fatal condition at the point
    /// of use.
    pub fn derivative_implemented(&self) -> (r: bool)
        ensures
            r == (*self is Quadratic),
    {
        matches!(self, CostFunction::Quadratic)
    }
}

} // verus!
