//! The input layer: a parameterless layer whose forward pass is the
//! identity on a length-checked vector.

use vstd::prelude::*;

use super::LayerInfoTrait;

verus! {

/// Descriptor of an input layer: its three-dimensional input shape.
#[derive(Copy, Clone, PartialEq, Eq, Debug)]
pub struct InputLayerInfo {
    pub sizes: [usize; 3],
}

impl InputLayerInfo {
    pub fn new(sizes: [usize; 3]) -> (r: Self)
        ensures
            r.sizes == sizes,
    {
        InputLayerInfo { sizes }
    }
}

impl LayerInfoTrait for InputLayerInfo {
    open spec fn spec_output(&self) -> Seq<usize> {
        self.sizes@
    }

    fn output(&self) -> (r: [usize; 3]) {
        self.sizes
    }
}

/// The input layer at run time. It owns no parameters; it only caches the
/// vector last passed forward, so that the first trainable layer's backward
/// pass can read it. Values are carried as IEEE-754 single-precision bit
/// patterns, which the identity pass moves without interpreting.
pub struct InputLayer {
    pub info: InputLayerInfo,
    pub output: Vec<u32>,
}

impl InputLayer {
    pub fn new(info: InputLayerInfo) -> (r: Self)
        ensures
            r.info == info,
            r.output@.len() == 0,
    {
        InputLayer { info, output: Vec::new() }
    }

    /// The identity forward pass: the input, whose length must match the
    /// layer's flattened width, is cached unchanged as this layer's output.
    /// A caller holding a vector of any other length must treat it as a
    /// fatal condition rather than call this.
    pub fn forward(&mut self, input: Vec<u32>)
        requires
            old(self).info.sizes@[0] * old(self).info.sizes@[1] * old(self).info.sizes@[2]
                == input@.len(),
        ensures
            final(self).info == old(self).info,
            final(self).output@ == input@,
    {
        self.output = input;
    }

    /// The input layer's backward pass is a pass-through: the downstream
    /// error and weights are returned unchanged for the caller upstream
    /// (there is none, so this ends the backward walk).
    pub fn backward(&self, error_input: &Vec<u32>, weights: (Vec<u32>, [usize; 3])) -> (r: (
        Vec<u32>,
        Vec<u32>,
        [usize; 3],
    ))
        ensures
            r.0@ == error_input@,
            r.1@ == weights.0@,
            r.2 == weights.1,
    {
        let mut errors: Vec<u32> = Vec::new();
        let mut i: usize = 0;
        while i < error_input.len()
            invariant
                i <= error_input@.len(),
                errors@ == error_input@.take(i as int),
            decreases error_input@.len() - i,
        {
            errors.push(error_input[i]);
            i = i + 1;
        }
        assert(error_input@.take(error_input@.len() as int) =~= error_input@);
        (errors, weights.0, weights.1)
    }

    /// The vector cached by the most recent forward pass.
    pub fn last_output(&self) -> (r: Vec<u32>)
        ensures
            r@ == self.output@,
    {
        let mut out: Vec<u32> = Vec::new();
        let mut i: usize = 0;
        while i < self.output.len()
            invariant
                i <= self.output@.len(),
                out@ == self.output@.take(i as int),
            decreases self.output@.len() - i,
        {
            out.push(self.output[i]);
            i = i + 1;
        }
        assert(self.output@.take(self.output@.len() as int) =~= self.output@);
        out
    }

    /// The input layer applies no activation, so its pre-activation values
    /// are its cached output.
    pub fn last_z_values(&self) -> (r: Vec<u32>)
        ensures
            r@ == self.output@,
    {
        self.last_output()
    }

    /// The input layer owns no parameters: the update step changes nothing.
    pub fn update(&mut self)
        ensures
            *final(self) == *old(self),
    {
    }

    /// The input layer accumulates no gradient: there is no change to update.
    pub fn update_change(&mut self)
        ensures
            *final(self) == *old(self),
    {
    }
}

} // verus!
