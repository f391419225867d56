//! The scheme a trainable layer's initial weights are drawn from.

use vstd::prelude::*;

verus! {

/// The distribution an initial weight is drawn from, scaled by the layer's
/// fan-in and fan-out:
/// - Xavier: uniform on (-s, s) with s = sqrt(1 / fan_in);
/// - NormalisedXavier: uniform on (-s, s) with s = sqrt(6 / (fan_in + fan_out));
/// - He: normal with mean 0 and standard deviation sqrt(2 / fan_in).
///
/// The draws themselves are floating-point work performed by the caller from
/// an injectable random source; this crate only carries the chosen scheme
/// through the layer descriptors.
#[derive(Copy, Clone, PartialEq, Eq, Structural, Debug)]
pub enum InitType {
    He,
    NormalisedXavier,
    Xavier,
}

} // verus!
