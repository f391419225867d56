//! Network-level logic: validating an ordered list of layer descriptors and
//! sizing each trainable layer's weight matrix from it, the strict reverse
//! order of the backward pass, and the decision logic of the mini-batch
//! stochastic gradient descent loop (sample shuffling, batch partitioning,
//! accuracy counting).

use vstd::prelude::*;

use crate::layer::LayerInfo;
use crate::layer::LayerInfoTrait;
use crate::utility::leftmost_max_index;
use crate::utility::max_index;

verus! {

/// The seedable random source training draws from, declared so that it can
/// be threaded through this crate's signatures. It is injected by the
/// caller, so that a seeded source makes training reproducible.
#[verifier::external_type_specification]
#[verifier::external_body]
pub struct ExStdRng(rand::rngs::StdRng);

/// Relies on rand's `Rng::gen_range`, called on the range `0..bound`: it
/// returns a uniformly drawn value of that range, and panics only when the
/// range is empty.
#[verifier::external_body]
fn gen_index_below(rng: &mut rand::rngs::StdRng, bound: usize) -> (r: usize)
    requires
        bound >= 1,
    ensures
        r < bound,
{
    rand::Rng::gen_range(rng, 0..bound)
}

/// A violation of the network construction invariants. Each one indicates a
/// programming error in network assembly and is fatal: there is nothing to
/// retry.
#[derive(Copy, Clone, PartialEq, Eq, Structural, Debug)]
pub enum TopologyError {
    /// The descriptor list is empty.
    EmptyNetwork,
    /// The first descriptor is not an input layer.
    FirstLayerNotInput,
    /// The last descriptor is not an output layer (also the case of a
    /// network of a single input layer, which is invalid).
    LastLayerNotOutput,
    /// An input layer descriptor stands in the middle of the list, at the
    /// carried index.
    InputLayerInMiddle(usize),
    /// An output layer descriptor stands in the middle of the list, at the
    /// carried index.
    OutputLayerInMiddle(usize),
}

/// A well-formed topology: at least an input and an output layer, the input
/// layer first, the output layer last, and only feedforward layers between
/// them.
pub open spec fn spec_valid_topology(s: Seq<LayerInfo>) -> bool {
    &&& s.len() >= 2
    &&& s[0] matches LayerInfo::InputLayer(_)
    &&& s[s.len() - 1] matches LayerInfo::OutputLayer(_)
    &&& forall|i: int|
        1 <= i < s.len() - 1 ==> (#[trigger] s[i]) matches LayerInfo::FeedForward(_)
}

/// The flattened output width of a layer descriptor, as an unbounded
/// integer.
pub open spec fn spec_flattened_output(info: LayerInfo) -> int {
    info.spec_output()[0] * info.spec_output()[1] * info.spec_output()[2]
}

/// The width of a trainable layer descriptor (the input-layer arm is never
/// reached by a well-formed topology and carries its first dimension).
pub open spec fn spec_layer_length(info: LayerInfo) -> usize {
    match info {
        LayerInfo::FeedForward(f) => f.length,
        LayerInfo::OutputLayer(o) => o.length,
        LayerInfo::InputLayer(i) => i.sizes@[0],
    }
}

/// The weight matrix dimensions `[rows, columns]` of the trainable layer at
/// position `i` of a well-formed descriptor list: its own width by the
/// flattened output width of the layer before it.
pub open spec fn spec_weight_dimensions(s: Seq<LayerInfo>, i: int) -> Seq<usize> {
    seq![spec_layer_length(s[i]), spec_flattened_output(s[i - 1]) as usize]
}

/// Checks an ordered list of layer descriptors against the construction
/// invariants and, when they hold, sizes each trainable layer's weight
/// matrix from the previous layer's output width: entry `k` of the returned
/// plan holds the dimensions of the layer at position `k + 1`. Exactly the
/// violations listed by [`TopologyError`] are reported, the earlier listed
/// ones first, and of several offending middle layers the leftmost is
/// named.
pub fn plan_network(layer_infos: &Vec<LayerInfo>) -> (r: Result<
    Vec<[usize; 2]>,
    TopologyError,
>)
    requires
        layer_infos@.len() > 0 ==> (layer_infos@[0] matches LayerInfo::InputLayer(info) ==> {
            &&& info.sizes@[0] * info.sizes@[1] <= usize::MAX
            &&& info.sizes@[0] * info.sizes@[1] * info.sizes@[2] <= usize::MAX
        }),
    ensures
        r matches Ok(_) <==> spec_valid_topology(layer_infos@),
        r matches Ok(dims) ==> {
            &&& dims@.len() == layer_infos@.len() - 1
            &&& forall|k: int|
                0 <= k < dims@.len() ==> (#[trigger] dims@[k])@ == spec_weight_dimensions(
                    layer_infos@,
                    k + 1,
                )
        },
        r == Err::<Vec<[usize; 2]>, TopologyError>(TopologyError::EmptyNetwork) <==> layer_infos@.len() == 0,
        r == Err::<Vec<[usize; 2]>, TopologyError>(TopologyError::FirstLayerNotInput) <==> layer_infos@.len() > 0 && !(
        layer_infos@[0] matches LayerInfo::InputLayer(_)),
        r == Err::<Vec<[usize; 2]>, TopologyError>(TopologyError::LastLayerNotOutput) <==> (layer_infos@.len() > 0
            && (layer_infos@[0] matches LayerInfo::InputLayer(_)) && !(
        layer_infos@[layer_infos@.len() - 1] matches LayerInfo::OutputLayer(_))),
        r matches Err(TopologyError::InputLayerInMiddle(i)) ==> spec_middle_layer_offends(
            layer_infos@,
            i as int,
        ) && layer_infos@[i as int] matches LayerInfo::InputLayer(_),
        r matches Err(TopologyError::OutputLayerInMiddle(i)) ==> spec_middle_layer_offends(
            layer_infos@,
            i as int,
        ) && layer_infos@[i as int] matches LayerInfo::OutputLayer(_),
        forall|i: int|
            #[trigger] spec_middle_layer_offends(layer_infos@, i) ==> if layer_infos@[i] matches
                LayerInfo::InputLayer(_) {
                r == Err::<Vec<[usize; 2]>, TopologyError>(TopologyError::InputLayerInMiddle(i as usize))
            } else {
                r == Err::<Vec<[usize; 2]>, TopologyError>(TopologyError::OutputLayerInMiddle(i as usize))
            },
{
    let n = layer_infos.len();
    if n == 0 {
        return Err(TopologyError::EmptyNetwork);
    }
    let first_width: usize = match &layer_infos[0] {
        LayerInfo::InputLayer(info) => info.flattened_output(),
        _ => {
            return Err(TopologyError::FirstLayerNotInput);
        },
    };
    let last_width: usize = match &layer_infos[n - 1] {
        LayerInfo::OutputLayer(info) => info.length,
        _ => {
            return Err(TopologyError::LastLayerNotOutput);
        },
    };
    let mut dims: Vec<[usize; 2]> = Vec::new();
    let mut prev_width: usize = first_width;
    let mut i: usize = 1;
    while i < n - 1
        invariant
            1 <= i <= n - 1,
            n == layer_infos@.len(),
            n >= 2,
            layer_infos@[0] matches LayerInfo::InputLayer(_),
            layer_infos@[n - 1] matches LayerInfo::OutputLayer(_),
            forall|j: int| 1 <= j < i ==> (#[trigger] layer_infos@[j]) matches LayerInfo::FeedForward(_),
            prev_width as int == spec_flattened_output(layer_infos@[i - 1]),
            dims@.len() == i - 1,
            forall|k: int|
                0 <= k < i - 1 ==> (#[trigger] dims@[k])@ == spec_weight_dimensions(
                    layer_infos@,
                    k + 1,
                ),
        decreases n - i,
    {
        match &layer_infos[i] {
            LayerInfo::FeedForward(info) => {
                let d = [info.length, prev_width];
                proof {
                    assert(d@ =~= spec_weight_dimensions(layer_infos@, i as int));
                }
                dims.push(d);
                prev_width = info.length;
                proof {
                    assert(layer_infos@[i as int] == LayerInfo::FeedForward(*info));
                    assert(layer_infos@[i as int].spec_output() =~= seq![
                        info.length,
                        1usize,
                        1usize,
                    ]);
                    assert(layer_infos@[i as int].spec_output()[0] == info.length);
                    assert(layer_infos@[i as int].spec_output()[1] == 1usize);
                    assert(layer_infos@[i as int].spec_output()[2] == 1usize);
                    assert(spec_flattened_output(layer_infos@[i as int]) == info.length as int);
                }
            },
            LayerInfo::InputLayer(_) => {
                return Err(TopologyError::InputLayerInMiddle(i));
            },
            LayerInfo::OutputLayer(_) => {
                return Err(TopologyError::OutputLayerInMiddle(i));
            },
        }
        i = i + 1;
    }
    let d = [last_width, prev_width];
    proof {
        assert(d@ =~= spec_weight_dimensions(layer_infos@, n - 1));
    }
    dims.push(d);
    Ok(dims)
}

/// A middle layer at index `i` offends: the list is otherwise well-formed up
/// to `i` (input layer first, output layer last, feedforward layers before
/// `i`), and the layer at `i` is not a feedforward layer.
pub open spec fn spec_middle_layer_offends(s: Seq<LayerInfo>, i: int) -> bool {
    &&& s.len() >= 2
    &&& s[0] matches LayerInfo::InputLayer(_)
    &&& s[s.len() - 1] matches LayerInfo::OutputLayer(_)
    &&& 1 <= i < s.len() - 1
    &&& !((#[trigger] s[i]) matches LayerInfo::FeedForward(_))
    &&& forall|j: int| 1 <= j < i ==> (#[trigger] s[j]) matches LayerInfo::FeedForward(_)
}

/// The order in which the layers before the output layer are visited by the
/// backward pass of a network of `layer_count` layers. Entry `k` names the
/// layer to visit, `layer_count - 2 - k`, and the position whose cached
/// output is the activation handed to it, the layer just before it (the
/// input layer, which ignores it, is paired with position 0). The order is
/// strictly reversed: a layer is visited only after every layer downstream
/// of it, since its error is computed from the error and weights the layer
/// after it just produced — a direct data dependency.
pub fn backward_schedule(layer_count: usize) -> (r: Vec<(usize, usize)>)
    requires
        layer_count >= 2,
    ensures
        r@.len() == layer_count - 1,
        forall|k: int| 0 <= k < r@.len() ==> (#[trigger] r@[k]).0 == layer_count - 2 - k,
        forall|k: int|
            0 <= k < r@.len() ==> (#[trigger] r@[k]).1 == if k < layer_count - 2 {
                layer_count - 3 - k
            } else {
                0int
            },
{
    let mut r: Vec<(usize, usize)> = Vec::new();
    let mut k: usize = 0;
    while k < layer_count - 1
        invariant
            layer_count >= 2,
            k <= layer_count - 1,
            r@.len() == k,
            forall|j: int| 0 <= j < k ==> (#[trigger] r@[j]).0 == layer_count - 2 - j,
            forall|j: int|
                0 <= j < k ==> (#[trigger] r@[j]).1 == if j < layer_count - 2 {
                    layer_count - 3 - j
                } else {
                    0int
                },
        decreases layer_count - 1 - k,
    {
        let layer_index = layer_count - 2 - k;
        let outputs_index = if layer_index == 0 {
            0
        } else {
            layer_index - 1
        };
        r.push((layer_index, outputs_index));
        k = k + 1;
    }
    r
}

/// The bounds of the contiguous mini-batches that partition `sample_count`
/// samples: entry `k` is the half-open range of sample positions of batch
/// `k`. Every batch holds `batch_size` samples except possibly the last,
/// which holds the shorter remainder and is still processed.
pub fn mini_batch_ranges(sample_count: usize, batch_size: usize) -> (r: Vec<(usize, usize)>)
    requires
        batch_size >= 1,
    ensures
        r@.len() == (sample_count + batch_size - 1) / batch_size as int,
        forall|k: int| 0 <= k < r@.len() ==> (#[trigger] r@[k]).0 == k * batch_size,
        forall|k: int|
            0 <= k < r@.len() ==> (#[trigger] r@[k]).1 == if k * batch_size + batch_size
                <= sample_count {
                k * batch_size + batch_size
            } else {
                sample_count as int
            },
{
    let mut r: Vec<(usize, usize)> = Vec::new();
    let mut start: usize = 0;
    proof {
        assert(r@.len() * batch_size == 0) by (nonlinear_arith)
            requires
                r@.len() == 0,
        ;
    }
    while start < sample_count
        invariant_except_break
            start == r@.len() * batch_size,
            start <= sample_count,
        invariant
            batch_size >= 1,
            sample_count > 0 && start >= sample_count ==> r@.len() > 0,
            r@.len() > 0 ==> (r@.len() - 1) * batch_size < sample_count,
            start >= sample_count ==> r@.len() * batch_size >= sample_count,
            forall|k: int| 0 <= k < r@.len() ==> (#[trigger] r@[k]).0 == k * batch_size,
            forall|k: int|
                0 <= k < r@.len() ==> (#[trigger] r@[k]).1 == if k * batch_size + batch_size
                    <= sample_count {
                    k * batch_size + batch_size
                } else {
                    sample_count as int
                },
        ensures
            start >= sample_count,
        decreases sample_count - start,
    {
        let remaining = sample_count - start;
        proof {
            assert((r@.len() + 1) * batch_size == r@.len() * batch_size + batch_size) by (
            nonlinear_arith);
        }
        if remaining > batch_size {
            r.push((start, start + batch_size));
            start = start + batch_size;
        } else {
            r.push((start, sample_count));
            start = sample_count;
            break ;
        }
    }
    proof {
        let n = sample_count as int;
        let b = batch_size as int;
        let c = r@.len() as int;
        if n == 0 {
            assert((n + b - 1) / b == 0) by (nonlinear_arith)
                requires
                    b >= 1,
                    n == 0,
            ;
        } else {
            assert(c * b >= n);
            assert((c - 1) * b < n);
            assert(c == (n + b - 1) / b) by (nonlinear_arith)
                requires
                    b >= 1,
                    n >= 1,
                    c * b >= n,
                    (c - 1) * b < n,
            ;
        }
    }
    r
}

/// In a well-formed topology the weight matrices chain: the number of
/// columns of the trainable layer at position `k + 1` (its input width)
/// equals the number of rows of the one at position `k` (its output width),
/// so an activation vector can be threaded through the whole network.
pub proof fn lemma_weight_dimensions_chain(s: Seq<LayerInfo>, k: int)
    requires
        spec_valid_topology(s),
        1 <= k < s.len() - 1,
    ensures
        spec_weight_dimensions(s, k + 1)[1] == spec_weight_dimensions(s, k)[0],
{
    assert(s[k] matches LayerInfo::FeedForward(_));
    if let LayerInfo::FeedForward(f) = s[k] {
        assert(s[k].spec_output() =~= seq![f.length, 1usize, 1usize]);
        assert(s[k].spec_output()[0] == f.length);
        assert(s[k].spec_output()[1] == 1usize);
        assert(s[k].spec_output()[2] == 1usize);
        assert(spec_flattened_output(s[k]) == f.length as int);
    }
}

/// An unbiased random permutation of `samples`, drawn from `rng`: while
/// elements remain, one uniformly chosen remaining element is moved to the
/// result, so every ordering is equally likely. The result holds exactly
/// the elements of `samples`; the order is decided by `rng` alone, which
/// the caller seeds for reproducible training.
pub fn shuffle<T>(rng: &mut rand::rngs::StdRng, samples: Vec<T>) -> (r: Vec<T>)
    ensures
        r@.len() == samples@.len(),
        r@.to_multiset() == samples@.to_multiset(),
{
    let ghost all = samples@;
    let mut pool = samples;
    let mut r: Vec<T> = Vec::new();
    proof {
        broadcast use vstd::multiset::group_multiset_axioms;

        r@.to_multiset_ensures();
        assert(r@.to_multiset().len() == 0);
        assert(r@.to_multiset().add(pool@.to_multiset()) =~= all.to_multiset());
    }
    while pool.len() > 0
        invariant
            r@.len() + pool@.len() == all.len(),
            r@.to_multiset().add(pool@.to_multiset()) == all.to_multiset(),
        decreases pool@.len(),
    {
        let ghost pool0 = pool@;
        let ghost r0 = r@;
        let j = gen_index_below(rng, pool.len());
        let x = pool.remove(j);
        r.push(x);
        proof {
            broadcast use vstd::multiset::group_multiset_axioms;

            pool0.to_multiset_ensures();
            r0.to_multiset_ensures();
            assert(pool@.to_multiset() =~= pool0.to_multiset().remove(x));
            assert(r@.to_multiset() =~= r0.to_multiset().insert(x));
            assert(pool0.contains(x));
            assert(pool0.to_multiset().count(x) > 0);
            assert(r@.to_multiset().add(pool@.to_multiset()) =~= all.to_multiset());
        }
    }
    proof {
        broadcast use vstd::multiset::group_multiset_axioms;

        pool@.to_multiset_ensures();
        assert(pool@.to_multiset().len() == 0);
        assert(r@.to_multiset().add(pool@.to_multiset()) =~= r@.to_multiset());
    }
    r
}

/// The number of samples counted correct by an evaluation pass: those whose
/// output vector has its leftmost maximum at the same position as their
/// expected one-hot vector.
pub open spec fn spec_correct_count(pairs: Seq<(Seq<u32>, Seq<u32>)>) -> int
    decreases pairs.len(),
{
    if pairs.len() == 0 {
        0
    } else {
        spec_correct_count(pairs.drop_last()) + if leftmost_max_index(pairs.last().0)
            == leftmost_max_index(pairs.last().1) {
            1int
        } else {
            0int
        }
    }
}

/// Counts the samples whose output vector (first of each pair) has its
/// leftmost maximum at the same index as their expected vector (second of
/// each pair), both sides breaking ties towards the lower index. Vectors
/// hold order keys of the network's values, whose unsigned order follows
/// the numeric one.
pub fn count_correct(pairs: &Vec<(Vec<u32>, Vec<u32>)>) -> (r: usize)
    ensures
        r == spec_correct_count(pairs@.map_values(|p: (Vec<u32>, Vec<u32>)| (p.0@, p.1@))),
{
    let ghost mapped = pairs@.map_values(|p: (Vec<u32>, Vec<u32>)| (p.0@, p.1@));
    let mut correct: usize = 0;
    let mut i: usize = 0;
    while i < pairs.len()
        invariant
            i <= pairs@.len(),
            mapped == pairs@.map_values(|p: (Vec<u32>, Vec<u32>)| (p.0@, p.1@)),
            correct <= i,
            correct == spec_correct_count(mapped.take(i as int)),
        decreases pairs@.len() - i,
    {
        proof {
            assert(mapped.take(i + 1).drop_last() =~= mapped.take(i as int));
            assert(mapped.take(i + 1).last() == mapped[i as int]);
        }
        let output_index = max_index(&pairs[i].0);
        let expected_index = max_index(&pairs[i].1);
        if output_index == expected_index {
            correct = correct + 1;
        }
        i = i + 1;
    }
    proof {
        assert(mapped.take(mapped.len() as int) =~= mapped);
    }
    correct
}

} // verus!
